use vstd::prelude::*;
use crate::escrow::{held_by, InstantiateMsg as EscrowInstantiateMsg};
use crate::funds::{check_single_coin, single_coin_outcome, FundsError};
use crate::response::{
    action_only, attr_views, contract_address, find_contract_address, push_attr, Attribute,
    CosmosMsg, Reply, ReplyOn, Response, SubMsg, SubMsgResult,
};
use crate::text::{amount_text, decimal, decimal_text, rate_text};
use crate::types::{
    same_string, Coin, Cw20ReceiveMsg, Decimal, DECIMAL_FRACTIONAL, Env, Expiration, FeeInfo, MessageInfo, SwapCoin, SwapInfo,
};

verus! {

/// The correlation id of the reply to an escrow instantiation whose first leg
/// still has to be forwarded.
pub const INSTANTIATE_REPLY_ID: u64 = 1;

/// Sets up the controller: the code that escrow instances are created from,
/// and the fee they charge.
#[derive(Debug, PartialEq, Eq)]
pub struct InstantiateMsg {
    pub cosmoswap_code_id: u64,
    pub fee_percentage: Decimal,
    pub fee_payment_address: String,
}

/// The calls the controller takes.
#[derive(Debug)]
pub enum ExecuteMsg {
    UpdateConfig { cosmoswap_code_id: u64 },
    UpdateFeeConfig { fee_percentage: Decimal, fee_payment_address: String },
    /// Creates a swap whose first leg is native, attached to this call.
    CreateSwap { swap_info: SwapInfo, expiration: Expiration },
    /// A cw20 contract reports a deposit made with this payload.
    Receive(Cw20ReceiveMsg<ReceiveMsg>),
}

/// The payload of a cw20 deposit sent to the controller: create a swap whose
/// first leg is the deposit.
#[derive(Debug)]
pub enum ReceiveMsg {
    CreateSwap { swap_info: SwapInfo, expiration: Expiration },
}

#[derive(Debug, Clone, Copy, PartialEq, Eq, Structural)]
pub enum QueryMsg {
    Config {},
    FeeConfig {},
}

/// The controller's administrator and the code it creates escrows from.
#[derive(Debug, PartialEq, Eq)]
pub struct Config {
    pub admin: String,
    pub cosmoswap_code_id: u64,
}

impl Clone for Config {
    fn clone(&self) -> (r: Self)
        ensures
            r == *self,
    {
        Config { admin: self.admin.clone(), cosmoswap_code_id: self.cosmoswap_code_id }
    }
}

/// A cw20 deposit held by the controller until the escrow it belongs to exists.
#[derive(Debug, PartialEq, Eq)]
pub struct PendingDeposit {
    pub cw20_address: String,
    pub amount: u128,
}

/// Everything the controller stores.
#[derive(Debug, PartialEq, Eq)]
pub struct State {
    pub config: Config,
    pub fee_config: FeeInfo,
    pub pending: Option<PendingDeposit>,
}

/// What a query answers.
#[derive(Debug, PartialEq, Eq)]
pub enum QueryResponse {
    Config(Config),
    FeeConfig(FeeInfo),
}

/// The token symbols that the cw20 contracts of the two legs report; for a
/// native leg the entry is not read.
#[derive(Debug)]
pub struct TokenSymbols {
    pub coin1: String,
    pub coin2: String,
}

#[derive(Debug, PartialEq, Eq)]
pub enum ContractError {
    /// The caller may not make this call, or a reply was not asked for.
    Unauthorized {},
    /// The escrow instance could not be created.
    SwapInstantiateError {},
    /// Both legs are of one denomination.
    SameDenoms {},
    /// Both sides of the swap are one user.
    SameUsers {},
    /// A leg's custodian contract is missing, superfluous, or not the one that
    /// reported the deposit.
    InvalidCw20Addr {},
    /// The deadline has already passed.
    InvalidExpiration {},
    /// The fee rate is above one.
    InvalidFeePercentage {},
    /// The payment does not match the first leg.
    Funds(FundsError),
}

/// A call on `old` gave `r` and left `new`, as `outcome` says, logging `log`.
pub open spec fn follows(
    outcome: Result<(State, Seq<SubMsg>), ContractError>,
    old: State,
    new: State,
    r: Result<Response, ContractError>,
    log: Seq<(Seq<char>, Seq<char>)>,
) -> bool {
    match r {
        Ok(resp) => outcome == Ok::<(State, Seq<SubMsg>), ContractError>((new, resp.messages@))
            && resp.logs(log),
        Err(e) => outcome == Err::<(State, Seq<SubMsg>), ContractError>(e) && new == old,
    }
}

/// What creating the controller logs.
pub open spec fn instantiate_log(s: State) -> Seq<(Seq<char>, Seq<char>)> {
    seq![
        ("action"@, "instantiate"@),
        ("admin"@, s.config.admin@),
        ("cosmoswap_code_id"@, decimal(s.config.cosmoswap_code_id as nat)),
        ("fee_percentage"@, decimal_text(s.fee_config.percentage)),
        ("fee_payment_address"@, s.fee_config.payment_address@),
    ]
}

/// What changing the code logs.
pub open spec fn config_log(code_id: u64) -> Seq<(Seq<char>, Seq<char>)> {
    seq![("action"@, "update_config"@), ("cosmoswap_code_id"@, decimal(code_id as nat))]
}

/// What changing the fee logs.
pub open spec fn fee_log(percentage: Decimal, payment_address: String) -> Seq<(Seq<char>, Seq<char>)> {
    seq![
        ("action"@, "update_fee_config"@),
        ("fee_percentage"@, decimal_text(percentage)),
        ("fee_payment_address"@, payment_address@),
    ]
}

/// What creating the controller gives, for a fee rate of at most one.
pub open spec fn instantiated(info: MessageInfo, msg: InstantiateMsg) -> State {
    State {
        config: Config { admin: info.sender, cosmoswap_code_id: msg.cosmoswap_code_id },
        fee_config: FeeInfo { percentage: msg.fee_percentage, payment_address: msg.fee_payment_address },
        pending: None,
    }
}

pub open spec fn update_config_outcome(s: State, info: MessageInfo, code_id: u64) -> Result<(State, Seq<SubMsg>), ContractError> {
    if info.sender@ != s.config.admin@ {
        Err(ContractError::Unauthorized {  })
    } else {
        Ok((State { config: Config { cosmoswap_code_id: code_id, ..s.config }, ..s }, seq![]))
    }
}

pub open spec fn update_fee_config_outcome(s: State, info: MessageInfo, percentage: Decimal, payment_address: String) -> Result<(State, Seq<SubMsg>), ContractError> {
    if info.sender@ != s.config.admin@ {
        Err(ContractError::Unauthorized {  })
    } else if !percentage.at_most_one() {
        Err(ContractError::InvalidFeePercentage {  })
    } else {
        Ok((State { fee_config: FeeInfo { percentage, payment_address }, ..s }, seq![]))
    }
}

/// The checks that every swap creation makes, in order, for a call on behalf
/// of `caller`.
pub open spec fn terms_check(s: State, env: Env, caller: Seq<char>, terms: SwapInfo, expiration: Expiration) -> Option<ContractError> {
    if terms.coin1.coin.denom@ == terms.coin2.coin.denom@ {
        Some(ContractError::SameDenoms {  })
    } else if caller != terms.user1@ {
        Some(ContractError::Unauthorized {  })
    } else if terms.user1@ == terms.user2@ {
        Some(ContractError::SameUsers {  })
    } else if expiration.expired_at(env.block) {
        Some(ContractError::InvalidExpiration {  })
    } else if !terms.coin1.wf() || !terms.coin2.wf() {
        Some(ContractError::InvalidCw20Addr {  })
    } else {
        None
    }
}

/// A cw20 leg's contract reports the leg's denomination as its symbol.
pub open spec fn symbol_check(leg: SwapCoin, symbol: String) -> Option<ContractError> {
    if !leg.is_native && symbol@ != leg.coin.denom@ {
        Some(ContractError::Funds(FundsError::InvalidDenom { got: leg.coin.denom, expected: symbol }))
    } else {
        None
    }
}

/// The checks on a deposit of `amount` reported by the cw20 contract `token`,
/// whose symbol is `symbol`, for the leg `leg`.
pub open spec fn deposit_check(leg: SwapCoin, token: Seq<char>, symbol: String, amount: u128) -> Option<ContractError> {
    if leg.is_native || !held_by(leg, token) {
        Some(ContractError::InvalidCw20Addr {  })
    } else if symbol@ != leg.coin.denom@ {
        Some(ContractError::Funds(FundsError::InvalidDenom { got: leg.coin.denom, expected: symbol }))
    } else if amount != leg.coin.amount {
        Some(ContractError::Funds(FundsError::InvalidFunds { got: amount, expected: leg.coin.amount }))
    } else {
        None
    }
}

/// The action that creates the escrow instance, with the current fee.
pub open spec fn instantiate_escrow(s: State, terms: SwapInfo, expiration: Expiration, funds: Option<Coin>, id: u64, reply_on: ReplyOn) -> SubMsg {
    SubMsg {
        id,
        msg: CosmosMsg::Instantiate {
            code_id: s.config.cosmoswap_code_id,
            msg: EscrowInstantiateMsg { fee_info: s.fee_config, swap_info: terms, expiration },
            funds,
        },
        reply_on,
    }
}

/// What creating a swap with a native first leg gives.
pub open spec fn create_swap_outcome(s: State, env: Env, info: MessageInfo, terms: SwapInfo, expiration: Expiration, symbols: TokenSymbols) -> Result<(State, Seq<SubMsg>), ContractError> {
    if terms_check(s, env, info.sender@, terms, expiration) is Some {
        Err(terms_check(s, env, info.sender@, terms, expiration)->Some_0)
    } else if !terms.coin1.is_native {
        Err(ContractError::Funds(FundsError::FundsNotFound {  }))
    } else if single_coin_outcome(info.funds@, terms.coin1.coin) is Err {
        Err(ContractError::Funds(single_coin_outcome(info.funds@, terms.coin1.coin)->Err_0))
    } else if symbol_check(terms.coin2, symbols.coin2) is Some {
        Err(symbol_check(terms.coin2, symbols.coin2)->Some_0)
    } else {
        Ok((s, seq![instantiate_escrow(s, terms, expiration, Some(info.funds@[0]), 0, ReplyOn::Never)]))
    }
}

/// What a deposit reported by the cw20 contract `info.sender` gives: the swap
/// is created without funds, and the deposit is held until the reply names
/// the new instance.
pub open spec fn receive_outcome(s: State, env: Env, info: MessageInfo, msg: Cw20ReceiveMsg<ReceiveMsg>, symbols: TokenSymbols) -> Result<(State, Seq<SubMsg>), ContractError> {
    match msg.msg {
        ReceiveMsg::CreateSwap { swap_info: terms, expiration } => {
            if terms_check(s, env, msg.sender@, terms, expiration) is Some {
                Err(terms_check(s, env, msg.sender@, terms, expiration)->Some_0)
            } else if deposit_check(terms.coin1, info.sender@, symbols.coin1, msg.amount) is Some {
                Err(deposit_check(terms.coin1, info.sender@, symbols.coin1, msg.amount)->Some_0)
            } else if symbol_check(terms.coin2, symbols.coin2) is Some {
                Err(symbol_check(terms.coin2, symbols.coin2)->Some_0)
            } else {
                Ok((
                    State {
                        pending: Some(PendingDeposit { cw20_address: terms.coin1.cw20_address->Some_0, amount: msg.amount }),
                        ..s
                    },
                    seq![instantiate_escrow(s, terms, expiration, None, INSTANTIATE_REPLY_ID, ReplyOn::Always)],
                ))
            }
        },
    }
}

/// What the reply to an escrow instantiation gives: the held deposit is
/// forwarded to the new instance.
pub open spec fn reply_outcome(s: State, msg: Reply) -> Result<(State, Seq<SubMsg>), ContractError> {
    if msg.id != INSTANTIATE_REPLY_ID || s.pending is None {
        Err(ContractError::Unauthorized {  })
    } else {
        match msg.result {
            SubMsgResult::Failure(_) => Err(ContractError::SwapInstantiateError {  }),
            SubMsgResult::Success(resp) => match contract_address(resp.events@) {
                None => Err(ContractError::SwapInstantiateError {  }),
                Some(addr) => {
                    let p = s.pending->Some_0;
                    Ok((
                        State { pending: None, ..s },
                        seq![SubMsg::plain(CosmosMsg::Cw20Transfer { contract_addr: p.cw20_address, recipient: addr, amount: p.amount })],
                    ))
                },
            },
        }
    }
}

/// What any call gives.
pub open spec fn execute_outcome(s: State, env: Env, info: MessageInfo, msg: ExecuteMsg, symbols: TokenSymbols) -> Result<(State, Seq<SubMsg>), ContractError> {
    match msg {
        ExecuteMsg::UpdateConfig { cosmoswap_code_id } => update_config_outcome(s, info, cosmoswap_code_id),
        ExecuteMsg::UpdateFeeConfig { fee_percentage, fee_payment_address } =>
            update_fee_config_outcome(s, info, fee_percentage, fee_payment_address),
        ExecuteMsg::CreateSwap { swap_info, expiration } =>
            create_swap_outcome(s, env, info, swap_info, expiration, symbols),
        ExecuteMsg::Receive(m) => receive_outcome(s, env, info, m, symbols),
    }
}

/// What each call logs.
pub open spec fn log_of(msg: ExecuteMsg) -> Seq<(Seq<char>, Seq<char>)> {
    match msg {
        ExecuteMsg::UpdateConfig { cosmoswap_code_id } => config_log(cosmoswap_code_id),
        ExecuteMsg::UpdateFeeConfig { fee_percentage, fee_payment_address } =>
            fee_log(fee_percentage, fee_payment_address),
        ExecuteMsg::CreateSwap { .. } => action_only("create_swap"@),
        ExecuteMsg::Receive(_) => action_only("create_swap"@),
    }
}

/// Sets up the controller; the sender becomes its administrator. The fee
/// rate must be at most one.
pub fn instantiate(info: MessageInfo, msg: InstantiateMsg) -> (r: Result<(State, Response), ContractError>)
    ensures
        match r {
            Ok((s, resp)) => {
                &&& msg.fee_percentage.at_most_one()
                &&& s == instantiated(info, msg)
                &&& resp.messages@.len() == 0
                &&& resp.logs(instantiate_log(s))
            },
            Err(e) => !msg.fee_percentage.at_most_one() && e == ContractError::InvalidFeePercentage {  },
        },
{
    if msg.fee_percentage.atomics > DECIMAL_FRACTIONAL {
        return Err(ContractError::InvalidFeePercentage {  });
    }
    let state = State {
        config: Config { admin: info.sender, cosmoswap_code_id: msg.cosmoswap_code_id },
        fee_config: FeeInfo { percentage: msg.fee_percentage, payment_address: msg.fee_payment_address },
        pending: None,
    };
    let mut attributes: Vec<Attribute> = Vec::new();
    assert(attr_views(attributes@) =~= seq![]);
    push_attr(&mut attributes, "action", "instantiate".to_string());
    push_attr(&mut attributes, "admin", state.config.admin.clone());
    push_attr(&mut attributes, "cosmoswap_code_id", amount_text(state.config.cosmoswap_code_id as u128));
    push_attr(&mut attributes, "fee_percentage", rate_text(state.fee_config.percentage));
    push_attr(&mut attributes, "fee_payment_address", state.fee_config.payment_address.clone());
    assert(attr_views(attributes@) =~= instantiate_log(state));
    Ok((state, Response { messages: Vec::new(), attributes }))
}

/// Runs one call on the controller. `symbols` holds what the legs' cw20
/// contracts report as their symbols.
pub fn execute(state: &mut State, env: &Env, info: MessageInfo, msg: ExecuteMsg, symbols: &TokenSymbols) -> (r: Result<Response, ContractError>)
    ensures
        follows(execute_outcome(*old(state), *env, info, msg, *symbols), *old(state), *final(state), r, log_of(msg)),
{
    match msg {
        ExecuteMsg::UpdateConfig { cosmoswap_code_id } => execute_update_config(state, &info, cosmoswap_code_id),
        ExecuteMsg::UpdateFeeConfig { fee_percentage, fee_payment_address } =>
            execute_update_fee_config(state, &info, fee_percentage, fee_payment_address),
        ExecuteMsg::CreateSwap { swap_info, expiration } =>
            execute_create_swap(state, env, info, swap_info, expiration, symbols),
        ExecuteMsg::Receive(m) => execute_receive(state, env, info, m, symbols),
    }
}

/// The administrator changes the code that escrows are created from.
pub fn execute_update_config(state: &mut State, info: &MessageInfo, cosmoswap_code_id: u64) -> (r: Result<Response, ContractError>)
    ensures
        follows(
            update_config_outcome(*old(state), *info, cosmoswap_code_id),
            *old(state),
            *final(state),
            r,
            config_log(cosmoswap_code_id),
        ),
{
    if !same_string(&info.sender, &state.config.admin) {
        return Err(ContractError::Unauthorized {  });
    }
    state.config.cosmoswap_code_id = cosmoswap_code_id;
    let mut attributes: Vec<Attribute> = Vec::new();
    assert(attr_views(attributes@) =~= seq![]);
    push_attr(&mut attributes, "action", "update_config".to_string());
    push_attr(&mut attributes, "cosmoswap_code_id", amount_text(cosmoswap_code_id as u128));
    assert(attr_views(attributes@) =~= config_log(cosmoswap_code_id));
    Ok(Response { messages: Vec::new(), attributes })
}

/// The administrator changes the fee that later escrows charge, to a rate of
/// at most one; escrows that exist keep theirs.
pub fn execute_update_fee_config(state: &mut State, info: &MessageInfo, fee_percentage: Decimal, fee_payment_address: String) -> (r: Result<Response, ContractError>)
    ensures
        follows(
            update_fee_config_outcome(*old(state), *info, fee_percentage, fee_payment_address),
            *old(state),
            *final(state),
            r,
            fee_log(fee_percentage, fee_payment_address),
        ),
{
    if !same_string(&info.sender, &state.config.admin) {
        return Err(ContractError::Unauthorized {  });
    }
    if fee_percentage.atomics > DECIMAL_FRACTIONAL {
        return Err(ContractError::InvalidFeePercentage {  });
    }
    let mut attributes: Vec<Attribute> = Vec::new();
    assert(attr_views(attributes@) =~= seq![]);
    push_attr(&mut attributes, "action", "update_fee_config".to_string());
    push_attr(&mut attributes, "fee_percentage", rate_text(fee_percentage));
    push_attr(&mut attributes, "fee_payment_address", fee_payment_address.clone());
    assert(attr_views(attributes@) =~= fee_log(fee_percentage, fee_payment_address));
    state.fee_config = FeeInfo { percentage: fee_percentage, payment_address: fee_payment_address };
    Ok(Response { messages: Vec::new(), attributes })
}

/// Makes the checks that every swap creation makes, for a call on behalf of `caller`.
fn check_terms(state: &State, env: &Env, caller: &String, terms: &SwapInfo, expiration: &Expiration) -> (r: Option<ContractError>)
    ensures
        r == terms_check(*state, *env, caller@, *terms, *expiration),
{
    if same_string(&terms.coin1.coin.denom, &terms.coin2.coin.denom) {
        return Some(ContractError::SameDenoms {  });
    }
    if !same_string(caller, &terms.user1) {
        return Some(ContractError::Unauthorized {  });
    }
    if same_string(&terms.user1, &terms.user2) {
        return Some(ContractError::SameUsers {  });
    }
    if expiration.is_expired(&env.block) {
        return Some(ContractError::InvalidExpiration {  });
    }
    if !terms.coin1.is_well_formed() || !terms.coin2.is_well_formed() {
        return Some(ContractError::InvalidCw20Addr {  });
    }
    None
}

/// Checks that a cw20 leg's contract reports the leg's denomination as its symbol.
fn check_symbol(leg: &SwapCoin, symbol: &String) -> (r: Option<ContractError>)
    ensures
        r == symbol_check(*leg, *symbol),
{
    if !leg.is_native && !same_string(symbol, &leg.coin.denom) {
        return Some(
            ContractError::Funds(FundsError::InvalidDenom { got: leg.coin.denom.clone(), expected: symbol.clone() }),
        );
    }
    None
}

/// Checks a deposit of `amount` reported by the cw20 contract `token`, whose
/// symbol is `symbol`, against the leg it is to pay.
pub fn check_cw20_deposit(leg: &SwapCoin, token: &String, symbol: &String, amount: u128) -> (r: Option<ContractError>)
    ensures
        r == deposit_check(*leg, token@, *symbol, amount),
{
    let held = match &leg.cw20_address {
        Some(a) => same_string(a, token),
        None => false,
    };
    if leg.is_native || !held {
        return Some(ContractError::InvalidCw20Addr {  });
    }
    if !same_string(symbol, &leg.coin.denom) {
        return Some(
            ContractError::Funds(FundsError::InvalidDenom { got: leg.coin.denom.clone(), expected: symbol.clone() }),
        );
    }
    if amount != leg.coin.amount {
        return Some(ContractError::Funds(FundsError::InvalidFunds { got: amount, expected: leg.coin.amount }));
    }
    None
}

/// Creates a swap whose first leg is native: the attached coin goes to the
/// new escrow instance with its creation.
pub fn execute_create_swap(
    state: &mut State,
    env: &Env,
    info: MessageInfo,
    swap_info: SwapInfo,
    expiration: Expiration,
    symbols: &TokenSymbols,
) -> (r: Result<Response, ContractError>)
    ensures
        follows(
            create_swap_outcome(*old(state), *env, info, swap_info, expiration, *symbols),
            *old(state),
            *final(state),
            r,
            action_only("create_swap"@),
        ),
{
    if let Some(e) = check_terms(state, env, &info.sender, &swap_info, &expiration) {
        return Err(e);
    }
    if !swap_info.coin1.is_native {
        return Err(ContractError::Funds(FundsError::FundsNotFound {  }));
    }
    if let Err(e) = check_single_coin(&info.funds, &swap_info.coin1.coin) {
        return Err(ContractError::Funds(e));
    }
    if let Some(e) = check_symbol(&swap_info.coin2, &symbols.coin2) {
        return Err(e);
    }
    let mut funds = info.funds;
    let paid = funds.remove(0);
    let msg = CosmosMsg::Instantiate {
        code_id: state.config.cosmoswap_code_id,
        msg: EscrowInstantiateMsg { fee_info: state.fee_config.clone(), swap_info, expiration },
        funds: Some(paid),
    };
    let mut msgs: Vec<SubMsg> = Vec::new();
    msgs.push(SubMsg { id: 0, msg, reply_on: ReplyOn::Never });
    assert(msgs@ =~= seq![instantiate_escrow(*old(state), swap_info, expiration, Some(info.funds@[0]), 0, ReplyOn::Never)]);
    Ok(Response::with_action(msgs, "create_swap"))
}

/// Creates a swap whose first leg is the cw20 deposit reported by the
/// contract `info.sender`. The deposit stays with the controller until the
/// reply to the instantiation names the new instance.
pub fn execute_receive(
    state: &mut State,
    env: &Env,
    info: MessageInfo,
    msg: Cw20ReceiveMsg<ReceiveMsg>,
    symbols: &TokenSymbols,
) -> (r: Result<Response, ContractError>)
    ensures
        follows(receive_outcome(*old(state), *env, info, msg, *symbols), *old(state), *final(state), r, action_only("create_swap"@)),
{
    let Cw20ReceiveMsg { sender, amount, msg: payload } = msg;
    match payload {
        ReceiveMsg::CreateSwap { swap_info, expiration } => {
            if let Some(e) = check_terms(state, env, &sender, &swap_info, &expiration) {
                return Err(e);
            }
            if let Some(e) = check_cw20_deposit(&swap_info.coin1, &info.sender, &symbols.coin1, amount) {
                return Err(e);
            }
            if let Some(e) = check_symbol(&swap_info.coin2, &symbols.coin2) {
                return Err(e);
            }
            let token = match &swap_info.coin1.cw20_address {
                Some(a) => a.clone(),
                None => {
                    return Err(ContractError::InvalidCw20Addr {  });
                },
            };
            let ghost terms = swap_info;
            let msg = CosmosMsg::Instantiate {
                code_id: state.config.cosmoswap_code_id,
                msg: EscrowInstantiateMsg { fee_info: state.fee_config.clone(), swap_info, expiration },
                funds: None,
            };
            let mut msgs: Vec<SubMsg> = Vec::new();
            msgs.push(SubMsg { id: INSTANTIATE_REPLY_ID, msg, reply_on: ReplyOn::Always });
            assert(msgs@ =~= seq![instantiate_escrow(*old(state), terms, expiration, None, INSTANTIATE_REPLY_ID, ReplyOn::Always)]);
            state.pending = Some(PendingDeposit { cw20_address: token, amount });
            Ok(Response::with_action(msgs, "create_swap"))
        },
    }
}

/// Handles the host's report on an escrow instantiation: forwards the held
/// cw20 deposit to the new instance, or fails the whole creation.
pub fn reply(state: &mut State, msg: Reply) -> (r: Result<Response, ContractError>)
    ensures
        follows(reply_outcome(*old(state), msg), *old(state), *final(state), r, action_only("cosmoswap_instantiate_reply"@)),
{
    if msg.id != INSTANTIATE_REPLY_ID || state.pending.is_none() {
        return Err(ContractError::Unauthorized {  });
    }
    let events = match msg.result {
        SubMsgResult::Failure(_) => {
            return Err(ContractError::SwapInstantiateError {  });
        },
        SubMsgResult::Success(resp) => resp.events,
    };
    let contract = match find_contract_address(&events) {
        Some(addr) => addr,
        None => {
            return Err(ContractError::SwapInstantiateError {  });
        },
    };
    let pending = match state.pending.take() {
        Some(p) => p,
        None => {
            return Err(ContractError::Unauthorized {  });
        },
    };
    let transfer = CosmosMsg::Cw20Transfer {
        contract_addr: pending.cw20_address,
        recipient: contract,
        amount: pending.amount,
    };
    let mut msgs: Vec<SubMsg> = Vec::new();
    msgs.push(SubMsg::new(transfer));
    Ok(Response::with_action(msgs, "cosmoswap_instantiate_reply"))
}

/// Reads the configuration or the fee that new escrows get.
pub fn query(state: &State, msg: QueryMsg) -> (r: QueryResponse)
    ensures
        match msg {
            QueryMsg::Config {  } => r == QueryResponse::Config(state.config),
            QueryMsg::FeeConfig {  } => r == QueryResponse::FeeConfig(state.fee_config),
        },
{
    match msg {
        QueryMsg::Config {  } => QueryResponse::Config(state.config.clone()),
        QueryMsg::FeeConfig {  } => QueryResponse::FeeConfig(state.fee_config.clone()),
    }
}

/// A call that fails with `e`.
pub open spec fn refused(e: ContractError) -> Result<(State, Seq<SubMsg>), ContractError> {
    Err(e)
}

/// A swap whose legs share a denomination is never created, by either path
/// and whoever asks.
pub proof fn same_denoms_refused(
    s: State,
    env: Env,
    info: MessageInfo,
    terms: SwapInfo,
    expiration: Expiration,
    deposit: Cw20ReceiveMsg<ReceiveMsg>,
    symbols: TokenSymbols,
)
    requires
        terms.coin1.coin.denom@ == terms.coin2.coin.denom@,
        deposit.msg matches ReceiveMsg::CreateSwap { swap_info, .. } && swap_info == terms,
    ensures
        create_swap_outcome(s, env, info, terms, expiration, symbols) == refused(ContractError::SameDenoms {  }),
        receive_outcome(s, env, info, deposit, symbols) == refused(ContractError::SameDenoms {  }),
{
}

/// A cw20 deposit for the first leg is refused with `InvalidCw20Addr` when
/// the leg names no custodian contract, with `InvalidDenom` when the
/// custodian's symbol is not the leg's denomination, and with `InvalidFunds`
/// when the amount is not the leg's (each once the checks before it passed).
pub proof fn deposit_mismatch_refused(
    s: State,
    env: Env,
    info: MessageInfo,
    deposit: Cw20ReceiveMsg<ReceiveMsg>,
    symbols: TokenSymbols,
)
    requires
        deposit.msg matches ReceiveMsg::CreateSwap { swap_info, expiration }
            && terms_check(s, env, deposit.sender@, swap_info, expiration) is None,
    ensures
        ({
            let terms = deposit.msg->CreateSwap_swap_info;
            let leg = terms.coin1;
            let outcome = receive_outcome(s, env, info, deposit, symbols);
            &&& leg.cw20_address is None ==> outcome == refused(ContractError::InvalidCw20Addr {  })
            &&& held_by(leg, info.sender@) && !leg.is_native && symbols.coin1@ != leg.coin.denom@
                ==> outcome == refused(ContractError::Funds(FundsError::InvalidDenom { got: leg.coin.denom, expected: symbols.coin1 }))
            &&& held_by(leg, info.sender@) && !leg.is_native && symbols.coin1@ == leg.coin.denom@ && deposit.amount != leg.coin.amount
                ==> outcome == refused(ContractError::Funds(FundsError::InvalidFunds { got: deposit.amount, expected: leg.coin.amount }))
        }),
{
}

/// Creating a swap from a cw20 deposit takes two calls. The first asks for
/// the instance, sending it no funds, and for a reply. If the instantiation fails, the reply fails the
/// whole creation with `SwapInstantiateError`; if it succeeds, the reply
/// sends the new instance exactly the deposit that was checked against the
/// first leg, through the leg's cw20 contract, and nothing else (a reply that
/// names no instance fails the creation too).
pub proof fn two_phase_creation(
    s: State,
    env: Env,
    info: MessageInfo,
    deposit: Cw20ReceiveMsg<ReceiveMsg>,
    symbols: TokenSymbols,
    answer: Reply,
)
    requires
        receive_outcome(s, env, info, deposit, symbols) is Ok,
        answer.id == INSTANTIATE_REPLY_ID,
    ensures
        ({
            let (s1, msgs) = receive_outcome(s, env, info, deposit, symbols)->Ok_0;
            let leg = deposit.msg->CreateSwap_swap_info.coin1;
            &&& msgs.len() == 1
            &&& msgs[0].id == INSTANTIATE_REPLY_ID
            &&& msgs[0].reply_on == ReplyOn::Always
            &&& msgs[0].msg matches CosmosMsg::Instantiate { funds, .. } && funds is None
            &&& deposit.amount == leg.coin.amount
            &&& match answer.result {
                SubMsgResult::Failure(_) => reply_outcome(s1, answer) == refused(ContractError::SwapInstantiateError {  }),
                SubMsgResult::Success(resp) => match contract_address(resp.events@) {
                    None => reply_outcome(s1, answer) == refused(ContractError::SwapInstantiateError {  }),
                    Some(addr) => reply_outcome(s1, answer) == Ok::<(State, Seq<SubMsg>), ContractError>((
                        State { pending: None, ..s1 },
                        seq![SubMsg::plain(CosmosMsg::Cw20Transfer {
                            contract_addr: leg.cw20_address->Some_0,
                            recipient: addr,
                            amount: leg.coin.amount,
                        })],
                    )),
                },
            }
        }),
{
}

} // verus!
