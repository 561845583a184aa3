use vstd::prelude::*;
use crate::fee::{fee_of, lemma_fee_within_amount, split_fee};
use crate::funds::{check_single_coin, single_coin_outcome, FundsError};
use crate::response::{attr_views, push_attr, Attribute, CosmosMsg, Response, SubMsg};
use crate::text::{amount_text, decimal};
use crate::types::{
    same_string, Coin, Cw20ReceiveMsg, Env, Expiration, FeeInfo, MessageInfo, SwapCoin, SwapInfo,
};

verus! {

/// Creates an escrow instance for the swap `swap_info`, charging `fee_info`
/// at settlement, acceptable until `expiration`.
#[derive(Debug, PartialEq, Eq)]
pub struct InstantiateMsg {
    pub fee_info: FeeInfo,
    pub swap_info: SwapInfo,
    pub expiration: Expiration,
}

/// The calls an escrow instance takes.
#[derive(Debug)]
pub enum ExecuteMsg {
    /// The second user accepts, attaching the second leg's native coin.
    Accept {},
    /// The first user takes the first leg back.
    Cancel {},
    /// A cw20 contract reports a deposit made with one of these payloads.
    Receive(Cw20ReceiveMsg<ReceiveMsg>),
}

/// The payload of a cw20 deposit sent to an escrow instance.
#[derive(Debug, Clone, Copy, PartialEq, Eq, Structural)]
pub enum ReceiveMsg {
    Accept {},
    Cancel {},
}

#[derive(Debug, Clone, Copy, PartialEq, Eq, Structural)]
pub enum QueryMsg {
    Swap {},
}

/// Who created the instance, and the deadline for accepting.
#[derive(Debug, PartialEq, Eq)]
pub struct Config {
    pub admin: String,
    pub expiration: Expiration,
}

/// The recorded terms of the swap.
#[derive(Debug, PartialEq, Eq)]
pub struct Swap {
    pub user1: String,
    pub user2: String,
    pub coin1: SwapCoin,
    pub coin2: SwapCoin,
}

impl Clone for Swap {
    fn clone(&self) -> (r: Self)
        ensures
            r == *self,
    {
        Swap {
            user1: self.user1.clone(),
            user2: self.user2.clone(),
            coin1: self.coin1.clone(),
            coin2: self.coin2.clone(),
        }
    }
}

/// Everything an escrow instance stores. `lock` is set, once and for good,
/// by whichever of accept and cancel succeeds first.
#[derive(Debug, PartialEq, Eq)]
pub struct State {
    pub config: Config,
    pub fee_config: FeeInfo,
    pub swap: Swap,
    pub lock: bool,
}

#[derive(Debug, PartialEq, Eq)]
pub enum ContractError {
    /// The caller is not the user the call is reserved for.
    Unauthorized {},
    /// The swap is settled, cancelled, or past its deadline.
    SwapLocked {},
    /// Both legs are of one denomination.
    SameDenoms {},
    /// Both sides of the swap are one user.
    SameUsers {},
    /// A leg's custodian contract is missing, superfluous, or not the one that
    /// reported the deposit.
    InvalidCw20Addr {},
    /// A fee exceeds the amount it is taken from.
    Overflow {},
    /// The payment does not match the leg.
    Funds(FundsError),
}

impl State {
    /// Both legs are well formed and of different denominations.
    pub open spec fn wf(self) -> bool {
        &&& self.swap.coin1.wf()
        &&& self.swap.coin2.wf()
        &&& self.swap.coin1.coin.denom@ != self.swap.coin2.coin.denom@
    }

    /// The same state, settled.
    pub open spec fn locked(self) -> State {
        State { lock: true, ..self }
    }
}

/// The action that moves `amount` of the leg's asset to `to`: a bank send for
/// a native leg, a transfer by its cw20 contract otherwise; none for zero.
pub open spec fn transfer(leg: SwapCoin, to: String, amount: u128) -> Seq<SubMsg> {
    if amount == 0 {
        seq![]
    } else if leg.is_native {
        seq![SubMsg::plain(CosmosMsg::BankSend { to_address: to, amount: Coin { denom: leg.coin.denom, amount } })]
    } else {
        seq![SubMsg::plain(CosmosMsg::Cw20Transfer { contract_addr: leg.cw20_address->Some_0, recipient: to, amount })]
    }
}

/// The actions of a settlement: each leg's fee to the fee recipient and its
/// remainder to the other user; `None` when a fee exceeds its leg.
pub open spec fn settlement(swap: Swap, fee: FeeInfo) -> Option<Seq<SubMsg>> {
    let a1 = swap.coin1.coin.amount;
    let a2 = swap.coin2.coin.amount;
    let f1 = fee_of(a1, fee.percentage);
    let f2 = fee_of(a2, fee.percentage);
    if f1 > a1 || f2 > a2 {
        None
    } else {
        Some(
            transfer(swap.coin1, fee.payment_address, f1 as u128)
                + transfer(swap.coin1, swap.user2, (a1 - f1) as u128)
                + transfer(swap.coin2, fee.payment_address, f2 as u128)
                + transfer(swap.coin2, swap.user1, (a2 - f2) as u128),
        )
    }
}

/// The action of a cancellation: the whole first leg back to the first user.
pub open spec fn refund(swap: Swap) -> Seq<SubMsg> {
    transfer(swap.coin1, swap.user1, swap.coin1.coin.amount)
}

/// What creating an instance gives.
pub open spec fn instantiate_outcome(info: MessageInfo, msg: InstantiateMsg) -> Result<State, ContractError> {
    let terms = msg.swap_info;
    if terms.coin1.coin.denom@ == terms.coin2.coin.denom@ {
        Err(ContractError::SameDenoms {  })
    } else if terms.user1@ == terms.user2@ {
        Err(ContractError::SameUsers {  })
    } else if !terms.coin1.wf() || !terms.coin2.wf() {
        Err(ContractError::InvalidCw20Addr {  })
    } else if terms.coin1.is_native && single_coin_outcome(info.funds@, terms.coin1.coin) is Err {
        Err(ContractError::Funds(single_coin_outcome(info.funds@, terms.coin1.coin)->Err_0))
    } else {
        Ok(
            State {
                config: Config { admin: info.sender, expiration: msg.expiration },
                fee_config: msg.fee_info,
                swap: Swap { user1: terms.user1, user2: terms.user2, coin1: terms.coin1, coin2: terms.coin2 },
                lock: false,
            },
        )
    }
}

/// The attribute `key = address`, when there is an address.
pub open spec fn address_log(key: Seq<char>, address: Option<String>) -> Seq<(Seq<char>, Seq<char>)> {
    match address {
        Some(a) => seq![(key, a@)],
        None => seq![],
    }
}

/// What creating an instance logs: the users, both legs' amounts and
/// denominations, and the cw20 contract of each token leg.
pub open spec fn instantiate_log(swap: Swap) -> Seq<(Seq<char>, Seq<char>)> {
    seq![
        ("action"@, "instantiate"@),
        ("user1"@, swap.user1@),
        ("user2"@, swap.user2@),
        ("coin1_amount"@, decimal(swap.coin1.coin.amount as nat)),
        ("coin2_amount"@, decimal(swap.coin2.coin.amount as nat)),
        ("coin1_denom"@, swap.coin1.coin.denom@),
        ("coin2_denom"@, swap.coin2.coin.denom@),
    ] + address_log("coin1_cw20_address"@, swap.coin1.cw20_address) + address_log(
        "coin2_cw20_address"@,
        swap.coin2.cw20_address,
    )
}

/// Appends `key = address` when there is an address.
fn push_address(attrs: &mut Vec<Attribute>, key: &str, address: &Option<String>)
    ensures
        attr_views(final(attrs)@) == attr_views(old(attrs)@) + address_log(key@, *address),
{
    match address {
        Some(a) => push_attr(attrs, key, a.clone()),
        None => {},
    }
    assert(attr_views(final(attrs)@) =~= attr_views(old(attrs)@) + address_log(key@, *address));
}

/// Builds the log of a newly created instance.
fn instantiate_attributes(swap: &Swap) -> (r: Vec<Attribute>)
    ensures
        attr_views(r@) == instantiate_log(*swap),
{
    let mut attrs: Vec<Attribute> = Vec::new();
    assert(attr_views(attrs@) =~= seq![]);
    push_attr(&mut attrs, "action", "instantiate".to_string());
    push_attr(&mut attrs, "user1", swap.user1.clone());
    push_attr(&mut attrs, "user2", swap.user2.clone());
    push_attr(&mut attrs, "coin1_amount", amount_text(swap.coin1.coin.amount));
    push_attr(&mut attrs, "coin2_amount", amount_text(swap.coin2.coin.amount));
    push_attr(&mut attrs, "coin1_denom", swap.coin1.coin.denom.clone());
    push_attr(&mut attrs, "coin2_denom", swap.coin2.coin.denom.clone());
    push_address(&mut attrs, "coin1_cw20_address", &swap.coin1.cw20_address);
    push_address(&mut attrs, "coin2_cw20_address", &swap.coin2.cw20_address);
    assert(attr_views(attrs@) =~= instantiate_log(*swap));
    attrs
}

/// What settling gives, once every guard has passed.
pub open spec fn settle_outcome(s: State) -> Result<(State, Seq<SubMsg>), ContractError> {
    match settlement(s.swap, s.fee_config) {
        Some(msgs) => Ok((s.locked(), msgs)),
        None => Err(ContractError::Overflow {  }),
    }
}

/// What accepting with attached native coins gives.
pub open spec fn accept_outcome(s: State, env: Env, info: MessageInfo) -> Result<(State, Seq<SubMsg>), ContractError> {
    if s.lock {
        Err(ContractError::SwapLocked {  })
    } else if s.config.expiration.expired_at(env.block) {
        Err(ContractError::SwapLocked {  })
    } else if info.sender@ != s.swap.user2@ {
        Err(ContractError::Unauthorized {  })
    } else if !s.swap.coin2.is_native {
        Err(ContractError::Funds(FundsError::FundsNotFound {  }))
    } else if single_coin_outcome(info.funds@, s.swap.coin2.coin) is Err {
        Err(ContractError::Funds(single_coin_outcome(info.funds@, s.swap.coin2.coin)->Err_0))
    } else {
        settle_outcome(s)
    }
}

/// What cancelling on behalf of `caller` gives.
pub open spec fn cancel_outcome(s: State, caller: Seq<char>) -> Result<(State, Seq<SubMsg>), ContractError> {
    if s.lock {
        Err(ContractError::SwapLocked {  })
    } else if caller != s.swap.user1@ {
        Err(ContractError::Unauthorized {  })
    } else {
        Ok((s.locked(), refund(s.swap)))
    }
}

/// The leg's custodian is the contract `token`.
pub open spec fn held_by(leg: SwapCoin, token: Seq<char>) -> bool {
    leg.cw20_address matches Some(a) && a@ == token
}

/// What a deposit reported by the cw20 contract `info.sender` gives.
pub open spec fn receive_outcome(s: State, env: Env, info: MessageInfo, msg: Cw20ReceiveMsg<ReceiveMsg>) -> Result<(State, Seq<SubMsg>), ContractError> {
    match msg.msg {
        ReceiveMsg::Accept {  } => {
            if s.lock {
                Err(ContractError::SwapLocked {  })
            } else if s.config.expiration.expired_at(env.block) {
                Err(ContractError::SwapLocked {  })
            } else if msg.sender@ != s.swap.user2@ {
                Err(ContractError::Unauthorized {  })
            } else if !held_by(s.swap.coin2, info.sender@) {
                Err(ContractError::InvalidCw20Addr {  })
            } else if msg.amount != s.swap.coin2.coin.amount {
                Err(ContractError::Funds(FundsError::InvalidFunds { got: msg.amount, expected: s.swap.coin2.coin.amount }))
            } else {
                settle_outcome(s)
            }
        },
        ReceiveMsg::Cancel {  } => cancel_outcome(s, msg.sender@),
    }
}

/// What any call gives.
pub open spec fn execute_outcome(s: State, env: Env, info: MessageInfo, msg: ExecuteMsg) -> Result<(State, Seq<SubMsg>), ContractError> {
    match msg {
        ExecuteMsg::Accept {  } => accept_outcome(s, env, info),
        ExecuteMsg::Cancel {  } => cancel_outcome(s, info.sender@),
        ExecuteMsg::Receive(m) => receive_outcome(s, env, info, m),
    }
}

/// A call that fails with `e`.
pub open spec fn refused(e: ContractError) -> Result<(State, Seq<SubMsg>), ContractError> {
    Err(e)
}

/// A call on `old` gave `r` and left `new`, as `outcome` says, logging `action`.
pub open spec fn follows(
    outcome: Result<(State, Seq<SubMsg>), ContractError>,
    old: State,
    new: State,
    r: Result<Response, ContractError>,
    action: Seq<char>,
) -> bool {
    match r {
        Ok(resp) => outcome == Ok::<(State, Seq<SubMsg>), ContractError>((new, resp.messages@)) && resp.logs_action(action),
        Err(e) => outcome == Err::<(State, Seq<SubMsg>), ContractError>(e) && new == old,
    }
}

/// Appends the action that moves `amount` of the leg's asset to `to`.
fn push_transfer(msgs: &mut Vec<SubMsg>, leg: &SwapCoin, to: &String, amount: u128)
    requires
        leg.wf(),
    ensures
        final(msgs)@ == old(msgs)@ + transfer(*leg, *to, amount),
{
    if amount == 0 {
        assert(old(msgs)@ + transfer(*leg, *to, amount) =~= old(msgs)@);
        return;
    }
    let msg = if leg.is_native {
        CosmosMsg::BankSend {
            to_address: to.clone(),
            amount: Coin { denom: leg.coin.denom.clone(), amount },
        }
    } else {
        match &leg.cw20_address {
            Some(contract) => CosmosMsg::Cw20Transfer {
                contract_addr: contract.clone(),
                recipient: to.clone(),
                amount,
            },
            None => {
                return;
            },
        }
    };
    msgs.push(SubMsg::new(msg));
    assert(final(msgs)@ =~= old(msgs)@ + transfer(*leg, *to, amount));
}

/// Creates the instance's state from `msg`. A native first leg must come
/// attached to this call; a cw20 first leg was checked by whoever created the
/// instance and arrives separately.
pub fn instantiate(info: &MessageInfo, msg: InstantiateMsg) -> (r: Result<(State, Response), ContractError>)
    ensures
        match r {
            Ok((s, resp)) => {
                &&& instantiate_outcome(*info, msg) == Ok::<State, ContractError>(s)
                &&& s.wf()
                &&& !s.lock
                &&& resp.messages@.len() == 0
                &&& resp.logs(instantiate_log(s.swap))
            },
            Err(e) => instantiate_outcome(*info, msg) == Err::<State, ContractError>(e),
        },
{
    let ghost msg0 = msg;
    if same_string(&msg.swap_info.coin1.coin.denom, &msg.swap_info.coin2.coin.denom) {
        return Err(ContractError::SameDenoms {  });
    }
    if same_string(&msg.swap_info.user1, &msg.swap_info.user2) {
        return Err(ContractError::SameUsers {  });
    }
    if !msg.swap_info.coin1.is_well_formed() || !msg.swap_info.coin2.is_well_formed() {
        return Err(ContractError::InvalidCw20Addr {  });
    }
    if msg.swap_info.coin1.is_native {
        if let Err(e) = check_single_coin(&info.funds, &msg.swap_info.coin1.coin) {
            return Err(ContractError::Funds(e));
        }
    }
    let InstantiateMsg { fee_info, swap_info, expiration } = msg;
    let SwapInfo { user1, user2, coin1, coin2 } = swap_info;
    let state = State {
        config: Config { admin: info.sender.clone(), expiration },
        fee_config: fee_info,
        swap: Swap { user1, user2, coin1, coin2 },
        lock: false,
    };
    let attributes = instantiate_attributes(&state.swap);
    Ok((state, Response { messages: Vec::new(), attributes }))
}

/// Runs one call on the instance.
pub fn execute(state: &mut State, env: &Env, info: &MessageInfo, msg: ExecuteMsg) -> (r: Result<Response, ContractError>)
    requires
        old(state).wf(),
    ensures
        final(state).wf(),
        follows(
            execute_outcome(*old(state), *env, *info, msg),
            *old(state),
            *final(state),
            r,
            match msg {
                ExecuteMsg::Accept {  } => "accept"@,
                ExecuteMsg::Cancel {  } => "cancel"@,
                ExecuteMsg::Receive(m) => match m.msg {
                    ReceiveMsg::Accept {  } => "accept"@,
                    ReceiveMsg::Cancel {  } => "cancel"@,
                },
            },
        ),
{
    match msg {
        ExecuteMsg::Accept {  } => execute_accept(state, env, info),
        ExecuteMsg::Cancel {  } => execute_cancel(state, env, info),
        ExecuteMsg::Receive(m) => execute_receive(state, env, info, m),
    }
}

/// Settles the swap: locks the instance and pays each leg, less the fee, to
/// the other user.
fn settle(state: &mut State) -> (r: Result<Response, ContractError>)
    requires
        old(state).wf(),
    ensures
        final(state).wf(),
        follows(settle_outcome(*old(state)), *old(state), *final(state), r, "accept"@),
{
    let split1 = split_fee(state.swap.coin1.coin.amount, state.fee_config.percentage);
    let split2 = split_fee(state.swap.coin2.coin.amount, state.fee_config.percentage);
    let (split1, split2) = match (split1, split2) {
        (Some(a), Some(b)) => (a, b),
        _ => {
            return Err(ContractError::Overflow {  });
        },
    };
    let mut msgs: Vec<SubMsg> = Vec::new();
    push_transfer(&mut msgs, &state.swap.coin1, &state.fee_config.payment_address, split1.fee);
    push_transfer(&mut msgs, &state.swap.coin1, &state.swap.user2, split1.remainder);
    push_transfer(&mut msgs, &state.swap.coin2, &state.fee_config.payment_address, split2.fee);
    push_transfer(&mut msgs, &state.swap.coin2, &state.swap.user1, split2.remainder);
    proof {
        let sw = old(state).swap;
        let fee = old(state).fee_config;
        assert(msgs@ =~= settlement(sw, fee)->Some_0);
    }
    state.lock = true;
    Ok(Response::with_action(msgs, "accept"))
}

/// Gives the first leg back to the first user and locks the instance.
fn cancel(state: &mut State) -> (r: Result<Response, ContractError>)
    requires
        old(state).wf(),
        !old(state).lock,
    ensures
        *final(state) == old(state).locked(),
        r matches Ok(resp) && resp.messages@ == refund(old(state).swap) && resp.logs_action("cancel"@),
{
    let mut msgs: Vec<SubMsg> = Vec::new();
    push_transfer(&mut msgs, &state.swap.coin1, &state.swap.user1, state.swap.coin1.coin.amount);
    assert(msgs@ =~= refund(old(state).swap));
    state.lock = true;
    Ok(Response::with_action(msgs, "cancel"))
}

/// The second user accepts, paying the second leg in attached native coins.
pub fn execute_accept(state: &mut State, env: &Env, info: &MessageInfo) -> (r: Result<Response, ContractError>)
    requires
        old(state).wf(),
    ensures
        final(state).wf(),
        follows(accept_outcome(*old(state), *env, *info), *old(state), *final(state), r, "accept"@),
{
    if state.lock {
        return Err(ContractError::SwapLocked {  });
    }
    if state.config.expiration.is_expired(&env.block) {
        return Err(ContractError::SwapLocked {  });
    }
    if !same_string(&info.sender, &state.swap.user2) {
        return Err(ContractError::Unauthorized {  });
    }
    if !state.swap.coin2.is_native {
        return Err(ContractError::Funds(FundsError::FundsNotFound {  }));
    }
    if let Err(e) = check_single_coin(&info.funds, &state.swap.coin2.coin) {
        return Err(ContractError::Funds(e));
    }
    settle(state)
}

/// The first user cancels; the first leg goes back to them. Not bound by the
/// deadline.
pub fn execute_cancel(state: &mut State, env: &Env, info: &MessageInfo) -> (r: Result<Response, ContractError>)
    requires
        old(state).wf(),
    ensures
        final(state).wf(),
        follows(cancel_outcome(*old(state), info.sender@), *old(state), *final(state), r, "cancel"@),
{
    if state.lock {
        return Err(ContractError::SwapLocked {  });
    }
    if !same_string(&info.sender, &state.swap.user1) {
        return Err(ContractError::Unauthorized {  });
    }
    cancel(state)
}

/// A deposit reported by the cw20 contract `info.sender` on behalf of
/// `msg.sender`: an accept paying the second leg, or a cancel.
pub fn execute_receive(
    state: &mut State,
    env: &Env,
    info: &MessageInfo,
    msg: Cw20ReceiveMsg<ReceiveMsg>,
) -> (r: Result<Response, ContractError>)
    requires
        old(state).wf(),
    ensures
        final(state).wf(),
        follows(
            receive_outcome(*old(state), *env, *info, msg),
            *old(state),
            *final(state),
            r,
            match msg.msg {
                ReceiveMsg::Accept {  } => "accept"@,
                ReceiveMsg::Cancel {  } => "cancel"@,
            },
        ),
{
    match msg.msg {
        ReceiveMsg::Accept {  } => {
            if state.lock {
                return Err(ContractError::SwapLocked {  });
            }
            if state.config.expiration.is_expired(&env.block) {
                return Err(ContractError::SwapLocked {  });
            }
            if !same_string(&msg.sender, &state.swap.user2) {
                return Err(ContractError::Unauthorized {  });
            }
            let held = match &state.swap.coin2.cw20_address {
                Some(token) => same_string(token, &info.sender),
                None => false,
            };
            if !held {
                return Err(ContractError::InvalidCw20Addr {  });
            }
            if msg.amount != state.swap.coin2.coin.amount {
                return Err(
                    ContractError::Funds(
                        FundsError::InvalidFunds { got: msg.amount, expected: state.swap.coin2.coin.amount },
                    ),
                );
            }
            settle(state)
        },
        ReceiveMsg::Cancel {  } => {
            if state.lock {
                return Err(ContractError::SwapLocked {  });
            }
            if !same_string(&msg.sender, &state.swap.user1) {
                return Err(ContractError::Unauthorized {  });
            }
            cancel(state)
        },
    }
}

/// Reads the recorded swap.
pub fn query(state: &State, msg: QueryMsg) -> (r: Swap)
    ensures
        r == state.swap,
{
    match msg {
        QueryMsg::Swap {  } => state.swap.clone(),
    }
}

/// Once settled or cancelled, an instance refuses every accept and every
/// cancel with `SwapLocked`, whoever calls and whatever is paid.
pub proof fn locked_swap_refuses_all(s: State, env: Env, info: MessageInfo, msg: ExecuteMsg)
    requires
        s.lock,
    ensures
        execute_outcome(s, env, info, msg) == refused(ContractError::SwapLocked {  }),
{
}

/// An instance whose legs share a denomination is never created.
pub proof fn same_denoms_refused(info: MessageInfo, msg: InstantiateMsg)
    requires
        msg.swap_info.coin1.coin.denom@ == msg.swap_info.coin2.coin.denom@,
    ensures
        instantiate_outcome(info, msg) == Err::<State, ContractError>(ContractError::SameDenoms {  }),
{
}

/// On an open instance, only the second user may accept and only the first
/// may cancel; anyone else gets `Unauthorized` (an accept before the deadline,
/// as an expired instance answers `SwapLocked` first).
pub proof fn only_the_named_user(s: State, env: Env, info: MessageInfo, deposit: Cw20ReceiveMsg<ReceiveMsg>)
    requires
        !s.lock,
    ensures
        info.sender@ != s.swap.user1@
            ==> cancel_outcome(s, info.sender@) == refused(ContractError::Unauthorized {  }),
        deposit.msg == (ReceiveMsg::Cancel {  }) && deposit.sender@ != s.swap.user1@
            ==> receive_outcome(s, env, info, deposit) == refused(ContractError::Unauthorized {  }),
        !s.config.expiration.expired_at(env.block) && info.sender@ != s.swap.user2@
            ==> accept_outcome(s, env, info) == refused(ContractError::Unauthorized {  }),
        !s.config.expiration.expired_at(env.block) && deposit.msg == (ReceiveMsg::Accept {  }) && deposit.sender@ != s.swap.user2@
            ==> receive_outcome(s, env, info, deposit) == refused(ContractError::Unauthorized {  }),
{
}

/// An accept at or after the deadline fails with `SwapLocked`; one strictly
/// before it, by the second user with the right payment, settles the swap
/// (for a fee rate of at most one).
pub proof fn accept_before_deadline(s: State, env: Env, info: MessageInfo)
    requires
        s.wf(),
        !s.lock,
        s.fee_config.percentage.at_most_one(),
        info.sender@ == s.swap.user2@,
        s.swap.coin2.is_native,
        single_coin_outcome(info.funds@, s.swap.coin2.coin) is Ok,
    ensures
        s.config.expiration.expired_at(env.block)
            ==> accept_outcome(s, env, info) == refused(ContractError::SwapLocked {  }),
        !s.config.expiration.expired_at(env.block) ==> accept_outcome(s, env, info) == Ok::<(State, Seq<SubMsg>), ContractError>(
            (s.locked(), settlement(s.swap, s.fee_config)->Some_0),
        ),
{
    lemma_fee_within_amount(s.swap.coin1.coin.amount, s.fee_config.percentage);
    lemma_fee_within_amount(s.swap.coin2.coin.amount, s.fee_config.percentage);
}

/// A cancel by the first user on an open instance hands the whole first leg
/// back to them in one transfer (none for an empty leg), with no fee, and
/// locks the instance for good: every later call fails with `SwapLocked`.
pub proof fn cancel_refunds_in_full(s: State, caller: Seq<char>, env: Env, info: MessageInfo, msg: ExecuteMsg)
    requires
        s.wf(),
        !s.lock,
        caller == s.swap.user1@,
    ensures
        cancel_outcome(s, caller) == Ok::<(State, Seq<SubMsg>), ContractError>((s.locked(), refund(s.swap))),
        s.swap.coin1.coin.amount > 0 && s.swap.coin1.is_native ==> refund(s.swap) == seq![
            SubMsg::plain(CosmosMsg::BankSend { to_address: s.swap.user1, amount: s.swap.coin1.coin }),
        ],
        s.swap.coin1.coin.amount > 0 && !s.swap.coin1.is_native ==> refund(s.swap) == seq![
            SubMsg::plain(CosmosMsg::Cw20Transfer {
                contract_addr: s.swap.coin1.cw20_address->Some_0,
                recipient: s.swap.user1,
                amount: s.swap.coin1.coin.amount,
            }),
        ],
        execute_outcome(s.locked(), env, info, msg) == refused(ContractError::SwapLocked {  }),
{
    locked_swap_refuses_all(s.locked(), env, info, msg);
}

} // verus!
