use std::collections::HashMap;

use cosmoswap::controller::{self, TokenSymbols};
use cosmoswap::escrow::{self, ContractError, ExecuteMsg, ReceiveMsg};
use cosmoswap::response::{
    Attribute, CosmosMsg, Event, Reply, ReplyOn, Response, SubMsgResponse, SubMsgResult,
};
use cosmoswap::types::{
    coin, BlockInfo, Coin, Cw20ReceiveMsg, Decimal, Env, Expiration, FeeInfo, MessageInfo, SwapCoin,
    SwapInfo, Timestamp,
};

const ADMIN: &str = "juno..admin";
const USER1: &str = "juno..user1";
const USER2: &str = "juno..user2";
const DENOM1: &str = "denom1";
const DENOM2: &str = "denom2";
const CW20_TICKER: &str = "teto";
const CONTROLLER: &str = "contract0";

/// Balances, escrow instances and a controller, with each successful call's
/// actions applied in order.
struct Chain {
    env: Env,
    bank: HashMap<(String, String), u128>,
    tokens: HashMap<(String, String), u128>,
    symbols: HashMap<String, String>,
    controller: controller::State,
    escrows: HashMap<String, escrow::State>,
    next_contract: usize,
}

impl Chain {
    fn new() -> Chain {
        let msg = controller::InstantiateMsg {
            cosmoswap_code_id: 1,
            fee_percentage: Decimal::percent(5),
            fee_payment_address: ADMIN.to_string(),
        };
        let info = MessageInfo { sender: ADMIN.to_string(), funds: vec![] };
        let (controller, _) = controller::instantiate(info, msg).unwrap();
        let mut bank = HashMap::new();
        bank.insert((USER1.to_string(), DENOM1.to_string()), 1_000);
        bank.insert((USER2.to_string(), DENOM2.to_string()), 5_000);
        Chain {
            env: Env { block: BlockInfo { height: 12_345, time: Timestamp::from_nanos(1_571_797_419_879_305_533) } },
            bank,
            tokens: HashMap::new(),
            symbols: HashMap::new(),
            controller,
            escrows: HashMap::new(),
            next_contract: 1,
        }
    }

    fn fresh_address(&mut self) -> String {
        let address = format!("contract{}", self.next_contract);
        self.next_contract += 1;
        address
    }

    fn add_token(&mut self, holder: &str, amount: u128) -> String {
        let address = self.fresh_address();
        self.symbols.insert(address.clone(), CW20_TICKER.to_string());
        self.tokens.insert((address.clone(), holder.to_string()), amount);
        address
    }

    fn balance(&self, holder: &str, denom: &str) -> u128 {
        *self.bank.get(&(holder.to_string(), denom.to_string())).unwrap_or(&0)
    }

    fn token_balance(&self, token: &str, holder: &str) -> u128 {
        *self.tokens.get(&(token.to_string(), holder.to_string())).unwrap_or(&0)
    }

    fn move_coin(&mut self, from: &str, to: &str, c: &Coin) {
        let have = self.balance(from, &c.denom);
        assert!(have >= c.amount, "{} lacks {} {}", from, c.amount, c.denom);
        self.bank.insert((from.to_string(), c.denom.clone()), have - c.amount);
        let theirs = self.balance(to, &c.denom);
        self.bank.insert((to.to_string(), c.denom.clone()), theirs + c.amount);
    }

    fn move_token(&mut self, token: &str, from: &str, to: &str, amount: u128) {
        let have = self.token_balance(token, from);
        assert!(have >= amount, "{} lacks {} of {}", from, amount, token);
        self.tokens.insert((token.to_string(), from.to_string()), have - amount);
        let theirs = self.token_balance(token, to);
        self.tokens.insert((token.to_string(), to.to_string()), theirs + amount);
    }

    fn symbols_for(&self, swap: &SwapInfo) -> TokenSymbols {
        let symbol = |leg: &SwapCoin| {
            leg.cw20_address.as_ref().and_then(|a| self.symbols.get(a).cloned()).unwrap_or_default()
        };
        TokenSymbols { coin1: symbol(&swap.coin1), coin2: symbol(&swap.coin2) }
    }

    /// Runs the actions that the contract `from` asked for.
    fn run(&mut self, from: &str, resp: Response) {
        for sub in resp.messages {
            match sub.msg {
                CosmosMsg::BankSend { to_address, amount } => self.move_coin(from, &to_address, &amount),
                CosmosMsg::Cw20Transfer { contract_addr, recipient, amount } => {
                    self.move_token(&contract_addr, from, &recipient, amount)
                },
                CosmosMsg::Instantiate { msg, funds, .. } => {
                    let address = self.fresh_address();
                    let funds: Vec<Coin> = funds.into_iter().collect();
                    for c in &funds {
                        self.move_coin(from, &address, c);
                    }
                    let info = MessageInfo { sender: from.to_string(), funds };
                    let (state, _) = escrow::instantiate(&info, msg).unwrap();
                    self.escrows.insert(address.clone(), state);
                    if sub.reply_on == ReplyOn::Always {
                        let answer = Reply {
                            id: sub.id,
                            result: SubMsgResult::Success(SubMsgResponse {
                                events: vec![Event {
                                    ty: "wasm".to_string(),
                                    attributes: vec![Attribute { key: "_contract_address".to_string(), value: address }],
                                }],
                            }),
                        };
                        let resp = controller::reply(&mut self.controller, answer).unwrap();
                        self.run(CONTROLLER, resp);
                    }
                },
            }
        }
    }

    fn create_swap(&mut self, swap_info: SwapInfo) {
        let symbols = self.symbols_for(&swap_info);
        let funds = vec![swap_info.coin1.coin.clone()];
        self.move_coin(USER1, CONTROLLER, &funds[0]);
        let info = MessageInfo { sender: USER1.to_string(), funds };
        let msg = controller::ExecuteMsg::CreateSwap { swap_info, expiration: Expiration::Never {} };
        let resp = controller::execute(&mut self.controller, &self.env, info, msg, &symbols).unwrap();
        self.run(CONTROLLER, resp);
    }

    fn call(&mut self, sender: &str, contract: &str, funds: Vec<Coin>, msg: ExecuteMsg) -> Result<(), ContractError> {
        let info = MessageInfo { sender: sender.to_string(), funds: funds.clone() };
        let state = self.escrows.get_mut(contract).unwrap();
        let resp = escrow::execute(state, &self.env, &info, msg)?;
        for c in &funds {
            self.move_coin(sender, contract, c);
        }
        self.run(contract, resp);
        Ok(())
    }

    fn send_tokens(&mut self, token: &str, sender: &str, contract: &str, amount: u128, msg: ReceiveMsg) -> Result<(), ContractError> {
        let info = MessageInfo { sender: token.to_string(), funds: vec![] };
        let deposit = Cw20ReceiveMsg { sender: sender.to_string(), amount, msg };
        let state = self.escrows.get_mut(contract).unwrap();
        let resp = escrow::execute(state, &self.env, &info, ExecuteMsg::Receive(deposit))?;
        self.move_token(token, sender, contract, amount);
        self.run(contract, resp);
        Ok(())
    }
}

/// Creates an escrow instance directly, with the first user's coin attached.
fn proper_instantiate(chain: &mut Chain, swap_info: SwapInfo) -> String {
    let address = chain.fresh_address();
    let funds = vec![swap_info.coin1.coin.clone()];
    chain.move_coin(USER1, &address, &funds[0]);
    let info = MessageInfo { sender: USER1.to_string(), funds };
    let msg = escrow::InstantiateMsg {
        fee_info: FeeInfo { percentage: Decimal::percent(5), payment_address: ADMIN.to_string() },
        swap_info,
        expiration: Expiration::Never {},
    };
    let (state, _) = escrow::instantiate(&info, msg).unwrap();
    chain.escrows.insert(address.clone(), state);
    address
}

fn native_swap() -> SwapInfo {
    SwapInfo {
        user1: USER1.to_string(),
        user2: USER2.to_string(),
        coin1: SwapCoin { is_native: true, coin: coin(1_000, DENOM1), cw20_address: None },
        coin2: SwapCoin { is_native: true, coin: coin(5_000, DENOM2), cw20_address: None },
    }
}

#[test]
fn cancel_test_happy_path() {
    let mut chain = Chain::new();
    chain.bank.insert((USER1.to_string(), DENOM1.to_string()), 1_000_000);
    let cosmoswap_addr = proper_instantiate(&mut chain, native_swap());

    assert_eq!(chain.balance(USER1, DENOM1), 999_000);
    chain.call(USER1, &cosmoswap_addr, vec![], ExecuteMsg::Cancel {}).unwrap();
    assert_eq!(chain.balance(USER1, DENOM1), 1_000_000);

    let err = chain.call(USER2, &cosmoswap_addr, vec![], ExecuteMsg::Accept {}).unwrap_err();
    assert_eq!(err, ContractError::SwapLocked {});
}

#[test]
fn integration_test_happy_path() {
    let mut chain = Chain::new();
    chain.bank.insert((USER1.to_string(), DENOM1.to_string()), 2_000);
    chain.create_swap(native_swap());
    chain.create_swap(native_swap());

    chain.call(USER2, "contract1", vec![coin(5_000, DENOM2)], ExecuteMsg::Accept {}).unwrap();

    // Initial balances are zero
    assert_eq!(chain.balance(USER1, DENOM1), 0);
    assert_eq!(chain.balance(USER2, DENOM2), 0);
    // These are the balances after the swap
    assert_eq!(chain.balance(USER1, DENOM2), 4_750);
    assert_eq!(chain.balance(USER2, DENOM1), 950);
    // Admin fee
    assert_eq!(chain.balance(ADMIN, DENOM1), 50);
    assert_eq!(chain.balance(ADMIN, DENOM2), 250);

    let err = chain.call(USER2, "contract1", vec![], ExecuteMsg::Accept {}).unwrap_err();
    assert_eq!(err, ContractError::SwapLocked {});
    let err = chain.call(USER1, "contract1", vec![], ExecuteMsg::Cancel {}).unwrap_err();
    assert_eq!(err, ContractError::SwapLocked {});

    // Cancel the second swap
    chain.call(USER1, "contract2", vec![], ExecuteMsg::Cancel {}).unwrap();
    assert_eq!(chain.balance(USER1, DENOM1), 1_000);
    let err = chain.call(USER2, "contract2", vec![], ExecuteMsg::Accept {}).unwrap_err();
    assert_eq!(err, ContractError::SwapLocked {});
}

#[test]
fn cw20_token_test_happy_path() {
    let mut chain = Chain::new();
    chain.bank.insert((USER1.to_string(), DENOM1.to_string()), 2_000);
    chain.bank.remove(&(USER2.to_string(), DENOM2.to_string()));
    let token = chain.add_token(USER2, 5_000);
    let mut swap_info = native_swap();
    swap_info.coin2 = SwapCoin { is_native: false, coin: coin(5_000, CW20_TICKER), cw20_address: Some(token.clone()) };
    chain.create_swap(swap_info.clone());
    chain.create_swap(swap_info);

    chain.send_tokens(&token, USER2, "contract2", 5_000, ReceiveMsg::Accept {}).unwrap();

    assert_eq!(chain.balance(USER1, DENOM1), 0);
    assert_eq!(chain.token_balance(&token, USER2), 0);
    assert_eq!(chain.token_balance(&token, USER1), 4_750);
    assert_eq!(chain.balance(USER2, DENOM1), 950);
    assert_eq!(chain.balance(ADMIN, DENOM1), 50);
    assert_eq!(chain.token_balance(&token, ADMIN), 250);

    let err = chain.call(USER2, "contract2", vec![], ExecuteMsg::Accept {}).unwrap_err();
    assert_eq!(err, ContractError::SwapLocked {});

    chain.call(USER1, "contract3", vec![], ExecuteMsg::Cancel {}).unwrap();
    assert_eq!(chain.balance(USER1, DENOM1), 1_000);
    let err = chain.call(USER2, "contract3", vec![], ExecuteMsg::Accept {}).unwrap_err();
    assert_eq!(err, ContractError::SwapLocked {});
}

#[test]
fn cw20_first_leg_reaches_the_new_instance() {
    let mut chain = Chain::new();
    let token = chain.add_token(USER1, 1_000_000);
    let mut swap_info = native_swap();
    swap_info.coin1 = SwapCoin { is_native: false, coin: coin(1_000, CW20_TICKER), cw20_address: Some(token.clone()) };
    let symbols = chain.symbols_for(&swap_info);

    chain.move_token(&token, USER1, CONTROLLER, 1_000);
    let info = MessageInfo { sender: token.clone(), funds: vec![] };
    let deposit = Cw20ReceiveMsg {
        sender: USER1.to_string(),
        amount: 1_000,
        msg: controller::ReceiveMsg::CreateSwap { swap_info, expiration: Expiration::Never {} },
    };
    let resp = controller::execute(&mut chain.controller, &chain.env, info, controller::ExecuteMsg::Receive(deposit), &symbols)
        .unwrap();
    chain.run(CONTROLLER, resp);

    assert_eq!(chain.token_balance(&token, "contract2"), 1_000);
    assert_eq!(chain.token_balance(&token, CONTROLLER), 0);
    assert_eq!(chain.token_balance(&token, USER1), 999_000);

    // Cancelling hands the whole deposit back.
    chain.call(USER1, "contract2", vec![], ExecuteMsg::Cancel {}).unwrap();
    assert_eq!(chain.token_balance(&token, USER1), 1_000_000);
    assert_eq!(chain.token_balance(&token, "contract2"), 0);
}
