use vstd::prelude::*;

verus! {

/// Fixed-point scale of [`Decimal`]: eighteen fractional digits.
pub const DECIMAL_FRACTIONAL: u128 = 1_000_000_000_000_000_000;

/// An amount of one natively-settled denomination.
#[derive(Debug, PartialEq, Eq)]
pub struct Coin {
    pub denom: String,
    pub amount: u128,
}

impl Clone for Coin {
    fn clone(&self) -> (r: Self)
        ensures
            r == *self,
    {
        Coin { denom: self.denom.clone(), amount: self.amount }
    }
}

/// Builds a coin of `amount` units of `denom`.
pub fn coin(amount: u128, denom: &str) -> (r: Coin)
    ensures
        r.amount == amount,
        r.denom@ == denom@,
{
    Coin { denom: denom.to_string(), amount }
}

/// A fixed-point ratio with eighteen fractional digits: the value is
/// `atomics / DECIMAL_FRACTIONAL`.
#[derive(Debug, Clone, Copy, PartialEq, Eq, Structural)]
pub struct Decimal {
    pub atomics: u128,
}

impl Decimal {
    /// The ratio is at most one.
    pub open spec fn at_most_one(self) -> bool {
        self.atomics <= DECIMAL_FRACTIONAL
    }

    pub fn raw(atomics: u128) -> (r: Decimal)
        ensures
            r.atomics == atomics,
    {
        Decimal { atomics }
    }

    /// `x` percent.
    pub fn percent(x: u64) -> (r: Decimal)
        ensures
            r.atomics == x * 10_000_000_000_000_000,
    {
        Decimal { atomics: (x as u128) * 10_000_000_000_000_000 }
    }

    pub fn one() -> (r: Decimal)
        ensures
            r.atomics == DECIMAL_FRACTIONAL,
    {
        Decimal { atomics: DECIMAL_FRACTIONAL }
    }
}

/// The protocol fee: the share of each leg taken at settlement, and who gets it.
#[derive(Debug, PartialEq, Eq)]
pub struct FeeInfo {
    pub percentage: Decimal,
    pub payment_address: String,
}

impl Clone for FeeInfo {
    fn clone(&self) -> (r: Self)
        ensures
            r == *self,
    {
        FeeInfo { percentage: self.percentage, payment_address: self.payment_address.clone() }
    }
}

/// Clones an optional string exactly.
pub fn clone_opt_string(s: &Option<String>) -> (r: Option<String>)
    ensures
        r == *s,
{
    match s {
        Some(v) => Some(v.clone()),
        None => None,
    }
}

/// One side of a swap: a native coin, or a token held by the cw20 contract at
/// `cw20_address` (then `coin.denom` is the token's symbol).
#[derive(Debug, PartialEq, Eq)]
pub struct SwapCoin {
    pub is_native: bool,
    pub coin: Coin,
    pub cw20_address: Option<String>,
}

impl Clone for SwapCoin {
    fn clone(&self) -> (r: Self)
        ensures
            r == *self,
    {
        SwapCoin {
            is_native: self.is_native,
            coin: self.coin.clone(),
            cw20_address: clone_opt_string(&self.cw20_address),
        }
    }
}

impl SwapCoin {
    /// A custodian contract is named exactly when the leg is not native.
    pub open spec fn wf(self) -> bool {
        self.is_native == self.cw20_address.is_none()
    }

    pub fn is_well_formed(&self) -> (r: bool)
        ensures
            r == self.wf(),
    {
        self.is_native == self.cw20_address.is_none()
    }
}

/// The terms of a swap: who gives what.
#[derive(Debug, PartialEq, Eq)]
pub struct SwapInfo {
    pub user1: String,
    pub user2: String,
    pub coin1: SwapCoin,
    pub coin2: SwapCoin,
}

impl Clone for SwapInfo {
    fn clone(&self) -> (r: Self)
        ensures
            r == *self,
    {
        SwapInfo {
            user1: self.user1.clone(),
            user2: self.user2.clone(),
            coin1: self.coin1.clone(),
            coin2: self.coin2.clone(),
        }
    }
}

/// Compares two strings by their characters.
pub fn same_string(a: &String, b: &String) -> (r: bool)
    ensures
        r == (a@ == b@),
{
    *a == *b
}

/// A point in time, in nanoseconds since the epoch.
#[derive(Debug, Clone, Copy, PartialEq, Eq, Structural)]
pub struct Timestamp {
    pub nanos: u64,
}

impl Timestamp {
    pub fn from_nanos(nanos: u64) -> (r: Timestamp)
        ensures
            r.nanos == nanos,
    {
        Timestamp { nanos }
    }

    pub fn from_seconds(seconds: u64) -> (r: Timestamp)
        requires
            seconds * 1_000_000_000 <= u64::MAX,
        ensures
            r.nanos == seconds * 1_000_000_000,
    {
        Timestamp { nanos: seconds * 1_000_000_000 }
    }

    pub fn plus_seconds(&self, seconds: u64) -> (r: Timestamp)
        requires
            self.nanos + seconds * 1_000_000_000 <= u64::MAX,
        ensures
            r.nanos == self.nanos + seconds * 1_000_000_000,
    {
        Timestamp { nanos: self.nanos + seconds * 1_000_000_000 }
    }
}

/// The current block, as the host reports it.
#[derive(Debug, Clone, Copy, PartialEq, Eq, Structural)]
pub struct BlockInfo {
    pub height: u64,
    pub time: Timestamp,
}

/// What the host tells a call about its surroundings.
#[derive(Debug, Clone, Copy, PartialEq, Eq, Structural)]
pub struct Env {
    pub block: BlockInfo,
}

/// Who sent a call, and the native coins attached to it.
#[derive(Debug)]
pub struct MessageInfo {
    pub sender: String,
    pub funds: Vec<Coin>,
}

/// A deadline after which a swap can no longer be accepted.
#[derive(Debug, Clone, Copy, PartialEq, Eq, Structural)]
pub enum Expiration {
    AtHeight(u64),
    AtTime(Timestamp),
    Never {},
}

impl Expiration {
    /// The deadline has been reached at `block`.
    pub open spec fn expired_at(self, block: BlockInfo) -> bool {
        match self {
            Expiration::AtHeight(h) => block.height >= h,
            Expiration::AtTime(t) => block.time.nanos >= t.nanos,
            Expiration::Never {} => false,
        }
    }

    pub fn is_expired(&self, block: &BlockInfo) -> (r: bool)
        ensures
            r == self.expired_at(*block),
    {
        cw_is_expired(self, block.height, block.time.nanos)
    }
}

/// Relies on `cw_utils::Expiration::is_expired` (re-exported by cw20): a
/// height deadline has passed once the block height reaches it, a time
/// deadline once the block time reaches it, and `Never` never passes.
#[verifier::external_body]
fn cw_is_expired(e: &Expiration, height: u64, time_nanos: u64) -> (r: bool)
    ensures
        r == e.expired_at((BlockInfo { height, time: Timestamp { nanos: time_nanos } })),
{
    let e = match e {
        Expiration::AtHeight(h) => cw20::Expiration::AtHeight(*h),
        Expiration::AtTime(t) => cw20::Expiration::AtTime(cosmwasm_std::Timestamp::from_nanos(t.nanos)),
        Expiration::Never {} => cw20::Expiration::Never {},
    };
    let block = cosmwasm_std::BlockInfo {
        height,
        time: cosmwasm_std::Timestamp::from_nanos(time_nanos),
        chain_id: String::new(),
    };
    e.is_expired(&block)
}

/// A deposit notification from a cw20 contract: `sender` sent it `amount`
/// tokens, with the decoded payload `msg`.
#[derive(Debug)]
pub struct Cw20ReceiveMsg<M> {
    pub sender: String,
    pub amount: u128,
    pub msg: M,
}

} // verus!
