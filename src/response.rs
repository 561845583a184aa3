use vstd::prelude::*;
use crate::escrow::InstantiateMsg as EscrowInstantiateMsg;
use crate::types::Coin;

verus! {

/// An action for the host to run once the call has succeeded.
#[allow(inconsistent_fields)]
#[derive(Debug, PartialEq, Eq)]
pub enum CosmosMsg {
    /// Send native `amount` to `to_address`.
    BankSend { to_address: String, amount: Coin },
    /// Tell the cw20 contract at `contract_addr` to move `amount` of its
    /// tokens from the caller to `recipient`.
    Cw20Transfer { contract_addr: String, recipient: String, amount: u128 },
    /// Create an escrow instance from the stored code `code_id`, sending it
    /// the native coin `funds`, if any.
    Instantiate { code_id: u64, msg: EscrowInstantiateMsg, funds: Option<Coin> },
}

/// When the host reports the outcome of a sub-message back to the caller.
#[derive(Debug, Clone, Copy, PartialEq, Eq, Structural)]
pub enum ReplyOn {
    Always,
    Error,
    Success,
    Never,
}

/// An action together with the correlation id of its reply, if any.
#[derive(Debug, PartialEq, Eq)]
pub struct SubMsg {
    pub id: u64,
    pub msg: CosmosMsg,
    pub reply_on: ReplyOn,
}

impl SubMsg {
    /// An action whose outcome is not reported back.
    pub open spec fn plain(msg: CosmosMsg) -> SubMsg {
        SubMsg { id: 0, msg, reply_on: ReplyOn::Never }
    }

    pub fn new(msg: CosmosMsg) -> (r: SubMsg)
        ensures
            r == SubMsg::plain(msg),
    {
        SubMsg { id: 0, msg, reply_on: ReplyOn::Never }
    }
}

/// A key and value logged with a call.
#[derive(Debug, PartialEq, Eq)]
pub struct Attribute {
    pub key: String,
    pub value: String,
}

/// What a successful call hands the host: the actions to run, all or none,
/// and the attributes to log.
#[derive(Debug, PartialEq, Eq)]
pub struct Response {
    pub messages: Vec<SubMsg>,
    pub attributes: Vec<Attribute>,
}

/// The keys and values of `attrs`, as text.
pub open spec fn attr_views(attrs: Seq<Attribute>) -> Seq<(Seq<char>, Seq<char>)> {
    attrs.map_values(|a: Attribute| (a.key@, a.value@))
}

/// The log of a call that records only its action.
pub open spec fn action_only(name: Seq<char>) -> Seq<(Seq<char>, Seq<char>)> {
    seq![("action"@, name)]
}

impl Response {
    /// The attributes are exactly `log`, in order.
    pub open spec fn logs(self, log: Seq<(Seq<char>, Seq<char>)>) -> bool {
        attr_views(self.attributes@) == log
    }

    /// The attributes are exactly `action = name`.
    pub open spec fn logs_action(self, name: Seq<char>) -> bool {
        self.logs(action_only(name))
    }

    /// A response with the given actions and the attribute `action = name`.
    pub fn with_action(messages: Vec<SubMsg>, name: &str) -> (r: Response)
        ensures
            r.messages == messages,
            r.logs_action(name@),
    {
        let mut attributes: Vec<Attribute> = Vec::new();
        assert(attr_views(attributes@) =~= seq![]);
        push_attr(&mut attributes, "action", name.to_string());
        assert(attr_views(attributes@) =~= action_only(name@));
        Response { messages, attributes }
    }
}

/// Appends the attribute `key = value`.
pub fn push_attr(attrs: &mut Vec<Attribute>, key: &str, value: String)
    ensures
        attr_views(final(attrs)@) == attr_views(old(attrs)@).push((key@, value@)),
{
    attrs.push(Attribute { key: key.to_string(), value });
    assert(attr_views(final(attrs)@) =~= attr_views(old(attrs)@).push((key@, value@)));
}

/// A group of attributes that the host logged while running an action.
#[derive(Debug, PartialEq, Eq)]
pub struct Event {
    pub ty: String,
    pub attributes: Vec<Attribute>,
}

/// What an action that succeeded logged.
#[derive(Debug, PartialEq, Eq)]
pub struct SubMsgResponse {
    pub events: Vec<Event>,
}

/// How an action ended.
#[derive(Debug, PartialEq, Eq)]
pub enum SubMsgResult {
    Success(SubMsgResponse),
    Failure(String),
}

/// The host's report on an action sent with a correlation id.
#[derive(Debug, PartialEq, Eq)]
pub struct Reply {
    pub id: u64,
    pub result: SubMsgResult,
}

/// The value of the last attribute named `key`.
pub open spec fn last_value(attrs: Seq<Attribute>, key: Seq<char>) -> Option<String>
    decreases attrs.len(),
{
    if attrs.len() == 0 {
        None
    } else if attrs.last().key@ == key {
        Some(attrs.last().value)
    } else {
        last_value(attrs.drop_last(), key)
    }
}

/// The address of the contract that the last `wasm` event naming one was
/// logged by.
pub open spec fn contract_address(events: Seq<Event>) -> Option<String>
    decreases events.len(),
{
    if events.len() == 0 {
        None
    } else if events.last().ty@ == "wasm"@ && last_value(events.last().attributes@, "_contract_address"@) is Some {
        last_value(events.last().attributes@, "_contract_address"@)
    } else {
        contract_address(events.drop_last())
    }
}

/// Finds the value of the last attribute named `key`.
pub fn find_last_value(attrs: &Vec<Attribute>, key: &String) -> (r: Option<String>)
    ensures
        r == last_value(attrs@, key@),
{
    let mut i: usize = attrs.len();
    assert(attrs@.subrange(0, i as int) =~= attrs@);
    while i > 0
        invariant
            i <= attrs.len(),
            last_value(attrs@, key@) == last_value(attrs@.subrange(0, i as int), key@),
        decreases i,
    {
        let ghost prefix = attrs@.subrange(0, i as int);
        if attrs[i - 1].key == *key {
            assert(prefix.last() == attrs@[i - 1]);
            return Some(attrs[i - 1].value.clone());
        }
        assert(prefix.drop_last() =~= attrs@.subrange(0, i - 1));
        i = i - 1;
    }
    None
}

/// Finds the address of the contract that the last `wasm` event naming one
/// was logged by.
pub fn find_contract_address(events: &Vec<Event>) -> (r: Option<String>)
    ensures
        r == contract_address(events@),
{
    let wasm = "wasm".to_string();
    let key = "_contract_address".to_string();
    let mut i: usize = events.len();
    assert(events@.subrange(0, i as int) =~= events@);
    while i > 0
        invariant
            i <= events.len(),
            wasm@ == "wasm"@,
            key@ == "_contract_address"@,
            contract_address(events@) == contract_address(events@.subrange(0, i as int)),
        decreases i,
    {
        let ghost prefix = events@.subrange(0, i as int);
        assert(prefix.last() == events@[i - 1]);
        if events[i - 1].ty == wasm {
            let found = find_last_value(&events[i - 1].attributes, &key);
            if found.is_some() {
                return found;
            }
        }
        assert(prefix.drop_last() =~= events@.subrange(0, i - 1));
        i = i - 1;
    }
    None
}

} // verus!
