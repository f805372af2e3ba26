//! The contract host, as this crate sees it.
//!
//! Everything that is taken on trust about `soroban_sdk` stands in this file.
//! An [`Env`] is the handle of a running contract invocation. The SDK changes
//! the host's state through shared handles; here every call that changes it
//! takes the handle by `&mut`, so that the state after a call is a value of its
//! own. What the handle gives access to has these names:
//!
//! - [`instance`]: the running contract's instance storage,
//! - [`published`]: the events that the running contract has published,
//! - [`calls`]: the calls that it has made to other contracts,
//! - [`consenting`] and [`authenticated`]: whose authorization the host would
//!   accept, and whose it has accepted.
//!
//! An address is known by its strkey ([`strkey`]), a symbol and a string by
//! their characters ([`symbol_text`], [`string_text`]).
//!
//! The host ends the whole transaction, and undoes all of it, when a resource
//! budget or the declared footprint is exceeded, or when one of these calls is
//! made while no contract is running. Such a call does not return, and nothing
//! is stated of it.
use soroban_sdk::{Address, Env, InvokeError, String, Symbol, TryFromVal, Val};
use vstd::prelude::*;

verus! {

/// `soroban_sdk::Env`: the handle of a running contract invocation.
#[verifier::external_type_specification]
#[verifier::external_body]
pub struct ExEnv(soroban_sdk::Env);

/// `soroban_sdk::Address`: the address of an account or a contract.
#[verifier::external_type_specification]
#[verifier::external_body]
pub struct ExAddress(soroban_sdk::Address);

/// `soroban_sdk::Symbol`: a short identifier held by the host.
#[verifier::external_type_specification]
#[verifier::external_body]
pub struct ExSymbol(soroban_sdk::Symbol);

/// `soroban_sdk::String`: a string held by the host.
#[verifier::external_type_specification]
#[verifier::external_body]
pub struct ExString(soroban_sdk::String);

/// A value of instance storage.
pub enum Entry {
    /// An address.
    Address(Address),
    /// A 32-bit unsigned integer.
    U32(u32),
    /// A 64-bit unsigned integer.
    U64(u64),
    /// A value of any other type.
    Other,
}

/// What an [`Entry`] holds.
pub enum EntryView {
    Address(Seq<char>),
    U32(u32),
    U64(u64),
    Other,
}

impl View for Entry {
    type V = EntryView;

    open spec fn view(&self) -> EntryView {
        match *self {
            Entry::Address(address) => EntryView::Address(strkey(address)),
            Entry::U32(n) => EntryView::U32(n),
            Entry::U64(n) => EntryView::U64(n),
            Entry::Other => EntryView::Other,
        }
    }
}

/// The data of an event.
pub enum EventData<'a> {
    /// How an execution ended.
    Execution { target: &'a Address, function: &'a Symbol, success: bool, attempts: u32 },
    /// Why an execution failed.
    Failure { target: &'a Address, function: &'a Symbol, code: u32, attempts: u32 },
    /// What a fee estimate came to.
    Fee { total_fee: i128, high_load: bool },
    /// How a simulation ended.
    Simulation { target: &'a Address, function: &'a Symbol, success: bool },
}

/// What an [`EventData`] holds.
pub enum EventDataView {
    Execution { target: Seq<char>, function: Seq<char>, success: bool, attempts: u32 },
    Failure { target: Seq<char>, function: Seq<char>, code: u32, attempts: u32 },
    Fee { total_fee: i128, high_load: bool },
    Simulation { target: Seq<char>, function: Seq<char>, success: bool },
}

impl<'a> View for EventData<'a> {
    type V = EventDataView;

    open spec fn view(&self) -> EventDataView {
        match *self {
            EventData::Execution { target, function, success, attempts } =>
                EventDataView::Execution {
                    target: strkey(*target),
                    function: symbol_text(*function),
                    success,
                    attempts,
                },
            EventData::Failure { target, function, code, attempts } =>
                EventDataView::Failure {
                    target: strkey(*target),
                    function: symbol_text(*function),
                    code,
                    attempts,
                },
            EventData::Fee { total_fee, high_load } =>
                EventDataView::Fee { total_fee, high_load },
            EventData::Simulation { target, function, success } =>
                EventDataView::Simulation {
                    target: strkey(*target),
                    function: symbol_text(*function),
                    success,
                },
        }
    }
}

/// An event as the host records it: one topic, and the data.
pub struct Event {
    pub topic: Seq<char>,
    pub data: EventDataView,
}

/// How a call to another contract ended.
#[derive(Copy, Clone, Debug, PartialEq, Eq, Structural)]
pub enum CallOutcome {
    /// The called function returned.
    Succeeded,
    /// The called function failed with this contract error code.
    ContractError(u32),
    /// The call failed in any other way: no such contract, no such function, a
    /// panic, a refused host function.
    Aborted,
}

/// A call to another contract, without arguments.
pub struct CallRecord {
    pub target: Seq<char>,
    pub function: Seq<char>,
    pub outcome: CallOutcome,
}

/// The part of the running contract's instance storage that is kept under a key
/// made of one symbol, by the symbol's characters.
pub uninterp spec fn instance(env: Env) -> Map<Seq<char>, EntryView>;

/// The events that the running contract has published, in order: those with one
/// topic and with data of one of the kinds here.
pub uninterp spec fn published(env: Env) -> Seq<Event>;

/// The calls without arguments that the running contract has made to other
/// contracts, in order.
pub uninterp spec fn calls(env: Env) -> Seq<CallRecord>;

/// The strkeys of the addresses whose authorization of the running invocation
/// the host would accept.
pub uninterp spec fn consenting(env: Env) -> Set<Seq<char>>;

/// The strkeys of the addresses whose authorization of the running invocation
/// the host has accepted, in order.
pub uninterp spec fn authenticated(env: Env) -> Seq<Seq<char>>;

/// The strkey of an address, as `Address::to_string` gives it.
pub uninterp spec fn strkey(address: Address) -> Seq<char>;

/// The characters of a symbol.
pub uninterp spec fn symbol_text(symbol: Symbol) -> Seq<char>;

/// The characters of a string.
pub uninterp spec fn string_text(string: String) -> Seq<char>;

/// Whether a character may stand in a symbol.
pub open spec fn symbol_char(c: char) -> bool {
    ||| 'a' <= c <= 'z'
    ||| 'A' <= c <= 'Z'
    ||| '0' <= c <= '9'
    ||| c == '_'
}

/// Whether a text can be made into a symbol.
pub open spec fn symbol_valid(text: Seq<char>) -> bool {
    &&& text.len() <= 32
    &&& forall|i: int| 0 <= i < text.len() ==> symbol_char(#[trigger] text[i])
}

/// Whether a strkey names a contract, and not an account.
pub open spec fn contract_strkey(key: Seq<char>) -> bool {
    key.len() > 0 && key[0] == 'C'
}

/// `Address::clone`: the clone is another handle of the same address, equal to it.
pub assume_specification[ <soroban_sdk::Address as Clone>::clone ](
    address: &soroban_sdk::Address,
) -> (copy: soroban_sdk::Address)
    ensures
        copy == *address,
;

/// `Symbol::clone`: the clone is another handle of the same symbol, equal to it.
pub assume_specification[ <soroban_sdk::Symbol as Clone>::clone ](
    symbol: &soroban_sdk::Symbol,
) -> (copy: soroban_sdk::Symbol)
    ensures
        copy == *symbol,
;

/// `String::clone`: the clone is another handle of the same string, equal to it.
pub assume_specification[ <soroban_sdk::String as Clone>::clone ](
    string: &soroban_sdk::String,
) -> (copy: soroban_sdk::String)
    ensures
        copy == *string,
;

/// Calls `Instance::has`: whether a value is stored under the key.
#[verifier::external_body]
pub(crate) fn instance_has(env: &Env, key: &str) -> (found: bool)
    requires
        symbol_valid(key@),
    ensures
        found == instance(*env).contains_key(key@),
{
    env.storage().instance().has(&(Symbol::new(env, key),))
}

/// Calls `Instance::get`: the value stored under the key, if there is one, with
/// its type.
#[verifier::external_body]
pub(crate) fn instance_get(env: &Env, key: &str) -> (entry: Option<Entry>)
    requires
        symbol_valid(key@),
    ensures
        match entry {
            Some(value) => instance(*env).contains_key(key@) && value@ == instance(*env)[key@],
            None => !instance(*env).contains_key(key@),
        },
{
    let value: Val = env.storage().instance().get(&(Symbol::new(env, key),))?;
    if let Ok(address) = Address::try_from_val(env, &value) {
        Some(Entry::Address(address))
    } else if let Ok(n) = u32::try_from_val(env, &value) {
        Some(Entry::U32(n))
    } else if let Ok(n) = u64::try_from_val(env, &value) {
        Some(Entry::U64(n))
    } else {
        Some(Entry::Other)
    }
}

/// Calls `Instance::set`: stores the value under the key, in place of the one
/// that was there. Nothing else of the host's state changes.
#[verifier::external_body]
pub(crate) fn instance_set(env: &mut Env, key: &str, value: &Entry)
    requires
        symbol_valid(key@),
        !(value is Other),
    ensures
        instance(*final(env)) == instance(*old(env)).insert(key@, value@),
        published(*final(env)) == published(*old(env)),
        calls(*final(env)) == calls(*old(env)),
        consenting(*final(env)) == consenting(*old(env)),
        authenticated(*final(env)) == authenticated(*old(env)),
{
    let key = (Symbol::new(env, key),);
    match value {
        Entry::Address(address) => env.storage().instance().set(&key, address),
        Entry::U32(n) => env.storage().instance().set(&key, n),
        Entry::U64(n) => env.storage().instance().set(&key, n),
        Entry::Other => {}
    }
}

/// Calls `Events::publish`: records an event of the running contract, with one
/// topic. Nothing else of the host's state changes.
#[verifier::external_body]
#[allow(deprecated)]
pub(crate) fn publish(env: &mut Env, topic: &str, data: EventData<'_>)
    requires
        symbol_valid(topic@),
    ensures
        published(*final(env)) == published(*old(env)).push(Event { topic: topic@, data: data@ }),
        instance(*final(env)) == instance(*old(env)),
        calls(*final(env)) == calls(*old(env)),
        consenting(*final(env)) == consenting(*old(env)),
        authenticated(*final(env)) == authenticated(*old(env)),
{
    let topics = (Symbol::new(env, topic),);
    match data {
        EventData::Execution { target, function, success, attempts } =>
            env.events().publish(topics, (target, function, success, attempts)),
        EventData::Failure { target, function, code, attempts } =>
            env.events().publish(topics, (target, function, code, attempts)),
        EventData::Fee { total_fee, high_load } =>
            env.events().publish(topics, (total_fee, high_load)),
        EventData::Simulation { target, function, success } =>
            env.events().publish(topics, (target, function, success)),
    }
}

/// Calls `Env::try_invoke_contract`: calls a function of another contract, with
/// no arguments. How the call ends is for that contract and the ledger to say,
/// and nothing is stated of it; that it was made, and how it ended, is on
/// record. The host lets no call come back into the running contract, so its
/// instance storage and its events are as they were before. Which authorizations
/// the called contract used up is not stated. The host ends the transaction when the target is not a contract's address.
#[verifier::external_body]
pub(crate) fn try_invoke(env: &mut Env, target: &Address, function: &Symbol) -> (outcome:
    CallOutcome)
    requires
        contract_strkey(strkey(*target)),
    ensures
        calls(*final(env)) == calls(*old(env)).push(
            (CallRecord { target: strkey(*target), function: symbol_text(*function), outcome }),
        ),
        instance(*final(env)) == instance(*old(env)),
        published(*final(env)) == published(*old(env)),
        authenticated(*final(env)) == authenticated(*old(env)),
{
    let args = soroban_sdk::Vec::<Val>::new(env);
    match env.try_invoke_contract::<Val, InvokeError>(target, function, args) {
        Ok(_) => CallOutcome::Succeeded,
        Err(Ok(InvokeError::Contract(code))) => CallOutcome::ContractError(code),
        Err(Err(InvokeError::Contract(code))) => CallOutcome::ContractError(code),
        Err(Ok(InvokeError::Abort)) => CallOutcome::Aborted,
        Err(Err(InvokeError::Abort)) => CallOutcome::Aborted,
    }
}

/// Calls `Address::require_auth`: has the host accept the authorization of the
/// running invocation by an address. The host ends the transaction when the
/// address has not authorized it. The contract's storage, events and calls are
/// as they were before.
#[verifier::external_body]
pub(crate) fn require_auth(env: &mut Env, address: &Address)
    requires
        consenting(*old(env)).contains(strkey(*address)),
    ensures
        authenticated(*final(env)) == authenticated(*old(env)).push(strkey(*address)),
        instance(*final(env)) == instance(*old(env)),
        published(*final(env)) == published(*old(env)),
        calls(*final(env)) == calls(*old(env)),
{
    address.require_auth()
}

/// Calls `Address::to_string`: the strkey of an address. It is ASCII text, that of
/// a contract begins with `C`, and that of an account with `G`.
#[verifier::external_body]
pub(crate) fn address_strkey(address: &Address) -> (key: std::string::String)
    ensures
        key@ == strkey(*address),
{
    let text = address.to_string();
    let mut bytes = vec![0u8; text.len() as usize];
    text.copy_into_slice(&mut bytes);
    std::string::String::from_utf8(bytes).unwrap()
}

/// Calls `String::from_str`: a string of the host with these characters.
#[verifier::external_body]
pub(crate) fn string_from_str(env: &Env, text: &str) -> (string: String)
    ensures
        string_text(string) == text@,
{
    String::from_str(env, text)
}

} // verus!
