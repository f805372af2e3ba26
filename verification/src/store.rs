//! How the contract's state is laid out in instance storage.
use crate::host::{Entry, EntryView};
use crate::host;
use crate::types::DataKey;
use soroban_sdk::Env;
use vstd::prelude::*;

verus! {

/// The largest cap on retries that the contract takes.
pub const MAX_RETRY_CAP: u32 = 5;

/// Whether the contract has been initialized: it has an admin.
pub open spec fn initialized(store: Map<Seq<char>, EntryView>) -> bool {
    store.contains_key(DataKey::Admin.text())
}

/// Whether the admin can be read: the contract is initialized, and what is stored
/// as its admin is an address.
pub open spec fn admin_readable(store: Map<Seq<char>, EntryView>) -> bool {
    initialized(store) && store[DataKey::Admin.text()] is Address
}

/// Whether the counter can be read: what is stored under its key, if anything,
/// is a counter.
pub open spec fn counter_readable(store: Map<Seq<char>, EntryView>, key: DataKey) -> bool {
    store.contains_key(key.text()) ==> store[key.text()] is U64
}

/// The value of a counter. One that has never been stored is zero.
pub open spec fn counter(store: Map<Seq<char>, EntryView>, key: DataKey) -> u64 {
    if store.contains_key(key.text()) {
        store[key.text()]->U64_0
    } else {
        0
    }
}

/// The storage with a counter one higher.
pub open spec fn bumped(store: Map<Seq<char>, EntryView>, key: DataKey) -> Map<
    Seq<char>,
    EntryView,
> {
    store.insert(key.text(), EntryView::U64((counter(store, key) + 1) as u64))
}

/// The storage once the contract is initialized.
pub open spec fn initial(
    store: Map<Seq<char>, EntryView>,
    admin: Seq<char>,
    max_retries: u32,
) -> Map<Seq<char>, EntryView> {
    store.insert(DataKey::Admin.text(), EntryView::Address(admin)).insert(
        DataKey::MaxRetries.text(),
        EntryView::U32(max_retries),
    ).insert(DataKey::TotalExecutions.text(), EntryView::U64(0)).insert(
        DataKey::TotalErrors.text(),
        EntryView::U64(0),
    )
}

/// The state that the contract's own functions keep it in: either none of its
/// keys is stored, or all of them are, each with a value of its type, and the cap
/// on retries is one that the contract takes.
pub open spec fn consistent(store: Map<Seq<char>, EntryView>) -> bool {
    ||| {
        &&& !store.contains_key(DataKey::Admin.text())
        &&& !store.contains_key(DataKey::MaxRetries.text())
        &&& !store.contains_key(DataKey::TotalExecutions.text())
        &&& !store.contains_key(DataKey::TotalErrors.text())
    }
    ||| {
        &&& store.contains_key(DataKey::Admin.text())
        &&& store.contains_key(DataKey::MaxRetries.text())
        &&& store.contains_key(DataKey::TotalExecutions.text())
        &&& store.contains_key(DataKey::TotalErrors.text())
        &&& store[DataKey::Admin.text()] is Address
        &&& store[DataKey::MaxRetries.text()] matches EntryView::U32(cap) && cap <= MAX_RETRY_CAP
        &&& store[DataKey::TotalExecutions.text()] is U64
        &&& store[DataKey::TotalErrors.text()] is U64
    }
}

/// Every key can be made into a symbol, and no two keys share one.
pub proof fn lemma_keys()
    ensures
        forall|key: DataKey| host::symbol_valid(#[trigger] key.text()),
        forall|a: DataKey, b: DataKey| #[trigger] a.text() == #[trigger] b.text() ==> a == b,
{
    reveal_strlit("Admin");
    reveal_strlit("MaxRetries");
    reveal_strlit("TotalExecutions");
    reveal_strlit("TotalErrors");
    assert("Admin"@[0] != "MaxRetries"@[0]);
    assert("Admin"@[0] != "TotalErrors"@[0]);
    assert("Admin"@[0] != "TotalExecutions"@[0]);
    assert("MaxRetries"@[0] != "TotalErrors"@[0]);
    assert("MaxRetries"@[0] != "TotalExecutions"@[0]);
    assert("TotalErrors"@.len() != "TotalExecutions"@.len());
}

/// Whether the contract has been initialized.
pub fn is_initialized(env: &Env) -> (answer: bool)
    ensures
        answer == initialized(host::instance(*env)),
{
    proof {
        lemma_keys();
    }
    host::instance_has(env, DataKey::Admin.name())
}

/// The value of a counter, or nothing where something else is stored in its
/// place.
pub fn read_counter(env: &Env, key: DataKey) -> (value: Option<u64>)
    ensures
        match value {
            Some(n) => counter_readable(host::instance(*env), key) && n == counter(
                host::instance(*env),
                key,
            ),
            None => !counter_readable(host::instance(*env), key),
        },
{
    proof {
        lemma_keys();
    }
    match host::instance_get(env, key.name()) {
        None => Some(0),
        Some(Entry::U64(n)) => Some(n),
        Some(_) => None,
    }
}

} // verus!
