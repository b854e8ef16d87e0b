//! The two stores: the entries, keyed by owner and name, and the
//! configuration record that is written once.

use vstd::prelude::*;
use vstd::string::StringExecFns;
use crate::error::ContractError;
use crate::state::Addr;
use crate::state::Config;
use crate::state::Primitive;
use crate::state::PrimitiveView;

verus! {

/// The key of an entry: the owner's text, then the entry's name.
pub type Key = (Seq<char>, Seq<char>);

/// What a write asks of the key it is given.
#[derive(Clone, Copy, Debug, PartialEq, Eq, Structural)]
pub enum WritePolicy {
    /// Create the entry or replace it: the policy of a store made by `new`.
    Upsert,
    /// Create only: a key that is present is refused.
    StrictAdd,
    /// Replace only: a key that is absent is refused.
    StrictUpdate,
}

/// What `set` answers: an invalid value is refused first, then the key is
/// held against the policy.
pub open spec fn set_result(
    policy: WritePolicy,
    entries: Map<Key, PrimitiveView>,
    key: Key,
    value: PrimitiveView,
) -> Result<(), ContractError> {
    if value.is_invalid() {
        Err(ContractError::InvalidValue)
    } else {
        match policy {
            WritePolicy::Upsert => Ok(()),
            WritePolicy::StrictAdd => if entries.dom().contains(key) {
                Err(ContractError::AlreadyExists)
            } else {
                Ok(())
            },
            WritePolicy::StrictUpdate => if entries.dom().contains(key) {
                Ok(())
            } else {
                Err(ContractError::NotFound)
            },
        }
    }
}

/// The entries after `set`: the value stands under the key if the write
/// was accepted, and nothing has changed if it was refused.
pub open spec fn set_entries(
    policy: WritePolicy,
    entries: Map<Key, PrimitiveView>,
    key: Key,
    value: PrimitiveView,
) -> Map<Key, PrimitiveView> {
    if set_result(policy, entries, key, value) is Ok {
        entries.insert(key, value)
    } else {
        entries
    }
}

/// What `get` answers: the value under the key, or `NotFound`.
pub open spec fn get_result(entries: Map<Key, PrimitiveView>, key: Key) -> Result<
    PrimitiveView,
    ContractError,
> {
    if entries.dom().contains(key) {
        Ok(entries[key])
    } else {
        Err(ContractError::NotFound)
    }
}

/// What `delete` answers: only an entry that is present can be deleted.
pub open spec fn delete_result(entries: Map<Key, PrimitiveView>, key: Key) -> Result<
    (),
    ContractError,
> {
    if entries.dom().contains(key) {
        Ok(())
    } else {
        Err(ContractError::NotFound)
    }
}

/// The entries after `delete`: none stands under the key.
pub open spec fn delete_entries(entries: Map<Key, PrimitiveView>, key: Key) -> Map<
    Key,
    PrimitiveView,
> {
    entries.remove(key)
}

/// A value that was written can be read: after an accepted `set`, `get`
/// under the same owner and name gives the value that was written. With
/// the policy `Upsert` every valid value is accepted.
pub proof fn law_set_then_get(
    policy: WritePolicy,
    entries: Map<Key, PrimitiveView>,
    key: Key,
    value: PrimitiveView,
)
    requires
        !value.is_invalid(),
    ensures
        policy == WritePolicy::Upsert ==> set_result(policy, entries, key, value) is Ok,
        set_result(policy, entries, key, value) is Ok ==> get_result(
            set_entries(policy, entries, key, value),
            key,
        ) == Ok::<PrimitiveView, ContractError>(value),
{
}

/// After `delete`, `get` under the same owner and name answers `NotFound`,
/// whether an entry was there or not; `delete` itself answers `NotFound`
/// exactly when none was there.
pub proof fn law_delete_then_get(entries: Map<Key, PrimitiveView>, key: Key)
    ensures
        get_result(delete_entries(entries, key), key) == Err::<PrimitiveView, ContractError>(
            ContractError::NotFound,
        ),
        delete_result(entries, key) == Err::<(), ContractError>(ContractError::NotFound)
            <==> !entries.dom().contains(key),
        delete_result(entries, key) is Err ==> delete_entries(entries, key) == entries,
{
    if !entries.dom().contains(key) {
        assert(entries.remove(key) =~= entries);
    }
}

/// A request touches one key: a refused `set` changes nothing, and neither
/// `set` nor `delete` changes what `get` answers under another key.
pub proof fn law_other_keys_untouched(
    policy: WritePolicy,
    entries: Map<Key, PrimitiveView>,
    key: Key,
    value: PrimitiveView,
    other: Key,
)
    requires
        other != key,
    ensures
        set_result(policy, entries, key, value) is Err ==> set_entries(policy, entries, key, value)
            == entries,
        get_result(set_entries(policy, entries, key, value), other) == get_result(entries, other),
        get_result(delete_entries(entries, key), other) == get_result(entries, other),
{
}

struct Entry {
    owner: String,
    name: String,
    value: Primitive,
}

spec fn key_of(entry: Entry) -> Key {
    (entry.owner@, entry.name@)
}

spec fn distinct_keys(entries: Seq<Entry>) -> bool {
    forall|i: int, j: int|
        0 <= i < j < entries.len() ==> key_of(#[trigger] entries[i]) != key_of(
            #[trigger] entries[j],
        )
}

spec fn all_valid(entries: Seq<Entry>) -> bool {
    forall|i: int| 0 <= i < entries.len() ==> !(#[trigger] entries[i]).value@.is_invalid()
}

spec fn holds(entries: Seq<Entry>, key: Key) -> bool {
    exists|i: int| 0 <= i < entries.len() && key_of(#[trigger] entries[i]) == key
}

spec fn index_of(entries: Seq<Entry>, key: Key) -> int {
    choose|i: int| 0 <= i < entries.len() && key_of(#[trigger] entries[i]) == key
}

spec fn as_map(entries: Seq<Entry>) -> Map<Key, PrimitiveView> {
    Map::new(|key: Key| holds(entries, key), |key: Key| entries[index_of(entries, key)].value@)
}

proof fn lemma_entry_at(entries: Seq<Entry>, i: int)
    requires
        distinct_keys(entries),
        0 <= i < entries.len(),
    ensures
        holds(entries, key_of(entries[i])),
        index_of(entries, key_of(entries[i])) == i,
        as_map(entries).dom().contains(key_of(entries[i])),
        as_map(entries)[key_of(entries[i])] == entries[i].value@,
{
    let key = key_of(entries[i]);
    assert(holds(entries, key));
    let j = index_of(entries, key);
    assert(0 <= j < entries.len() && key_of(entries[j]) == key);
    if j < i {
        assert(key_of(entries[j]) != key_of(entries[i]));
    }
    if i < j {
        assert(key_of(entries[i]) != key_of(entries[j]));
    }
}

proof fn lemma_push(entries: Seq<Entry>, entry: Entry)
    requires
        distinct_keys(entries),
        !holds(entries, key_of(entry)),
    ensures
        distinct_keys(entries.push(entry)),
        as_map(entries.push(entry)) == as_map(entries).insert(key_of(entry), entry.value@),
{
    let more = entries.push(entry);
    assert forall|i: int, j: int| 0 <= i < j < more.len() implies key_of(#[trigger] more[i])
        != key_of(#[trigger] more[j]) by {
        if j == entries.len() {
            assert(more[i] == entries[i]);
            assert(key_of(entries[i]) != key_of(entry));
        } else {
            assert(more[i] == entries[i] && more[j] == entries[j]);
        }
    }
    assert forall|key: Key| #[trigger] holds(more, key) <==> (holds(entries, key) || key == key_of(
        entry,
    )) by {
        if holds(more, key) {
            let i = index_of(more, key);
            if i < entries.len() {
                assert(key_of(entries[i]) == key);
            }
        }
        if holds(entries, key) {
            let i = index_of(entries, key);
            assert(key_of(more[i]) == key);
        }
        if key == key_of(entry) {
            assert(key_of(more[entries.len() as int]) == key);
        }
    }
    assert forall|key: Key| holds(more, key) implies #[trigger] as_map(more)[key] == as_map(
        entries,
    ).insert(key_of(entry), entry.value@)[key] by {
        let i = index_of(more, key);
        lemma_entry_at(more, i);
        if i < entries.len() {
            assert(more[i] == entries[i]);
            lemma_entry_at(entries, i);
        }
    }
    assert(as_map(more) =~= as_map(entries).insert(key_of(entry), entry.value@));
}

proof fn lemma_remove(entries: Seq<Entry>, i: int)
    requires
        distinct_keys(entries),
        0 <= i < entries.len(),
    ensures
        distinct_keys(entries.remove(i)),
        !holds(entries.remove(i), key_of(entries[i])),
        as_map(entries.remove(i)) == as_map(entries).remove(key_of(entries[i])),
{
    let fewer = entries.remove(i);
    let gone = key_of(entries[i]);
    assert forall|j: int| 0 <= j < fewer.len() implies #[trigger] fewer[j] == entries[if j < i {
        j
    } else {
        j + 1
    }] by {}
    assert forall|a: int, b: int| 0 <= a < b < fewer.len() implies key_of(#[trigger] fewer[a])
        != key_of(#[trigger] fewer[b]) by {
        let a0 = if a < i { a } else { a + 1 };
        let b0 = if b < i { b } else { b + 1 };
        assert(fewer[a] == entries[a0] && fewer[b] == entries[b0]);
        assert(key_of(entries[a0]) != key_of(entries[b0]));
    }
    assert forall|j: int| 0 <= j < fewer.len() implies key_of(#[trigger] fewer[j]) != gone by {
        let j0 = if j < i { j } else { j + 1 };
        assert(fewer[j] == entries[j0]);
        if j0 < i {
            assert(key_of(entries[j0]) != key_of(entries[i]));
        } else {
            assert(key_of(entries[i]) != key_of(entries[j0]));
        }
    }
    assert forall|key: Key| #[trigger] holds(fewer, key) <==> (holds(entries, key) && key
        != gone) by {
        if holds(fewer, key) {
            let j = index_of(fewer, key);
            let j0 = if j < i { j } else { j + 1 };
            assert(fewer[j] == entries[j0]);
            assert(key_of(entries[j0]) == key);
        }
        if holds(entries, key) && key != gone {
            let j0 = index_of(entries, key);
            let j = if j0 < i { j0 } else { j0 - 1 };
            assert(fewer[j] == entries[j0]);
            assert(key_of(fewer[j]) == key);
        }
    }
    assert forall|key: Key| holds(fewer, key) implies #[trigger] as_map(fewer)[key] == as_map(
        entries,
    ).remove(gone)[key] by {
        let j = index_of(fewer, key);
        let j0 = if j < i { j } else { j + 1 };
        assert(fewer[j] == entries[j0]);
        lemma_entry_at(fewer, j);
        lemma_entry_at(entries, j0);
    }
    assert(as_map(fewer) =~= as_map(entries).remove(gone));
}

/// The place of the entry under the owner and the name, if there is one.
fn find(entries: &Vec<Entry>, owner: &String, name: &String) -> (found: Option<usize>)
    ensures
        match found {
            Some(i) => i < entries@.len() && key_of(entries@[i as int]) == (owner@, name@),
            None => !holds(entries@, (owner@, name@)),
        },
{
    let mut i: usize = 0;
    while i < entries.len()
        invariant
            i <= entries.len(),
            forall|j: int| 0 <= j < i ==> key_of(#[trigger] entries@[j]) != (owner@, name@),
        decreases entries.len() - i,
    {
        if entries[i].owner == *owner && entries[i].name == *name {
            return Some(i);
        }
        i += 1;
    }
    None
}

/// The entries: a value under each pair of owner and name that was written
/// and not deleted. A stored value is never an invalid one.
pub struct ValueStore {
    policy: WritePolicy,
    entries: Vec<Entry>,
}

impl View for ValueStore {
    type V = Map<Key, PrimitiveView>;

    closed spec fn view(&self) -> Map<Key, PrimitiveView> {
        as_map(self.entries@)
    }
}

impl ValueStore {
    #[verifier::type_invariant]
    spec fn well_formed(self) -> bool {
        distinct_keys(self.entries@) && all_valid(self.entries@)
    }

    /// The policy that the store was made with.
    pub closed spec fn policy(self) -> WritePolicy {
        self.policy
    }

    /// An empty store that creates or replaces on `set`.
    pub fn new() -> (store: ValueStore)
        ensures
            store@ == Map::<Key, PrimitiveView>::empty(),
            store.policy() == WritePolicy::Upsert,
    {
        ValueStore::with_policy(WritePolicy::Upsert)
    }

    /// An empty store with the given policy.
    pub fn with_policy(policy: WritePolicy) -> (store: ValueStore)
        ensures
            store@ == Map::<Key, PrimitiveView>::empty(),
            store.policy() == policy,
    {
        let store = ValueStore { policy, entries: Vec::new() };
        assert(store@ =~= Map::<Key, PrimitiveView>::empty());
        store
    }

    /// The policy that the store was made with.
    pub fn write_policy(&self) -> (policy: WritePolicy)
        ensures
            policy == self.policy(),
    {
        self.policy
    }

    /// Writes `value` under the owner and the name, as far as the value is
    /// valid and the policy accepts the key.
    pub fn set(&mut self, owner: &Addr, name: &str, value: Primitive) -> (res: Result<
        (),
        ContractError,
    >)
        ensures
            res == set_result(old(self).policy(), old(self)@, (owner@, name@), value@),
            final(self)@ == set_entries(old(self).policy(), old(self)@, (owner@, name@), value@),
            final(self).policy() == old(self).policy(),
    {
        proof {
            use_type_invariant(&*self);
        }
        if value.is_invalid() {
            return Err(ContractError::InvalidValue);
        }
        let owner = owner.to_string();
        let name = String::from_str(name);
        let found = find(&self.entries, &owner, &name);
        let ghost before = self.entries@;
        match found {
            Some(i) => {
                proof {
                    lemma_entry_at(before, i as int);
                }
                match self.policy {
                    WritePolicy::StrictAdd => Err(ContractError::AlreadyExists),
                    _ => {
                        let mut entries: Vec<Entry> = Vec::new();
                        std::mem::swap(&mut entries, &mut self.entries);
                        entries.remove(i);
                        let entry = Entry { owner, name, value };
                        entries.push(entry);
                        proof {
                            lemma_remove(before, i as int);
                            lemma_push(before.remove(i as int), entry);
                            assert(as_map(before).remove(key_of(entry)).insert(
                                key_of(entry),
                                entry.value@,
                            ) =~= as_map(before).insert(key_of(entry), entry.value@));
                        }
                        self.entries = entries;
                        Ok(())
                    },
                }
            },
            None => {
                match self.policy {
                    WritePolicy::StrictUpdate => Err(ContractError::NotFound),
                    _ => {
                        let mut entries: Vec<Entry> = Vec::new();
                        std::mem::swap(&mut entries, &mut self.entries);
                        let entry = Entry { owner, name, value };
                        entries.push(entry);
                        proof {
                            lemma_push(before, entry);
                        }
                        self.entries = entries;
                        Ok(())
                    },
                }
            },
        }
    }

    /// The value under the owner and the name.
    pub fn get(&self, owner: &Addr, name: &str) -> (res: Result<Primitive, ContractError>)
        ensures
            match res {
                Ok(value) => get_result(self@, (owner@, name@)) == Ok::<
                    PrimitiveView,
                    ContractError,
                >(value@) && !value@.is_invalid(),
                Err(error) => get_result(self@, (owner@, name@)) == Err::<
                    PrimitiveView,
                    ContractError,
                >(error),
            },
    {
        proof {
            use_type_invariant(self);
        }
        let owner = owner.to_string();
        let name = String::from_str(name);
        match find(&self.entries, &owner, &name) {
            Some(i) => {
                proof {
                    lemma_entry_at(self.entries@, i as int);
                }
                Ok(self.entries[i].value.clone())
            },
            None => Err(ContractError::NotFound),
        }
    }

    /// Removes the entry under the owner and the name, if there is one.
    pub fn delete(&mut self, owner: &Addr, name: &str) -> (res: Result<(), ContractError>)
        ensures
            res == delete_result(old(self)@, (owner@, name@)),
            final(self)@ == delete_entries(old(self)@, (owner@, name@)),
            final(self).policy() == old(self).policy(),
    {
        proof {
            use_type_invariant(&*self);
        }
        let owner = owner.to_string();
        let name = String::from_str(name);
        let ghost before = self.entries@;
        match find(&self.entries, &owner, &name) {
            Some(i) => {
                let mut entries: Vec<Entry> = Vec::new();
                std::mem::swap(&mut entries, &mut self.entries);
                entries.remove(i);
                proof {
                    lemma_entry_at(before, i as int);
                    lemma_remove(before, i as int);
                }
                self.entries = entries;
                Ok(())
            },
            None => {
                assert(as_map(before).remove((owner@, name@)) =~= as_map(before));
                Err(ContractError::NotFound)
            },
        }
    }
}

/// The configuration record: absent until `init`, and then kept.
pub struct ConfigStore {
    record: Option<Config>,
}

impl View for ConfigStore {
    type V = Option<Seq<char>>;

    /// The owner's text, once the record is written.
    closed spec fn view(&self) -> Option<Seq<char>> {
        match self.record {
            Some(config) => Some(config.owner@),
            None => None,
        }
    }
}

impl ConfigStore {
    /// A store without a record.
    pub fn new() -> (store: ConfigStore)
        ensures
            store@ is None,
    {
        ConfigStore { record: None }
    }

    /// Writes the record. It is written once: a store that holds a record
    /// is not initialized again.
    pub fn init(&mut self, owner: Addr)
        requires
            old(self)@ is None,
        ensures
            final(self)@ == Some(owner@),
    {
        self.record = Some(Config { owner });
    }

    /// The record, or `NotFound` where the store was never initialized.
    pub fn get(&self) -> (res: Result<Config, ContractError>)
        ensures
            match self@ {
                Some(owner) => res is Ok && res->Ok_0.owner@ == owner,
                None => res == Err::<Config, ContractError>(ContractError::NotFound),
            },
    {
        match &self.record {
            Some(config) => Ok(config.clone()),
            None => Err(ContractError::NotFound),
        }
    }
}

/// All that is stored: the configuration record and the entries.
pub struct State {
    pub config: ConfigStore,
    pub data: ValueStore,
}

impl State {
    /// Nothing stored yet; `set` will create or replace.
    pub fn new() -> (state: State)
        ensures
            state.config@ is None,
            state.data@ == Map::<Key, PrimitiveView>::empty(),
            state.data.policy() == WritePolicy::Upsert,
    {
        State { config: ConfigStore::new(), data: ValueStore::new() }
    }

    /// Nothing stored yet, with the given policy for `set`.
    pub fn with_policy(policy: WritePolicy) -> (state: State)
        ensures
            state.config@ is None,
            state.data@ == Map::<Key, PrimitiveView>::empty(),
            state.data.policy() == policy,
    {
        State { config: ConfigStore::new(), data: ValueStore::with_policy(policy) }
    }
}

} // verus!
