//! The host's value model: what a host runtime can hand to the adapter and
//! take back from it.

use vstd::prelude::*;

verus! {

/// Largest magnitude of an integer that a host number holds exactly.
pub const MAX_SAFE_INTEGER: u64 = 9007199254740991;

/// Whether `n` is an integer that a host number holds exactly.
pub open spec fn is_safe_integer(n: int) -> bool {
    -(MAX_SAFE_INTEGER as int) <= n <= MAX_SAFE_INTEGER as int
}

/// A value of the host runtime, as the adapter sees it.
///
/// A record is a keyed mapping written as a list of members. Where a key
/// occurs twice, the first member is the one that is read.
#[derive(Debug, PartialEq, Eq)]
pub enum HostValue {
    /// The host's marker for "nothing here".
    Undefined,
    /// The host's explicit null.
    Null,
    Bool(bool),
    /// An integral number.
    Number(i64),
    Text(String),
    /// A byte buffer.
    Bytes(Vec<u8>),
    List(Vec<HostValue>),
    Record(Vec<(String, HostValue)>),
    /// Anything else the host may hold (a function, a symbol, a number that
    /// is no integer). No schema reads it.
    Opaque,
}

/// The mathematical model of a [`HostValue`].
pub enum Value {
    Undefined,
    Null,
    Bool(bool),
    Number(int),
    Text(Seq<char>),
    Bytes(Seq<u8>),
    List(Seq<Value>),
    Record(Seq<(Seq<char>, Value)>),
    Opaque,
}

impl View for HostValue {
    type V = Value;

    open spec fn view(&self) -> Value
        decreases self,
    {
        match self {
            HostValue::Undefined => Value::Undefined,
            HostValue::Null => Value::Null,
            HostValue::Bool(b) => Value::Bool(*b),
            HostValue::Number(n) => Value::Number(*n as int),
            HostValue::Text(s) => Value::Text(s@),
            HostValue::Bytes(b) => Value::Bytes(b@),
            HostValue::List(items) => Value::List(list_view(*items)),
            HostValue::Record(members) => Value::Record(members_view(*members)),
            HostValue::Opaque => Value::Opaque,
        }
    }
}

impl Clone for HostValue {
    /// A copy that stands for the same value.
    fn clone(&self) -> (copy: HostValue)
        ensures
            copy@ == self@,
        decreases self,
    {
        match self {
            HostValue::Undefined => HostValue::Undefined,
            HostValue::Null => HostValue::Null,
            HostValue::Bool(b) => HostValue::Bool(*b),
            HostValue::Number(n) => HostValue::Number(*n),
            HostValue::Text(s) => HostValue::Text(s.clone()),
            HostValue::Bytes(b) => {
                let copy = b.clone();
                assert(copy@ =~= b@);
                HostValue::Bytes(copy)
            },
            HostValue::List(items) => {
                let mut copies: Vec<HostValue> = Vec::new();
                let mut i: usize = 0;
                while i < items.len()
                    invariant
                        *self == HostValue::List(*items),
                        i <= items.len(),
                        copies.len() == i,
                        forall|j: int| 0 <= j < i ==> (#[trigger] copies@[j])@ == items@[j]@,
                    decreases items.len() - i,
                {
                    assert(decreases_to!(*self => self->List_0));
                    copies.push(items[i].clone());
                    i += 1;
                }
                assert(list_view(copies) =~= list_view(*items));
                HostValue::List(copies)
            },
            HostValue::Record(members) => {
                let mut copies: Vec<(String, HostValue)> = Vec::new();
                let mut i: usize = 0;
                while i < members.len()
                    invariant
                        *self == HostValue::Record(*members),
                        i <= members.len(),
                        copies.len() == i,
                        forall|j: int|
                            0 <= j < i ==> (#[trigger] copies@[j]).0@ == members@[j].0@
                                && copies@[j].1@ == members@[j].1@,
                    decreases members.len() - i,
                {
                    assert(decreases_to!(*self => self->Record_0));
                    copies.push((members[i].0.clone(), members[i].1.clone()));
                    i += 1;
                }
                assert(members_view(copies) =~= members_view(*members));
                HostValue::Record(copies)
            },
            HostValue::Opaque => HostValue::Opaque,
        }
    }
}

/// The models of the items of a list, in order.
pub open spec fn list_view(items: Vec<HostValue>) -> Seq<Value>
    decreases items,
{
    Seq::new(
        items@.len(),
        |i: int|
            if 0 <= i < items@.len() {
                items@[i].view()
            } else {
                Value::Undefined
            },
    )
}

/// The models of the members of a record, in order.
pub open spec fn members_view(members: Vec<(String, HostValue)>) -> Seq<(Seq<char>, Value)>
    decreases members,
{
    Seq::new(
        members@.len(),
        |i: int|
            if 0 <= i < members@.len() {
                (members@[i].0@, members@[i].1.view())
            } else {
                (Seq::empty(), Value::Undefined)
            },
    )
}

/// Whether the host can hold `value` without loss: every number in it is an
/// integer that a host number holds exactly.
pub open spec fn representable(value: Value) -> bool
    decreases value,
{
    match value {
        Value::Number(n) => is_safe_integer(n),
        Value::List(items) => forall|i: int|
            0 <= i < items.len() ==> representable(#[trigger] items[i]),
        Value::Record(members) => forall|i: int|
            0 <= i < members.len() ==> representable((#[trigger] members[i]).1),
        _ => true,
    }
}

/// Each item of a list that the host can hold is one that the host can hold.
pub proof fn lemma_representable_item(items: Seq<Value>, at: int)
    requires
        representable(Value::List(items)),
        0 <= at < items.len(),
    ensures
        representable(items[at]),
{
    let whole = Value::List(items);
    assert(decreases_to!(whole => whole->List_0));
    assert(decreases_to!(items => items[at]));
}

/// Each member of a record that the host can hold has a value that the host
/// can hold.
pub proof fn lemma_representable_member(members: Seq<(Seq<char>, Value)>, at: int)
    requires
        representable(Value::Record(members)),
        0 <= at < members.len(),
    ensures
        representable(members[at].1),
{
    let whole = Value::Record(members);
    assert(decreases_to!(whole => whole->Record_0));
    assert(decreases_to!(members => members[at]));
    assert(decreases_to!(members[at] => members[at].1));
}

impl HostValue {
    /// Whether the host can hold this value without loss.
    pub fn is_representable(&self) -> (yes: bool)
        ensures
            yes == representable(self@),
        decreases self,
    {
        match self {
            HostValue::Undefined => true,
            HostValue::Null => true,
            HostValue::Bool(_) => true,
            HostValue::Number(n) => -9007199254740991 <= *n && *n <= 9007199254740991,
            HostValue::Text(_) => true,
            HostValue::Bytes(_) => true,
            HostValue::List(items) => {
                let ghost models = list_view(*items);
                let mut i: usize = 0;
                while i < items.len()
                    invariant
                        *self == HostValue::List(*items),
                        models == list_view(*items),
                        i <= items.len(),
                        forall|j: int| 0 <= j < i ==> representable(#[trigger] models[j]),
                    decreases items.len() - i,
                {
                    assert(decreases_to!(*self => self->List_0));
                    if !items[i].is_representable() {
                        assert(!representable(Value::List(models))) by {
                            if representable(Value::List(models)) {
                                lemma_representable_item(models, i as int);
                            }
                        }
                        return false;
                    }
                    i += 1;
                }
                true
            },
            HostValue::Record(members) => {
                let ghost models = members_view(*members);
                let mut i: usize = 0;
                while i < members.len()
                    invariant
                        *self == HostValue::Record(*members),
                        models == members_view(*members),
                        i <= members.len(),
                        forall|j: int| 0 <= j < i ==> representable((#[trigger] models[j]).1),
                    decreases members.len() - i,
                {
                    assert(decreases_to!(*self => self->Record_0));
                    if !members[i].1.is_representable() {
                        assert(!representable(Value::Record(models))) by {
                            if representable(Value::Record(models)) {
                                lemma_representable_member(models, i as int);
                            }
                        }
                        return false;
                    }
                    i += 1;
                }
                true
            },
            HostValue::Opaque => true,
        }
    }
}

/// What a record holds under `key`: the value of the first member with that
/// key, or `None` where no member has it.
pub open spec fn lookup(members: Seq<(Seq<char>, Value)>, key: Seq<char>) -> Option<Value>
    decreases members.len(),
{
    if members.len() == 0 {
        None
    } else if members[0].0 == key {
        Some(members[0].1)
    } else {
        lookup(members.skip(1), key)
    }
}

/// A key that none of the first `n` members has is looked up among the rest.
pub proof fn lemma_lookup_skip(members: Seq<(Seq<char>, Value)>, key: Seq<char>, n: int)
    requires
        0 <= n <= members.len(),
        forall|j: int| 0 <= j < n ==> members[j].0 != key,
    ensures
        lookup(members, key) == lookup(members.skip(n), key),
    decreases n,
{
    if n == 0 {
        assert(members.skip(0) =~= members);
    } else {
        lemma_lookup_skip(members, key, n - 1);
        let rest = members.skip(n - 1);
        assert(rest[0] == members[n - 1]);
        assert(rest.skip(1) =~= members.skip(n));
    }
}

/// The member at place `at` is the one that is read, where no earlier
/// member has its key.
pub proof fn lemma_lookup_at(members: Seq<(Seq<char>, Value)>, key: Seq<char>, at: int)
    requires
        0 <= at < members.len(),
        members[at].0 == key,
        forall|j: int| 0 <= j < at ==> members[j].0 != key,
    ensures
        lookup(members, key) == Some(members[at].1),
{
    lemma_lookup_skip(members, key, at);
    assert(members.skip(at)[0] == members[at]);
}

/// A key that no member has is not found.
pub proof fn lemma_lookup_absent(members: Seq<(Seq<char>, Value)>, key: Seq<char>)
    requires
        forall|j: int| 0 <= j < members.len() ==> members[j].0 != key,
    ensures
        lookup(members, key) is None,
{
    lemma_lookup_skip(members, key, members.len() as int);
}

/// A member with another key, put in at any place, does not change what is
/// read under `key`.
pub proof fn lemma_lookup_insert_other(
    members: Seq<(Seq<char>, Value)>,
    key: Seq<char>,
    at: int,
    member: (Seq<char>, Value),
)
    requires
        0 <= at <= members.len(),
        member.0 != key,
    ensures
        lookup(members.insert(at, member), key) == lookup(members, key),
    decreases at,
{
    let grown = members.insert(at, member);
    if at == 0 {
        assert(grown[0] == member);
        assert(grown.skip(1) =~= members);
    } else {
        assert(grown[0] == members[0]);
        if members[0].0 != key {
            assert(grown.skip(1) =~= members.skip(1).insert(at - 1, member));
            lemma_lookup_insert_other(members.skip(1), key, at - 1, member);
        }
    }
}

/// Reads the member of a record that has the key `key`.
pub fn find<'a>(members: &'a Vec<(String, HostValue)>, key: &str) -> (found: Option<&'a HostValue>)
    ensures
        (match found {
            Some(value) => lookup(members_view(*members), key@) == Some(value@),
            None => lookup(members_view(*members), key@) is None,
        }),
{
    let wanted = key.to_owned();
    let ghost all = members_view(*members);
    let mut i: usize = 0;
    while i < members.len()
        invariant
            i <= members.len(),
            wanted@ == key@,
            all == members_view(*members),
            forall|j: int| 0 <= j < i ==> all[j].0 != key@,
        decreases members.len() - i,
    {
        if members[i].0 == wanted {
            proof {
                lemma_lookup_skip(all, key@, i as int);
                assert(all.skip(i as int)[0] == all[i as int]);
            }
            return Some(&members[i].1);
        }
        i += 1;
    }
    proof {
        lemma_lookup_skip(all, key@, i as int);
    }
    None
}

/// Appends an item to a list under construction.
pub fn push_item(items: &mut Vec<HostValue>, item: HostValue)
    ensures
        list_view(*final(items)) == list_view(*old(items)).push(item@),
{
    let ghost before = list_view(*items);
    items.push(item);
    assert(list_view(*items) =~= before.push(item@));
}

/// Appends a member to a record under construction.
pub fn push_member(members: &mut Vec<(String, HostValue)>, key: &str, value: HostValue)
    ensures
        members_view(*final(members)) == members_view(*old(members)).push((key@, value@)),
{
    let ghost before = members_view(*members);
    members.push((key.to_owned(), value));
    assert(members_view(*members) =~= before.push((key@, value@)));
}

} // verus!
