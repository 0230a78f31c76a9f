//! The payload document: an untyped key-value structure that stands for a
//! request body before it is sent.

use vstd::prelude::*;
use vstd::string::StringExecFns;

verus! {

/// One value of a payload document.
#[derive(Debug, PartialEq)]
pub enum Value {
    Null,
    Bool(bool),
    Number(u64),
    String(String),
    Array(Vec<Value>),
    Object(JsonMap),
}

/// A payload document: keys with their values, in the order in which the keys
/// were first inserted. No key occurs twice.
#[derive(Debug, PartialEq)]
pub struct JsonMap {
    entries: Vec<(String, Value)>,
}

/// What a [`Value`] holds.
pub enum ValueView {
    Null,
    Bool(bool),
    Number(u64),
    String(Seq<char>),
    Array(Seq<ValueView>),
    Object(Seq<(Seq<char>, ValueView)>),
}

/// What a [`JsonMap`] holds: its entries in order.
pub type MapView = Seq<(Seq<char>, ValueView)>;

/// The value under the first entry of `doc` with the key `key`.
pub open spec fn lookup(doc: MapView, key: Seq<char>) -> Option<ValueView>
    decreases doc.len(),
{
    if doc.len() == 0 {
        None
    } else if doc[0].0 == key {
        Some(doc[0].1)
    } else {
        lookup(doc.skip(1), key)
    }
}

/// The position of the first entry of `doc` with the key `key`.
pub open spec fn position(doc: MapView, key: Seq<char>) -> Option<int>
    decreases doc.len(),
{
    if doc.len() == 0 {
        None
    } else if doc[0].0 == key {
        Some(0int)
    } else {
        match position(doc.skip(1), key) {
            Some(i) => Some(i + 1),
            None => None,
        }
    }
}

/// `doc` with `value` under `key`: in the place of the entry that had the
/// key, or else at the end.
pub open spec fn with_entry(doc: MapView, key: Seq<char>, value: ValueView) -> MapView {
    match position(doc, key) {
        Some(i) => doc.update(i, (key, value)),
        None => doc.push((key, value)),
    }
}

/// `doc` with `item` added to the list under `key`. A key without an entry
/// gets a list of the one item; an entry that is no list stays as it is.
pub open spec fn with_item(doc: MapView, key: Seq<char>, item: ValueView) -> MapView {
    match lookup(doc, key) {
        Some(ValueView::Array(items)) => with_entry(doc, key, ValueView::Array(items.push(item))),
        Some(_) => doc,
        None => with_entry(doc, key, ValueView::Array(seq![item])),
    }
}

/// Whether no two entries of `doc` have the same key.
pub open spec fn distinct_keys(doc: MapView) -> bool {
    forall|i: int, j: int| 0 <= i < j < doc.len() ==> (#[trigger] doc[i]).0 != (#[trigger] doc[j]).0
}

/// The member `key` of an object; nothing for a value of another kind.
pub open spec fn member(v: ValueView, key: Seq<char>) -> Option<ValueView> {
    match v {
        ValueView::Object(doc) => lookup(doc, key),
        _ => None,
    }
}

impl View for Value {
    type V = ValueView;

    open spec fn view(&self) -> ValueView {
        value_view(*self)
    }
}

impl View for JsonMap {
    type V = MapView;

    open spec fn view(&self) -> MapView {
        map_view(*self)
    }
}

/// What a value holds.
pub open spec fn value_view(v: Value) -> ValueView
    decreases v,
{
    match v {
        Value::Null => ValueView::Null,
        Value::Bool(b) => ValueView::Bool(b),
        Value::Number(n) => ValueView::Number(n),
        Value::String(s) => ValueView::String(s@),
        Value::Array(items) => ValueView::Array(views(items@)),
        Value::Object(map) => ValueView::Object(map_view(map)),
    }
}

/// What the values of a list hold, in order.
pub open spec fn views(items: Seq<Value>) -> Seq<ValueView>
    decreases items,
{
    if items.len() == 0 {
        Seq::empty()
    } else {
        views(items.drop_last()).push(value_view(items.last()))
    }
}

/// What a document holds: its entries in order.
pub closed spec fn map_view(map: JsonMap) -> MapView
    decreases map,
{
    entries_view(map.entries@)
}

/// What the given entries of a document hold, in order.
spec fn entries_view(entries: Seq<(String, Value)>) -> MapView
    decreases entries,
{
    if entries.len() == 0 {
        Seq::empty()
    } else {
        entries_view(entries.drop_last()).push((entries.last().0@, value_view(entries.last().1)))
    }
}

/// The views of a list stand at the places of the values.
pub proof fn lemma_views(items: Seq<Value>)
    ensures
        views(items).len() == items.len(),
        forall|i: int| 0 <= i < items.len() ==> (#[trigger] views(items)[i]) == items[i]@,
    decreases items.len(),
{
    if items.len() > 0 {
        lemma_views(items.drop_last());
    }
}

/// The views of the entries stand at the places of the entries.
proof fn lemma_entries_view(entries: Seq<(String, Value)>)
    ensures
        entries_view(entries).len() == entries.len(),
        forall|i: int|
            0 <= i < entries.len() ==> (#[trigger] entries_view(entries)[i]) == (
                entries[i].0@,
                entries[i].1@,
            ),
    decreases entries.len(),
{
    if entries.len() > 0 {
        lemma_entries_view(entries.drop_last());
    }
}

/// What an optional reference to a value holds.
pub open spec fn opt_view(v: Option<&Value>) -> Option<ValueView> {
    match v {
        Some(x) => Some(x@),
        None => None,
    }
}

impl Value {
    /// The text of a text value; nothing for a value of another kind.
    pub fn as_str(&self) -> (r: Option<&str>)
        ensures
            match r {
                Some(text) => self@ == ValueView::String(text@),
                None => !(self@ is String),
            },
    {
        match self {
            Value::String(text) => Some(text.as_str()),
            _ => None,
        }
    }

    /// The items of a list; nothing for a value of another kind.
    pub fn as_array(&self) -> (r: Option<&Vec<Value>>)
        ensures
            match r {
                Some(items) => self@ == ValueView::Array(views(items@)),
                None => !(self@ is Array),
            },
    {
        match self {
            Value::Array(items) => Some(items),
            _ => None,
        }
    }

    /// The member `key` of an object; nothing for a value of another kind.
    pub fn get(&self, key: &str) -> (r: Option<&Value>)
        ensures
            opt_view(r) == member(self@, key@),
    {
        match self {
            Value::Object(map) => map.get(key),
            _ => None,
        }
    }
}

impl JsonMap {
    #[verifier::type_invariant]
    spec fn keys_are_distinct(&self) -> bool {
        distinct_keys(entries_view(self.entries@))
    }

    /// The empty document.
    pub fn new() -> (r: JsonMap)
        ensures
            r@ == MapView::empty(),
    {
        JsonMap { entries: Vec::new() }
    }

    /// The number of entries.
    pub fn len(&self) -> (r: usize)
        ensures
            r == self@.len(),
    {
        proof {
            lemma_entries_view(self.entries@);
        }
        self.entries.len()
    }

    /// The key of the entry at position `i`. No other entry has this key.
    pub fn key_at(&self, i: usize) -> (r: &String)
        requires
            i < self@.len(),
        ensures
            r@ == self@[i as int].0,
            distinct_keys(self@),
    {
        proof {
            use_type_invariant(self);
            lemma_entries_view(self.entries@);
        }
        &self.entries[i].0
    }

    /// The value of the entry at position `i`.
    pub fn value_at(&self, i: usize) -> (r: &Value)
        requires
            i < self@.len(),
        ensures
            r@ == self@[i as int].1,
    {
        proof {
            lemma_entries_view(self.entries@);
        }
        &self.entries[i].1
    }

    /// The position of the entry with the key `key`.
    pub fn find(&self, key: &str) -> (r: Option<usize>)
        ensures
            match r {
                Some(i) => position(self@, key@) == Some(i as int) && i < self@.len(),
                None => position(self@, key@) is None,
            },
    {
        let mut i: usize = 0;
        proof {
            lemma_entries_view(self.entries@);
        }
        assert(self@.skip(0) == self@);
        while i < self.entries.len()
            invariant
                i <= self@.len(),
                self@.len() == self.entries@.len(),
                forall|j: int| 0 <= j < self@.len() ==> (#[trigger] self@[j]).0 == self.entries@[j].0@,
                position(self@, key@) == match position(self@.skip(i as int), key@) {
                    Some(j) => Some(j + i),
                    None => None,
                },
            decreases self@.len() - i,
        {
            assert(self@.skip(i as int)[0] == self@[i as int]);
            assert(self@.skip(i as int).skip(1) == self@.skip(i + 1));
            if crate::text::str_eq(self.entries[i].0.as_str(), key) {
                return Some(i);
            }
            i += 1;
        }
        None
    }

    /// The value under `key`.
    pub fn get(&self, key: &str) -> (r: Option<&Value>)
        ensures
            opt_view(r) == lookup(self@, key@),
    {
        proof {
            lemma_lookup_at_position(self@, key@);
            lemma_entries_view(self.entries@);
        }
        match self.find(key) {
            Some(i) => Some(&self.entries[i].1),
            None => None,
        }
    }

    /// Puts `value` under `key`: in the place of the value that the key had,
    /// or else as a new last entry.
    pub fn insert(&mut self, key: String, value: Value)
        ensures
            final(self)@ == with_entry(old(self)@, key@, value@),
    {
        proof {
            use_type_invariant(&*self);
            lemma_entries_view(self.entries@);
            lemma_with_entry_distinct(self@, key@, value@);
        }
        let found = self.find(key.as_str());
        let mut taken = JsonMap::new();
        core::mem::swap(self, &mut taken);
        let JsonMap { entries } = taken;
        let mut entries = entries;
        match found {
            Some(i) => {
                entries.set(i, (key, value));
            },
            None => {
                entries.push((key, value));
            },
        }
        proof {
            lemma_entries_view(entries@);
            assert(entries_view(entries@) =~= with_entry(old(self)@, key@, value@));
        }
        *self = JsonMap { entries };
    }

    /// Puts `value` under the key `key`.
    pub fn set(&mut self, key: &str, value: Value)
        ensures
            final(self)@ == with_entry(old(self)@, key@, value@),
    {
        self.insert(String::from_str(key), value)
    }

    /// Adds `item` to the list under `key`. A key without an entry gets a
    /// list of the one item; an entry that is no list stays as it is.
    pub fn append_item(&mut self, key: &str, item: Value)
        ensures
            final(self)@ == with_item(old(self)@, key@, item@),
    {
        proof {
            use_type_invariant(&*self);
            lemma_entries_view(self.entries@);
            lemma_lookup_at_position(self@, key@);
        }
        let found = self.find(key);
        let i = match found {
            Some(i) => i,
            None => {
                let mut items: Vec<Value> = Vec::new();
                items.push(item);
                proof {
                    lemma_views(items@);
                    assert(views(items@) =~= seq![item@]);
                }
                self.set(key, Value::Array(items));
                return ;
            },
        };
        let mut taken = JsonMap::new();
        core::mem::swap(self, &mut taken);
        let JsonMap { entries } = taken;
        let mut entries = entries;
        let ghost before = entries@;
        let (name, value) = entries.remove(i);
        let updated = match value {
            Value::Array(items) => {
                let mut items = items;
                let ghost held = items@;
                items.push(item);
                proof {
                    lemma_views(held);
                    lemma_views(items@);
                    assert(views(items@) =~= views(held).push(item@));
                }
                Value::Array(items)
            },
            other => other,
        };
        entries.insert(i, (name, updated));
        proof {
            lemma_entries_view(entries@);
            lemma_with_entry_distinct(old(self)@, key@, updated@);
            assert(entries_view(entries@) =~= with_item(old(self)@, key@, item@));
        }
        *self = JsonMap { entries };
    }
}

/// A copy of a value.
fn clone_value(v: &Value) -> (r: Value)
    ensures
        r@ == v@,
    decreases v,
{
    match v {
        Value::Null => Value::Null,
        Value::Bool(b) => Value::Bool(*b),
        Value::Number(n) => Value::Number(*n),
        Value::String(text) => Value::String(text.clone()),
        Value::Array(items) => {
            let mut out: Vec<Value> = Vec::new();
            let mut i: usize = 0;
            while i < items.len()
                invariant
                    i <= items@.len(),
                    out@.len() == i,
                    *v == Value::Array(*items),
                    forall|j: int| 0 <= j < i ==> (#[trigger] out@[j])@ == items@[j]@,
                decreases items@.len() - i,
            {
                proof {
                    assert(v->Array_0 == *items);
                    assert(decreases_to!(*v => v->Array_0));
                    vstd::std_specs::vec::axiom_vec_decreases_to_view(*items);
                    assert(decreases_to!(*items => items@));
                    assert(decreases_to!(items@ => items@[i as int]));
                }
                out.push(clone_value(&items[i]));
                i += 1;
            }
            proof {
                lemma_views(out@);
                lemma_views(items@);
                assert(views(out@) =~= views(items@));
            }
            Value::Array(out)
        },
        Value::Object(map) => Value::Object(clone_map(map)),
    }
}

/// A copy of a document.
fn clone_map(map: &JsonMap) -> (r: JsonMap)
    ensures
        r@ == map@,
    decreases map,
{
    proof {
        use_type_invariant(map);
        lemma_entries_view(map.entries@);
    }
    let mut out: Vec<(String, Value)> = Vec::new();
    let mut i: usize = 0;
    while i < map.entries.len()
        invariant
            i <= map.entries@.len(),
            out@.len() == i,
            distinct_keys(entries_view(map.entries@)),
            forall|j: int|
                0 <= j < i ==> (#[trigger] out@[j]).0@ == map.entries@[j].0@ && out@[j].1@
                    == map.entries@[j].1@,
        decreases map.entries@.len() - i,
    {
        proof {
            assert(decreases_to!(*map => map.entries));
            vstd::std_specs::vec::axiom_vec_decreases_to_view(map.entries);
            assert(decreases_to!(map.entries@ => map.entries@[i as int]));
        }
        let key = map.entries[i].0.clone();
        let value = clone_value(&map.entries[i].1);
        out.push((key, value));
        i += 1;
    }
    proof {
        lemma_entries_view(out@);
        assert(entries_view(out@) =~= entries_view(map.entries@));
    }
    JsonMap { entries: out }
}

impl Clone for Value {
    fn clone(&self) -> (r: Self)
        ensures
            r@ == self@,
    {
        clone_value(self)
    }
}

impl Clone for JsonMap {
    fn clone(&self) -> (r: Self)
        ensures
            r@ == self@,
    {
        clone_map(self)
    }
}

/// The first entry with a key holds what `lookup` gives for the key.
pub proof fn lemma_lookup_at_position(doc: MapView, key: Seq<char>)
    ensures
        match position(doc, key) {
            Some(i) => 0 <= i < doc.len() && doc[i].0 == key && lookup(doc, key) == Some(doc[i].1)
                && forall|j: int| 0 <= j < i ==> (#[trigger] doc[j]).0 != key,
            None => lookup(doc, key) is None && forall|j: int|
                0 <= j < doc.len() ==> (#[trigger] doc[j]).0 != key,
        },
    decreases doc.len(),
{
    if doc.len() > 0 && doc[0].0 != key {
        let rest = doc.skip(1);
        lemma_lookup_at_position(rest, key);
        assert forall|j: int| 0 < j < doc.len() implies #[trigger] doc[j] == rest[j - 1] by {}
        match position(rest, key) {
            Some(i) => {
                assert forall|j: int| 0 <= j < i + 1 implies (#[trigger] doc[j]).0 != key by {
                    if j > 0 {
                        assert(doc[j] == rest[j - 1]);
                    }
                }
            },
            None => {
                assert forall|j: int| 0 <= j < doc.len() implies (#[trigger] doc[j]).0 != key by {
                    if j > 0 {
                        assert(doc[j] == rest[j - 1]);
                    }
                }
            },
        }
    }
}

/// After an entry is put under a key, the key leads to its value, and every
/// other key leads to what it led to before.
pub proof fn lemma_with_entry_lookup(doc: MapView, key: Seq<char>, value: ValueView, other: Seq<char>)
    ensures
        lookup(with_entry(doc, key, value), key) == Some(value),
        other != key ==> lookup(with_entry(doc, key, value), other) == lookup(doc, other),
{
    let out = with_entry(doc, key, value);
    lemma_lookup_at_position(doc, key);
    lemma_lookup_at_position(doc, other);
    lemma_lookup_at_position(out, key);
    lemma_lookup_at_position(out, other);
    match position(doc, key) {
        Some(p) => {
            assert(out[p] == (key, value));
            assert forall|j: int| 0 <= j < out.len() && j != p implies #[trigger] out[j]
                == doc[j] by {}
            match position(out, key) {
                Some(q) => {
                    if q < p {
                        assert(out[q] == doc[q]);
                    }
                },
                None => {},
            }
            if other != key {
                match (position(doc, other), position(out, other)) {
                    (Some(a), Some(b)) => {
                        assert(a != p);
                        assert(b != p);
                        assert(out[a] == doc[a]);
                        assert(out[b] == doc[b]);
                        if a < b {
                            assert(out[a].0 == other);
                        } else if b < a {
                            assert(doc[b].0 == other);
                        }
                    },
                    (Some(a), None) => {
                        assert(a != p);
                        assert(out[a] == doc[a]);
                    },
                    (None, Some(b)) => {
                        assert(b != p);
                        assert(out[b] == doc[b]);
                    },
                    (None, None) => {},
                }
            }
        },
        None => {
            let n = doc.len() as int;
            assert(out[n] == (key, value));
            assert forall|j: int| 0 <= j < n implies #[trigger] out[j] == doc[j] by {}
            match position(out, key) {
                Some(q) => {
                    if q < n {
                        assert(out[q] == doc[q]);
                    }
                },
                None => {},
            }
            if other != key {
                match (position(doc, other), position(out, other)) {
                    (Some(a), Some(b)) => {
                        assert(b != n);
                        assert(out[a] == doc[a]);
                        assert(out[b] == doc[b]);
                        if a < b {
                            assert(out[a].0 == other);
                        } else if b < a {
                            assert(doc[b].0 == other);
                        }
                    },
                    (Some(a), None) => {
                        assert(out[a] == doc[a]);
                    },
                    (None, Some(b)) => {
                        assert(b != n);
                        assert(out[b] == doc[b]);
                    },
                    (None, None) => {},
                }
            }
        },
    }
}

/// Adding an item to the list under one key leaves what every other key
/// leads to.
pub proof fn lemma_with_item_lookup(doc: MapView, key: Seq<char>, item: ValueView, other: Seq<char>)
    requires
        other != key,
    ensures
        lookup(with_item(doc, key, item), other) == lookup(doc, other),
{
    match lookup(doc, key) {
        Some(ValueView::Array(items)) => {
            lemma_with_entry_lookup(doc, key, ValueView::Array(items.push(item)), other);
        },
        Some(_) => {},
        None => {
            lemma_with_entry_lookup(doc, key, ValueView::Array(seq![item]), other);
        },
    }
}

/// A key that no entry has is found nowhere.
pub proof fn lemma_absent_key(doc: MapView, key: Seq<char>)
    requires
        forall|j: int| 0 <= j < doc.len() ==> (#[trigger] doc[j]).0 != key,
    ensures
        position(doc, key) is None,
        lookup(doc, key) is None,
        with_entry(doc, key, ValueView::Null).len() == doc.len() + 1,
    decreases doc.len(),
{
    if doc.len() > 0 {
        let rest = doc.skip(1);
        assert forall|j: int| 0 <= j < rest.len() implies (#[trigger] rest[j]).0 != key by {
            assert(rest[j] == doc[j + 1]);
        }
        lemma_absent_key(rest, key);
    }
}

/// Putting an entry into a document without repeated keys leaves it without
/// repeated keys.
pub proof fn lemma_with_entry_distinct(doc: MapView, key: Seq<char>, value: ValueView)
    requires
        distinct_keys(doc),
    ensures
        distinct_keys(with_entry(doc, key, value)),
{
    lemma_lookup_at_position(doc, key);
    let out = with_entry(doc, key, value);
    match position(doc, key) {
        Some(p) => {
            assert forall|i: int, j: int| 0 <= i < j < out.len() implies (#[trigger] out[i]).0 != (
            #[trigger] out[j]).0 by {
                assert(out[i].0 == doc[i].0);
                assert(out[j].0 == doc[j].0);
            }
        },
        None => {
            assert forall|i: int, j: int| 0 <= i < j < out.len() implies (#[trigger] out[i]).0 != (
            #[trigger] out[j]).0 by {
                if j < doc.len() {
                    assert(out[i].0 == doc[i].0);
                    assert(out[j].0 == doc[j].0);
                } else {
                    assert(out[i].0 == doc[i].0);
                }
            }
        },
    }
}

} // verus!
