//! Dynamically typed configuration values and the tables that hold them.

use crate::text::str_eq;
use vstd::prelude::*;

verus! {

/// The mathematical content of a [`Value`].
///
/// Integers of every machine width are one case, arrays are sequences and
/// tables are maps from key to content.
pub enum ValueView {
    Nil,
    Boolean(bool),
    Integer(int),
    Float(u64),
    String(Seq<char>),
    Array(Seq<ValueView>),
    Table(Map<Seq<char>, ValueView>),
}

/// A dynamically typed configuration value.
#[derive(Debug)]
pub enum Value {
    /// The absent value.
    Nil,
    Boolean(bool),
    /// A signed integer.
    Integer(i128),
    /// An integer that arrived in an unsigned machine type.
    Unsigned(u128),
    /// A binary64 number, held as its bit pattern.
    Float(u64),
    String(String),
    Array(Vec<Value>),
    Table(Table),
}

/// A mapping from string keys to values.
///
/// The entries are kept in a list in which no key occurs twice.
#[derive(Debug)]
pub struct Table {
    entries: Vec<(String, Value)>,
}

/// The content of a value.
pub open spec fn value_view(v: Value) -> ValueView
    decreases v,
{
    match v {
        Value::Nil => ValueView::Nil,
        Value::Boolean(b) => ValueView::Boolean(b),
        Value::Integer(i) => ValueView::Integer(i as int),
        Value::Unsigned(u) => ValueView::Integer(u as int),
        Value::Float(bits) => ValueView::Float(bits),
        Value::String(s) => ValueView::String(s@),
        Value::Array(items) => ValueView::Array(array_view(items@)),
        Value::Table(t) => ValueView::Table(table_view(t)),
    }
}

/// The contents of a sequence of values, item by item.
pub open spec fn array_view(items: Seq<Value>) -> Seq<ValueView>
    decreases items,
{
    if items.len() == 0 {
        Seq::empty()
    } else {
        array_view(items.drop_last()).push(value_view(items.last()))
    }
}

/// The map that a table stands for.
pub closed spec fn table_view(t: Table) -> Map<Seq<char>, ValueView>
    decreases t,
{
    entries_view(t.entries@)
}

/// The map built by inserting the entries in order: of two entries with one
/// key, the later one stays.
pub open spec fn entries_view(entries: Seq<(String, Value)>) -> Map<Seq<char>, ValueView>
    decreases entries,
{
    if entries.len() == 0 {
        Map::empty()
    } else {
        entries_view(entries.drop_last()).insert(
            entries.last().0@,
            value_view(entries.last().1),
        )
    }
}

impl View for Value {
    type V = ValueView;

    open spec fn view(&self) -> ValueView {
        value_view(*self)
    }
}

impl View for Table {
    type V = Map<Seq<char>, ValueView>;

    open spec fn view(&self) -> Map<Seq<char>, ValueView> {
        table_view(*self)
    }
}

/// No key occurs at two positions.
pub closed spec fn distinct_keys(entries: Seq<(String, Value)>) -> bool {
    forall|i: int, j: int|
        0 <= i < j < entries.len() ==> (#[trigger] entries[i]).0@ != (#[trigger] entries[j]).0@
}

/// The view of an array has the array's length and holds the views of its items.
pub proof fn lemma_array_view(items: Seq<Value>)
    ensures
        array_view(items).len() == items.len(),
        forall|i: int| 0 <= i < items.len() ==> #[trigger] array_view(items)[i] == value_view(items[i]),
    decreases items.len(),
{
    if items.len() > 0 {
        lemma_array_view(items.drop_last());
    }
}

/// Arrays whose items have the same views, position by position, have the same view.
pub proof fn lemma_array_view_pointwise(a: Seq<Value>, b: Seq<Value>)
    requires
        a.len() == b.len(),
        forall|i: int| 0 <= i < a.len() ==> value_view(#[trigger] a[i]) == value_view(b[i]),
    ensures
        array_view(a) == array_view(b),
{
    lemma_array_view(a);
    lemma_array_view(b);
    assert(array_view(a) =~= array_view(b));
}

proof fn lemma_entries_contains(entries: Seq<(String, Value)>, key: Seq<char>)
    ensures
        entries_view(entries).contains_key(key) <==> exists|i: int|
            0 <= i < entries.len() && (#[trigger] entries[i]).0@ == key,
    decreases entries.len(),
{
    if entries.len() > 0 {
        let front = entries.drop_last();
        lemma_entries_contains(front, key);
        if entries.last().0@ == key {
            assert(entries[entries.len() - 1].0@ == key);
        } else if entries_view(entries).contains_key(key) {
            let i = choose|i: int| 0 <= i < front.len() && (#[trigger] front[i]).0@ == key;
            assert(entries[i].0@ == key);
        } else if exists|i: int| 0 <= i < entries.len() && (#[trigger] entries[i]).0@ == key {
            let i = choose|i: int| 0 <= i < entries.len() && (#[trigger] entries[i]).0@ == key;
            assert(front[i].0@ == key);
        }
    }
}

proof fn lemma_entries_len(entries: Seq<(String, Value)>)
    requires
        distinct_keys(entries),
    ensures
        entries_view(entries).dom().finite(),
        entries_view(entries).dom().len() == entries.len(),
    decreases entries.len(),
{
    if entries.len() > 0 {
        let front = entries.drop_last();
        assert(distinct_keys(front)) by {
            assert forall|a: int, b: int| 0 <= a < b < front.len() implies (#[trigger] front[a]).0@
                != (#[trigger] front[b]).0@ by {
                assert(entries[a].0@ != entries[b].0@);
            }
        }
        lemma_entries_len(front);
        let key = entries.last().0@;
        assert(!entries_view(front).contains_key(key)) by {
            lemma_entries_contains(front, key);
            if exists|i: int| 0 <= i < front.len() && (#[trigger] front[i]).0@ == key {
                let i = choose|i: int| 0 <= i < front.len() && (#[trigger] front[i]).0@ == key;
                assert(entries[i].0@ != entries[entries.len() - 1].0@);
            }
        }
        assert(entries_view(entries).dom() =~= entries_view(front).dom().insert(key));
    } else {
        assert(entries_view(entries).dom() =~= Set::empty());
    }
}

proof fn lemma_entries_lookup(entries: Seq<(String, Value)>, i: int)
    requires
        distinct_keys(entries),
        0 <= i < entries.len(),
    ensures
        entries_view(entries).contains_key(entries[i].0@),
        entries_view(entries)[entries[i].0@] == value_view(entries[i].1),
    decreases entries.len(),
{
    let front = entries.drop_last();
    if i < entries.len() - 1 {
        assert(distinct_keys(front)) by {
            assert forall|a: int, b: int| 0 <= a < b < front.len() implies (#[trigger] front[a]).0@
                != (#[trigger] front[b]).0@ by {
                assert(entries[a].0@ != entries[b].0@);
            }
        }
        lemma_entries_lookup(front, i);
        assert(entries[i].0@ != entries[entries.len() - 1].0@);
    }
}

proof fn lemma_entries_update(entries: Seq<(String, Value)>, i: int, e: (String, Value))
    requires
        distinct_keys(entries),
        0 <= i < entries.len(),
        e.0@ == entries[i].0@,
    ensures
        distinct_keys(entries.update(i, e)),
        entries_view(entries.update(i, e)) == entries_view(entries).insert(e.0@, value_view(e.1)),
    decreases entries.len(),
{
    let updated = entries.update(i, e);
    assert(distinct_keys(updated)) by {
        assert forall|a: int, b: int| 0 <= a < b < updated.len() implies (#[trigger] updated[a]).0@
            != (#[trigger] updated[b]).0@ by {
            assert(entries[a].0@ != entries[b].0@);
        }
    }
    let front = entries.drop_last();
    if i == entries.len() - 1 {
        assert(updated.drop_last() =~= front);
        assert(entries_view(updated) =~= entries_view(entries).insert(e.0@, value_view(e.1)));
    } else {
        assert(distinct_keys(front)) by {
            assert forall|a: int, b: int| 0 <= a < b < front.len() implies (#[trigger] front[a]).0@
                != (#[trigger] front[b]).0@ by {
                assert(entries[a].0@ != entries[b].0@);
            }
        }
        lemma_entries_update(front, i, e);
        assert(updated.drop_last() =~= front.update(i, e));
        assert(entries[i].0@ != entries[entries.len() - 1].0@);
        assert(entries_view(updated) =~= entries_view(entries).insert(e.0@, value_view(e.1)));
    }
}

proof fn lemma_entries_push(entries: Seq<(String, Value)>, e: (String, Value))
    ensures
        entries_view(entries.push(e)) == entries_view(entries).insert(e.0@, value_view(e.1)),
        distinct_keys(entries) && !entries_view(entries).contains_key(e.0@) ==> distinct_keys(
            entries.push(e),
        ),
{
    let pushed = entries.push(e);
    assert(pushed.drop_last() =~= entries);
    if distinct_keys(entries) && !entries_view(entries).contains_key(e.0@) {
        assert forall|a: int, b: int| 0 <= a < b < pushed.len() implies (#[trigger] pushed[a]).0@
            != (#[trigger] pushed[b]).0@ by {
            if b == pushed.len() - 1 {
                lemma_entries_contains(entries, e.0@);
                assert(entries[a].0@ != e.0@);
            } else {
                assert(entries[a].0@ != entries[b].0@);
            }
        }
    }
}

/// Entry lists with the same keys and the same value views, position by
/// position, stand for the same map.
proof fn lemma_entries_pointwise(a: Seq<(String, Value)>, b: Seq<(String, Value)>)
    requires
        a.len() == b.len(),
        forall|i: int|
            0 <= i < a.len() ==> (#[trigger] a[i]).0@ == b[i].0@ && value_view(a[i].1)
                == value_view(b[i].1),
    ensures
        entries_view(a) == entries_view(b),
        distinct_keys(a) ==> distinct_keys(b),
    decreases a.len(),
{
    if a.len() > 0 {
        let fa = a.drop_last();
        let fb = b.drop_last();
        assert forall|i: int| 0 <= i < fa.len() implies (#[trigger] fa[i]).0@ == fb[i].0@
            && value_view(fa[i].1) == value_view(fb[i].1) by {
            assert(a[i].0@ == b[i].0@);
        }
        lemma_entries_pointwise(fa, fb);
        assert(a[a.len() - 1].0@ == b[a.len() - 1].0@);
    }
    if distinct_keys(a) {
        assert forall|i: int, j: int| 0 <= i < j < b.len() implies (#[trigger] b[i]).0@ != (
        #[trigger] b[j]).0@ by {
            assert(a[i].0@ == b[i].0@);
            assert(a[j].0@ == b[j].0@);
        }
    }
}

fn copy_value(v: &Value) -> (r: Value)
    ensures
        value_view(r) == value_view(*v),
    decreases v,
{
    match v {
        Value::Nil => Value::Nil,
        Value::Boolean(b) => Value::Boolean(*b),
        Value::Integer(i) => Value::Integer(*i),
        Value::Unsigned(u) => Value::Unsigned(*u),
        Value::Float(bits) => Value::Float(*bits),
        Value::String(s) => Value::String(s.clone()),
        Value::Array(items) => {
            let mut out: Vec<Value> = Vec::new();
            let mut i: usize = 0;
            while i < items.len()
                invariant
                    i <= items.len(),
                    out.len() == i,
                    *v == Value::Array(*items),
                    forall|j: int| 0 <= j < i ==> value_view(#[trigger] out@[j]) == value_view(items@[j]),
                decreases items.len() - i,
            {
                // The item lies in the array, and the array in the value.
                assert(decreases_to!(v => v->Array_0));
                assert(decreases_to!(items => items[i as int]));
                out.push(copy_value(&items[i]));
                i += 1;
            }
            proof {
                lemma_array_view_pointwise(out@, items@);
            }
            Value::Array(out)
        },
        Value::Table(t) => {
            proof {
                use_type_invariant(t);
            }
            Value::Table(Table { entries: copy_entries(&t.entries) })
        },
    }
}

fn copy_entries(entries: &Vec<(String, Value)>) -> (r: Vec<(String, Value)>)
    ensures
        entries_view(r@) == entries_view(entries@),
        distinct_keys(entries@) ==> distinct_keys(r@),
    decreases entries,
{
    let mut out: Vec<(String, Value)> = Vec::new();
    let mut i: usize = 0;
    while i < entries.len()
        invariant
            i <= entries.len(),
            out.len() == i,
            forall|j: int|
                0 <= j < i ==> (#[trigger] out@[j]).0@ == entries@[j].0@ && value_view(out@[j].1)
                    == value_view(entries@[j].1),
        decreases entries.len() - i,
    {
        let key = entries[i].0.clone();
        let value = copy_value(&entries[i].1);
        out.push((key, value));
        i += 1;
    }
    proof {
        lemma_entries_pointwise(entries@, out@);
    }
    out
}

impl Table {
    #[verifier::type_invariant]
    spec fn well_formed(self) -> bool {
        distinct_keys(self.entries@)
    }

    /// The empty table.
    pub fn new() -> (t: Table)
        ensures
            t@ == Map::<Seq<char>, ValueView>::empty(),
    {
        let t = Table { entries: Vec::new() };
        assert(t.entries@ =~= Seq::empty());
        t
    }

    /// The number of entries.
    pub fn len(&self) -> (n: usize)
        ensures
            self@.dom().finite(),
            n == self@.dom().len(),
    {
        proof {
            use_type_invariant(self);
            lemma_entries_len(self.entries@);
        }
        self.entries.len()
    }

    /// Whether the table has no entry.
    pub fn is_empty(&self) -> (b: bool)
        ensures
            b == (self@ == Map::<Seq<char>, ValueView>::empty()),
    {
        proof {
            use_type_invariant(self);
            lemma_entries_len(self.entries@);
            if self.entries@.len() == 0 {
                assert(self@ =~= Map::empty());
            }
        }
        self.entries.len() == 0
    }

    /// The keys of the table.
    pub fn keys(&self) -> (keys: Vec<String>)
        ensures
            keys@.len() == self@.dom().len(),
            forall|k: Seq<char>|
                self@.contains_key(k) <==> exists|i: int| 0 <= i < keys@.len() && (#[trigger] keys@[i])@ == k,
    {
        proof {
            use_type_invariant(self);
            lemma_entries_len(self.entries@);
        }
        let mut keys: Vec<String> = Vec::new();
        let mut i: usize = 0;
        while i < self.entries.len()
            invariant
                i <= self.entries.len(),
                keys@.len() == i,
                forall|j: int| 0 <= j < i ==> (#[trigger] keys@[j])@ == self.entries@[j].0@,
            decreases self.entries.len() - i,
        {
            keys.push(self.entries[i].0.clone());
            i += 1;
        }
        proof {
            assert forall|k: Seq<char>|
                self@.contains_key(k) <==> exists|i: int|
                    0 <= i < keys@.len() && (#[trigger] keys@[i])@ == k by {
                lemma_entries_contains(self.entries@, k);
                if self@.contains_key(k) {
                    let i = choose|i: int|
                        0 <= i < self.entries@.len() && (#[trigger] self.entries@[i]).0@ == k;
                    assert(keys@[i]@ == k);
                }
                if exists|i: int| 0 <= i < keys@.len() && (#[trigger] keys@[i])@ == k {
                    let i = choose|i: int| 0 <= i < keys@.len() && (#[trigger] keys@[i])@ == k;
                    assert(self.entries@[i].0@ == k);
                }
            }
        }
        keys
    }

    /// The table built by inserting `entries` in order.
    pub fn from_entries(entries: Vec<(String, Value)>) -> (t: Table)
        ensures
            t@ == entries_view(entries@),
    {
        let mut table = Table::new();
        let mut entries = entries;
        let ghost all = entries@;
        assert(all.take(all.len() as int) =~= all);
        while entries.len() > 0
            invariant
                entries@.len() <= all.len(),
                entries@ == all.take(entries@.len() as int),
                entries_view(all) == entries_view(entries@).union_prefer_right(table@),
            decreases entries.len(),
        {
            let ghost before = entries@;
            let ghost held = table@;
            let last = entries.pop().unwrap();
            proof {
                assert(entries@ =~= before.drop_last());
                assert(entries@ =~= all.take(entries@.len() as int));
            }
            if !table.contains_key(last.0.as_str()) {
                table.insert(last.0, last.1);
            }
            assert(entries_view(before).union_prefer_right(held) =~= entries_view(
                entries@,
            ).union_prefer_right(table@));
        }
        assert(entries@ =~= Seq::empty());
        assert(entries_view(all) =~= table@);
        table
    }

    /// Whether the table has an entry for `key`.
    pub fn contains_key(&self, key: &str) -> (b: bool)
        ensures
            b == self@.contains_key(key@),
    {
        self.get(key).is_some()
    }

    fn position(&self, key: &str) -> (r: Option<usize>)
        ensures
            match r {
                Some(i) => i < self.entries.len() && self.entries@[i as int].0@ == key@,
                None => !self@.contains_key(key@),
            },
    {
        let mut i: usize = 0;
        while i < self.entries.len()
            invariant
                i <= self.entries.len(),
                forall|j: int| 0 <= j < i ==> (#[trigger] self.entries@[j]).0@ != key@,
            decreases self.entries.len() - i,
        {
            if str_eq(self.entries[i].0.as_str(), key) {
                return Some(i);
            }
            i += 1;
        }
        proof {
            lemma_entries_contains(self.entries@, key@);
        }
        None
    }

    /// The value stored under `key`, if there is one.
    pub fn get(&self, key: &str) -> (r: Option<&Value>)
        ensures
            match r {
                Some(v) => self@.contains_key(key@) && v@ == self@[key@],
                None => !self@.contains_key(key@),
            },
    {
        match self.position(key) {
            Some(i) => {
                proof {
                    use_type_invariant(self);
                    lemma_entries_lookup(self.entries@, i as int);
                }
                Some(&self.entries[i].1)
            },
            None => None,
        }
    }

    /// Stores `value` under `key`, replacing what was stored there.
    pub fn insert(&mut self, key: String, value: Value)
        ensures
            final(self)@ == old(self)@.insert(key@, value@),
    {
        proof {
            use_type_invariant(&*self);
        }
        let found = self.position(key.as_str());
        let mut taken = Table { entries: Vec::new() };
        core::mem::swap(self, &mut taken);
        let mut entries = taken.entries;
        match found {
            Some(i) => {
                proof {
                    lemma_entries_update(entries@, i as int, (key, value));
                }
                entries.set(i, (key, value));
            },
            None => {
                proof {
                    lemma_entries_push(entries@, (key, value));
                }
                entries.push((key, value));
            },
        }
        *self = Table { entries };
    }

    /// Copies every entry of `other` into this table; on a key that both
    /// hold, the value of `other` replaces the one held here.
    pub fn merge_from(&mut self, other: &Table)
        ensures
            final(self)@ == old(self)@.union_prefer_right(other@),
    {
        let mut i: usize = 0;
        assert(other.entries@.take(0) =~= Seq::empty());
        assert(self@ =~= self@.union_prefer_right(Map::empty()));
        while i < other.entries.len()
            invariant
                i <= other.entries.len(),
                self@ == old(self)@.union_prefer_right(entries_view(other.entries@.take(i as int))),
            decreases other.entries.len() - i,
        {
            let key = other.entries[i].0.clone();
            let value = copy_value(&other.entries[i].1);
            proof {
                let before = other.entries@.take(i as int);
                let after = other.entries@.take(i + 1);
                assert(after.drop_last() =~= before);
                assert(after.last() == other.entries@[i as int]);
                assert(old(self)@.union_prefer_right(entries_view(after)) =~= old(self)@.union_prefer_right(
                    entries_view(before),
                ).insert(key@, value_view(value)));
            }
            self.insert(key, value);
            i += 1;
        }
        assert(other.entries@.take(i as int) =~= other.entries@);
    }
}

impl Value {
    /// The string value with the characters of `text`.
    pub fn text(text: &str) -> (v: Value)
        ensures
            v@ == ValueView::String(text@),
    {
        Value::String(text.to_owned())
    }
}

impl From<i64> for Value {
    fn from(value: i64) -> (v: Value) {
        Value::Integer(value as i128)
    }
}

impl vstd::std_specs::convert::FromSpecImpl<i64> for Value {
    open spec fn obeys_from_spec() -> bool {
        true
    }

    open spec fn from_spec(value: i64) -> Value {
        Value::Integer(value as i128)
    }
}

impl From<bool> for Value {
    fn from(value: bool) -> (v: Value) {
        Value::Boolean(value)
    }
}

impl vstd::std_specs::convert::FromSpecImpl<bool> for Value {
    open spec fn obeys_from_spec() -> bool {
        true
    }

    open spec fn from_spec(value: bool) -> Value {
        Value::Boolean(value)
    }
}

impl From<String> for Value {
    fn from(value: String) -> (v: Value) {
        Value::String(value)
    }
}

impl vstd::std_specs::convert::FromSpecImpl<String> for Value {
    open spec fn obeys_from_spec() -> bool {
        true
    }

    open spec fn from_spec(value: String) -> Value {
        Value::String(value)
    }
}

impl Clone for Value {
    fn clone(&self) -> (r: Value)
        ensures
            r@ == self@,
    {
        copy_value(self)
    }
}

impl Clone for Table {
    fn clone(&self) -> (r: Table)
        ensures
            r@ == self@,
    {
        proof {
            use_type_invariant(self);
        }
        Table { entries: copy_entries(&self.entries) }
    }
}

} // verus!
