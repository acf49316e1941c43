//! A verified model of the engine's insertion-ordered map builtin.
//!
//! The engine's map object keeps its entries in insertion order and
//! compares keys by same-value-zero equality.  This model holds plain
//! values; the heap object model around the real builtin is an external
//! collaborator of this core.  Its view is the sequence of key/value
//! pairs in insertion order; keys are unique.
//!
//! The builtin's constructors from arbitrary iterables and objects, and
//! its callback-driven iteration, are bound to that external object model
//! (a heap context, prototypes, callable adders) and are not modeled
//! here; `keys`, `values` and `entries` carry the iteration capability
//! over plain values.

use vstd::prelude::*;

verus! {

/// A plain value a map entry can hold.
#[derive(Debug, Clone, PartialEq, Eq)]
pub enum JsValue {
    Undefined,
    Null,
    Boolean(bool),
    Integer(i32),
    String(Vec<char>),
}

/// The mathematical shape of a value: the same variants with the string
/// abstracted to a character sequence.
pub enum SpecValue {
    Undefined,
    Null,
    Boolean(bool),
    Integer(i32),
    String(Seq<char>),
}

impl JsValue {
    /// The value's mathematical shape.
    pub open spec fn view(self) -> SpecValue {
        match self {
            JsValue::Undefined => SpecValue::Undefined,
            JsValue::Null => SpecValue::Null,
            JsValue::Boolean(b) => SpecValue::Boolean(b),
            JsValue::Integer(v) => SpecValue::Integer(v),
            JsValue::String(s) => SpecValue::String(s@),
        }
    }
}

/// Same-value-zero equality of two values, on their shapes.
pub fn same_value_zero(a: &JsValue, b: &JsValue) -> (r: bool)
    ensures
        r == (a@ == b@),
{
    match (a, b) {
        (JsValue::Undefined, JsValue::Undefined) => true,
        (JsValue::Null, JsValue::Null) => true,
        (JsValue::Boolean(x), JsValue::Boolean(y)) => x == y,
        (JsValue::Integer(x), JsValue::Integer(y)) => x == y,
        (JsValue::String(x), JsValue::String(y)) => crate::interner::chars_eq(x, y),
        _ => {
            assert(a@ != b@);
            false
        },
    }
}

/// Copies a value.
pub fn copy_value(v: &JsValue) -> (r: JsValue)
    ensures
        r@ == v@,
{
    match v {
        JsValue::Undefined => JsValue::Undefined,
        JsValue::Null => JsValue::Null,
        JsValue::Boolean(b) => JsValue::Boolean(*b),
        JsValue::Integer(i) => JsValue::Integer(*i),
        JsValue::String(s) => {
            let mut out: Vec<char> = Vec::new();
            let n = s.len();
            let mut i: usize = 0;
            while i < n
                invariant
                    n == s@.len(),
                    i <= n,
                    out@ =~= s@.subrange(0, i as int),
                decreases n - i,
            {
                out.push(s[i]);
                i += 1;
            }
            assert(out@ =~= s@);
            JsValue::String(out)
        },
    }
}

/// The first value mapped to `k`, walking the entries in insertion order.
pub open spec fn spec_lookup(s: Seq<(SpecValue, SpecValue)>, k: SpecValue) -> Option<SpecValue>
    decreases s.len(),
{
    if s.len() == 0 {
        None
    } else if s[0].0 == k {
        Some(s[0].1)
    } else {
        spec_lookup(s.skip(1), k)
    }
}

/// True when some entry's key is `k`.
pub open spec fn spec_has_key(s: Seq<(SpecValue, SpecValue)>, k: SpecValue) -> bool {
    exists|i: int| 0 <= i < s.len() && s[i].0 == k
}

/// Looking a key up succeeds exactly when some entry holds it.
proof fn lemma_lookup_has(s: Seq<(SpecValue, SpecValue)>, k: SpecValue)
    ensures
        (spec_lookup(s, k) is Some) <==> spec_has_key(s, k),
    decreases s.len(),
{
    if s.len() > 0 {
        if s[0].0 == k {
            assert(spec_has_key(s, k));
        } else {
            lemma_lookup_has(s.skip(1), k);
            if spec_has_key(s.skip(1), k) {
                let i = choose|i: int| 0 <= i < s.skip(1).len() && s.skip(1)[i].0 == k;
                assert(s[i + 1].0 == k);
            }
            if spec_has_key(s, k) {
                let i = choose|i: int| 0 <= i < s.len() && s[i].0 == k;
                assert(s.skip(1)[i - 1].0 == k);
            }
        }
    }
}

/// The insertion-ordered map of plain values.
pub struct JsMap {
    entries: Vec<(JsValue, JsValue)>,
}

impl JsMap {
    /// The entries in insertion order, as shapes.
    pub closed spec fn view(&self) -> Seq<(SpecValue, SpecValue)> {
        self.entries@.map(|i: int, p: (JsValue, JsValue)| (p.0@, p.1@))
    }

    /// Keys are unique.
    pub closed spec fn wf(&self) -> bool {
        forall|i: int, j: int| 0 <= i < j < self@.len() ==> self@[i].0 != self@[j].0
    }

    /// Distinct entries of a well-formed map always hold distinct keys.
    /// This opens the closed well-formedness predicate far enough for a
    /// caller to use the lookup lemmas on the map's view.
    pub proof fn lemma_wf_unique_keys(&self)
        requires
            self.wf(),
        ensures
            forall|i: int, j: int| 0 <= i < j < self@.len() ==> self@[i].0 != self@[j].0,
    {
    }

    /// Creates a new empty map.
    pub fn new() -> (r: JsMap)
        ensures
            r.wf(),
            r@.len() == 0,
    {
        JsMap { entries: Vec::new() }
    }

    /// The number of entries.
    pub fn get_size(&self) -> (r: usize)
        ensures
            r == self@.len(),
    {
        self.entries.len()
    }

    /// The index of the entry holding `key`, if any.
    fn find_key(&self, key: &JsValue) -> (r: Option<usize>)
        ensures
            match r {
                Some(i) => i < self@.len() && self@[i as int].0 == key@,
                None => !spec_has_key(self@, key@),
            },
    {
        let n = self.entries.len();
        let mut i: usize = 0;
        while i < n
            invariant
                n == self.entries@.len(),
                n == self@.len(),
                i <= n,
                forall|j: int| 0 <= j < i ==> self@[j].0 != key@,
            decreases n - i,
        {
            assert(self@[i as int].0 == self.entries@[i as int].0@);
            if same_value_zero(&self.entries[i].0, key) {
                return Some(i);
            }
            i += 1;
        }
        assert(!spec_has_key(self@, key@));
        None
    }

    /// Checks whether the map has an entry with the given key.
    pub fn has(&self, key: &JsValue) -> (r: bool)
        ensures
            r == spec_has_key(self@, key@),
    {
        match self.find_key(key) {
            Some(i) => {
                assert(spec_has_key(self@, key@));
                true
            },
            None => false,
        }
    }

    /// Inserts an entry.  A fresh key is appended, keeping insertion
    /// order; an existing key keeps its position and gets the new value.
    pub fn set(&mut self, key: JsValue, value: JsValue)
        requires
            old(self).wf(),
        ensures
            final(self).wf(),
            !spec_has_key(old(self)@, key@) ==> final(self)@ == old(self)@.push(
                (key@, value@),
            ),
            spec_has_key(old(self)@, key@) ==> exists|i: int|
                0 <= i < old(self)@.len() && old(self)@[i].0 == key@ && final(self)@ == old(
                    self,
                )@.update(i, (key@, value@)),
    {
        match self.find_key(&key) {
            Some(i) => {
                let ghost gi = i as int;
                self.entries.set(i, (key, value));
                proof {
                    assert(self@ =~= old(self)@.update(gi, (key@, value@)));
                    assert(spec_has_key(old(self)@, key@));
                    assert forall|a: int, b: int|
                        0 <= a < b < self@.len() implies self@[a].0 != self@[b].0 by {
                        assert(old(self)@[a].0 != old(self)@[b].0);
                    }
                }
            },
            None => {
                self.entries.push((key, value));
                proof {
                    assert(self@ =~= old(self)@.push((key@, value@)));
                    assert forall|a: int, b: int|
                        0 <= a < b < self@.len() implies self@[a].0 != self@[b].0 by {
                        if b < old(self)@.len() {
                            assert(old(self)@[a].0 != old(self)@[b].0);
                        } else {
                            assert(self@[b].0 == key@);
                            assert(self@[a].0 == old(self)@[a].0);
                        }
                    }
                }
            },
        }
    }

    /// The value mapped to `key`, or `Undefined` when there is none.
    pub fn get(&self, key: &JsValue) -> (r: JsValue)
        requires
            self.wf(),
        ensures
            r@ == match spec_lookup(self@, key@) {
                Some(v) => v,
                None => SpecValue::Undefined,
            },
    {
        proof {
            lemma_lookup_has(self@, key@);
        }
        match self.find_key(key) {
            Some(i) => {
                proof {
                    lemma_lookup_at(self@, key@, i as int);
                }
                copy_value(&self.entries[i].1)
            },
            None => JsValue::Undefined,
        }
    }

    /// Removes the entry with the given key, if any; reports whether one
    /// was removed.
    pub fn delete(&mut self, key: &JsValue) -> (r: bool)
        requires
            old(self).wf(),
        ensures
            final(self).wf(),
            r == spec_has_key(old(self)@, key@),
            !r ==> final(self)@ == old(self)@,
            r ==> exists|i: int|
                0 <= i < old(self)@.len() && old(self)@[i].0 == key@ && final(self)@ == old(
                    self,
                )@.remove(i),
    {
        match self.find_key(key) {
            Some(i) => {
                let ghost gi = i as int;
                let removed = self.entries.remove(i);
                proof {
                    assert(spec_has_key(old(self)@, key@));
                    assert(self@ =~= old(self)@.remove(gi));
                    assert forall|a: int, b: int|
                        0 <= a < b < self@.len() implies self@[a].0 != self@[b].0 by {
                        let a0 = if a < gi {
                            a
                        } else {
                            a + 1
                        };
                        let b0 = if b < gi {
                            b
                        } else {
                            b + 1
                        };
                        assert(self@[a] == old(self)@[a0]);
                        assert(self@[b] == old(self)@[b0]);
                        assert(old(self)@[a0].0 != old(self)@[b0].0);
                    }
                }
                true
            },
            None => {
                assert(self@ =~= old(self)@);
                false
            },
        }
    }

    /// Removes all entries.
    pub fn clear(&mut self)
        ensures
            final(self).wf(),
            final(self)@.len() == 0,
    {
        self.entries = Vec::new();
    }

    /// The keys, in insertion order.
    pub fn keys(&self) -> (r: Vec<JsValue>)
        ensures
            r@.len() == self@.len(),
            forall|i: int| 0 <= i < r@.len() ==> (#[trigger] r@[i])@ == self@[i].0,
    {
        let n = self.entries.len();
        let mut out: Vec<JsValue> = Vec::new();
        let mut i: usize = 0;
        while i < n
            invariant
                n == self.entries@.len(),
                n == self@.len(),
                i <= n,
                out@.len() == i,
                forall|j: int| 0 <= j < i ==> (#[trigger] out@[j])@ == self@[j].0,
            decreases n - i,
        {
            assert(self@[i as int].0 == self.entries@[i as int].0@);
            out.push(copy_value(&self.entries[i].0));
            i += 1;
        }
        out
    }

    /// The values, in insertion order.
    pub fn values(&self) -> (r: Vec<JsValue>)
        ensures
            r@.len() == self@.len(),
            forall|i: int| 0 <= i < r@.len() ==> (#[trigger] r@[i])@ == self@[i].1,
    {
        let n = self.entries.len();
        let mut out: Vec<JsValue> = Vec::new();
        let mut i: usize = 0;
        while i < n
            invariant
                n == self.entries@.len(),
                n == self@.len(),
                i <= n,
                out@.len() == i,
                forall|j: int| 0 <= j < i ==> (#[trigger] out@[j])@ == self@[j].1,
            decreases n - i,
        {
            assert(self@[i as int].1 == self.entries@[i as int].1@);
            out.push(copy_value(&self.entries[i].1));
            i += 1;
        }
        out
    }

    /// The key/value pairs, in insertion order.
    pub fn entries(&self) -> (r: Vec<(JsValue, JsValue)>)
        ensures
            r@.len() == self@.len(),
            forall|i: int|
                0 <= i < r@.len() ==> ((#[trigger] r@[i]).0@, r@[i].1@) == self@[i],
    {
        let n = self.entries.len();
        let mut out: Vec<(JsValue, JsValue)> = Vec::new();
        let mut i: usize = 0;
        while i < n
            invariant
                n == self.entries@.len(),
                n == self@.len(),
                i <= n,
                out@.len() == i,
                forall|j: int|
                    0 <= j < i ==> ((#[trigger] out@[j]).0@, out@[j].1@) == self@[j],
            decreases n - i,
        {
            assert((self.entries@[i as int].0@, self.entries@[i as int].1@) == self@[i as int]);
            let k = copy_value(&self.entries[i].0);
            let v = copy_value(&self.entries[i].1);
            out.push((k, v));
            i += 1;
        }
        out
    }
}

/// A lookup directly after an insertion finds the inserted value: for any
/// well-formed entry sequence, inserting `(k, v)` — appended when `k` is
/// fresh, updated in place otherwise — makes the ordered lookup of `k`
/// yield `v`.  This relates `set` and `get` through their shared view.
pub proof fn lemma_set_establishes_lookup(
    s: Seq<(SpecValue, SpecValue)>,
    t: Seq<(SpecValue, SpecValue)>,
    k: SpecValue,
    v: SpecValue,
)
    requires
        forall|a: int, b: int| 0 <= a < b < s.len() ==> s[a].0 != s[b].0,
        !spec_has_key(s, k) ==> t == s.push((k, v)),
        spec_has_key(s, k) ==> exists|i: int|
            0 <= i < s.len() && s[i].0 == k && t == s.update(i, (k, v)),
    ensures
        spec_lookup(t, k) == Some(v),
{
    if spec_has_key(s, k) {
        let i = choose|i: int| 0 <= i < s.len() && s[i].0 == k && t == s.update(i, (k, v));
        assert(t[i] == (k, v));
        assert forall|a: int, b: int| 0 <= a < b < t.len() implies t[a].0 != t[b].0 by {
            if a != i && b != i {
                assert(t[a] == s[a]);
                assert(t[b] == s[b]);
            } else if a == i {
                assert(t[b] == s[b]);
                assert(s[i].0 == k);
            } else {
                assert(t[a] == s[a]);
                assert(s[i].0 == k);
            }
        }
        lemma_lookup_at(t, k, i);
    } else {
        let i = s.len() as int;
        assert(t[i] == (k, v));
        assert forall|a: int, b: int| 0 <= a < b < t.len() implies t[a].0 != t[b].0 by {
            if b < i {
                assert(t[a] == s[a]);
                assert(t[b] == s[b]);
            } else {
                assert(t[a] == s[a]);
                assert(t[b].0 == k);
                assert(!spec_has_key(s, k));
            }
        }
        lemma_lookup_at(t, k, i);
    }
}

/// At an entry that holds the key, the ordered lookup yields that entry's
/// value, keys being unique up to that point.
proof fn lemma_lookup_at(s: Seq<(SpecValue, SpecValue)>, k: SpecValue, i: int)
    requires
        0 <= i < s.len(),
        s[i].0 == k,
        forall|a: int, b: int| 0 <= a < b < s.len() ==> s[a].0 != s[b].0,
    ensures
        spec_lookup(s, k) == Some(s[i].1),
    decreases i,
{
    if i == 0 {
    } else {
        assert(s[0].0 != s[i].0);
        assert(s.skip(1)[i - 1] == s[i]);
        assert forall|a: int, b: int|
            0 <= a < b < s.skip(1).len() implies s.skip(1)[a].0 != s.skip(1)[b].0 by {
            assert(s.skip(1)[a] == s[a + 1]);
            assert(s.skip(1)[b] == s[b + 1]);
        }
        lemma_lookup_at(s.skip(1), k, i - 1);
    }
}

} // verus!
