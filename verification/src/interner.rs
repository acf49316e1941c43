//! Symbol interning: a string-to-integer registry.
//!
//! The tokenizer and parser intern identifier and string text into small
//! integer handles (`Sym`).  Equality of identifiers is by handle, never by
//! text; the table guarantees that two distinct handles always resolve to
//! distinct text.

use vstd::prelude::*;

verus! {

/// An interned-symbol handle: an index into the interner's table.
pub type Sym = usize;

/// Handle of the pre-interned text `eval`.
pub const SYM_EVAL: usize = 0;

/// Handle of the pre-interned text `use strict`.
pub const SYM_USE_STRICT: usize = 1;

/// Compares two character vectors for element-wise equality.
pub fn chars_eq(a: &Vec<char>, b: &Vec<char>) -> (r: bool)
    ensures
        r <==> a@ == b@,
{
    if a.len() != b.len() {
        assert(a@.len() != b@.len());
        assert(a@ != b@);
        return false;
    }
    let n = a.len();
    let mut i: usize = 0;
    while i < n
        invariant
            n == a@.len(),
            n == b@.len(),
            i <= n,
            forall|j: int| 0 <= j < i ==> a@[j] == b@[j],
        decreases n - i,
    {
        if a[i] != b[i] {
            assert(a@ != b@);
            return false;
        }
        i += 1;
    }
    assert(a@ =~= b@);
    true
}

/// The string-to-handle registry used for identifiers and string literals.
///
/// Its view is the sequence of interned texts; the table never holds the
/// same text twice.
pub struct Interner {
    table: Vec<Vec<char>>,
}

impl Interner {
    /// The sequence of interned texts, by handle.
    pub closed spec fn view(&self) -> Seq<Seq<char>> {
        self.table@.map(|i: int, v: Vec<char>| v@)
    }

    /// Distinct handles always hold distinct text.
    pub closed spec fn wf(&self) -> bool {
        forall|i: int, j: int|
            0 <= i < j < self.table@.len() ==> self.table@[i]@ != self.table@[j]@
    }

    /// Creates an interner pre-loaded with the well-known texts.
    pub fn new() -> (r: Interner)
        ensures
            r.wf(),
            r@.len() == 2,
            r@[SYM_EVAL as int] == seq!['e', 'v', 'a', 'l'],
            r@[SYM_USE_STRICT as int]
                == seq!['u', 's', 'e', ' ', 's', 't', 'r', 'i', 'c', 't'],
    {
        let eval_text: Vec<char> = vec!['e', 'v', 'a', 'l'];
        let use_strict_text: Vec<char> = vec!['u', 's', 'e', ' ', 's', 't', 'r', 'i', 'c', 't'];
        assert(eval_text@ =~= seq!['e', 'v', 'a', 'l']);
        assert(use_strict_text@ =~= seq!['u', 's', 'e', ' ', 's', 't', 'r', 'i', 'c', 't']);
        let mut table: Vec<Vec<char>> = Vec::new();
        table.push(eval_text);
        table.push(use_strict_text);
        let r = Interner { table };
        assert(r@ =~= seq![seq!['e', 'v', 'a', 'l'],
            seq!['u', 's', 'e', ' ', 's', 't', 'r', 'i', 'c', 't']]);
        r
    }

    /// The number of interned texts.
    pub fn len(&self) -> (r: usize)
        ensures
            r == self@.len(),
    {
        self.table.len()
    }

    /// Returns the handle already mapped to `text`, or registers `text` under
    /// a fresh handle.  Existing handles keep their text.
    pub fn get_or_intern(&mut self, text: &Vec<char>) -> (sym: Sym)
        requires
            old(self).wf(),
        ensures
            final(self).wf(),
            sym < final(self)@.len(),
            final(self)@[sym as int] == text@,
            old(self)@.len() <= final(self)@.len(),
            forall|i: int| 0 <= i < old(self)@.len() ==> final(self)@[i] == old(self)@[i],
            forall|i: int|
                0 <= i < final(self)@.len() && i != sym ==> final(self)@[i] != text@,
    {
        let n = self.table.len();
        let mut i: usize = 0;
        while i < n
            invariant
                n == self.table@.len(),
                i <= n,
                self == old(self),
                old(self).wf(),
                forall|j: int| 0 <= j < i ==> self@[j] != text@,
            decreases n - i,
        {
            if chars_eq(&self.table[i], text) {
                assert(self@[i as int] == text@);
                return i;
            }
            assert(self@[i as int] == self.table@[i as int]@);
            i += 1;
        }
        let mut copy: Vec<char> = Vec::new();
        let m = text.len();
        let mut k: usize = 0;
        while k < m
            invariant
                m == text@.len(),
                k <= m,
                copy@ =~= text@.subrange(0, k as int),
            decreases m - k,
        {
            copy.push(text[k]);
            k += 1;
        }
        assert(copy@ =~= text@);
        self.table.push(copy);
        assert(self@ =~= old(self)@.push(text@));
        assert forall|a: int, b: int|
            0 <= a < b < self.table@.len() implies self.table@[a]@ != self.table@[b]@ by {
            assert(self@[a] == self.table@[a]@);
            assert(self@[b] == self.table@[b]@);
            if b < n {
                assert(old(self)@[a] == old(self).table@[a]@);
                assert(old(self)@[b] == old(self).table@[b]@);
            } else {
                assert(self@[b] == text@);
                assert(self@[a] != text@);
            }
        }
        n
    }

    /// Returns the text interned under `sym`.
    pub fn resolve(&self, sym: Sym) -> (r: &Vec<char>)
        requires
            sym < self@.len(),
        ensures
            r@ == self@[sym as int],
    {
        &self.table[sym]
    }

    /// Equality of identifiers is by handle, never by text: two handles of
    /// one interner resolve to the same text exactly when they are the
    /// same handle.
    pub proof fn lemma_handles_determine_text(&self, a: Sym, b: Sym)
        requires
            self.wf(),
            a < self@.len(),
            b < self@.len(),
        ensures
            (self@[a as int] == self@[b as int]) <==> a == b,
    {
        if a != b {
            if a < b {
                assert(self.table@[a as int]@ != self.table@[b as int]@);
            } else {
                assert(self.table@[b as int]@ != self.table@[a as int]@);
            }
        }
    }
}

} // verus!
