//! Lexical scopes.
//!
//! Scopes live in an append-only arena and are addressed by integer
//! handles; each scope records its parent's handle, avoiding ownership
//! cycles.  A scope maps binding names (interned handles) to binding kinds
//! and records which bindings are captured by a nested function (the
//! escape-analysis output).

use vstd::prelude::*;
use crate::interner::Sym;

verus! {

/// What kind of declaration introduced a binding.
#[derive(Clone, Copy, Debug, PartialEq, Eq, Structural)]
pub enum BindingKind {
    Var,
    Let,
    Const,
    Function,
    Parameter,
}

/// One binding in a scope: its name, its kind, and whether a nested
/// function captures it.  A captured binding must outlive the call frame
/// that declared it; a non-captured one may live in frame-local storage.
#[derive(Clone, Copy, Debug, PartialEq, Eq, Structural)]
pub struct Binding {
    pub name: Sym,
    pub kind: BindingKind,
    pub captured: bool,
}

/// A handle to a scope in the arena.
#[derive(Clone, Copy, Debug, PartialEq, Eq, Structural)]
pub struct Scope {
    pub index: usize,
}

/// One scope: its parent handle, whether it is a function (rather than
/// block) scope, and its bindings in declaration order.
#[derive(Clone, Debug, PartialEq, Eq)]
pub struct ScopeData {
    pub parent: Option<Scope>,
    pub is_function: bool,
    pub bindings: Vec<Binding>,
}

impl ScopeData {
    /// True when some binding in this scope has `name`.
    pub open spec fn spec_has_binding(self, name: Sym) -> bool {
        exists|i: int| 0 <= i < self.bindings@.len() && (#[trigger] self.bindings@[i]).name == name
    }

    /// True when every binding in this scope is marked captured.
    pub open spec fn spec_all_captured(self) -> bool {
        forall|i: int| 0 <= i < self.bindings@.len() ==> (#[trigger] self.bindings@[i]).captured
    }

    /// True when no binding in this scope is marked captured yet.
    pub open spec fn spec_none_captured(self) -> bool {
        forall|i: int| 0 <= i < self.bindings@.len() ==> !(#[trigger] self.bindings@[i]).captured
    }

    /// True when no two bindings of this scope share a name.
    pub open spec fn spec_names_unique(self) -> bool {
        forall|i: int, j: int|
            0 <= i < j < self.bindings@.len() ==> (#[trigger] self.bindings@[i]).name
                != (#[trigger] self.bindings@[j]).name
    }

    /// The kind-pairing rules of redeclaration: declaring `name` with
    /// `kind` conflicts exactly when some binding of the same name exists
    /// and either side is lexical (`let`/`const`).
    pub open spec fn spec_conflicts(self, name: Sym, kind: BindingKind) -> bool {
        exists|i: int|
            0 <= i < self.bindings@.len() && (#[trigger] self.bindings@[i]).name == name && (
            kind == BindingKind::Let || kind == BindingKind::Const || self.bindings@[i].kind
                == BindingKind::Let || self.bindings@[i].kind == BindingKind::Const)
    }
}

/// The append-only scope arena of one parse.
#[derive(Clone, Debug, PartialEq, Eq)]
pub struct ScopeArena {
    pub scopes: Vec<ScopeData>,
}

impl ScopeArena {
    /// Every parent handle points at an earlier scope.
    pub open spec fn wf(self) -> bool {
        forall|i: int|
            0 <= i < self.scopes@.len() ==> match (#[trigger] self.scopes@[i]).parent {
                Some(p) => p.index < i,
                None => true,
            }
    }

    /// Creates an empty arena.
    pub fn new() -> (r: ScopeArena)
        ensures
            r.wf(),
            r.scopes@.len() == 0,
    {
        ScopeArena { scopes: Vec::new() }
    }

    /// Appends a fresh scope under `parent` and returns its handle.
    pub fn push_scope(&mut self, parent: Option<Scope>, is_function: bool) -> (r: Scope)
        requires
            old(self).wf(),
            match parent {
                Some(p) => p.index < old(self).scopes@.len(),
                None => true,
            },
        ensures
            final(self).wf(),
            r.index == old(self).scopes@.len(),
            final(self).scopes@.len() == old(self).scopes@.len() + 1,
            forall|i: int|
                0 <= i < old(self).scopes@.len() ==> final(self).scopes@[i] == old(
                    self,
                ).scopes@[i],
            final(self).scopes@[r.index as int] == (ScopeData {
                parent,
                is_function,
                bindings: final(self).scopes@[r.index as int].bindings,
            }),
            final(self).scopes@[r.index as int].bindings@.len() == 0,
    {
        let idx = self.scopes.len();
        self.scopes.push(ScopeData { parent, is_function, bindings: Vec::new() });
        Scope { index: idx }
    }

    /// The number of scopes in the arena.
    pub fn len(&self) -> (r: usize)
        ensures
            r == self.scopes@.len(),
    {
        self.scopes.len()
    }

    /// Looks a binding up by name in scope `s`, returning its index.
    pub fn find_binding(&self, s: Scope, name: Sym) -> (r: Option<usize>)
        requires
            s.index < self.scopes@.len(),
        ensures
            match r {
                Some(i) => i < self.scopes@[s.index as int].bindings@.len()
                    && self.scopes@[s.index as int].bindings@[i as int].name == name,
                None => !self.scopes@[s.index as int].spec_has_binding(name),
            },
    {
        let data = &self.scopes[s.index];
        let n = data.bindings.len();
        let mut i: usize = 0;
        while i < n
            invariant
                n == data.bindings@.len(),
                i <= n,
                data == self.scopes@[s.index as int],
                forall|j: int| 0 <= j < i ==> (#[trigger] data.bindings@[j]).name != name,
            decreases n - i,
        {
            if data.bindings[i].name == name {
                return Some(i);
            }
            i += 1;
        }
        None
    }

    /// Adds a binding to scope `s`.
    pub fn add_binding(&mut self, s: Scope, name: Sym, kind: BindingKind)
        requires
            s.index < old(self).scopes@.len(),
            old(self).wf(),
        ensures
            final(self).wf(),
            final(self).scopes@.len() == old(self).scopes@.len(),
            forall|i: int|
                0 <= i < old(self).scopes@.len() && i != s.index ==> final(self).scopes@[i] == old(
                    self,
                ).scopes@[i],
            final(self).scopes@[s.index as int].bindings@ == old(
                self,
            ).scopes@[s.index as int].bindings@.push(
                Binding { name, kind, captured: false },
            ),
            final(self).scopes@[s.index as int].parent == old(
                self,
            ).scopes@[s.index as int].parent,
            final(self).scopes@[s.index as int].is_function == old(
                self,
            ).scopes@[s.index as int].is_function,
    {
        let data = &mut self.scopes[s.index];
        data.bindings.push(Binding { name, kind, captured: false });
    }

    /// Marks the binding at `i` in scope `s` as captured.
    pub fn mark_captured(&mut self, s: Scope, i: usize)
        requires
            old(self).wf(),
            s.index < old(self).scopes@.len(),
            i < old(self).scopes@[s.index as int].bindings@.len(),
        ensures
            final(self).wf(),
            final(self).scopes@.len() == old(self).scopes@.len(),
            forall|k: int|
                0 <= k < old(self).scopes@.len() && k != s.index ==> final(self).scopes@[k] == old(
                    self,
                ).scopes@[k],
            final(self).scopes@[s.index as int].parent == old(self).scopes@[s.index as int].parent,
            final(self).scopes@[s.index as int].is_function == old(
                self,
            ).scopes@[s.index as int].is_function,
            final(self).scopes@[s.index as int].bindings@.len() == old(
                self,
            ).scopes@[s.index as int].bindings@.len(),
            forall|k: int|
                0 <= k < old(self).scopes@[s.index as int].bindings@.len() && k != i
                    ==> final(self).scopes@[s.index as int].bindings@[k] == old(
                    self,
                ).scopes@[s.index as int].bindings@[k],
            final(self).scopes@[s.index as int].bindings@[i as int] == (Binding {
                captured: true,
                ..old(self).scopes@[s.index as int].bindings@[i as int]
            }),
    {
        let data = &mut self.scopes[s.index];
        let b = data.bindings[i];
        data.bindings.set(i, Binding { captured: true, ..b });
    }

    /// Marks every binding of scope `s` as captured.
    pub fn mark_all_captured(&mut self, s: Scope)
        requires
            old(self).wf(),
            s.index < old(self).scopes@.len(),
        ensures
            final(self).wf(),
            final(self).scopes@.len() == old(self).scopes@.len(),
            forall|k: int|
                0 <= k < old(self).scopes@.len() && k != s.index ==> final(self).scopes@[k] == old(
                    self,
                ).scopes@[k],
            final(self).scopes@[s.index as int].parent == old(self).scopes@[s.index as int].parent,
            final(self).scopes@[s.index as int].is_function == old(
                self,
            ).scopes@[s.index as int].is_function,
            final(self).scopes@[s.index as int].bindings@.len() == old(
                self,
            ).scopes@[s.index as int].bindings@.len(),
            final(self).scopes@[s.index as int].spec_all_captured(),
            forall|k: int|
                0 <= k < old(self).scopes@[s.index as int].bindings@.len()
                    ==> (#[trigger] final(self).scopes@[s.index as int].bindings@[k]) == (Binding {
                    captured: true,
                    ..old(self).scopes@[s.index as int].bindings@[k]
                }),
    {
        let n = self.scopes[s.index].bindings.len();
        let mut i: usize = 0;
        while i < n
            invariant
                old(self).wf(),
                self.wf(),
                s.index < self.scopes@.len(),
                self.scopes@.len() == old(self).scopes@.len(),
                n == old(self).scopes@[s.index as int].bindings@.len(),
                n == self.scopes@[s.index as int].bindings@.len(),
                i <= n,
                forall|k: int|
                    0 <= k < old(self).scopes@.len() && k != s.index ==> self.scopes@[k] == old(
                        self,
                    ).scopes@[k],
                self.scopes@[s.index as int].parent == old(self).scopes@[s.index as int].parent,
                self.scopes@[s.index as int].is_function == old(
                    self,
                ).scopes@[s.index as int].is_function,
                forall|k: int|
                    0 <= k < i ==> (#[trigger] self.scopes@[s.index as int].bindings@[k])
                        == (Binding {
                        captured: true,
                        ..old(self).scopes@[s.index as int].bindings@[k]
                    }),
                forall|k: int|
                    i <= k < n ==> (#[trigger] self.scopes@[s.index as int].bindings@[k]) == old(
                        self,
                    ).scopes@[s.index as int].bindings@[k],
            decreases n - i,
        {
            self.mark_captured(Scope { index: s.index }, i);
            i += 1;
        }
    }
}

/// The resolved scopes of one function node, attached by the scope
/// analyzer after parsing.
#[derive(Clone, Copy, Debug, PartialEq, Eq, Structural)]
pub struct FunctionScopes {
    pub function_scope: Option<Scope>,
}

impl FunctionScopes {
    /// The state before scope analysis has run.
    pub fn new_unresolved() -> (r: FunctionScopes)
        ensures
            r == (FunctionScopes { function_scope: None::<Scope> }),
    {
        FunctionScopes { function_scope: None }
    }
}

} // verus!
