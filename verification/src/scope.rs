//! Lexical scopes: chained tables from names to entries.
//!
//! A scope owns its parent while it lives: `fork` takes the parent in and
//! `into_parent` hands it back, so a parent is reachable from its child and
//! never the other way round. As a mathematical value a scope is the
//! sequence of its tables from the root to itself.
use dashmap::DashMap;
use vstd::prelude::*;
use vstd::string::StringExecFns;

use crate::ast::{names_hold, ModifierList};
use crate::error::{about, ErrorKind, ErrorView, ValkyrieError};
use crate::value::{clone_key, key_view, ValkyrieValue, ValueView};

verus! {

/// A variable.
#[derive(Debug, PartialEq, Eq)]
pub struct ValkyrieVariable {
    /// Whether the name can no longer be bound again in its scope.
    pub protected: bool,
    /// Whether the value may be replaced in place.
    pub mutable: bool,
    /// The declared type, if one was written. Nothing checks it yet.
    pub typing: Option<String>,
    /// The stored value.
    pub value: ValkyrieValue,
}

/// A function. Its body is not modelled yet: it holds what a variable holds.
#[derive(Debug, PartialEq, Eq)]
pub struct ValkyrieFunction {
    /// Whether the name can no longer be bound again in its scope.
    pub protected: bool,
    /// Whether the value may be replaced in place.
    pub mutable: bool,
    /// The declared type, if one was written.
    pub typing: Option<String>,
    /// The stored value.
    pub value: ValkyrieValue,
}

/// What a scope holds under a name.
#[derive(Debug, PartialEq, Eq)]
pub enum ValkyrieEntry {
    Variable(Box<ValkyrieVariable>),
    Function(Box<ValkyrieFunction>),
}

/// The mathematical content of a variable or of a function.
pub struct SlotView {
    pub protected: bool,
    pub mutable: bool,
    pub typing: Option<Seq<char>>,
    pub value: ValueView,
}

/// The mathematical content of an entry.
pub enum EntryView {
    Variable(SlotView),
    Function(SlotView),
}

/// One scope's own table, as a mathematical map.
pub type Table = Map<Seq<char>, EntryView>;

/// A scope with its ancestors: the tables from the root to the scope itself.
pub type Frames = Seq<Map<Seq<char>, EntryView>>;

impl View for ValkyrieVariable {
    type V = SlotView;

    open spec fn view(&self) -> SlotView {
        SlotView {
            protected: self.protected,
            mutable: self.mutable,
            typing: key_view(self.typing),
            value: self.value@,
        }
    }
}

impl View for ValkyrieFunction {
    type V = SlotView;

    open spec fn view(&self) -> SlotView {
        SlotView {
            protected: self.protected,
            mutable: self.mutable,
            typing: key_view(self.typing),
            value: self.value@,
        }
    }
}

impl View for ValkyrieEntry {
    type V = EntryView;

    open spec fn view(&self) -> EntryView {
        match self {
            ValkyrieEntry::Variable(v) => EntryView::Variable(v@),
            ValkyrieEntry::Function(f) => EntryView::Function(f@),
        }
    }
}

impl Clone for ValkyrieVariable {
    fn clone(&self) -> (copy: Self)
        ensures
            copy@ == self@,
    {
        ValkyrieVariable {
            protected: self.protected,
            mutable: self.mutable,
            typing: clone_key(&self.typing),
            value: self.value.clone(),
        }
    }
}

impl Clone for ValkyrieFunction {
    fn clone(&self) -> (copy: Self)
        ensures
            copy@ == self@,
    {
        ValkyrieFunction {
            protected: self.protected,
            mutable: self.mutable,
            typing: clone_key(&self.typing),
            value: self.value.clone(),
        }
    }
}

impl Clone for ValkyrieEntry {
    fn clone(&self) -> (copy: Self)
        ensures
            copy@ == self@,
    {
        match self {
            ValkyrieEntry::Variable(v) => ValkyrieEntry::Variable(Box::new((**v).clone())),
            ValkyrieEntry::Function(f) => ValkyrieEntry::Function(Box::new((**f).clone())),
        }
    }
}

// ---------------------------------------------------------------------------
// The model
// ---------------------------------------------------------------------------

/// The top scope before anything is bound: one empty table.
pub open spec fn top_frames() -> Frames {
    seq![Map::empty()]
}

/// The child of a scope: the same tables, and an empty one of its own.
pub open spec fn forked(frames: Frames) -> Frames {
    frames.push(Map::empty())
}

/// Name resolution: the entry of the innermost scope that holds the name,
/// walking from the scope itself outward to the root.
pub open spec fn resolve(frames: Frames, name: Seq<char>) -> Option<EntryView>
    decreases frames.len(),
{
    if frames.len() == 0 {
        None
    } else if frames.last().contains_key(name) {
        Some(frames.last()[name])
    } else {
        resolve(frames.drop_last(), name)
    }
}

/// The error, if any, that forbids binding `name` anew in a table: the name
/// is held there as a protected variable, or as a function.
pub open spec fn rebind_error(table: Table, name: Seq<char>) -> Option<ErrorView> {
    if !table.contains_key(name) {
        None
    } else {
        match table[name] {
            EntryView::Variable(v) => if v.protected {
                Some(about(ErrorKind::RebindProtected, name))
            } else {
                None
            },
            EntryView::Function(_) => Some(about(ErrorKind::RebindAcrossKinds, name)),
        }
    }
}

/// The variable that a declaration with the given modifiers makes of a value.
pub open spec fn declared(protected: bool, mutable: bool, value: ValueView) -> EntryView {
    EntryView::Variable(SlotView { protected, mutable, typing: None, value })
}

/// Binding a name in the innermost scope: refused as `rebind_error` says,
/// else the entry is written there, over whatever that scope held under the
/// name. No other scope changes.
pub open spec fn define_in(frames: Frames, name: Seq<char>, entry: EntryView) -> Result<
    Frames,
    ErrorView,
> {
    match rebind_error(frames.last(), name) {
        Some(error) => Err(error),
        None => Ok(frames.update(frames.len() - 1, frames.last().insert(name, entry))),
    }
}

/// Assigning to a name: the innermost scope that holds it decides. A
/// function there refuses, and so does a variable that is not mutable; a
/// mutable variable takes the value and keeps everything else.
pub open spec fn assign_in(frames: Frames, name: Seq<char>, value: ValueView) -> Result<
    Frames,
    ErrorView,
>
    decreases frames.len(),
{
    if frames.len() == 0 {
        Err(about(ErrorKind::UnresolvedSymbol, name))
    } else if frames.last().contains_key(name) {
        match frames.last()[name] {
            EntryView::Function(_) => Err(about(ErrorKind::RebindAcrossKinds, name)),
            EntryView::Variable(v) => if v.mutable {
                Ok(
                    frames.update(
                        frames.len() - 1,
                        frames.last().insert(name, EntryView::Variable(SlotView { value, ..v })),
                    ),
                )
            } else {
                Err(about(ErrorKind::ImmutableVariable, name))
            },
        }
    } else {
        match assign_in(frames.drop_last(), name, value) {
            Ok(outer) => Ok(outer.push(frames.last())),
            Err(error) => Err(error),
        }
    }
}

// ---------------------------------------------------------------------------
// The table of one scope
// ---------------------------------------------------------------------------

/// `dashmap::DashMap`, the table that a scope keeps its entries in. Nothing
/// is known of what is inside one but what `table_entries` names.
#[verifier::external_type_specification]
#[verifier::external_body]
#[verifier::reject_recursive_types(K)]
#[verifier::reject_recursive_types(V)]
#[verifier::reject_recursive_types(S)]
pub struct ExDashMap<K, V, S>(DashMap<K, V, S>);

/// What a table holds: for each name in it, the content of its entry.
pub uninterp spec fn table_entries(table: DashMap<String, ValkyrieEntry>) -> Map<
    Seq<char>,
    EntryView,
>;

/// `DashMap::new`: a table that holds nothing.
#[verifier::external_body]
fn table_new() -> (table: DashMap<String, ValkyrieEntry>)
    ensures
        table_entries(table) == (Map::<Seq<char>, EntryView>::empty()),
{
    DashMap::new()
}

/// `DashMap::get`, with a copy of what it refers to: the entry stored under
/// the name, or nothing where the table does not hold the name.
#[verifier::external_body]
fn table_get(table: &DashMap<String, ValkyrieEntry>, name: &str) -> (found: Option<ValkyrieEntry>)
    ensures
        found is Some == table_entries(*table).contains_key(name@),
        found matches Some(entry) ==> entry@ == table_entries(*table)[name@],
{
    table.get(name).map(|entry| entry.value().clone())
}

/// `DashMap::insert`: the table afterwards holds the entry under the name and
/// is otherwise as before; what the name held before comes back.
#[verifier::external_body]
fn table_insert(
    table: &mut DashMap<String, ValkyrieEntry>,
    name: String,
    entry: ValkyrieEntry,
) -> (previous: Option<ValkyrieEntry>)
    ensures
        table_entries(*final(table)) == table_entries(*old(table)).insert(name@, entry@),
        previous is Some == table_entries(*old(table)).contains_key(name@),
        previous matches Some(before) ==> before@ == table_entries(*old(table))[name@],
{
    table.insert(name, entry)
}

// ---------------------------------------------------------------------------
// Scopes
// ---------------------------------------------------------------------------

/// A scope: its own table, and the scope it was forked from.
pub struct ValkyrieScope {
    parent: Option<Box<ValkyrieScope>>,
    entries: DashMap<String, ValkyrieEntry>,
}

impl View for ValkyrieScope {
    type V = Frames;

    /// The tables from the root to this scope.
    closed spec fn view(&self) -> Frames {
        self.frames()
    }
}

impl ValkyrieScope {
    /// The tables from the root to this scope.
    pub closed spec fn frames(&self) -> Frames
        decreases self,
    {
        match self.parent {
            None => seq![table_entries(self.entries)],
            Some(parent) => parent.frames().push(table_entries(self.entries)),
        }
    }

    /// A scope always has a table of its own.
    pub proof fn lemma_has_own_table(&self)
        ensures
            self@.len() >= 1,
        decreases self,
    {
        match self.parent {
            None => {},
            Some(parent) => {
                parent.lemma_has_own_table();
            },
        }
    }

    /// How the view of a scope is made of its table and its parent's view.
    proof fn lemma_shape(&self)
        ensures
            self@.len() >= 1,
            self@.last() == table_entries(self.entries),
            self.parent is None ==> self@.len() == 1,
            self.parent matches Some(p) ==> self@.drop_last() == p@ && p@.len() >= 1,
    {
        self.lemma_has_own_table();
        if self.parent is Some {
            let p = self.parent->0;
            p.lemma_has_own_table();
            assert(p@.push(table_entries(self.entries)).drop_last() =~= p@);
        }
    }

    /// A top scope that holds nothing.
    pub fn new() -> (scope: Self)
        ensures
            scope@ == top_frames(),
    {
        ValkyrieScope { parent: None, entries: table_new() }
    }

    /// Whether this scope has no parent.
    pub fn is_top(&self) -> (top: bool)
        ensures
            top == (self@.len() == 1),
    {
        proof {
            self.lemma_has_own_table();
            if self.parent is Some {
                self.parent->0.lemma_has_own_table();
            }
        }
        self.parent.is_none()
    }

    /// A new child of this scope. The child holds nothing of its own, sees
    /// everything this scope sees, and owns this scope until `into_parent`
    /// gives it back.
    pub fn fork(self) -> (child: Self)
        ensures
            child@ == forked(self@),
    {
        ValkyrieScope { parent: Some(Box::new(self)), entries: table_new() }
    }

    /// Discards this scope and gives back the scope it was forked from;
    /// nothing for a top scope.
    pub fn into_parent(self) -> (parent: Option<Self>)
        ensures
            parent is Some == (self@.len() > 1),
            parent matches Some(p) ==> p@ == self@.drop_last(),
    {
        proof {
            self.lemma_has_own_table();
        }
        match self.parent {
            Some(parent) => {
                proof {
                    parent.lemma_has_own_table();
                    assert(parent@.push(table_entries(self.entries)).drop_last() =~= parent@);
                }
                Some(*parent)
            },
            None => None,
        }
    }

    /// Writes an entry under a name in this scope, unless the name is held
    /// here as a protected variable or as a function.
    fn define(&mut self, name: &str, entry: ValkyrieEntry) -> (done: Result<(), ValkyrieError>)
        ensures
            match define_in(old(self)@, name@, entry@) {
                Ok(frames) => done is Ok && final(self)@ == frames,
                Err(error) => done matches Err(e) && e@ == error && final(self)@ == old(self)@,
            },
    {
        proof {
            self.lemma_shape();
        }
        match table_get(&self.entries, name) {
            Some(ValkyrieEntry::Variable(held)) => {
                if held.protected {
                    return Err(ValkyrieError::custom(ErrorKind::RebindProtected, name));
                }
            },
            Some(ValkyrieEntry::Function(_)) => {
                return Err(ValkyrieError::custom(ErrorKind::RebindAcrossKinds, name));
            },
            None => {},
        }
        let _ = table_insert(&mut self.entries, String::from_str(name), entry);
        proof {
            self.lemma_shape();
            assert(self@ =~= old(self)@.update(
                old(self)@.len() - 1,
                old(self)@.last().insert(name@, entry@),
            ));
        }
        Ok(())
    }

    /// Binds a name to a value in this scope and gives the value back. The
    /// modifier `final` protects the name from being bound again here, and
    /// `mut` lets its value be replaced later. A name that only an ancestor
    /// holds is shadowed: the ancestor keeps its entry.
    pub fn define_variable(
        &mut self,
        name: &str,
        attributes: &ModifierList,
        value: ValkyrieValue,
    ) -> (bound: Result<ValkyrieValue, ValkyrieError>)
        ensures
            match define_in(
                old(self)@,
                name@,
                declared(
                    names_hold(attributes.terms@, "final"@),
                    names_hold(attributes.terms@, "mut"@),
                    value@,
                ),
            ) {
                Ok(frames) => bound matches Ok(v) && v@ == value@ && final(self)@ == frames,
                Err(error) => bound matches Err(e) && e@ == error && final(self)@ == old(self)@,
            },
    {
        let out = value.clone();
        let protected = attributes.contains("final");
        let mutable = attributes.contains("mut");
        let entry = ValkyrieEntry::Variable(
            Box::new(ValkyrieVariable { protected, mutable, typing: None, value }),
        );
        match self.define(name, entry) {
            Ok(()) => Ok(out),
            Err(error) => Err(error),
        }
    }

    /// Binds a name to a function in this scope, under the rule that binds
    /// variables.
    pub fn define_function(&mut self, name: &str, function: ValkyrieFunction) -> (done: Result<
        (),
        ValkyrieError,
    >)
        ensures
            match define_in(old(self)@, name@, EntryView::Function(function@)) {
                Ok(frames) => done is Ok && final(self)@ == frames,
                Err(error) => done matches Err(e) && e@ == error && final(self)@ == old(self)@,
            },
    {
        self.define(name, ValkyrieEntry::Function(Box::new(function)))
    }

    /// A copy of the entry that a name resolves to from this scope: that of
    /// the innermost scope holding the name. A name that no scope up to the
    /// root holds is an unresolved symbol.
    pub fn get_variable(&self, name: &str) -> (found: Result<ValkyrieEntry, ValkyrieError>)
        ensures
            match resolve(self@, name@) {
                Some(entry) => found matches Ok(e) && e@ == entry,
                None => found matches Err(e) && e@ == about(ErrorKind::UnresolvedSymbol, name@),
            },
        decreases self,
    {
        proof {
            self.lemma_shape();
        }
        match table_get(&self.entries, name) {
            Some(entry) => Ok(entry),
            None => match &self.parent {
                Some(parent) => parent.get_variable(name),
                None => {
                    proof {
                        assert(resolve(self@.drop_last(), name@) is None);
                    }
                    Err(ValkyrieError::custom(ErrorKind::UnresolvedSymbol, name))
                },
            },
        }
    }

    /// Replaces the value of the variable that a name resolves to from this
    /// scope, in the scope that holds it, and gives the value back. Only a
    /// variable declared `mut` takes a new value; a function never does.
    pub fn set_variable(&mut self, name: &str, value: ValkyrieValue) -> (set: Result<
        ValkyrieValue,
        ValkyrieError,
    >)
        ensures
            match assign_in(old(self)@, name@, value@) {
                Ok(frames) => set matches Ok(v) && v@ == value@ && final(self)@ == frames,
                Err(error) => set matches Err(e) && e@ == error && final(self)@ == old(self)@,
            },
        decreases old(self)@.len(),
    {
        proof {
            self.lemma_shape();
        }
        match table_get(&self.entries, name) {
            Some(ValkyrieEntry::Function(_)) => Err(
                ValkyrieError::custom(ErrorKind::RebindAcrossKinds, name),
            ),
            Some(ValkyrieEntry::Variable(held)) => {
                if !held.mutable {
                    return Err(ValkyrieError::custom(ErrorKind::ImmutableVariable, name));
                }
                let out = value.clone();
                let entry = ValkyrieEntry::Variable(
                    Box::new(
                        ValkyrieVariable {
                            protected: held.protected,
                            mutable: held.mutable,
                            typing: held.typing,
                            value,
                        },
                    ),
                );
                let _ = table_insert(&mut self.entries, String::from_str(name), entry);
                proof {
                    self.lemma_shape();
                    assert(self@ =~= old(self)@.update(
                        old(self)@.len() - 1,
                        old(self)@.last().insert(name@, entry@),
                    ));
                }
                Ok(out)
            },
            None => {
                let set = match &mut self.parent {
                    Some(parent) => parent.set_variable(name, value),
                    None => Err(ValkyrieError::custom(ErrorKind::UnresolvedSymbol, name)),
                };
                proof {
                    self.lemma_shape();
                    if old(self).parent is None {
                        assert(assign_in(old(self)@.drop_last(), name@, value@) is Err);
                    }
                    assert(self@ =~= self@.drop_last().push(old(self)@.last()));
                    assert(old(self)@ =~= old(self)@.drop_last().push(old(self)@.last()));
                }
                set
            },
        }
    }

    /// Turns this scope into a new child of itself: `fork` in place.
    pub fn enter(&mut self)
        ensures
            final(self)@ == forked(old(self)@),
    {
        let mut parent = ValkyrieScope::new();
        core::mem::swap(self, &mut parent);
        *self = parent.fork();
    }

    /// Turns this scope back into the scope it was forked from, dropping
    /// what it held of its own: `into_parent` in place. A top scope stays as
    /// it is.
    pub fn leave(&mut self)
        ensures
            final(self)@ == if old(self)@.len() > 1 {
                old(self)@.drop_last()
            } else {
                old(self)@
            },
    {
        if self.is_top() {
            return ;
        }
        let mut child = ValkyrieScope::new();
        core::mem::swap(self, &mut child);
        match child.into_parent() {
            Some(parent) => {
                *self = parent;
            },
            None => {},
        }
    }
}

} // verus!
