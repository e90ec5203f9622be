//! The values that evaluation produces.
use vstd::prelude::*;

verus! {

/// A runtime value.
///
/// `Nothing` is not `Null`: it marks a statement that produced nothing to
/// show, and is the value of a binding that was declared without one.
#[derive(Debug, PartialEq, Eq)]
pub enum ValkyrieValue {
    Nothing,
    Null,
    Unit,
    Boolean(bool),
    Number(i128),
    UTF8String(String),
    /// Markup, shown as it is.
    Html(String),
    /// A JSON document, held as its compact JSON text.
    Json(String),
    /// An aggregate of positional and named items, in the order written.
    List(Vec<ValkyrieItem>),
}

/// One item of an aggregate: a value, and the name it was given if any.
#[derive(Debug, PartialEq, Eq)]
pub struct ValkyrieItem {
    pub key: Option<String>,
    pub value: ValkyrieValue,
}

/// The mathematical content of a `ValkyrieValue`.
pub enum ValueView {
    Nothing,
    Null,
    Unit,
    Boolean(bool),
    Number(int),
    Text(Seq<char>),
    Html(Seq<char>),
    Json(Seq<char>),
    List(Seq<ItemView>),
}

/// The mathematical content of a `ValkyrieItem`.
pub struct ItemView {
    pub key: Option<Seq<char>>,
    pub value: ValueView,
}

/// The name of an item, as a sequence of characters.
pub open spec fn key_view(key: Option<String>) -> Option<Seq<char>> {
    match key {
        Some(name) => Some(name@),
        None => None,
    }
}

/// The contents of a run of items, item by item.
pub open spec fn items_view(items: Seq<ValkyrieItem>) -> Seq<ItemView>
    decreases items,
{
    if items.len() == 0 {
        Seq::empty()
    } else {
        items_view(items.drop_last()).push(
            ItemView { key: key_view(items.last().key), value: items.last().value.view() },
        )
    }
}

impl View for ValkyrieValue {
    type V = ValueView;

    open spec fn view(&self) -> ValueView
        decreases self,
    {
        match self {
            ValkyrieValue::Nothing => ValueView::Nothing,
            ValkyrieValue::Null => ValueView::Null,
            ValkyrieValue::Unit => ValueView::Unit,
            ValkyrieValue::Boolean(b) => ValueView::Boolean(*b),
            ValkyrieValue::Number(n) => ValueView::Number(*n as int),
            ValkyrieValue::UTF8String(s) => ValueView::Text(s@),
            ValkyrieValue::Html(s) => ValueView::Html(s@),
            ValkyrieValue::Json(s) => ValueView::Json(s@),
            ValkyrieValue::List(items) => ValueView::List(items_view(items@)),
        }
    }
}

impl View for ValkyrieItem {
    type V = ItemView;

    open spec fn view(&self) -> ItemView {
        ItemView { key: key_view(self.key), value: self.value@ }
    }
}

/// `items_view` keeps the length and maps each item to its view.
pub proof fn lemma_items_view(items: Seq<ValkyrieItem>)
    ensures
        items_view(items).len() == items.len(),
        forall|i: int| 0 <= i < items.len() ==> #[trigger] items_view(items)[i] == items[i]@,
    decreases items.len(),
{
    if items.len() > 0 {
        lemma_items_view(items.drop_last());
    }
}

/// The truth of a value where a condition is wanted: a boolean is itself;
/// nothing, null and unit are false; a number is true unless it is zero; text
/// and aggregates are true unless they are empty.
pub open spec fn truthy(value: ValueView) -> bool {
    match value {
        ValueView::Nothing => false,
        ValueView::Null => false,
        ValueView::Unit => false,
        ValueView::Boolean(b) => b,
        ValueView::Number(n) => n != 0,
        ValueView::Text(s) => s.len() > 0,
        ValueView::Html(s) => s.len() > 0,
        ValueView::Json(s) => s.len() > 0,
        ValueView::List(items) => items.len() > 0,
    }
}

impl ValkyrieValue {
    /// Whether this is the marker of a statement that produced nothing.
    pub fn is_nothing(&self) -> (nothing: bool)
        ensures
            nothing == (self@ is Nothing),
    {
        match self {
            ValkyrieValue::Nothing => true,
            _ => false,
        }
    }

    /// The truth of this value where a condition is wanted.
    pub fn is_truthy(&self) -> (truth: bool)
        ensures
            truth == truthy(self@),
    {
        match self {
            ValkyrieValue::Nothing => false,
            ValkyrieValue::Null => false,
            ValkyrieValue::Unit => false,
            ValkyrieValue::Boolean(b) => *b,
            ValkyrieValue::Number(n) => *n != 0,
            ValkyrieValue::UTF8String(s) => s.as_str().unicode_len() > 0,
            ValkyrieValue::Html(s) => s.as_str().unicode_len() > 0,
            ValkyrieValue::Json(s) => s.as_str().unicode_len() > 0,
            ValkyrieValue::List(items) => {
                proof {
                    lemma_items_view(items@);
                }
                items.len() > 0
            },
        }
    }
}

/// A copy of an optional name.
pub fn clone_key(key: &Option<String>) -> (copy: Option<String>)
    ensures
        key_view(copy) == key_view(*key),
{
    match key {
        Some(name) => Some(name.clone()),
        None => None,
    }
}

impl Clone for ValkyrieValue {
    fn clone(&self) -> (copy: Self)
        ensures
            copy@ == self@,
        decreases self,
    {
        match self {
            ValkyrieValue::Nothing => ValkyrieValue::Nothing,
            ValkyrieValue::Null => ValkyrieValue::Null,
            ValkyrieValue::Unit => ValkyrieValue::Unit,
            ValkyrieValue::Boolean(b) => ValkyrieValue::Boolean(*b),
            ValkyrieValue::Number(n) => ValkyrieValue::Number(*n),
            ValkyrieValue::UTF8String(s) => ValkyrieValue::UTF8String(s.clone()),
            ValkyrieValue::Html(s) => ValkyrieValue::Html(s.clone()),
            ValkyrieValue::Json(s) => ValkyrieValue::Json(s.clone()),
            ValkyrieValue::List(items) => {
                let mut copies: Vec<ValkyrieItem> = Vec::new();
                let mut i: usize = 0;
                while i < items.len()
                    invariant
                        i <= items.len(),
                        copies.len() == i,
                        forall|j: int| 0 <= j < i ==> #[trigger] copies[j]@ == items[j]@,
                        *self == ValkyrieValue::List(*items),
                    decreases items.len() - i,
                {
                    let item = &items[i];
                    proof {
                        // The item is a part of this value, so copying it
                        // is a smaller task.
                        assert(self->List_0 == *items);
                        assert(decreases_to!(*self => self->List_0));
                        assert(decreases_to!(items@ => items@[i as int]));
                    }
                    let copy = ValkyrieItem {
                        key: clone_key(&item.key),
                        value: item.value.clone(),
                    };
                    copies.push(copy);
                    i += 1;
                }
                proof {
                    lemma_items_view(items@);
                    lemma_items_view(copies@);
                    assert(items_view(copies@) =~= items_view(items@));
                }
                ValkyrieValue::List(copies)
            },
        }
    }
}

impl Clone for ValkyrieItem {
    fn clone(&self) -> (copy: Self)
        ensures
            copy@ == self@,
    {
        ValkyrieItem { key: clone_key(&self.key), value: self.value.clone() }
    }
}

} // verus!
