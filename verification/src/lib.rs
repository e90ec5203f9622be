//! The evaluation core of the Valkyrie scripting language.
//!
//! A program arrives as a syntax tree (`ast`). `semantics` says, as
//! mathematics, what each node of the tree comes to in a scope; `evaluate`
//! holds the code that executes the nodes, proved to come to exactly that;
//! and `laws` holds what follows for every program.
//!
//! Executing a statement gives an outcome (`state`): a value, or one of the
//! signals `Return`, `Raise`, `Break`, `Continue` and `Fallthrough`, which
//! travel up through the constructs as values of their own rather than as
//! panics. Names live in scopes (`scope`), which fork for every block.
//! Literals are read in `literal` and `json`. The machine (`vm`) keeps the
//! top scope from one program to the next.
//!
//! `display` and `render` hold what a notebook front end shows for a value,
//! and `config` the settings of that front end.
pub mod ast;
pub mod config;
pub mod display;
pub mod error;
pub mod evaluate;
pub mod json;
pub mod laws;
pub mod literal;
pub mod render;
pub mod scope;
pub mod semantics;
pub mod state;
pub mod value;
pub mod vm;

pub use crate::config::ValkyrieConfig;
pub use crate::display::{DisplayKeywords, DisplayNumber, DisplayText, JupyterTheme};
pub use crate::error::{ErrorKind, ErrorView, ValkyrieError};
pub use crate::evaluate::Evaluate;
pub use crate::scope::{
    EntryView, SlotView, ValkyrieEntry, ValkyrieFunction, ValkyrieScope, ValkyrieVariable,
};
pub use crate::state::{EvaluatedResult, EvaluatedState, StateView};
pub use crate::value::{ItemView, ValkyrieItem, ValkyrieValue, ValueView};
pub use crate::vm::{FileID, ValkyrieVM};
