//! Symbol navigation and rename refactoring over a snapshot of the syntax
//! tree and the semantic model, which callers hand in as plain facts.
pub mod defs;
pub mod edit;
pub mod goto_definition;
pub mod laws;
pub mod names;
pub mod rename;
pub mod text;
