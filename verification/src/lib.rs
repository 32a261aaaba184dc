//! Semantic analysis for the Move language: name and type resolution over a
//! stack of scopes, a cancellable walk over function bodies that reports
//! every binding-relevant node to a visitor, and the synthesis of `aborts_if`
//! clauses from assertions.
//!
//! - [`syntax`] is the syntax tree that the analysis works on; a parser
//!   hands it in.
//! - [`types`], [`algebra`] and [`resolve`] are the resolved types: their
//!   shape, substitution and inference, and the way from a written type to a
//!   resolved one.
//! - [`item`], [`table`] and [`scopes`] are the symbol table.
//! - [`evaluate`] gives the type of an expression.
//! - [`visitor`], [`walk`] and [`driver`] are the walk: what it does to a
//!   visitor, the functions that do it, and the run over a repository
//!   ([`modules`]). [`collect`] is a visitor that keeps what it is told.
//!   [`laws`], [`known`] and [`order`] hold what is true of every walk and
//!   of every run.
//! - [`inverse`], [`generate`] and [`shadow`] write specification blocks and
//!   `use` statements; [`names`] finds the names that an expression uses.
//!
//! Every function is verified against its contract, but for the wrappers of
//! a hash map in [`table`].
pub mod algebra;
pub mod collect;
pub mod driver;
pub mod evaluate;
pub mod generate;
pub mod inverse;
pub mod item;
pub mod known;
pub mod laws;
pub mod modules;
pub mod names;
pub mod order;
pub mod resolve;
pub mod scopes;
pub mod shadow;
pub mod syntax;
pub mod table;
pub mod types;
pub mod visitor;
pub mod walk;
