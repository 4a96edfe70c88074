//! Lowering of a tree-shaped script program to an instruction sequence for a
//! stack machine that reads its instructions front to back and has no
//! control flow of its own.
//!
//! The work is done in two passes, each a function of its argument alone.
//!
//! * The flattener ([`flatten_ast`]) turns statements and nested expressions
//!   into a flat sequence of stack operations in execution order: the code
//!   of the operands in source order, then the operation. Control flow stays
//!   structured, as blocks whose fields are flat sequences of their own.
//! * The lowerer ([`translate`]) expands every flat operation into the
//!   instructions of the target. What a call becomes is looked up in the
//!   operator table ([`translate_ops`]); a folded constant is taken apart
//!   into an embeddable value ([`translate_dynamic`]).
//!
//! The input is the tree of [`tree`], which a parser adapter builds; the
//! output is the node sequence of [`target`], which a backend encodes or
//! runs. A construct outside the supported subset, an assignment to
//! something that is no variable, and a constant without a counterpart on
//! the target end a pass with an [`error::LoweringError`]; a pass never
//! hands out part of a sequence.
//!
//! Every function states what it returns over the models of its arguments.
//! [`machine`] and [`target_machine`] define reference machines, and
//! [`laws`] proves what holds of the passes for every input: the flat code
//! of a tree runs to the value that the tree has, the lowering keeps the
//! order of the flat code, and a fault is reported alone.

pub mod error;
pub mod flatten_ast;
pub mod laws;
pub mod machine;
pub mod position;
pub mod sequence;
pub mod target;
pub mod target_machine;
pub mod translate;
pub mod translate_dynamic;
pub mod translate_ops;
pub mod tree;
pub mod value;
