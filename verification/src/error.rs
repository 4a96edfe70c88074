//! The errors of both passes.

use vstd::prelude::*;
use crate::position::Position;

verus! {

/// The source constructs that the passes refuse.
#[derive(Clone, Copy, Debug, PartialEq, Eq, Structural)]
pub enum ConstructKind {
    /// An expression that stands alone as a statement.
    ExpressionStatement,
    Noop,
    Switch,
    For,
    Block,
    TryCatch,
    BreakLoop,
    Return,
    Import,
    Export,
    Share,
    /// A statement of a kind that the parser has and this list does not.
    OtherStatement,
    ObjectMap,
    This,
    Property,
    MethodCall,
    /// A statement block that stands where an expression is expected.
    StatementExpression,
    Dot,
    Index,
    /// The short-circuit `&&`.
    And,
    /// The short-circuit `||`.
    Or,
    /// The null-coalescing `??`.
    Coalesce,
    Custom,
    /// An expression of a kind that the parser has and this list does not.
    OtherExpression,
    /// The shift operator `<<`.
    ShiftLeft,
    /// The shift operator `>>`.
    ShiftRight,
}

/// Why a compilation unit could not be lowered. The first fault that a pass
/// meets ends it; no part of the output is handed out beside the error.
#[derive(Clone, Copy, Debug, PartialEq, Eq, Structural)]
pub enum LoweringError {
    /// A construct outside the supported subset.
    UnsupportedConstruct { kind: ConstructKind, position: Position },
    /// The left-hand side of an assignment is not a plain variable.
    MalformedAssignmentTarget { position: Position },
    /// A folded constant has a shape that the target's value model lacks.
    UnrepresentableConstant { position: Position },
}

} // verus!
