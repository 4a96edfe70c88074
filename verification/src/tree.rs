//! The tree-shaped program that the flattener reads.
//!
//! A parser adapter builds these nodes. Whatever it cannot express in the
//! supported shapes it hands over as an `Unsupported` node that names the
//! construct, so that the flattener reports it.

use vstd::prelude::*;
use crate::error::ConstructKind;
use crate::position::Position;
use crate::value::{Constant, ConstantModel};

verus! {

/// An expression of the source program.
#[derive(Debug, PartialEq, Eq)]
pub enum TreeExpr {
    /// A call of a function or an operator, its arguments in source order.
    FnCall { name: String, args: Vec<TreeExpr>, position: Position },
    Variable { name: String, position: Position },
    IntegerConstant(i64, Position),
    /// A double, as its IEEE 754 bits.
    FloatConstant(u64, Position),
    BoolConstant(bool, Position),
    CharConstant(char, Position),
    StringConstant(String, Position),
    Unit(Position),
    DynamicConstant(Constant, Position),
    Array(Vec<TreeExpr>, Position),
    /// The literal segments and embedded expressions of an interpolated
    /// string, in source order.
    InterpolatedString(Vec<TreeExpr>, Position),
    Unsupported(ConstructKind, Position),
}

/// The mathematical model of a [`TreeExpr`].
pub enum ExprModel {
    FnCall { name: Seq<char>, args: Seq<ExprModel>, position: Position },
    Variable { name: Seq<char>, position: Position },
    IntegerConstant(i64, Position),
    FloatConstant(u64, Position),
    BoolConstant(bool, Position),
    CharConstant(char, Position),
    StringConstant(Seq<char>, Position),
    Unit(Position),
    DynamicConstant(ConstantModel, Position),
    Array(Seq<ExprModel>, Position),
    InterpolatedString(Seq<ExprModel>, Position),
    Unsupported(ConstructKind, Position),
}

/// The models of a sequence of expressions, item by item.
pub open spec fn exprs_view(items: Seq<TreeExpr>) -> Seq<ExprModel>
    decreases items,
{
    Seq::new(
        items.len(),
        |i: int|
            if 0 <= i < items.len() {
                items[i]@
            } else {
                ExprModel::Unit(Position { line: 0, column: 0 })
            },
    )
}

impl View for TreeExpr {
    type V = ExprModel;

    open spec fn view(&self) -> ExprModel
        decreases self,
    {
        match self {
            TreeExpr::FnCall { name, args, position } => ExprModel::FnCall {
                name: name@,
                args: exprs_view(args@),
                position: *position,
            },
            TreeExpr::Variable { name, position } => ExprModel::Variable {
                name: name@,
                position: *position,
            },
            TreeExpr::IntegerConstant(value, position) => ExprModel::IntegerConstant(
                *value,
                *position,
            ),
            TreeExpr::FloatConstant(bits, position) => ExprModel::FloatConstant(*bits, *position),
            TreeExpr::BoolConstant(value, position) => ExprModel::BoolConstant(*value, *position),
            TreeExpr::CharConstant(value, position) => ExprModel::CharConstant(*value, *position),
            TreeExpr::StringConstant(value, position) => ExprModel::StringConstant(
                value@,
                *position,
            ),
            TreeExpr::Unit(position) => ExprModel::Unit(*position),
            TreeExpr::DynamicConstant(value, position) => ExprModel::DynamicConstant(
                value@,
                *position,
            ),
            TreeExpr::Array(items, position) => ExprModel::Array(exprs_view(items@), *position),
            TreeExpr::InterpolatedString(parts, position) => ExprModel::InterpolatedString(
                exprs_view(parts@),
                *position,
            ),
            TreeExpr::Unsupported(kind, position) => ExprModel::Unsupported(*kind, *position),
        }
    }
}

impl ExprModel {
    /// The source position of the expression.
    pub open spec fn position(self) -> Position {
        match self {
            ExprModel::FnCall { position, .. } => position,
            ExprModel::Variable { position, .. } => position,
            ExprModel::IntegerConstant(_, position) => position,
            ExprModel::FloatConstant(_, position) => position,
            ExprModel::BoolConstant(_, position) => position,
            ExprModel::CharConstant(_, position) => position,
            ExprModel::StringConstant(_, position) => position,
            ExprModel::Unit(position) => position,
            ExprModel::DynamicConstant(_, position) => position,
            ExprModel::Array(_, position) => position,
            ExprModel::InterpolatedString(_, position) => position,
            ExprModel::Unsupported(_, position) => position,
        }
    }
}

impl TreeExpr {
    /// The source position of the expression.
    pub fn position(&self) -> (position: Position)
        ensures
            position == self@.position(),
    {
        match self {
            TreeExpr::FnCall { position, .. } => *position,
            TreeExpr::Variable { position, .. } => *position,
            TreeExpr::IntegerConstant(_, position) => *position,
            TreeExpr::FloatConstant(_, position) => *position,
            TreeExpr::BoolConstant(_, position) => *position,
            TreeExpr::CharConstant(_, position) => *position,
            TreeExpr::StringConstant(_, position) => *position,
            TreeExpr::Unit(position) => *position,
            TreeExpr::DynamicConstant(_, position) => *position,
            TreeExpr::Array(_, position) => *position,
            TreeExpr::InterpolatedString(_, position) => *position,
            TreeExpr::Unsupported(_, position) => *position,
        }
    }
}

/// A statement of the source program.
#[derive(Debug, PartialEq, Eq)]
pub enum TreeStmt {
    /// `let name = value`; the position is that of the name.
    Var { name: String, position: Position, value: TreeExpr },
    /// `target = value`, or `target op= value` where `operator` names `op`.
    Assignment { target: TreeExpr, operator: Option<String>, value: TreeExpr },
    /// A call that stands alone as a statement.
    FnCall { name: String, args: Vec<TreeExpr>, position: Position },
    /// `if expr { body } else { branch }`.
    If(FlowControl, Position),
    /// `while expr { body }`.
    While(FlowControl, Position),
    /// `do { body } while expr`, or `do { body } until expr` where the flag
    /// is set.
    Do(FlowControl, bool, Position),
    Unsupported(ConstructKind, Position),
}

/// The parts of a statement that steers the flow of control: the guarding
/// expression, the main body, and the other branch, which is empty where the
/// statement has none.
#[derive(Debug, PartialEq, Eq)]
pub struct FlowControl {
    pub expr: TreeExpr,
    pub body: Vec<TreeStmt>,
    pub branch: Vec<TreeStmt>,
}

/// The mathematical model of a [`TreeStmt`].
pub enum StmtModel {
    Var { name: Seq<char>, position: Position, value: ExprModel },
    Assignment { target: ExprModel, operator: Option<Seq<char>>, value: ExprModel },
    FnCall { name: Seq<char>, args: Seq<ExprModel>, position: Position },
    If(FlowModel, Position),
    While(FlowModel, Position),
    Do(FlowModel, bool, Position),
    Unsupported(ConstructKind, Position),
}

/// The mathematical model of a [`FlowControl`].
pub struct FlowModel {
    pub expr: ExprModel,
    pub body: Seq<StmtModel>,
    pub branch: Seq<StmtModel>,
}

/// The models of a sequence of statements, item by item.
pub open spec fn stmts_view(items: Seq<TreeStmt>) -> Seq<StmtModel>
    decreases items,
{
    Seq::new(
        items.len(),
        |i: int|
            if 0 <= i < items.len() {
                items[i]@
            } else {
                StmtModel::Unsupported(ConstructKind::Noop, Position { line: 0, column: 0 })
            },
    )
}

/// The model of an optional name.
pub open spec fn name_view(name: Option<String>) -> Option<Seq<char>> {
    match name {
        Some(text) => Some(text@),
        None => None,
    }
}

impl View for FlowControl {
    type V = FlowModel;

    open spec fn view(&self) -> FlowModel
        decreases self,
    {
        FlowModel {
            expr: self.expr@,
            body: stmts_view(self.body@),
            branch: stmts_view(self.branch@),
        }
    }
}

impl View for TreeStmt {
    type V = StmtModel;

    open spec fn view(&self) -> StmtModel
        decreases self,
    {
        match self {
            TreeStmt::Var { name, position, value } => StmtModel::Var {
                name: name@,
                position: *position,
                value: value@,
            },
            TreeStmt::Assignment { target, operator, value } => StmtModel::Assignment {
                target: target@,
                operator: name_view(*operator),
                value: value@,
            },
            TreeStmt::FnCall { name, args, position } => StmtModel::FnCall {
                name: name@,
                args: exprs_view(args@),
                position: *position,
            },
            TreeStmt::If(flow, position) => StmtModel::If(flow@, *position),
            TreeStmt::While(flow, position) => StmtModel::While(flow@, *position),
            TreeStmt::Do(flow, negated, position) => StmtModel::Do(flow@, *negated, *position),
            TreeStmt::Unsupported(kind, position) => StmtModel::Unsupported(*kind, *position),
        }
    }
}

} // verus!
