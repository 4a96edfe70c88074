//! A reference stack machine for flat code, and the direct evaluation of
//! the tree, both as mathematics. The laws of the flattener are stated over
//! the two.
//!
//! The machine reads a flat sequence front to back. It knows literals,
//! variable reads and stores, and calls; what a named call computes is left
//! to a table of primitives that the laws quantify over. Blocks belong to
//! the backend and stop this machine.

use vstd::prelude::*;
use crate::flatten_ast::{
    is_string_literal, join_primitive, list_primitive, to_text_primitive, expr_code, FlatModel,
    OpModel,
};
use crate::translate_dynamic::constant_iota;
use crate::tree::{ExprModel, StmtModel};
use crate::value::{IotaModel, Number};

verus! {

/// A value on the stack of a reference machine: what an instruction can
/// embed, or a quoted instruction, or a list of such values.
pub enum Datum {
    Null,
    Boolean(bool),
    Number(Number),
    Text(Seq<char>),
    List(Seq<Datum>),
    Instruction(Seq<char>),
}

/// The stack value that stands for an embeddable value.
pub open spec fn datum_of(value: IotaModel) -> Datum
    decreases value,
{
    match value {
        IotaModel::Null => Datum::Null,
        IotaModel::Boolean(flag) => Datum::Boolean(flag),
        IotaModel::Number(number) => Datum::Number(number),
        IotaModel::Text(text) => Datum::Text(text),
        IotaModel::List(items) => Datum::List(
            Seq::new(
                items.len(),
                |i: int|
                    if 0 <= i < items.len() {
                        datum_of(items[i])
                    } else {
                        Datum::Null
                    },
            ),
        ),
    }
}

/// What the named calls mean: how many values each takes from the stack,
/// and what it gives for them.
pub struct Primitives {
    pub arity: spec_fn(Seq<char>) -> nat,
    pub apply: spec_fn(Seq<char>, Seq<Datum>) -> Datum,
}

/// The state of the machine: the operand stack, its top at the end, and the
/// variables.
pub struct Machine {
    pub stack: Seq<Datum>,
    pub variables: Map<Seq<char>, Datum>,
}

impl Machine {
    /// The machine with `value` on top of the stack.
    pub open spec fn push(self, value: Datum) -> Machine {
        Machine { stack: self.stack.push(value), variables: self.variables }
    }

    /// The machine with `values` on top of the stack, the last one topmost.
    pub open spec fn push_all(self, values: Seq<Datum>) -> Machine {
        Machine { stack: self.stack + values, variables: self.variables }
    }

    /// The machine with `name` bound to `value`.
    pub open spec fn bind(self, name: Seq<char>, value: Datum) -> Machine {
        Machine { stack: self.stack, variables: self.variables.insert(name, value) }
    }
}

/// One call on the machine. The list primitive takes a count from the top
/// and that many values from below it, and leaves the list of them, the
/// deepest first. Any other call takes as many values as its arity says,
/// the deepest being the first argument, and leaves what it gives for them.
/// Where the stack holds too little the machine stops.
pub open spec fn call_step(primitives: Primitives, name: Seq<char>, machine: Machine) -> Option<
    Machine,
> {
    if name == list_primitive() {
        if machine.stack.len() >= 1 {
            match machine.stack.last() {
                Datum::Number(Number::Integer(count)) => {
                    let below = machine.stack.drop_last();
                    if 0 <= count <= below.len() {
                        Some(
                            Machine {
                                stack: below.take(below.len() - count).push(
                                    Datum::List(below.skip(below.len() - count)),
                                ),
                                variables: machine.variables,
                            },
                        )
                    } else {
                        None
                    }
                },
                _ => None,
            }
        } else {
            None
        }
    } else {
        let taken = (primitives.arity)(name);
        if taken <= machine.stack.len() {
            let kept = machine.stack.len() - taken;
            Some(
                Machine {
                    stack: machine.stack.take(kept).push(
                        (primitives.apply)(name, machine.stack.skip(kept)),
                    ),
                    variables: machine.variables,
                },
            )
        } else {
            None
        }
    }
}

/// One node on the machine.
pub open spec fn step(primitives: Primitives, node: FlatModel, machine: Machine) -> Option<
    Machine,
> {
    match node {
        FlatModel::NumberLiteral(value, _) => Some(machine.push(Datum::Number(value))),
        FlatModel::BooleanLiteral(value, _) => Some(machine.push(Datum::Boolean(value))),
        FlatModel::StringLiteral(value, _) => Some(machine.push(Datum::Text(value))),
        FlatModel::Unit(_) => Some(machine.push(Datum::Null)),
        FlatModel::DynamicConstant(value, position) => match constant_iota(value, position) {
            Ok(iota) => Some(machine.push(datum_of(iota))),
            Err(_) => None,
        },
        FlatModel::Op(OpModel::Push(name), _) => Some(machine.push(machine.variables[name])),
        FlatModel::Op(OpModel::Store(name), _) => if machine.stack.len() >= 1 {
            Some(
                Machine {
                    stack: machine.stack.drop_last(),
                    variables: machine.variables.insert(name, machine.stack.last()),
                },
            )
        } else {
            None
        },
        FlatModel::Op(OpModel::FnCall(name), _) => call_step(primitives, name, machine),
        FlatModel::IfBlock { .. } => None,
        FlatModel::WhileBlock { .. } => None,
    }
}

/// The machine after it has read `code` from the front to the end, or
/// `None` where it stopped on the way.
pub open spec fn run(primitives: Primitives, code: Seq<FlatModel>, machine: Machine) -> Option<
    Machine,
>
    decreases code.len(),
{
    if code.len() == 0 {
        Some(machine)
    } else {
        match step(primitives, code[0], machine) {
            Some(next) => run(primitives, code.drop_first(), next),
            None => None,
        }
    }
}

/// The value of an expression, computed on the tree: the operands from the
/// left to the right, then the operation.
pub open spec fn eval_expr(
    primitives: Primitives,
    variables: Map<Seq<char>, Datum>,
    expression: ExprModel,
) -> Datum
    decreases expression, 0nat,
{
    match expression {
        ExprModel::FnCall { name, args, .. } => (primitives.apply)(
            name,
            eval_exprs(primitives, variables, args),
        ),
        ExprModel::Variable { name, .. } => variables[name],
        ExprModel::IntegerConstant(value, _) => Datum::Number(Number::Integer(value as i128)),
        ExprModel::FloatConstant(bits, _) => Datum::Number(Number::Float(bits)),
        ExprModel::BoolConstant(value, _) => Datum::Boolean(value),
        ExprModel::CharConstant(value, _) => Datum::Text(seq![value]),
        ExprModel::StringConstant(value, _) => Datum::Text(value),
        ExprModel::Unit(_) => Datum::Null,
        ExprModel::DynamicConstant(value, position) => match constant_iota(value, position) {
            Ok(iota) => datum_of(iota),
            Err(_) => Datum::Null,
        },
        ExprModel::Array(items, _) => Datum::List(eval_exprs(primitives, variables, items)),
        ExprModel::InterpolatedString(parts, _) => eval_parts_upto(
            primitives,
            variables,
            parts,
            parts.len(),
        ),
        ExprModel::Unsupported(_, _) => Datum::Null,
    }
}

/// The values of the expressions, in source order.
pub open spec fn eval_exprs(
    primitives: Primitives,
    variables: Map<Seq<char>, Datum>,
    items: Seq<ExprModel>,
) -> Seq<Datum>
    decreases items, 1nat,
{
    Seq::new(
        items.len(),
        |i: int|
            if 0 <= i < items.len() {
                eval_expr(primitives, variables, items[i])
            } else {
                Datum::Null
            },
    )
}

/// The text that a part of an interpolated string adds: its value, turned
/// into text unless the part is a string literal as it stands.
pub open spec fn part_text(
    primitives: Primitives,
    variables: Map<Seq<char>, Datum>,
    part: ExprModel,
) -> Datum
    decreases part, 1nat,
{
    let value = eval_expr(primitives, variables, part);
    match expr_code(part) {
        Ok(code) => if is_string_literal(code) {
            value
        } else {
            (primitives.apply)(to_text_primitive(), seq![value])
        },
        Err(_) => value,
    }
}

/// The value of the first `count` parts of an interpolated string: the
/// value of the first part, joined from the left with the text of each
/// further part.
pub open spec fn eval_parts_upto(
    primitives: Primitives,
    variables: Map<Seq<char>, Datum>,
    parts: Seq<ExprModel>,
    count: nat,
) -> Datum
    decreases parts, count,
{
    if count == 0 || count > parts.len() {
        Datum::Null
    } else if count == 1 {
        eval_expr(primitives, variables, parts[0])
    } else {
        (primitives.apply)(
            join_primitive(),
            seq![
                eval_parts_upto(primitives, variables, parts, (count - 1) as nat),
                part_text(primitives, variables, parts[count - 1]),
            ],
        )
    }
}

/// Whether the machine and the tree can disagree on nothing in this
/// expression: every call has as many arguments as its primitive takes and
/// keeps off the name of the list primitive, every constant has a
/// counterpart on the target, an interpolated string has a part, and no
/// refused construct occurs.
pub open spec fn expr_well_formed(primitives: Primitives, expression: ExprModel) -> bool
    decreases expression, 0nat,
{
    match expression {
        ExprModel::FnCall { name, args, .. } => {
            &&& name != list_primitive()
            &&& args.len() == (primitives.arity)(name)
            &&& exprs_well_formed(primitives, args)
        },
        ExprModel::Array(items, _) => {
            &&& items.len() <= usize::MAX
            &&& exprs_well_formed(primitives, items)
        },
        ExprModel::InterpolatedString(parts, _) => {
            &&& parts.len() >= 1
            &&& (primitives.arity)(join_primitive()) == 2
            &&& (primitives.arity)(to_text_primitive()) == 1
            &&& exprs_well_formed(primitives, parts)
        },
        ExprModel::DynamicConstant(value, position) => constant_iota(value, position) is Ok,
        ExprModel::Unsupported(_, _) => false,
        _ => true,
    }
}

/// Whether each of the expressions is well formed.
pub open spec fn exprs_well_formed(primitives: Primitives, items: Seq<ExprModel>) -> bool
    decreases items, 1nat,
{
    forall|i: int| 0 <= i < items.len() ==> expr_well_formed(primitives, #[trigger] items[i])
}

/// Whether the machine and the tree can disagree on nothing in this
/// statement. Only statements without a block qualify: a declaration, an
/// assignment to a plain variable, and a call. The operator of a compound
/// assignment has to take two values.
pub open spec fn stmt_well_formed(primitives: Primitives, statement: StmtModel) -> bool {
    match statement {
        StmtModel::Var { value, .. } => expr_well_formed(primitives, value),
        StmtModel::Assignment { target, operator, value } => {
            &&& target is Variable
            &&& expr_well_formed(primitives, value)
            &&& match operator {
                Some(symbol) => symbol != list_primitive() && (primitives.arity)(symbol) == 2,
                None => true,
            }
        },
        StmtModel::FnCall { name, args, position } => expr_well_formed(
            primitives,
            ExprModel::FnCall { name, args, position },
        ),
        _ => false,
    }
}

/// What a statement without a block does, computed on the tree. A
/// declaration and a plain assignment bind the value. A compound assignment
/// binds what the operator gives for the old value and the value of the
/// right-hand side. A call leaves its value on the stack.
pub open spec fn exec_stmt(
    primitives: Primitives,
    machine: Machine,
    statement: StmtModel,
) -> Machine {
    match statement {
        StmtModel::Var { name, value, .. } => machine.bind(
            name,
            eval_expr(primitives, machine.variables, value),
        ),
        StmtModel::Assignment { target: ExprModel::Variable { name, .. }, operator, value } => {
            let right = eval_expr(primitives, machine.variables, value);
            match operator {
                Some(symbol) => machine.bind(
                    name,
                    (primitives.apply)(symbol, seq![machine.variables[name], right]),
                ),
                None => machine.bind(name, right),
            }
        },
        StmtModel::FnCall { name, args, position } => machine.push(
            eval_expr(primitives, machine.variables, ExprModel::FnCall { name, args, position }),
        ),
        _ => machine,
    }
}

/// What the first `count` statements do one after the other, computed on
/// the tree.
pub open spec fn exec_stmts_upto(
    primitives: Primitives,
    machine: Machine,
    statements: Seq<StmtModel>,
    count: nat,
) -> Machine
    decreases count,
{
    if count == 0 || count > statements.len() {
        machine
    } else {
        exec_stmt(
            primitives,
            exec_stmts_upto(primitives, machine, statements, (count - 1) as nat),
            statements[count - 1],
        )
    }
}

/// Whether each of the statements is well formed.
pub open spec fn stmts_well_formed(primitives: Primitives, statements: Seq<StmtModel>) -> bool {
    forall|i: int|
        0 <= i < statements.len() ==> stmt_well_formed(primitives, #[trigger] statements[i])
}

} // verus!
