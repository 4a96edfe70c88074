//! The flattening pass: from the statement tree to a flat sequence of stack
//! operations in execution order.
//!
//! The stack target reads its instructions front to back, so an operation
//! has to stand behind the code of its operands. The pass emits each
//! operation ahead of its operands and the operands from the last to the
//! first, and turns every statement round once at the end. What comes out is
//! stated here directly, as the postfix code of the tree.

use vstd::prelude::*;
use crate::error::LoweringError;
use crate::position::Position;
use crate::sequence::{lemma_reverse_concat, lemma_reverse_twice, reversed};
use crate::tree::{
    exprs_view, name_view, stmts_view, ExprModel, FlowControl, StmtModel, TreeExpr, TreeStmt,
};
use crate::value::{char_to_string, Constant, ConstantModel, Number};

verus! {

/// An operation of the flat sequence.
#[derive(Debug, PartialEq, Eq)]
pub enum Op {
    /// Applies an operator or a named function to the values on the stack.
    FnCall(String),
    /// Binds the top of the stack to a variable.
    Store(String),
    /// Reads a variable onto the stack.
    Push(String),
}

/// The mathematical model of an [`Op`].
pub enum OpModel {
    FnCall(Seq<char>),
    Store(Seq<char>),
    Push(Seq<char>),
}

impl View for Op {
    type V = OpModel;

    open spec fn view(&self) -> OpModel {
        match self {
            Op::FnCall(name) => OpModel::FnCall(name@),
            Op::Store(name) => OpModel::Store(name@),
            Op::Push(name) => OpModel::Push(name@),
        }
    }
}

/// A node of the flat sequence. Control flow stays structured: the fields
/// of a block are flat sequences of their own.
#[derive(Debug, PartialEq, Eq)]
pub enum FlatNode {
    Op(Op, Position),
    IfBlock {
        condition: Vec<FlatNode>,
        succeed: Vec<FlatNode>,
        fail: Option<Vec<FlatNode>>,
        position: Position,
    },
    WhileBlock {
        do_while: bool,
        condition: Vec<FlatNode>,
        block: Vec<FlatNode>,
        position: Position,
    },
    NumberLiteral(Number, Position),
    BooleanLiteral(bool, Position),
    StringLiteral(String, Position),
    DynamicConstant(Constant, Position),
    Unit(Position),
}

/// The mathematical model of a [`FlatNode`].
pub enum FlatModel {
    Op(OpModel, Position),
    IfBlock {
        condition: Seq<FlatModel>,
        succeed: Seq<FlatModel>,
        fail: Option<Seq<FlatModel>>,
        position: Position,
    },
    WhileBlock {
        do_while: bool,
        condition: Seq<FlatModel>,
        block: Seq<FlatModel>,
        position: Position,
    },
    NumberLiteral(Number, Position),
    BooleanLiteral(bool, Position),
    StringLiteral(Seq<char>, Position),
    DynamicConstant(ConstantModel, Position),
    Unit(Position),
}

/// The models of a sequence of flat nodes, item by item.
pub open spec fn flat_view(items: Seq<FlatNode>) -> Seq<FlatModel>
    decreases items,
{
    Seq::new(
        items.len(),
        |i: int|
            if 0 <= i < items.len() {
                items[i]@
            } else {
                FlatModel::Unit(Position { line: 0, column: 0 })
            },
    )
}

impl View for FlatNode {
    type V = FlatModel;

    open spec fn view(&self) -> FlatModel
        decreases self,
    {
        match self {
            FlatNode::Op(op, position) => FlatModel::Op(op@, *position),
            FlatNode::IfBlock { condition, succeed, fail, position } => FlatModel::IfBlock {
                condition: flat_view(condition@),
                succeed: flat_view(succeed@),
                fail: match fail {
                    Some(nodes) => Some(flat_view(nodes@)),
                    None => None,
                },
                position: *position,
            },
            FlatNode::WhileBlock { do_while, condition, block, position } => FlatModel::WhileBlock {
                do_while: *do_while,
                condition: flat_view(condition@),
                block: flat_view(block@),
                position: *position,
            },
            FlatNode::NumberLiteral(value, position) => FlatModel::NumberLiteral(*value, *position),
            FlatNode::BooleanLiteral(value, position) => FlatModel::BooleanLiteral(
                *value,
                *position,
            ),
            FlatNode::StringLiteral(value, position) => FlatModel::StringLiteral(value@, *position),
            FlatNode::DynamicConstant(value, position) => FlatModel::DynamicConstant(
                value@,
                *position,
            ),
            FlatNode::Unit(position) => FlatModel::Unit(*position),
        }
    }
}

/// What a flattening function hands back, as a model.
pub open spec fn flattened_view(result: Result<Vec<FlatNode>, LoweringError>) -> Result<
    Seq<FlatModel>,
    LoweringError,
> {
    match result {
        Ok(nodes) => Ok(flat_view(nodes@)),
        Err(error) => Err(error),
    }
}

/// The code of `code` turned round; an error stays as it is.
pub open spec fn turned(code: Result<Seq<FlatModel>, LoweringError>) -> Result<
    Seq<FlatModel>,
    LoweringError,
> {
    match code {
        Ok(nodes) => Ok(nodes.reverse()),
        Err(error) => Err(error),
    }
}

/// The call of `name` at `position`.
pub open spec fn call_node(name: Seq<char>, position: Position) -> FlatModel {
    FlatModel::Op(OpModel::FnCall(name), position)
}

/// The name of the primitive that gathers the top values of the stack into a
/// list; the number of values lies on top of them.
pub open spec fn list_primitive() -> Seq<char> {
    "last_n_list"@
}

/// The name of the primitive that turns a value into its text.
pub open spec fn to_text_primitive() -> Seq<char> {
    "string/iota"@
}

/// The name of the primitive that joins two texts.
pub open spec fn join_primitive() -> Seq<char> {
    "string/add"@
}

/// The name of the primitive that runs a deferred block.
pub open spec fn run_primitive() -> Seq<char> {
    "eval"@
}

/// The name of the logical negation.
pub open spec fn negation_primitive() -> Seq<char> {
    "not"@
}

/// Whether `code` is a single string literal and nothing else.
pub open spec fn is_string_literal(code: Seq<FlatModel>) -> bool {
    code.len() == 1 && code[0] is StringLiteral
}

/// What follows the code of the part at `index` of an interpolated string:
/// nothing behind the first part; behind every other part the join, and
/// ahead of the join the conversion to text unless the part is a single
/// string literal.
pub open spec fn part_glue(index: int, code: Seq<FlatModel>, position: Position) -> Seq<
    FlatModel,
> {
    if index == 0 {
        Seq::empty()
    } else if is_string_literal(code) {
        seq![call_node(join_primitive(), position)]
    } else {
        seq![call_node(to_text_primitive(), position), call_node(join_primitive(), position)]
    }
}

/// The code of an expression in execution order: the code of its operands
/// in source order, then the operation. It leaves one value on the stack.
pub open spec fn expr_code(expression: ExprModel) -> Result<Seq<FlatModel>, LoweringError>
    decreases expression, 0nat,
{
    match expression {
        ExprModel::FnCall { name, args, position } => call_code(name, args, position),
        ExprModel::Variable { name, position } => Ok(
            seq![FlatModel::Op(OpModel::Push(name), position)],
        ),
        ExprModel::IntegerConstant(value, position) => Ok(
            seq![FlatModel::NumberLiteral(Number::Integer(value as i128), position)],
        ),
        ExprModel::FloatConstant(bits, position) => Ok(
            seq![FlatModel::NumberLiteral(Number::Float(bits), position)],
        ),
        ExprModel::BoolConstant(value, position) => Ok(
            seq![FlatModel::BooleanLiteral(value, position)],
        ),
        ExprModel::CharConstant(value, position) => Ok(
            seq![FlatModel::StringLiteral(seq![value], position)],
        ),
        ExprModel::StringConstant(value, position) => Ok(
            seq![FlatModel::StringLiteral(value, position)],
        ),
        ExprModel::Unit(position) => Ok(seq![FlatModel::Unit(position)]),
        ExprModel::DynamicConstant(value, position) => Ok(
            seq![FlatModel::DynamicConstant(value, position)],
        ),
        ExprModel::Array(items, position) => match exprs_code_from(items, 0) {
            Ok(code) => Ok(
                code + seq![
                    FlatModel::NumberLiteral(Number::Integer(items.len() as i128), position),
                    call_node(list_primitive(), position),
                ],
            ),
            Err(error) => Err(error),
        },
        ExprModel::InterpolatedString(parts, position) => parts_code_upto(
            parts,
            parts.len(),
            position,
        ),
        ExprModel::Unsupported(kind, position) => Err(
            LoweringError::UnsupportedConstruct { kind, position },
        ),
    }
}

/// The code of a call: the code of the arguments in source order, then the
/// call.
pub open spec fn call_code(name: Seq<char>, args: Seq<ExprModel>, position: Position) -> Result<
    Seq<FlatModel>,
    LoweringError,
>
    decreases args, args.len() + 1,
{
    match exprs_code_from(args, 0) {
        Ok(code) => Ok(code.push(call_node(name, position))),
        Err(error) => Err(error),
    }
}

/// The code of the expressions from index `start` on, one behind the other
/// in source order. The expressions are visited from the last to the first:
/// of several faulty ones the last is reported.
pub open spec fn exprs_code_from(items: Seq<ExprModel>, start: int) -> Result<
    Seq<FlatModel>,
    LoweringError,
>
    decreases items, items.len() - start,
{
    if start < 0 || start >= items.len() {
        Ok(Seq::empty())
    } else {
        match exprs_code_from(items, start + 1) {
            Ok(rest) => match expr_code(items[start]) {
                Ok(code) => Ok(code + rest),
                Err(error) => Err(error),
            },
            Err(error) => Err(error),
        }
    }
}

/// The code of the first `count` parts of an interpolated string: each
/// part's code in execution order, with its glue behind it. The parts are
/// visited in source order: of several faulty ones the first is reported.
pub open spec fn parts_code_upto(parts: Seq<ExprModel>, count: nat, position: Position) -> Result<
    Seq<FlatModel>,
    LoweringError,
>
    decreases parts, count,
{
    if count == 0 || count > parts.len() {
        Ok(Seq::empty())
    } else {
        match parts_code_upto(parts, (count - 1) as nat, position) {
            Ok(front) => match expr_code(parts[count - 1]) {
                Ok(code) => Ok(front + code + part_glue(count - 1, code, position)),
                Err(error) => Err(error),
            },
            Err(error) => Err(error),
        }
    }
}

/// The code of the condition of a loop: the code of the expression, and
/// behind it the negation where the loop runs until the condition holds.
pub open spec fn loop_condition_code(
    condition: ExprModel,
    negated: bool,
    position: Position,
) -> Result<Seq<FlatModel>, LoweringError> {
    match expr_code(condition) {
        Ok(code) => Ok(
            if negated {
                code.push(call_node(negation_primitive(), position))
            } else {
                code
            },
        ),
        Err(error) => Err(error),
    }
}

/// The code of an `if`, given the code of its body and, where it has an
/// else-branch, of that: the block node, whose condition is a deferred
/// sequence, and behind it the instruction that runs it. The condition is
/// examined first, then the body, then the branch.
pub open spec fn if_code(
    condition: ExprModel,
    succeed: Result<Seq<FlatModel>, LoweringError>,
    fail: Option<Result<Seq<FlatModel>, LoweringError>>,
    position: Position,
) -> Result<Seq<FlatModel>, LoweringError> {
    match expr_code(condition) {
        Ok(condition_code) => match succeed {
            Ok(succeed_code) => match fail {
                None => Ok(
                    seq![
                        FlatModel::IfBlock {
                            condition: condition_code,
                            succeed: succeed_code,
                            fail: None,
                            position,
                        },
                        call_node(run_primitive(), position),
                    ],
                ),
                Some(Ok(fail_code)) => Ok(
                    seq![
                        FlatModel::IfBlock {
                            condition: condition_code,
                            succeed: succeed_code,
                            fail: Some(fail_code),
                            position,
                        },
                        call_node(run_primitive(), position),
                    ],
                ),
                Some(Err(error)) => Err(error),
            },
            Err(error) => Err(error),
        },
        Err(error) => Err(error),
    }
}

/// The code of a loop, given the code of its body: one block node. With
/// `do_while` the body runs once before the condition is first tested. The
/// condition is examined first, then the body.
pub open spec fn while_code(
    do_while: bool,
    negated: bool,
    condition: ExprModel,
    block: Result<Seq<FlatModel>, LoweringError>,
    position: Position,
) -> Result<Seq<FlatModel>, LoweringError> {
    match loop_condition_code(condition, negated, position) {
        Ok(condition_code) => match block {
            Ok(block_code) => Ok(
                seq![
                    FlatModel::WhileBlock {
                        do_while,
                        condition: condition_code,
                        block: block_code,
                        position,
                    },
                ],
            ),
            Err(error) => Err(error),
        },
        Err(error) => Err(error),
    }
}

/// The code of a declaration: the code of the value, then the store.
pub open spec fn var_code(name: Seq<char>, position: Position, value: ExprModel) -> Result<
    Seq<FlatModel>,
    LoweringError,
> {
    match expr_code(value) {
        Ok(code) => Ok(code.push(FlatModel::Op(OpModel::Store(name), position))),
        Err(error) => Err(error),
    }
}

/// The code of an assignment. The target has to be a plain variable. A
/// plain assignment is the code of the value, then the store. A compound
/// one reads the variable first, then has the code of the value, the
/// operator and the store. All its operations carry the position of the
/// variable.
pub open spec fn assignment_code(
    target: ExprModel,
    operator: Option<Seq<char>>,
    value: ExprModel,
) -> Result<Seq<FlatModel>, LoweringError> {
    match target {
        ExprModel::Variable { name, position } => match expr_code(value) {
            Ok(code) => Ok(
                match operator {
                    None => code.push(FlatModel::Op(OpModel::Store(name), position)),
                    Some(symbol) => seq![FlatModel::Op(OpModel::Push(name), position)] + code
                        + seq![
                        call_node(symbol, position),
                        FlatModel::Op(OpModel::Store(name), position),
                    ],
                },
            ),
            Err(error) => Err(error),
        },
        _ => Err(LoweringError::MalformedAssignmentTarget { position: target.position() }),
    }
}

/// The code of one statement, in execution order.
pub open spec fn stmt_code(statement: StmtModel) -> Result<Seq<FlatModel>, LoweringError>
    decreases statement, 0nat,
{
    match statement {
        StmtModel::Var { name, position, value } => var_code(name, position, value),
        StmtModel::Assignment { target, operator, value } => assignment_code(
            target,
            operator,
            value,
        ),
        StmtModel::FnCall { name, args, position } => call_code(name, args, position),
        StmtModel::If(flow, position) => if_code(
            flow.expr,
            stmts_code_upto(flow.body, flow.body.len()),
            if flow.branch.len() == 0 {
                None
            } else {
                Some(stmts_code_upto(flow.branch, flow.branch.len()))
            },
            position,
        ),
        StmtModel::While(flow, position) => while_code(
            false,
            false,
            flow.expr,
            stmts_code_upto(flow.body, flow.body.len()),
            position,
        ),
        StmtModel::Do(flow, negated, position) => while_code(
            true,
            negated,
            flow.expr,
            stmts_code_upto(flow.body, flow.body.len()),
            position,
        ),
        StmtModel::Unsupported(kind, position) => Err(
            LoweringError::UnsupportedConstruct { kind, position },
        ),
    }
}

/// The code of the first `count` statements, one behind the other. The
/// statements are visited in source order: of several faulty ones the first
/// is reported.
pub open spec fn stmts_code_upto(statements: Seq<StmtModel>, count: nat) -> Result<
    Seq<FlatModel>,
    LoweringError,
>
    decreases statements, count,
{
    if count == 0 || count > statements.len() {
        Ok(Seq::empty())
    } else {
        match stmts_code_upto(statements, (count - 1) as nat) {
            Ok(front) => match stmt_code(statements[count - 1]) {
                Ok(code) => Ok(front + code),
                Err(error) => Err(error),
            },
            Err(error) => Err(error),
        }
    }
}

/// The code of a statement list, in execution order.
pub open spec fn stmts_code(statements: Seq<StmtModel>) -> Result<Seq<FlatModel>, LoweringError> {
    stmts_code_upto(statements, statements.len())
}

/// The view of a concatenation is the concatenation of the views.
pub proof fn lemma_flat_view_concat(front: Seq<FlatNode>, back: Seq<FlatNode>)
    ensures
        flat_view(front + back) == flat_view(front) + flat_view(back),
{
}

/// The view of a sequence with one more node is the view with one more
/// model.
pub proof fn lemma_flat_view_push(front: Seq<FlatNode>, node: FlatNode)
    ensures
        flat_view(front.push(node)) == flat_view(front).push(node@),
{
}

/// The view of a reversed sequence is the reversed view.
pub proof fn lemma_flat_view_reverse(nodes: Seq<FlatNode>)
    ensures
        flat_view(nodes.reverse()) == flat_view(nodes).reverse(),
{
}

/// A fault in the expressions from `later` on is the fault of every longer
/// run of them.
pub proof fn lemma_exprs_fault_spreads(items: Seq<ExprModel>, earlier: int, later: int)
    requires
        0 <= earlier <= later,
        exprs_code_from(items, later) is Err,
    ensures
        exprs_code_from(items, earlier) == exprs_code_from(items, later),
    decreases later - earlier,
{
    if earlier < later {
        lemma_exprs_fault_spreads(items, earlier + 1, later);
    }
}

/// A fault in the first `fewer` parts is the fault of every longer run of
/// them.
pub proof fn lemma_parts_fault_spreads(
    parts: Seq<ExprModel>,
    fewer: nat,
    more: nat,
    position: Position,
)
    requires
        fewer <= more <= parts.len(),
        parts_code_upto(parts, fewer, position) is Err,
    ensures
        parts_code_upto(parts, more, position) == parts_code_upto(parts, fewer, position),
    decreases more - fewer,
{
    if fewer < more {
        lemma_parts_fault_spreads(parts, fewer, (more - 1) as nat, position);
    }
}

/// A fault in the first `fewer` statements is the fault of every longer run
/// of them.
pub proof fn lemma_stmts_fault_spreads(statements: Seq<StmtModel>, fewer: nat, more: nat)
    requires
        fewer <= more <= statements.len(),
        stmts_code_upto(statements, fewer) is Err,
    ensures
        stmts_code_upto(statements, more) == stmts_code_upto(statements, fewer),
    decreases more - fewer,
{
    if fewer < more {
        lemma_stmts_fault_spreads(statements, fewer, (more - 1) as nat);
    }
}

/// The call of the primitive `name`.
fn call_op(name: &str, position: Position) -> (node: FlatNode)
    ensures
        node@ == call_node(name@, position),
{
    FlatNode::Op(Op::FnCall(String::from_str(name)), position)
}

/// The sequence that holds `node` alone; turned round it is the same.
fn single(node: FlatNode) -> (nodes: Vec<FlatNode>)
    ensures
        flat_view(nodes@) == seq![node@],
        flat_view(nodes@) == seq![node@].reverse(),
{
    let mut nodes: Vec<FlatNode> = Vec::new();
    nodes.push(node);
    nodes
}

/// Flattens an expression. The nodes come out as they are emitted, the
/// operation ahead of its operands: the reverse of the execution order.
pub fn flatten_expression(expression: &TreeExpr) -> (result: Result<Vec<FlatNode>, LoweringError>)
    ensures
        flattened_view(result) == turned(expr_code(expression@)),
    decreases expression@, 0nat,
{
    match expression {
        TreeExpr::FnCall { name, args, position } => flatten_fn_call_expression(
            name.as_str(),
            args.as_slice(),
            *position,
        ),
        TreeExpr::Variable { name, position } => Ok(
            single(FlatNode::Op(Op::Push(name.clone()), *position)),
        ),
        TreeExpr::IntegerConstant(value, position) => Ok(
            single(FlatNode::NumberLiteral(Number::Integer(*value as i128), *position)),
        ),
        TreeExpr::FloatConstant(bits, position) => Ok(
            single(FlatNode::NumberLiteral(Number::Float(*bits), *position)),
        ),
        TreeExpr::BoolConstant(value, position) => Ok(
            single(FlatNode::BooleanLiteral(*value, *position)),
        ),
        TreeExpr::CharConstant(value, position) => Ok(
            single(FlatNode::StringLiteral(char_to_string(*value), *position)),
        ),
        TreeExpr::StringConstant(value, position) => Ok(
            single(FlatNode::StringLiteral(value.clone(), *position)),
        ),
        TreeExpr::Unit(position) => Ok(
            single(FlatNode::Unit(*position)),
        ),
        TreeExpr::DynamicConstant(value, position) => Ok(
            single(FlatNode::DynamicConstant(value.clone(), *position)),
        ),
        TreeExpr::Array(items, position) => {
            let mut nodes: Vec<FlatNode> = Vec::new();
            nodes.push(call_op("last_n_list", *position));
            nodes.push(FlatNode::NumberLiteral(Number::Integer(items.len() as i128), *position));
            let ghost head = flat_view(nodes@);
            assert(head =~= seq![
                call_node(list_primitive(), *position),
                FlatModel::NumberLiteral(Number::Integer(items.len() as i128), *position),
            ]);
            match append_operands(&mut nodes, items.as_slice()) {
                Ok(()) => {
                    proof {
                        let code = exprs_code_from(exprs_view(items@), 0)->Ok_0;
                        let tail = seq![
                            FlatModel::NumberLiteral(
                                Number::Integer(items.len() as i128),
                                *position,
                            ),
                            call_node(list_primitive(), *position),
                        ];
                        lemma_reverse_concat(code, tail);
                        assert(tail.reverse() =~= head);
                    }
                    Ok(nodes)
                },
                Err(error) => Err(error),
            }
        },
        TreeExpr::InterpolatedString(parts, position) => flatten_interpolated_string(
            parts.as_slice(),
            *position,
        ),
        TreeExpr::Unsupported(kind, position) => Err(
            LoweringError::UnsupportedConstruct { kind: *kind, position: *position },
        ),
    }
}

/// Emits the operands of an operation behind what `nodes` holds: their
/// flattened forms, from the last operand to the first.
fn append_operands(nodes: &mut Vec<FlatNode>, items: &[TreeExpr]) -> (result: Result<
    (),
    LoweringError,
>)
    ensures
        match exprs_code_from(exprs_view(items@), 0) {
            Ok(code) => result is Ok && flat_view(final(nodes)@) == flat_view(old(nodes)@)
                + code.reverse(),
            Err(error) => result == Err::<(), LoweringError>(error),
        },
    decreases exprs_view(items@), 1nat,
{
    let ghost models = exprs_view(items@);
    let ghost head = flat_view(nodes@);
    let mut index: usize = items.len();
    while index > 0
        invariant
            index <= items.len(),
            models == exprs_view(items@),
            exprs_code_from(models, index as int) is Ok,
            flat_view(nodes@) == head + exprs_code_from(models, index as int)->Ok_0.reverse(),
        decreases index,
    {
        index -= 1;
        let ghost rest = exprs_code_from(models, index + 1)->Ok_0;
        match flatten_expression(&items[index]) {
            Ok(mut emitted) => {
                let ghost before = nodes@;
                let ghost added = emitted@;
                nodes.append(&mut emitted);
                proof {
                    let code = expr_code(models[index as int])->Ok_0;
                    lemma_flat_view_concat(before, added);
                    lemma_reverse_concat(code, rest);
                    assert(head + rest.reverse() + code.reverse() =~= head + (rest.reverse()
                        + code.reverse()));
                }
            },
            Err(error) => {
                proof {
                    lemma_exprs_fault_spreads(models, 0, index as int);
                }
                return Err(error);
            },
        }
    }
    Ok(())
}

/// Flattens a call: the call itself, then the flattened arguments from the
/// last to the first.
pub fn flatten_fn_call_expression(
    name: &str,
    args: &[TreeExpr],
    position: Position,
) -> (result: Result<Vec<FlatNode>, LoweringError>)
    ensures
        flattened_view(result) == turned(call_code(name@, exprs_view(args@), position)),
    decreases exprs_view(args@), 2nat,
{
    let mut nodes = single(FlatNode::Op(Op::FnCall(name.to_owned()), position));
    match append_operands(&mut nodes, args) {
        Ok(()) => {
            proof {
                let code = exprs_code_from(exprs_view(args@), 0)->Ok_0;
                let call = seq![call_node(name@, position)];
                lemma_reverse_concat(code, call);
                assert(code + call =~= code.push(call_node(name@, position)));
            }
            Ok(nodes)
        },
        Err(error) => Err(error),
    }
}

/// Flattens an interpolated string. Each part is laid down in execution
/// order with its glue behind it, and the whole is turned round once, so
/// that a part with operands of its own is not turned twice.
pub fn flatten_interpolated_string(parts: &[TreeExpr], position: Position) -> (result: Result<
    Vec<FlatNode>,
    LoweringError,
>)
    ensures
        flattened_view(result) == turned(
            parts_code_upto(exprs_view(parts@), parts@.len(), position),
        ),
    decreases exprs_view(parts@), 1nat,
{
    let ghost models = exprs_view(parts@);
    let mut nodes: Vec<FlatNode> = Vec::new();
    let mut index: usize = 0;
    assert(flat_view(nodes@) =~= Seq::<FlatModel>::empty());
    while index < parts.len()
        invariant
            index <= parts.len(),
            models == exprs_view(parts@),
            parts_code_upto(models, index as nat, position) == Ok::<
                Seq<FlatModel>,
                LoweringError,
            >(flat_view(nodes@)),
        decreases parts.len() - index,
    {
        match flatten_expression(&parts[index]) {
            Ok(emitted) => {
                let ghost front = nodes@;
                let ghost code = expr_code(models[index as int])->Ok_0;
                let mut ordered = reversed(emitted);
                proof {
                    lemma_flat_view_reverse(emitted@);
                    lemma_reverse_twice(code);
                }
                let is_string = ordered.len() == 1 && match &ordered[0] {
                    FlatNode::StringLiteral(_, _) => true,
                    _ => false,
                };
                let ghost part = ordered@;
                nodes.append(&mut ordered);
                proof {
                    lemma_flat_view_concat(front, part);
                }
                if index > 0 {
                    if !is_string {
                        let ghost before = nodes@;
                        let glue = call_op("string/iota", position);
                        nodes.push(glue);
                        proof {
                            lemma_flat_view_push(before, glue);
                        }
                    }
                    let ghost before = nodes@;
                    let glue = call_op("string/add", position);
                    nodes.push(glue);
                    proof {
                        lemma_flat_view_push(before, glue);
                    }
                }
                assert(flat_view(nodes@) =~= flat_view(front) + code + part_glue(
                    index as int,
                    code,
                    position,
                ));
                index += 1;
            },
            Err(error) => {
                proof {
                    lemma_parts_fault_spreads(
                        models,
                        (index + 1) as nat,
                        parts@.len(),
                        position,
                    );
                }
                return Err(error);
            },
        }
    }
    let ghost ordered = nodes@;
    let result = reversed(nodes);
    proof {
        lemma_flat_view_reverse(ordered);
    }
    Ok(result)
}

/// Flattens a declaration: the store, then the flattened value.
pub fn flatten_var(name: &str, position: Position, value: &TreeExpr) -> (result: Result<
    Vec<FlatNode>,
    LoweringError,
>)
    ensures
        flattened_view(result) == turned(var_code(name@, position, value@)),
{
    let mut nodes = single(FlatNode::Op(Op::Store(name.to_owned()), position));
    match flatten_expression(value) {
        Ok(mut emitted) => {
            let ghost head = nodes@;
            let ghost added = emitted@;
            nodes.append(&mut emitted);
            proof {
                let code = expr_code(value@)->Ok_0;
                let store = seq![FlatModel::Op(OpModel::Store(name@), position)];
                lemma_flat_view_concat(head, added);
                lemma_reverse_concat(code, store);
                assert(code + store =~= code.push(store[0]));
            }
            Ok(nodes)
        },
        Err(error) => Err(error),
    }
}

/// Flattens an assignment: the store, for a compound assignment the
/// operator, then the flattened value, and for a compound assignment the
/// read of the variable. A target that is no plain variable is refused.
pub fn flatten_assignment(
    target: &TreeExpr,
    operator: &Option<String>,
    value: &TreeExpr,
) -> (result: Result<Vec<FlatNode>, LoweringError>)
    ensures
        flattened_view(result) == turned(
            assignment_code(target@, name_view(*operator), value@),
        ),
{
    match target {
        TreeExpr::Variable { name, position } => {
            let mut nodes = single(FlatNode::Op(Op::Store(name.clone()), *position));
            let ghost store = FlatModel::Op(OpModel::Store(name@), *position);
            let ghost push = FlatModel::Op(OpModel::Push(name@), *position);
            match operator {
                Some(symbol) => {
                    let ghost call = call_node(symbol@, *position);
                    let ghost before = nodes@;
                    let call_op = FlatNode::Op(Op::FnCall(symbol.clone()), *position);
                    nodes.push(call_op);
                    proof {
                        lemma_flat_view_push(before, call_op);
                    }
                    match flatten_expression(value) {
                        Ok(mut emitted) => {
                            let ghost head = nodes@;
                            let ghost added = emitted@;
                            nodes.append(&mut emitted);
                            let ghost middle = nodes@;
                            let read = FlatNode::Op(Op::Push(name.clone()), *position);
                            nodes.push(read);
                            proof {
                                let code = expr_code(value@)->Ok_0;
                                lemma_flat_view_concat(head, added);
                                lemma_flat_view_push(middle, read);
                                lemma_reverse_concat(seq![push] + code, seq![call, store]);
                                lemma_reverse_concat(seq![push], code);
                                assert(seq![call, store].reverse() =~= seq![store, call]);
                                assert(seq![push].reverse() =~= seq![push]);
                                assert(flat_view(nodes@) =~= seq![store, call] + (code.reverse()
                                    + seq![push]));
                            }
                            Ok(nodes)
                        },
                        Err(error) => Err(error),
                    }
                },
                None => {
                    match flatten_expression(value) {
                        Ok(mut emitted) => {
                            let ghost head = nodes@;
                            let ghost added = emitted@;
                            nodes.append(&mut emitted);
                            proof {
                                let code = expr_code(value@)->Ok_0;
                                lemma_flat_view_concat(head, added);
                                lemma_reverse_concat(code, seq![store]);
                                assert(code + seq![store] =~= code.push(store));
                            }
                            Ok(nodes)
                        },
                        Err(error) => Err(error),
                    }
                },
            }
        },
        _ => Err(LoweringError::MalformedAssignmentTarget { position: target.position() }),
    }
}

/// Flattens an `if`: the instruction that runs the deferred condition, then
/// the block node. The fields of the block are in execution order.
pub fn flatten_if(data: &FlowControl, position: Position) -> (result: Result<
    Vec<FlatNode>,
    LoweringError,
>)
    ensures
        flattened_view(result) == turned(stmt_code(StmtModel::If(data@, position))),
    decreases data@,
{
    let condition = match flatten_expression(&data.expr) {
        Ok(emitted) => {
            proof {
                lemma_flat_view_reverse(emitted@);
                lemma_reverse_twice(expr_code(data.expr@)->Ok_0);
            }
            reversed(emitted)
        },
        Err(error) => {
            return Err(error);
        },
    };
    let succeed = match flatten_statements(data.body.as_slice()) {
        Ok(nodes) => nodes,
        Err(error) => {
            return Err(error);
        },
    };
    let fail = if data.branch.len() > 0 {
        match flatten_statements(data.branch.as_slice()) {
            Ok(nodes) => Some(nodes),
            Err(error) => {
                return Err(error);
            },
        }
    } else {
        None
    };
    let mut nodes = single(call_op("eval", position));
    let ghost before = nodes@;
    let block = FlatNode::IfBlock { condition, succeed, fail, position };
    nodes.push(block);
    proof {
        lemma_flat_view_push(before, block);
        let run = call_node(run_primitive(), position);
        assert(seq![block@, run].reverse() =~= seq![run, block@]);
        assert(flat_view(nodes@) =~= seq![run, block@]);
    }
    Ok(nodes)
}

/// Flattens a loop: one block node. With `negate_condition` the negation
/// stands behind the condition.
pub fn flatten_while(
    do_while: bool,
    negate_condition: bool,
    data: &FlowControl,
    position: Position,
) -> (result: Result<Vec<FlatNode>, LoweringError>)
    ensures
        flattened_view(result) == turned(
            while_code(
                do_while,
                negate_condition,
                data@.expr,
                stmts_code(data@.body),
                position,
            ),
        ),
    decreases data@,
{
    let mut condition = match flatten_expression(&data.expr) {
        Ok(emitted) => {
            proof {
                lemma_flat_view_reverse(emitted@);
                lemma_reverse_twice(expr_code(data.expr@)->Ok_0);
            }
            reversed(emitted)
        },
        Err(error) => {
            return Err(error);
        },
    };
    if negate_condition {
        let ghost before = condition@;
        let negation = call_op("not", position);
        condition.push(negation);
        proof {
            lemma_flat_view_push(before, negation);
        }
    }
    let block = match flatten_statements(data.body.as_slice()) {
        Ok(nodes) => nodes,
        Err(error) => {
            return Err(error);
        },
    };
    let node = FlatNode::WhileBlock { do_while, condition, block, position };
    Ok(single(node))
}

/// Flattens one statement. The nodes come out as they are emitted: the
/// reverse of the execution order.
pub fn flatten_statement(statement: &TreeStmt) -> (result: Result<Vec<FlatNode>, LoweringError>)
    ensures
        flattened_view(result) == turned(stmt_code(statement@)),
    decreases statement@,
{
    match statement {
        TreeStmt::Var { name, position, value } => flatten_var(name.as_str(), *position, value),
        TreeStmt::Assignment { target, operator, value } => flatten_assignment(
            target,
            operator,
            value,
        ),
        TreeStmt::FnCall { name, args, position } => flatten_fn_call_expression(
            name.as_str(),
            args.as_slice(),
            *position,
        ),
        TreeStmt::If(data, position) => flatten_if(data, *position),
        TreeStmt::While(data, position) => flatten_while(false, false, data, *position),
        TreeStmt::Do(data, negated, position) => flatten_while(true, *negated, data, *position),
        TreeStmt::Unsupported(kind, position) => Err(
            LoweringError::UnsupportedConstruct { kind: *kind, position: *position },
        ),
    }
}

/// Flattens a statement list into its code in execution order. Every
/// statement is flattened and turned round once. The first fault ends the
/// pass, and nothing of the code is handed out beside it.
pub fn flatten_statements(ast: &[TreeStmt]) -> (result: Result<Vec<FlatNode>, LoweringError>)
    ensures
        flattened_view(result) == stmts_code(stmts_view(ast@)),
    decreases stmts_view(ast@),
{
    let ghost models = stmts_view(ast@);
    let mut nodes: Vec<FlatNode> = Vec::new();
    let mut index: usize = 0;
    assert(flat_view(nodes@) =~= Seq::<FlatModel>::empty());
    while index < ast.len()
        invariant
            index <= ast.len(),
            models == stmts_view(ast@),
            stmts_code_upto(models, index as nat) == Ok::<Seq<FlatModel>, LoweringError>(
                flat_view(nodes@),
            ),
        decreases ast.len() - index,
    {
        match flatten_statement(&ast[index]) {
            Ok(emitted) => {
                let ghost front = nodes@;
                let mut ordered = reversed(emitted);
                let ghost part = ordered@;
                nodes.append(&mut ordered);
                proof {
                    lemma_flat_view_reverse(emitted@);
                    lemma_reverse_twice(stmt_code(models[index as int])->Ok_0);
                    lemma_flat_view_concat(front, part);
                }
                index += 1;
            },
            Err(error) => {
                proof {
                    lemma_stmts_fault_spreads(models, (index + 1) as nat, ast@.len());
                }
                return Err(error);
            },
        }
    }
    Ok(nodes)
}

} // verus!
