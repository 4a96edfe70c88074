//! What holds of the two passes for every input: the flat code of a tree
//! runs to the value that the tree has, a fault is reported alone, and the
//! lowering keeps the order of the flat code and the shape that the backend
//! takes.

use vstd::prelude::*;
use crate::error::{ConstructKind, LoweringError};
use crate::flatten_ast::{
    call_node, expr_code, exprs_code_from, is_string_literal, join_primitive,
    lemma_stmts_fault_spreads, list_primitive, part_glue, parts_code_upto, stmt_code, stmts_code,
    stmts_code_upto, to_text_primitive, FlatModel, OpModel,
};
use crate::machine::{
    call_step, eval_expr, eval_exprs, eval_parts_upto, exec_stmt, exec_stmts_upto, Datum,
    expr_well_formed, exprs_well_formed, part_text, run, step, stmt_well_formed,
    stmts_well_formed, Machine, Primitives,
};
use crate::position::{location_of, Location, Position};
use crate::target::TargetModel;
use crate::translate::{lowering, node_target, nodes_target, nodes_target_upto};
use crate::translate_ops::fn_call_target;
use crate::tree::{ExprModel, StmtModel};
use crate::value::Number;

verus! {

/// Running a concatenation is running the first part and then the second.
pub proof fn lemma_run_concat(
    primitives: Primitives,
    front: Seq<FlatModel>,
    back: Seq<FlatModel>,
    machine: Machine,
)
    ensures
        run(primitives, front + back, machine) == match run(primitives, front, machine) {
            Some(middle) => run(primitives, back, middle),
            None => None,
        },
    decreases front.len(),
{
    if front.len() > 0 {
        assert((front + back).drop_first() =~= front.drop_first() + back);
        match step(primitives, front[0], machine) {
            Some(next) => {
                lemma_run_concat(primitives, front.drop_first(), back, next);
            },
            None => {},
        }
    }
}

/// Running one node is taking one step.
pub proof fn lemma_run_single(primitives: Primitives, node: FlatModel, machine: Machine)
    ensures
        run(primitives, seq![node], machine) == step(primitives, node, machine),
{
    let code = seq![node];
    match step(primitives, node, machine) {
        Some(next) => {
            assert(run(primitives, code.drop_first(), next) == Some(next));
        },
        None => {},
    }
}

/// The glue primitives of an interpolated string are not the list
/// primitive.
pub proof fn lemma_glue_is_no_list()
    ensures
        join_primitive() != list_primitive(),
        to_text_primitive() != list_primitive(),
{
    reveal_strlit("string/add");
    reveal_strlit("string/iota");
    reveal_strlit("last_n_list");
    assert("string/iota"@[0] != "last_n_list"@[0]);
}

/// A call of a primitive other than the list primitive, on a stack that
/// ends in its arguments, leaves what it gives for them in their place.
pub proof fn lemma_call_on_arguments(
    primitives: Primitives,
    name: Seq<char>,
    machine: Machine,
    arguments: Seq<Datum>,
)
    requires
        name != list_primitive(),
        arguments.len() == (primitives.arity)(name),
    ensures
        call_step(primitives, name, machine.push_all(arguments)) == Some(
            machine.push((primitives.apply)(name, arguments)),
        ),
{
    let loaded = machine.push_all(arguments);
    let kept = loaded.stack.len() - arguments.len();
    assert(loaded.stack.take(kept) =~= machine.stack);
    assert(loaded.stack.skip(kept) =~= arguments);
}

/// The code of a well-formed expression runs on the reference machine
/// without stopping and leaves exactly the value of the expression on top
/// of the stack; the variables stay as they were.
pub proof fn law_expression_order(primitives: Primitives, expression: ExprModel, machine: Machine)
    requires
        expr_well_formed(primitives, expression),
    ensures
        expr_code(expression) is Ok,
        run(primitives, expr_code(expression)->Ok_0, machine) == Some(
            machine.push(eval_expr(primitives, machine.variables, expression)),
        ),
    decreases expression, 0nat,
{
    match expression {
        ExprModel::FnCall { name, args, position } => {
            lemma_operands_run(primitives, args, 0, machine);
            let code = exprs_code_from(args, 0)->Ok_0;
            let values = eval_exprs(primitives, machine.variables, args);
            assert(values.skip(0) =~= values);
            let call = call_node(name, position);
            assert(code.push(call) =~= code + seq![call]);
            lemma_run_concat(primitives, code, seq![call], machine);
            lemma_run_single(primitives, call, machine.push_all(values));
            lemma_call_on_arguments(primitives, name, machine, values);
        },
        ExprModel::Array(items, position) => {
            lemma_operands_run(primitives, items, 0, machine);
            let code = exprs_code_from(items, 0)->Ok_0;
            let values = eval_exprs(primitives, machine.variables, items);
            assert(values.skip(0) =~= values);
            let count = FlatModel::NumberLiteral(Number::Integer(items.len() as i128), position);
            let call = call_node(list_primitive(), position);
            let loaded = machine.push_all(values);
            assert(seq![count, call] =~= seq![count] + seq![call]);
            lemma_run_concat(primitives, code, seq![count, call], machine);
            lemma_run_concat(primitives, seq![count], seq![call], loaded);
            lemma_run_single(primitives, count, loaded);
            let counted = loaded.push(Datum::Number(Number::Integer(items.len() as i128)));
            lemma_run_single(primitives, call, counted);
            let below = counted.stack.drop_last();
            assert(below.take(below.len() - items.len()) =~= machine.stack);
            assert(below.skip(below.len() - items.len()) =~= values);
        },
        ExprModel::InterpolatedString(parts, position) => {
            lemma_parts_run(primitives, parts, parts.len(), position, machine);
        },
        ExprModel::Variable { name, position } => {
            lemma_run_single(primitives, FlatModel::Op(OpModel::Push(name), position), machine);
        },
        ExprModel::IntegerConstant(value, position) => {
            lemma_run_single(
                primitives,
                FlatModel::NumberLiteral(Number::Integer(value as i128), position),
                machine,
            );
        },
        ExprModel::FloatConstant(bits, position) => {
            lemma_run_single(
                primitives,
                FlatModel::NumberLiteral(Number::Float(bits), position),
                machine,
            );
        },
        ExprModel::BoolConstant(value, position) => {
            lemma_run_single(primitives, FlatModel::BooleanLiteral(value, position), machine);
        },
        ExprModel::CharConstant(value, position) => {
            lemma_run_single(
                primitives,
                FlatModel::StringLiteral(seq![value], position),
                machine,
            );
        },
        ExprModel::StringConstant(value, position) => {
            lemma_run_single(primitives, FlatModel::StringLiteral(value, position), machine);
        },
        ExprModel::Unit(position) => {
            lemma_run_single(primitives, FlatModel::Unit(position), machine);
        },
        ExprModel::DynamicConstant(value, position) => {
            lemma_run_single(primitives, FlatModel::DynamicConstant(value, position), machine);
        },
        ExprModel::Unsupported(_, _) => {},
    }
}

/// The code of the operands from `start` on runs without stopping and
/// leaves their values on the stack in source order, the last one topmost.
pub proof fn lemma_operands_run(
    primitives: Primitives,
    items: Seq<ExprModel>,
    start: int,
    machine: Machine,
)
    requires
        exprs_well_formed(primitives, items),
        0 <= start <= items.len(),
    ensures
        exprs_code_from(items, start) is Ok,
        run(primitives, exprs_code_from(items, start)->Ok_0, machine) == Some(
            machine.push_all(eval_exprs(primitives, machine.variables, items).skip(start)),
        ),
    decreases items, items.len() - start,
{
    let values = eval_exprs(primitives, machine.variables, items);
    if start == items.len() {
    } else {
        let first = eval_expr(primitives, machine.variables, items[start]);
        law_expression_order(primitives, items[start], machine);
        lemma_operands_run(primitives, items, start + 1, machine.push(first));
        let code = expr_code(items[start])->Ok_0;
        let rest = exprs_code_from(items, start + 1)->Ok_0;
        lemma_run_concat(primitives, code, rest, machine);
        assert(machine.push(first).push_all(values.skip(start + 1)).stack =~= machine.push_all(
            values.skip(start),
        ).stack);
    }
}

/// The code of the first `count` parts of an interpolated string runs
/// without stopping and leaves their joined value on top of the stack.
pub proof fn lemma_parts_run(
    primitives: Primitives,
    parts: Seq<ExprModel>,
    count: nat,
    position: Position,
    machine: Machine,
)
    requires
        exprs_well_formed(primitives, parts),
        (primitives.arity)(join_primitive()) == 2,
        (primitives.arity)(to_text_primitive()) == 1,
        1 <= count <= parts.len(),
    ensures
        parts_code_upto(parts, count, position) is Ok,
        run(primitives, parts_code_upto(parts, count, position)->Ok_0, machine) == Some(
            machine.push(eval_parts_upto(primitives, machine.variables, parts, count)),
        ),
    decreases parts, count,
{
    let part = parts[count - 1];
    let value = eval_expr(primitives, machine.variables, part);
    let code = expr_code(part)->Ok_0;
    lemma_glue_is_no_list();
    if count == 1 {
        law_expression_order(primitives, part, machine);
        assert(parts_code_upto(parts, 0, position) == Ok::<Seq<FlatModel>, LoweringError>(
            Seq::empty(),
        ));
    } else {
        lemma_parts_run(primitives, parts, (count - 1) as nat, position, machine);
        let front = parts_code_upto(parts, (count - 1) as nat, position)->Ok_0;
        let joined = eval_parts_upto(primitives, machine.variables, parts, (count - 1) as nat);
        let started = machine.push(joined);
        law_expression_order(primitives, part, started);
        let loaded = started.push(value);
        let glue = part_glue(count - 1, code, position);
        let join = call_node(join_primitive(), position);
        let text = part_text(primitives, machine.variables, part);
        lemma_run_concat(primitives, front + code, glue, machine);
        lemma_run_concat(primitives, front, code, machine);
        if is_string_literal(code) {
            lemma_run_single(primitives, join, loaded);
            assert(loaded.stack =~= machine.push_all(seq![joined, text]).stack);
            lemma_call_on_arguments(primitives, join_primitive(), machine, seq![joined, text]);
        } else {
            let to_text = call_node(to_text_primitive(), position);
            assert(glue =~= seq![to_text] + seq![join]);
            lemma_run_concat(primitives, seq![to_text], seq![join], loaded);
            lemma_run_single(primitives, to_text, loaded);
            assert(loaded.stack =~= started.push_all(seq![value]).stack);
            lemma_call_on_arguments(primitives, to_text_primitive(), started, seq![value]);
            let texted = started.push(text);
            lemma_run_single(primitives, join, texted);
            assert(texted.stack =~= machine.push_all(seq![joined, text]).stack);
            lemma_call_on_arguments(primitives, join_primitive(), machine, seq![joined, text]);
        }
    }
}

/// Operands are evaluated in source order: the code of `left op right` is
/// the code of `left`, then the code of `right`, then the operator, and it
/// runs to what the operator gives for the value of `left` and the value of
/// `right`.
pub proof fn law_binary_operator_order(
    primitives: Primitives,
    operator: Seq<char>,
    left: ExprModel,
    right: ExprModel,
    position: Position,
    machine: Machine,
)
    requires
        expr_well_formed(primitives, left),
        expr_well_formed(primitives, right),
        operator != list_primitive(),
        (primitives.arity)(operator) == 2,
    ensures
        expr_code(left) is Ok,
        expr_code(right) is Ok,
        expr_code(ExprModel::FnCall { name: operator, args: seq![left, right], position }) == Ok::<
            Seq<FlatModel>,
            LoweringError,
        >(
            expr_code(left)->Ok_0 + expr_code(right)->Ok_0 + seq![call_node(operator, position)],
        ),
        run(
            primitives,
            expr_code(left)->Ok_0 + expr_code(right)->Ok_0 + seq![call_node(operator, position)],
            machine,
        ) == Some(
            machine.push(
                (primitives.apply)(
                    operator,
                    seq![
                        eval_expr(primitives, machine.variables, left),
                        eval_expr(primitives, machine.variables, right),
                    ],
                ),
            ),
        ),
{
    let args = seq![left, right];
    let whole = ExprModel::FnCall { name: operator, args, position };
    law_expression_order(primitives, left, machine);
    law_expression_order(primitives, right, machine);
    law_expression_order(primitives, whole, machine);
    let left_code = expr_code(left)->Ok_0;
    let right_code = expr_code(right)->Ok_0;
    assert(exprs_code_from(args, 2) == Ok::<Seq<FlatModel>, LoweringError>(Seq::empty()));
    assert(exprs_code_from(args, 1) == Ok::<Seq<FlatModel>, LoweringError>(right_code));
    assert(exprs_code_from(args, 0) == Ok::<Seq<FlatModel>, LoweringError>(
        left_code + right_code,
    ));
    assert((left_code + right_code).push(call_node(operator, position)) =~= left_code + right_code
        + seq![call_node(operator, position)]);
    assert(eval_exprs(primitives, machine.variables, args) =~= seq![
        eval_expr(primitives, machine.variables, left),
        eval_expr(primitives, machine.variables, right),
    ]);
}

/// The code of a well-formed statement runs on the reference machine
/// without stopping, and leaves the machine as the statement leaves it when
/// it is carried out on the tree.
pub proof fn law_statement_order(primitives: Primitives, statement: StmtModel, machine: Machine)
    requires
        stmt_well_formed(primitives, statement),
    ensures
        stmt_code(statement) is Ok,
        run(primitives, stmt_code(statement)->Ok_0, machine) == Some(
            exec_stmt(primitives, machine, statement),
        ),
{
    match statement {
        StmtModel::Var { name, position, value } => {
            lemma_store_runs(primitives, name, position, value, machine);
        },
        StmtModel::Assignment { target, operator, value } => {
            let name = target->Variable_name;
            let position = target->Variable_position;
            match operator {
                None => {
                    lemma_store_runs(primitives, name, position, value, machine);
                },
                Some(symbol) => {
                    let read = FlatModel::Op(OpModel::Push(name), position);
                    let call = call_node(symbol, position);
                    let store = FlatModel::Op(OpModel::Store(name), position);
                    let old_value = machine.variables[name];
                    let right = eval_expr(primitives, machine.variables, value);
                    let started = machine.push(old_value);
                    law_expression_order(primitives, value, started);
                    let code = expr_code(value)->Ok_0;
                    let loaded = started.push(right);
                    let result = (primitives.apply)(symbol, seq![old_value, right]);
                    assert(seq![call, store] =~= seq![call] + seq![store]);
                    lemma_run_concat(primitives, seq![read] + code, seq![call, store], machine);
                    lemma_run_concat(primitives, seq![read], code, machine);
                    lemma_run_single(primitives, read, machine);
                    lemma_run_concat(primitives, seq![call], seq![store], loaded);
                    lemma_run_single(primitives, call, loaded);
                    assert(loaded.stack =~= machine.push_all(seq![old_value, right]).stack);
                    lemma_call_on_arguments(primitives, symbol, machine, seq![old_value, right]);
                    lemma_run_single(primitives, store, machine.push(result));
                    assert(machine.push(result).stack.drop_last() =~= machine.stack);
                },
            }
        },
        StmtModel::FnCall { name, args, position } => {
            law_expression_order(primitives, ExprModel::FnCall { name, args, position }, machine);
        },
        _ => {},
    }
}

/// A compound assignment computes on the old value: the code of `name op=
/// value` runs to the machine in which `name` holds what the operator
/// gives for the old value of `name`, on the left, and the value of the
/// right-hand side. The stack is left as it was.
pub proof fn law_compound_assignment(
    primitives: Primitives,
    name: Seq<char>,
    operator: Seq<char>,
    value: ExprModel,
    position: Position,
    machine: Machine,
)
    requires
        expr_well_formed(primitives, value),
        operator != list_primitive(),
        (primitives.arity)(operator) == 2,
    ensures
        stmt_code(
            StmtModel::Assignment {
                target: ExprModel::Variable { name, position },
                operator: Some(operator),
                value,
            },
        ) is Ok,
        run(
            primitives,
            stmt_code(
                StmtModel::Assignment {
                    target: ExprModel::Variable { name, position },
                    operator: Some(operator),
                    value,
                },
            )->Ok_0,
            machine,
        ) == Some(
            machine.bind(
                name,
                (primitives.apply)(
                    operator,
                    seq![machine.variables[name], eval_expr(primitives, machine.variables, value)],
                ),
            ),
        ),
{
    law_statement_order(
        primitives,
        StmtModel::Assignment {
            target: ExprModel::Variable { name, position },
            operator: Some(operator),
            value,
        },
        machine,
    );
}

/// The code of a value with a store behind it binds the value and leaves
/// the stack as it was.
proof fn lemma_store_runs(
    primitives: Primitives,
    name: Seq<char>,
    position: Position,
    value: ExprModel,
    machine: Machine,
)
    requires
        expr_well_formed(primitives, value),
    ensures
        expr_code(value) is Ok,
        run(
            primitives,
            expr_code(value)->Ok_0.push(FlatModel::Op(OpModel::Store(name), position)),
            machine,
        ) == Some(machine.bind(name, eval_expr(primitives, machine.variables, value))),
{
    let store = FlatModel::Op(OpModel::Store(name), position);
    let right = eval_expr(primitives, machine.variables, value);
    law_expression_order(primitives, value, machine);
    let code = expr_code(value)->Ok_0;
    assert(code.push(store) =~= code + seq![store]);
    lemma_run_concat(primitives, code, seq![store], machine);
    lemma_run_single(primitives, store, machine.push(right));
    assert(machine.push(right).stack.drop_last() =~= machine.stack);
}

/// The code of a list of well-formed statements runs on the reference
/// machine without stopping, and leaves the machine as the statements leave
/// it when they are carried out on the tree one after the other.
pub proof fn law_program_order(
    primitives: Primitives,
    statements: Seq<StmtModel>,
    machine: Machine,
)
    requires
        stmts_well_formed(primitives, statements),
    ensures
        stmts_code(statements) is Ok,
        run(primitives, stmts_code(statements)->Ok_0, machine) == Some(
            exec_stmts_upto(primitives, machine, statements, statements.len()),
        ),
{
    lemma_statements_run(primitives, statements, statements.len(), machine);
}

/// The law of the program order for the first `count` statements.
proof fn lemma_statements_run(
    primitives: Primitives,
    statements: Seq<StmtModel>,
    count: nat,
    machine: Machine,
)
    requires
        stmts_well_formed(primitives, statements),
        count <= statements.len(),
    ensures
        stmts_code_upto(statements, count) is Ok,
        run(primitives, stmts_code_upto(statements, count)->Ok_0, machine) == Some(
            exec_stmts_upto(primitives, machine, statements, count),
        ),
    decreases count,
{
    if count > 0 {
        lemma_statements_run(primitives, statements, (count - 1) as nat, machine);
        let front = stmts_code_upto(statements, (count - 1) as nat)->Ok_0;
        let middle = exec_stmts_upto(primitives, machine, statements, (count - 1) as nat);
        law_statement_order(primitives, statements[count - 1], middle);
        lemma_run_concat(primitives, front, stmt_code(statements[count - 1])->Ok_0, machine);
    }
}

/// The first faulty statement of a list decides what the flattener
/// reports: where every statement ahead of it has code, the fault of that
/// statement is the result, whatever follows it.
pub proof fn law_first_fault_reported(statements: Seq<StmtModel>, index: int, error: LoweringError)
    requires
        0 <= index < statements.len(),
        forall|i: int| 0 <= i < index ==> stmt_code(#[trigger] statements[i]) is Ok,
        stmt_code(statements[index]) == Err::<Seq<FlatModel>, LoweringError>(error),
    ensures
        stmts_code(statements) == Err::<Seq<FlatModel>, LoweringError>(error),
{
    lemma_sound_prefix_has_code(statements, index as nat);
    lemma_stmts_fault_spreads(
        statements,
        (index + 1) as nat,
        statements.len(),
    );
}

/// Statements that have code each have code together.
proof fn lemma_sound_prefix_has_code(statements: Seq<StmtModel>, count: nat)
    requires
        count <= statements.len(),
        forall|i: int| 0 <= i < count ==> stmt_code(#[trigger] statements[i]) is Ok,
    ensures
        stmts_code_upto(statements, count) is Ok,
    decreases count,
{
    if count > 0 {
        lemma_sound_prefix_has_code(statements, (count - 1) as nat);
    }
}

/// One refused statement among sound ones is reported alone: the result is
/// the fault that names its kind and its position, and no code.
pub proof fn law_unsupported_statement_reported(
    statements: Seq<StmtModel>,
    index: int,
    kind: ConstructKind,
    position: Position,
)
    requires
        0 <= index < statements.len(),
        statements[index] == StmtModel::Unsupported(kind, position),
        forall|i: int|
            0 <= i < statements.len() && i != index ==> stmt_code(#[trigger] statements[i]) is Ok,
    ensures
        stmts_code(statements) == Err::<Seq<FlatModel>, LoweringError>(
            LoweringError::UnsupportedConstruct { kind, position },
        ),
        lowering(statements) == Err::<Seq<TargetModel>, LoweringError>(
            LoweringError::UnsupportedConstruct { kind, position },
        ),
{
    law_first_fault_reported(
        statements,
        index,
        LoweringError::UnsupportedConstruct { kind, position },
    );
}

/// Two lowered sequences one behind the other; the fault of the first goes
/// ahead of the fault of the second.
pub open spec fn joined(
    front: Result<Seq<TargetModel>, LoweringError>,
    back: Result<Seq<TargetModel>, LoweringError>,
) -> Result<Seq<TargetModel>, LoweringError> {
    match front {
        Ok(front_nodes) => match back {
            Ok(back_nodes) => Ok(front_nodes + back_nodes),
            Err(error) => Err(error),
        },
        Err(error) => Err(error),
    }
}

/// What the first nodes of a sequence lower to does not depend on what
/// follows them.
proof fn lemma_lowering_of_prefix(front: Seq<FlatModel>, back: Seq<FlatModel>, count: nat)
    requires
        count <= front.len(),
    ensures
        nodes_target_upto(front + back, count) == nodes_target_upto(front, count),
    decreases count,
{
    if count > 0 {
        lemma_lowering_of_prefix(front, back, (count - 1) as nat);
    }
}

/// The law of the kept order, for the first `count` nodes of the second
/// part.
proof fn lemma_lowering_keeps_order(front: Seq<FlatModel>, back: Seq<FlatModel>, count: nat)
    requires
        count <= back.len(),
    ensures
        nodes_target_upto(front + back, front.len() + count) == joined(
            nodes_target(front),
            nodes_target_upto(back, count),
        ),
    decreases count,
{
    if count == 0 {
        lemma_lowering_of_prefix(front, back, front.len());
    } else {
        lemma_lowering_keeps_order(front, back, (count - 1) as nat);
        match (nodes_target(front), nodes_target_upto(back, (count - 1) as nat), node_target(
            back[count - 1],
        )) {
            (Ok(first), Ok(second), Ok(third)) => {
                assert((first + second) + third =~= first + (second + third));
            },
            _ => {},
        }
    }
}

/// The lowering pass keeps the order of the flat sequence: what a
/// concatenation lowers to is what its first part lowers to, and behind it
/// what its second part lowers to.
pub proof fn law_lowering_keeps_order(front: Seq<FlatModel>, back: Seq<FlatModel>)
    ensures
        nodes_target(front + back) == joined(nodes_target(front), nodes_target(back)),
{
    lemma_lowering_keeps_order(front, back, back.len());
}

/// Lowering `left op right` gives the target code of `left`, behind it the
/// target code of `right`, and behind that what the operator table gives
/// for `op`.
pub proof fn law_binary_operator_lowering(
    operator: Seq<char>,
    left: ExprModel,
    right: ExprModel,
    position: Position,
)
    requires
        expr_code(left) is Ok,
        expr_code(right) is Ok,
    ensures
        expr_code(ExprModel::FnCall { name: operator, args: seq![left, right], position }) is Ok,
        nodes_target(
            expr_code(
                ExprModel::FnCall { name: operator, args: seq![left, right], position },
            )->Ok_0,
        ) == joined(
            joined(nodes_target(expr_code(left)->Ok_0), nodes_target(expr_code(right)->Ok_0)),
            fn_call_target(operator, location_of(position)),
        ),
{
    let args = seq![left, right];
    let left_code = expr_code(left)->Ok_0;
    let right_code = expr_code(right)->Ok_0;
    let call = call_node(operator, position);
    assert(exprs_code_from(args, 2) == Ok::<Seq<FlatModel>, LoweringError>(Seq::empty()));
    assert(exprs_code_from(args, 1) == Ok::<Seq<FlatModel>, LoweringError>(right_code));
    assert(exprs_code_from(args, 0) == Ok::<Seq<FlatModel>, LoweringError>(
        left_code + right_code,
    ));
    assert((left_code + right_code).push(call) =~= (left_code + right_code) + seq![call]);
    law_lowering_keeps_order(left_code + right_code, seq![call]);
    law_lowering_keeps_order(left_code, right_code);
    assert(nodes_target(seq![call]) == fn_call_target(operator, location_of(position))) by {
        reveal_with_fuel(nodes_target_upto, 2);
    }
}

/// Whether every node of the sequence has the shape that the backend
/// takes.
pub open spec fn all_well_formed(nodes: Seq<TargetModel>) -> bool {
    forall|i: int| 0 <= i < nodes.len() ==> (#[trigger] nodes[i]).well_formed()
}

/// What the operator table gives is made of primitive instructions.
proof fn lemma_table_gives_instructions(name: Seq<char>, location: Location)
    ensures
        fn_call_target(name, location) matches Ok(nodes) ==> all_well_formed(nodes),
{
}

/// What one flat node lowers to is well formed.
proof fn lemma_lowered_node_is_well_formed(node: FlatModel)
    ensures
        node_target(node) matches Ok(nodes) ==> all_well_formed(nodes),
    decreases node, 0nat,
{
    reveal_with_fuel(TargetModel::well_formed, 2);
    match node {
        FlatModel::Op(OpModel::FnCall(name), position) => {
            lemma_table_gives_instructions(name, location_of(position));
        },
        FlatModel::IfBlock { condition, succeed, fail, position } => {
            lemma_lowered_nodes_are_well_formed(condition, condition.len());
            lemma_lowered_nodes_are_well_formed(succeed, succeed.len());
            match fail {
                Some(nodes) => {
                    lemma_lowered_nodes_are_well_formed(nodes, nodes.len());
                },
                None => {},
            }
        },
        FlatModel::WhileBlock { do_while, condition, block, position } => {
            lemma_lowered_nodes_are_well_formed(condition, condition.len());
            lemma_lowered_nodes_are_well_formed(block, block.len());
        },
        _ => {},
    }
}

/// What the first `count` flat nodes lower to is well formed.
proof fn lemma_lowered_nodes_are_well_formed(nodes: Seq<FlatModel>, count: nat)
    requires
        count <= nodes.len(),
    ensures
        nodes_target_upto(nodes, count) matches Ok(lowered) ==> all_well_formed(lowered),
    decreases nodes, count,
{
    if count > 0 {
        lemma_lowered_nodes_are_well_formed(nodes, (count - 1) as nat);
        lemma_lowered_node_is_well_formed(nodes[count - 1]);
    }
}

/// The lowering pass hands out only what the backend takes: in every node
/// of a lowered sequence the fields of a conditional and of a loop are
/// groups, however deep the blocks nest.
pub proof fn law_lowering_is_well_formed(nodes: Seq<FlatModel>)
    ensures
        nodes_target(nodes) matches Ok(lowered) ==> all_well_formed(lowered),
{
    lemma_lowered_nodes_are_well_formed(nodes, nodes.len());
}

} // verus!
