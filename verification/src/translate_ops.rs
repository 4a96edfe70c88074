//! The operator table: what each operation of the flat sequence becomes on
//! the stack target.

use vstd::prelude::*;
use crate::error::{ConstructKind, LoweringError};
use crate::flatten_ast::{Op, OpModel};
use crate::position::{location_to_position, position_of, Location};
use crate::target::{
    action, lemma_target_view_concat, lemma_target_view_push, target_view, ActionValue,
    ActionValueModel, OpName, OpValue, OpValueModel, TargetModel, TargetNode,
};
use crate::value::{Iota, IotaModel, Number};

verus! {

/// The one instruction of the target that an operator maps to directly, for
/// the comparisons, the arithmetic operators, the bitwise exclusive or and
/// the logical negation.
pub open spec fn direct_instruction(name: Seq<char>) -> Option<Seq<char>> {
    if name == "=="@ {
        Some("equals"@)
    } else if name == "!="@ {
        Some("not_equals"@)
    } else if name == ">"@ {
        Some("greater"@)
    } else if name == "<"@ {
        Some("less"@)
    } else if name == ">="@ {
        Some("greater_eq"@)
    } else if name == "<="@ {
        Some("less_eq"@)
    } else if name == "!"@ {
        Some("not"@)
    } else if name == "+"@ {
        Some("add"@)
    } else if name == "-"@ {
        Some("subtract"@)
    } else if name == "*"@ {
        Some("mul_dot"@)
    } else if name == "/"@ {
        Some("div_cross"@)
    } else if name == "%"@ {
        Some("modulo"@)
    } else if name == "**"@ {
        Some("pow_proj"@)
    } else if name == "^"@ {
        Some("xor_bit"@)
    } else {
        None
    }
}

/// The operators that the table refuses: the short-circuit connectives and
/// the shifts.
pub open spec fn refused_operator(name: Seq<char>) -> Option<ConstructKind> {
    if name == "||"@ {
        Some(ConstructKind::Or)
    } else if name == "&&"@ {
        Some(ConstructKind::And)
    } else if name == "??"@ {
        Some(ConstructKind::Coalesce)
    } else if name == "<<"@ {
        Some(ConstructKind::ShiftLeft)
    } else if name == ">>"@ {
        Some(ConstructKind::ShiftRight)
    } else {
        None
    }
}

/// The instruction that puts the number `value` onto the stack.
pub open spec fn number_action(value: i128, location: Location) -> TargetModel {
    TargetModel::Action {
        location,
        name: "number"@,
        value: Some(ActionValueModel::Iota(IotaModel::Number(Number::Integer(value)))),
    }
}

/// The stack-cleanup instruction with the given mask.
pub open spec fn mask_action(mask: Seq<char>, location: Location) -> TargetModel {
    TargetModel::Action {
        location,
        name: "mask"@,
        value: Some(ActionValueModel::Bookkeeper(mask)),
    }
}

/// An operator that means logic on booleans and bit arithmetic on numbers:
/// the sequence that decides at run time. It copies the top operand twice,
/// compares one copy with true and one with false, and joins the two
/// answers. Then it quotes both instructions, spreads them onto the stack,
/// lets the answer select one, and runs that one.
pub open spec fn dual_path_target(
    logical: Seq<char>,
    bitwise: Seq<char>,
    location: Location,
) -> Seq<TargetModel> {
    seq![
        action("duplicate"@, location),
        action("duplicate"@, location),
        action("const/true"@, location),
        action("equals"@, location),
        action("swap"@, location),
        action("const/false"@, location),
        action("equals"@, location),
        action("or"@, location),
        action("open_paren"@, location),
        action(logical, location),
        action(bitwise, location),
        action("close_paren"@, location),
        action("splat"@, location),
        action("if"@, location),
        action("eval"@, location),
    ]
}

/// The sequence for `&`.
pub open spec fn and_target(location: Location) -> Seq<TargetModel> {
    dual_path_target("and"@, "and_bit"@, location)
}

/// The sequence for `|`.
pub open spec fn or_target(location: Location) -> Seq<TargetModel> {
    dual_path_target("or"@, "or_bit"@, location)
}

/// The sequence for the membership test: the index of the value in the
/// collection, compared with zero.
pub open spec fn in_target(location: Location) -> Seq<TargetModel> {
    seq![
        action("index_of"@, location),
        number_action(0, location),
        action("greater_eq"@, location),
    ]
}

/// The sequence for a range without its upper bound, with the two bounds on
/// the stack. The target has no loop counter, so the list is built by stack
/// manipulation: the step that appends the length of the list to the list
/// is quoted, copied as often as the upper bound says, and the copies are
/// run on an empty list.
pub open spec fn range_target(location: Location) -> Seq<TargetModel> {
    seq![
        action("open_paren"@, location),
        action("swap"@, location),
        action("duplicate_n"@, location),
        action("close_paren"@, location),
        action("open_paren"@, location),
        action("duplicate"@, location),
        action("list_size"@, location),
        action("append"@, location),
        action("close_paren"@, location),
        action("singleton"@, location),
        action("for_each"@, location),
        mask_action("v-"@, location),
        action("open_paren"@, location),
        action("splat"@, location),
        action("close_paren"@, location),
        action("swap"@, location),
        action("for_each"@, location),
        action("empty_list"@, location),
        action("swap"@, location),
        action("eval"@, location),
    ]
}

/// The sequence for a range that holds its upper bound: one is added to the
/// bound, and the rest is the sequence of the range without it.
pub open spec fn range_inclusive_target(location: Location) -> Seq<TargetModel> {
    seq![number_action(1, location), action("add"@, location)] + range_target(location)
}

/// The sequence for the output built-in: the output instruction, and the
/// cleanup of what the call leaves on the stack.
pub open spec fn print_target(location: Location) -> Seq<TargetModel> {
    seq![action("print"@, location), mask_action("v"@, location)]
}

/// What a call of `name` becomes. A name that the table does not hold is
/// handed to the target as the name of an instruction.
pub open spec fn fn_call_target(name: Seq<char>, location: Location) -> Result<
    Seq<TargetModel>,
    LoweringError,
> {
    match direct_instruction(name) {
        Some(instruction) => Ok(seq![action(instruction, location)]),
        None => match refused_operator(name) {
            Some(kind) => Err(
                LoweringError::UnsupportedConstruct { kind, position: position_of(location) },
            ),
            None => if name == "&"@ {
                Ok(and_target(location))
            } else if name == "|"@ {
                Ok(or_target(location))
            } else if name == ".."@ {
                Ok(range_target(location))
            } else if name == "..="@ {
                Ok(range_inclusive_target(location))
            } else if name == "in"@ {
                Ok(in_target(location))
            } else if name == "print"@ {
                Ok(print_target(location))
            } else {
                Ok(seq![action(name, location)])
            },
        },
    }
}

/// What an operation of the flat sequence becomes.
pub open spec fn op_target(op: OpModel, location: Location) -> Result<
    Seq<TargetModel>,
    LoweringError,
> {
    match op {
        OpModel::FnCall(name) => fn_call_target(name, location),
        OpModel::Store(name) => Ok(
            seq![
                TargetModel::Op {
                    location,
                    name: OpName::Store,
                    arg: Some(OpValueModel::Var(name)),
                },
            ],
        ),
        OpModel::Push(name) => Ok(
            seq![
                TargetModel::Op {
                    location,
                    name: OpName::Push,
                    arg: Some(OpValueModel::Var(name)),
                },
            ],
        ),
    }
}

/// What a lowering function hands back, as a model.
pub open spec fn lowered_view(result: Result<Vec<TargetNode>, LoweringError>) -> Result<
    Seq<TargetModel>,
    LoweringError,
> {
    match result {
        Ok(nodes) => Ok(target_view(nodes@)),
        Err(error) => Err(error),
    }
}

/// Whether `name` is the text `literal`.
fn is_name(name: &String, literal: &str) -> (same: bool)
    ensures
        same == (name@ == literal@),
{
    let text = String::from_str(literal);
    *name == text
}

/// Puts the instruction `name` behind what `actions` holds.
fn push_action(actions: &mut Vec<TargetNode>, location: Location, name: &str)
    ensures
        target_view(final(actions)@) == target_view(old(actions)@).push(action(name@, location)),
{
    let ghost before = actions@;
    let node = TargetNode::Action { location, name: String::from_str(name), value: None };
    actions.push(node);
    proof {
        lemma_target_view_push(before, node);
    }
}

/// Puts the instruction that loads the number `value` behind what `actions`
/// holds.
fn push_number(actions: &mut Vec<TargetNode>, location: Location, value: i128)
    ensures
        target_view(final(actions)@) == target_view(old(actions)@).push(
            number_action(value, location),
        ),
{
    let ghost before = actions@;
    let node = TargetNode::Action {
        location,
        name: String::from_str("number"),
        value: Some(ActionValue::Iota(Iota::Number(Number::Integer(value)))),
    };
    actions.push(node);
    proof {
        lemma_target_view_push(before, node);
    }
}

/// Puts the cleanup instruction with the mask `mask` behind what `actions`
/// holds.
fn push_mask(actions: &mut Vec<TargetNode>, location: Location, mask: &str)
    ensures
        target_view(final(actions)@) == target_view(old(actions)@).push(
            mask_action(mask@, location),
        ),
{
    let ghost before = actions@;
    let node = TargetNode::Action {
        location,
        name: String::from_str("mask"),
        value: Some(ActionValue::Bookkeeper(String::from_str(mask))),
    };
    actions.push(node);
    proof {
        lemma_target_view_push(before, node);
    }
}

/// The sequence of the one instruction `name`.
fn single_action(location: Location, name: &str) -> (actions: Vec<TargetNode>)
    ensures
        target_view(actions@) == seq![action(name@, location)],
{
    let mut actions: Vec<TargetNode> = Vec::new();
    push_action(&mut actions, location, name);
    actions
}

/// The name of the instruction that the operator `name` maps to directly,
/// if it is one of those.
fn direct_instruction_name(name: &String) -> (instruction: Option<&'static str>)
    ensures
        match instruction {
            Some(text) => direct_instruction(name@) == Some(text@),
            None => direct_instruction(name@) is None,
        },
{
    if is_name(name, "==") {
        Some("equals")
    } else if is_name(name, "!=") {
        Some("not_equals")
    } else if is_name(name, ">") {
        Some("greater")
    } else if is_name(name, "<") {
        Some("less")
    } else if is_name(name, ">=") {
        Some("greater_eq")
    } else if is_name(name, "<=") {
        Some("less_eq")
    } else if is_name(name, "!") {
        Some("not")
    } else if is_name(name, "+") {
        Some("add")
    } else if is_name(name, "-") {
        Some("subtract")
    } else if is_name(name, "*") {
        Some("mul_dot")
    } else if is_name(name, "/") {
        Some("div_cross")
    } else if is_name(name, "%") {
        Some("modulo")
    } else if is_name(name, "**") {
        Some("pow_proj")
    } else if is_name(name, "^") {
        Some("xor_bit")
    } else {
        None
    }
}

/// The construct that the operator `name` stands for, if the table refuses
/// it.
fn refused_operator_kind(name: &String) -> (kind: Option<ConstructKind>)
    ensures
        kind == refused_operator(name@),
{
    if is_name(name, "||") {
        Some(ConstructKind::Or)
    } else if is_name(name, "&&") {
        Some(ConstructKind::And)
    } else if is_name(name, "??") {
        Some(ConstructKind::Coalesce)
    } else if is_name(name, "<<") {
        Some(ConstructKind::ShiftLeft)
    } else if is_name(name, ">>") {
        Some(ConstructKind::ShiftRight)
    } else {
        None
    }
}

/// Lowers an operation of the flat sequence: a store or a read becomes one
/// variable instruction, a call what the operator table gives for its name.
pub fn translate_op(op: Op, location: Location) -> (result: Result<Vec<TargetNode>, LoweringError>)
    ensures
        lowered_view(result) == op_target(op@, location),
{
    match op {
        Op::FnCall(fn_name) => translate_fn_call(fn_name, location),
        Op::Store(var) => {
            let mut nodes: Vec<TargetNode> = Vec::new();
            let node = TargetNode::Op {
                location,
                name: OpName::Store,
                arg: Some(OpValue::Var(var)),
            };
            nodes.push(node);
            assert(target_view(nodes@) =~= seq![node@]);
            Ok(nodes)
        },
        Op::Push(var) => {
            let mut nodes: Vec<TargetNode> = Vec::new();
            let node = TargetNode::Op {
                location,
                name: OpName::Push,
                arg: Some(OpValue::Var(var)),
            };
            nodes.push(node);
            assert(target_view(nodes@) =~= seq![node@]);
            Ok(nodes)
        },
    }
}

/// Lowers a call by the operator table. The short-circuit connectives and
/// the shifts are refused; a name that the table does not hold passes
/// through as the name of an instruction.
pub fn translate_fn_call(fn_name: String, location: Location) -> (result: Result<
    Vec<TargetNode>,
    LoweringError,
>)
    ensures
        lowered_view(result) == fn_call_target(fn_name@, location),
{
    match direct_instruction_name(&fn_name) {
        Some(instruction) => Ok(single_action(location, instruction)),
        None => match refused_operator_kind(&fn_name) {
            Some(kind) => Err(
                LoweringError::UnsupportedConstruct {
                    kind,
                    position: location_to_position(location),
                },
            ),
            None => if is_name(&fn_name, "&") {
                Ok(translate_op_and(location))
            } else if is_name(&fn_name, "|") {
                Ok(translate_op_or(location))
            } else if is_name(&fn_name, "..") {
                Ok(translate_op_range(location))
            } else if is_name(&fn_name, "..=") {
                Ok(translate_op_range_inclusive(location))
            } else if is_name(&fn_name, "in") {
                Ok(translate_op_in(location))
            } else if is_name(&fn_name, "print") {
                Ok(translate_op_print(location))
            } else {
                let mut nodes: Vec<TargetNode> = Vec::new();
                let node = TargetNode::Action { location, name: fn_name, value: None };
                nodes.push(node);
                assert(target_view(nodes@) =~= seq![node@]);
                Ok(nodes)
            },
        },
    }
}

/// The membership test.
pub fn translate_op_in(location: Location) -> (actions: Vec<TargetNode>)
    ensures
        target_view(actions@) == in_target(location),
{
    let mut actions: Vec<TargetNode> = Vec::new();
    push_action(&mut actions, location, "index_of");
    push_number(&mut actions, location, 0);
    push_action(&mut actions, location, "greater_eq");
    actions
}

/// The sequence that decides at run time between the instruction for
/// booleans and the one for numbers.
fn translate_dual_path(location: Location, logical: &str, bitwise: &str) -> (actions: Vec<
    TargetNode,
>)
    ensures
        target_view(actions@) == dual_path_target(logical@, bitwise@, location),
{
    let mut actions: Vec<TargetNode> = Vec::new();
    push_action(&mut actions, location, "duplicate");
    push_action(&mut actions, location, "duplicate");
    push_action(&mut actions, location, "const/true");
    push_action(&mut actions, location, "equals");
    push_action(&mut actions, location, "swap");
    push_action(&mut actions, location, "const/false");
    push_action(&mut actions, location, "equals");
    push_action(&mut actions, location, "or");
    push_action(&mut actions, location, "open_paren");
    push_action(&mut actions, location, logical);
    push_action(&mut actions, location, bitwise);
    push_action(&mut actions, location, "close_paren");
    push_action(&mut actions, location, "splat");
    push_action(&mut actions, location, "if");
    push_action(&mut actions, location, "eval");
    actions
}

/// The operator `&`: the logical and for booleans, the bitwise and for
/// numbers.
pub fn translate_op_and(location: Location) -> (actions: Vec<TargetNode>)
    ensures
        target_view(actions@) == and_target(location),
{
    translate_dual_path(location, "and", "and_bit")
}

/// The operator `|`: the logical or for booleans, the bitwise or for
/// numbers.
pub fn translate_op_or(location: Location) -> (actions: Vec<TargetNode>)
    ensures
        target_view(actions@) == or_target(location),
{
    translate_dual_path(location, "or", "or_bit")
}

/// The range that holds its upper bound.
pub fn translate_op_range_inclusive(location: Location) -> (actions: Vec<TargetNode>)
    ensures
        target_view(actions@) == range_inclusive_target(location),
{
    let mut actions: Vec<TargetNode> = Vec::new();
    push_number(&mut actions, location, 1);
    push_action(&mut actions, location, "add");
    let ghost head = actions@;
    let mut range = translate_op_range(location);
    let ghost tail = range@;
    actions.append(&mut range);
    proof {
        lemma_target_view_concat(head, tail);
    }
    actions
}

/// The range without its upper bound.
pub fn translate_op_range(location: Location) -> (actions: Vec<TargetNode>)
    ensures
        target_view(actions@) == range_target(location),
{
    let mut actions: Vec<TargetNode> = Vec::new();
    push_action(&mut actions, location, "open_paren");
    push_action(&mut actions, location, "swap");
    push_action(&mut actions, location, "duplicate_n");
    push_action(&mut actions, location, "close_paren");
    push_action(&mut actions, location, "open_paren");
    push_action(&mut actions, location, "duplicate");
    push_action(&mut actions, location, "list_size");
    push_action(&mut actions, location, "append");
    push_action(&mut actions, location, "close_paren");
    push_action(&mut actions, location, "singleton");
    push_action(&mut actions, location, "for_each");
    push_mask(&mut actions, location, "v-");
    push_action(&mut actions, location, "open_paren");
    push_action(&mut actions, location, "splat");
    push_action(&mut actions, location, "close_paren");
    push_action(&mut actions, location, "swap");
    push_action(&mut actions, location, "for_each");
    push_action(&mut actions, location, "empty_list");
    push_action(&mut actions, location, "swap");
    push_action(&mut actions, location, "eval");
    actions
}

/// The output built-in.
pub fn translate_op_print(location: Location) -> (actions: Vec<TargetNode>)
    ensures
        target_view(actions@) == print_target(location),
{
    let mut actions: Vec<TargetNode> = Vec::new();
    push_action(&mut actions, location, "print");
    push_mask(&mut actions, location, "v");
    actions
}

} // verus!
