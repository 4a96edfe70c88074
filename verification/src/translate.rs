//! The lowering pass: from the flat sequence to the instruction nodes of the
//! stack target. Every flat node becomes one or more target nodes, in the
//! order of the flat sequence.

use vstd::prelude::*;
use crate::error::LoweringError;
use crate::flatten_ast::{flat_view, flatten_statements, stmts_code, FlatModel, FlatNode};
use crate::position::{location_of, position_to_location, Location, Position};
use crate::target::{
    lemma_target_view_concat, node_view, target_view, OpName, OpValue, OpValueModel, TargetModel,
    TargetNode,
};
use crate::translate_dynamic::{constant_iota, translate_dynamic_to_iota};
use crate::translate_ops::{lowered_view, op_target, translate_op};
use crate::tree::{stmts_view, StmtModel, TreeStmt};
use crate::value::{Iota, IotaModel};

verus! {

/// The instruction that embeds the constant `value`.
pub open spec fn embed(value: IotaModel, location: Location) -> TargetModel {
    TargetModel::Op { location, name: OpName::IntroEmbed, arg: Some(OpValueModel::Iota(value)) }
}

/// The group that holds `nodes`.
pub open spec fn block_of(nodes: Seq<TargetModel>) -> TargetModel {
    TargetModel::Block { nodes }
}

/// The conditional of the target, given what its three fields lower to:
/// each is wrapped in a group. The condition is examined first, then the
/// success branch, then the failure branch.
pub open spec fn if_target(
    condition: Result<Seq<TargetModel>, LoweringError>,
    succeed: Result<Seq<TargetModel>, LoweringError>,
    fail: Option<Result<Seq<TargetModel>, LoweringError>>,
    location: Location,
) -> Result<TargetModel, LoweringError> {
    match condition {
        Ok(condition_nodes) => match succeed {
            Ok(succeed_nodes) => match fail {
                None => Ok(
                    TargetModel::IfBlock {
                        location,
                        condition: Box::new(block_of(condition_nodes)),
                        succeed: Box::new(block_of(succeed_nodes)),
                        fail: None,
                    },
                ),
                Some(Ok(fail_nodes)) => Ok(
                    TargetModel::IfBlock {
                        location,
                        condition: Box::new(block_of(condition_nodes)),
                        succeed: Box::new(block_of(succeed_nodes)),
                        fail: Some(Box::new(block_of(fail_nodes))),
                    },
                ),
                Some(Err(error)) => Err(error),
            },
            Err(error) => Err(error),
        },
        Err(error) => Err(error),
    }
}

/// The loop of the target, given what its two fields lower to: each is
/// wrapped in a group. The condition is examined first, then the body.
pub open spec fn while_target(
    do_while: bool,
    condition: Result<Seq<TargetModel>, LoweringError>,
    block: Result<Seq<TargetModel>, LoweringError>,
    location: Location,
) -> Result<TargetModel, LoweringError> {
    match condition {
        Ok(condition_nodes) => match block {
            Ok(block_nodes) => Ok(
                TargetModel::WhileBlock {
                    location,
                    do_while,
                    condition: Box::new(block_of(condition_nodes)),
                    block: Box::new(block_of(block_nodes)),
                },
            ),
            Err(error) => Err(error),
        },
        Err(error) => Err(error),
    }
}

/// The sequence that holds the one node of `node`; a fault stays as it is.
pub open spec fn alone(node: Result<TargetModel, LoweringError>) -> Result<
    Seq<TargetModel>,
    LoweringError,
> {
    match node {
        Ok(model) => Ok(seq![model]),
        Err(error) => Err(error),
    }
}

/// What one flat node lowers to. An operation goes by the operator table;
/// every literal becomes one embed instruction; a block becomes one block
/// of the target with its fields lowered. The location of each target node
/// is the position of the flat node.
pub open spec fn node_target(node: FlatModel) -> Result<Seq<TargetModel>, LoweringError>
    decreases node, 0nat,
{
    match node {
        FlatModel::Op(op, position) => op_target(op, location_of(position)),
        FlatModel::NumberLiteral(value, position) => Ok(
            seq![embed(IotaModel::Number(value), location_of(position))],
        ),
        FlatModel::BooleanLiteral(value, position) => Ok(
            seq![embed(IotaModel::Boolean(value), location_of(position))],
        ),
        FlatModel::StringLiteral(value, position) => Ok(
            seq![embed(IotaModel::Text(value), location_of(position))],
        ),
        FlatModel::Unit(position) => Ok(seq![embed(IotaModel::Null, location_of(position))]),
        FlatModel::DynamicConstant(value, position) => match constant_iota(value, position) {
            Ok(iota) => Ok(seq![embed(iota, location_of(position))]),
            Err(error) => Err(error),
        },
        FlatModel::IfBlock { condition, succeed, fail, position } => alone(
            if_target(
                nodes_target_upto(condition, condition.len()),
                nodes_target_upto(succeed, succeed.len()),
                match fail {
                    Some(nodes) => Some(nodes_target_upto(nodes, nodes.len())),
                    None => None,
                },
                location_of(position),
            ),
        ),
        FlatModel::WhileBlock { do_while, condition, block, position } => alone(
            while_target(
                do_while,
                nodes_target_upto(condition, condition.len()),
                nodes_target_upto(block, block.len()),
                location_of(position),
            ),
        ),
    }
}

/// What the first `count` flat nodes lower to, one behind the other. The
/// nodes are visited in order: of several faulty ones the first is
/// reported.
pub open spec fn nodes_target_upto(nodes: Seq<FlatModel>, count: nat) -> Result<
    Seq<TargetModel>,
    LoweringError,
>
    decreases nodes, count,
{
    if count == 0 || count > nodes.len() {
        Ok(Seq::empty())
    } else {
        match nodes_target_upto(nodes, (count - 1) as nat) {
            Ok(front) => match node_target(nodes[count - 1]) {
                Ok(lowered) => Ok(front + lowered),
                Err(error) => Err(error),
            },
            Err(error) => Err(error),
        }
    }
}

/// What a flat sequence lowers to.
pub open spec fn nodes_target(nodes: Seq<FlatModel>) -> Result<Seq<TargetModel>, LoweringError> {
    nodes_target_upto(nodes, nodes.len())
}

/// What the lowering of a block hands back, as a model.
pub open spec fn node_result_view(result: Result<TargetNode, LoweringError>) -> Result<
    TargetModel,
    LoweringError,
> {
    match result {
        Ok(node) => Ok(node@),
        Err(error) => Err(error),
    }
}

/// A fault in the first `fewer` nodes is the fault of every longer run of
/// them.
pub proof fn lemma_nodes_fault_spreads(nodes: Seq<FlatModel>, fewer: nat, more: nat)
    requires
        fewer <= more <= nodes.len(),
        nodes_target_upto(nodes, fewer) is Err,
    ensures
        nodes_target_upto(nodes, more) == nodes_target_upto(nodes, fewer),
    decreases more - fewer,
{
    if fewer < more {
        lemma_nodes_fault_spreads(nodes, fewer, (more - 1) as nat);
    }
}

/// The sequence that holds the one embed instruction for `value`.
fn embedded(value: Iota, location: Location) -> (nodes: Vec<TargetNode>)
    ensures
        target_view(nodes@) == seq![embed(value@, location)],
{
    let mut nodes: Vec<TargetNode> = Vec::new();
    let node = TargetNode::Op {
        location,
        name: OpName::IntroEmbed,
        arg: Some(OpValue::Iota(value)),
    };
    nodes.push(node);
    nodes
}

/// The sequence that holds `node` alone.
fn lone(node: TargetNode) -> (nodes: Vec<TargetNode>)
    ensures
        target_view(nodes@) == seq![node@],
{
    let mut nodes: Vec<TargetNode> = Vec::new();
    nodes.push(node);
    nodes
}

/// Lowers a flat sequence to the sequence of the target, node by node and in
/// order. The first fault ends the pass, and nothing of the sequence is
/// handed out beside it.
pub fn translate_flattened_ast(ast: Vec<FlatNode>) -> (result: Result<
    Vec<TargetNode>,
    LoweringError,
>)
    ensures
        lowered_view(result) == nodes_target(flat_view(ast@)),
    decreases flat_view(ast@), 0nat,
{
    let ghost all = ast@;
    let ghost models = flat_view(all);
    let mut translated_ast: Vec<TargetNode> = Vec::new();
    assert(target_view(translated_ast@) =~= Seq::<TargetModel>::empty());
    for node in it: ast
        invariant
            it.seq() == all,
            models == flat_view(all),
            nodes_target_upto(models, it.index() as nat) == Ok::<
                Seq<TargetModel>,
                LoweringError,
            >(target_view(translated_ast@)),
    {
        let ghost index = it.index();
        match translate_node(node) {
            Ok(mut lowered) => {
                let ghost front = translated_ast@;
                let ghost added = lowered@;
                translated_ast.append(&mut lowered);
                proof {
                    lemma_target_view_concat(front, added);
                }
            },
            Err(error) => {
                proof {
                    lemma_nodes_fault_spreads(models, (index + 1) as nat, models.len());
                }
                return Err(error);
            },
        }
    }
    Ok(translated_ast)
}

/// Lowers one flat node.
pub fn translate_node(node: FlatNode) -> (result: Result<Vec<TargetNode>, LoweringError>)
    ensures
        lowered_view(result) == node_target(node@),
    decreases node@, 1nat,
{
    match node {
        FlatNode::Op(op, position) => translate_op(op, position_to_location(position)),
        FlatNode::NumberLiteral(value, position) => Ok(
            embedded(Iota::Number(value), position_to_location(position)),
        ),
        FlatNode::BooleanLiteral(value, position) => Ok(
            embedded(Iota::Boolean(value), position_to_location(position)),
        ),
        FlatNode::StringLiteral(value, position) => Ok(
            embedded(Iota::Text(value), position_to_location(position)),
        ),
        FlatNode::Unit(position) => Ok(embedded(Iota::Null, position_to_location(position))),
        FlatNode::DynamicConstant(value, position) => {
            match translate_dynamic_to_iota(value, position) {
                Ok(iota) => Ok(embedded(iota, position_to_location(position))),
                Err(error) => Err(error),
            }
        },
        FlatNode::IfBlock { condition, succeed, fail, position } => {
            match translate_if(condition, succeed, fail, position) {
                Ok(block) => Ok(lone(block)),
                Err(error) => Err(error),
            }
        },
        FlatNode::WhileBlock { do_while, condition, block, position } => {
            match translate_while(do_while, condition, block, position) {
                Ok(block) => Ok(lone(block)),
                Err(error) => Err(error),
            }
        },
    }
}

/// The model of an `if` block of the flat sequence with these fields.
pub open spec fn flat_if(
    condition: Vec<FlatNode>,
    succeed: Vec<FlatNode>,
    fail: Option<Vec<FlatNode>>,
    position: Position,
) -> FlatModel {
    (FlatNode::IfBlock { condition, succeed, fail, position })@
}

/// The model of a loop block of the flat sequence with these fields.
pub open spec fn flat_while(
    do_while: bool,
    condition: Vec<FlatNode>,
    block: Vec<FlatNode>,
    position: Position,
) -> FlatModel {
    (FlatNode::WhileBlock { do_while, condition, block, position })@
}

/// Lowers an `if` block: its three fields are lowered and each is wrapped
/// in a group.
pub fn translate_if(
    condition: Vec<FlatNode>,
    succeed: Vec<FlatNode>,
    fail: Option<Vec<FlatNode>>,
    position: Position,
) -> (result: Result<TargetNode, LoweringError>)
    ensures
        alone(node_result_view(result)) == node_target(
            flat_if(condition, succeed, fail, position),
        ),
    decreases flat_if(condition, succeed, fail, position), 0nat,
{
    let condition_nodes = match translate_flattened_ast(condition) {
        Ok(nodes) => nodes,
        Err(error) => {
            return Err(error);
        },
    };
    let succeed_nodes = match translate_flattened_ast(succeed) {
        Ok(nodes) => nodes,
        Err(error) => {
            return Err(error);
        },
    };
    let fail_block = match fail {
        Some(nodes) => match translate_flattened_ast(nodes) {
            Ok(fail_nodes) => Some(Box::new(TargetNode::Block { nodes: fail_nodes })),
            Err(error) => {
                return Err(error);
            },
        },
        None => None,
    };
    proof {
        reveal_with_fuel(node_view, 2);
    }
    Ok(
        TargetNode::IfBlock {
            location: position_to_location(position),
            condition: Box::new(TargetNode::Block { nodes: condition_nodes }),
            succeed: Box::new(TargetNode::Block { nodes: succeed_nodes }),
            fail: fail_block,
        },
    )
}

/// Lowers a loop block: its two fields are lowered and each is wrapped in a
/// group.
pub fn translate_while(
    do_while: bool,
    condition: Vec<FlatNode>,
    block: Vec<FlatNode>,
    position: Position,
) -> (result: Result<TargetNode, LoweringError>)
    ensures
        alone(node_result_view(result)) == node_target(
            flat_while(do_while, condition, block, position),
        ),
    decreases flat_while(do_while, condition, block, position), 0nat,
{
    let condition_nodes = match translate_flattened_ast(condition) {
        Ok(nodes) => nodes,
        Err(error) => {
            return Err(error);
        },
    };
    let block_nodes = match translate_flattened_ast(block) {
        Ok(nodes) => nodes,
        Err(error) => {
            return Err(error);
        },
    };
    proof {
        reveal_with_fuel(node_view, 2);
    }
    Ok(
        TargetNode::WhileBlock {
            location: position_to_location(position),
            do_while,
            condition: Box::new(TargetNode::Block { nodes: condition_nodes }),
            block: Box::new(TargetNode::Block { nodes: block_nodes }),
        },
    )
}

/// What a statement list lowers to through both passes: the target
/// sequence of its flat code, or the first fault of either pass.
pub open spec fn lowering(statements: Seq<StmtModel>) -> Result<Seq<TargetModel>, LoweringError> {
    match stmts_code(statements) {
        Ok(code) => nodes_target(code),
        Err(error) => Err(error),
    }
}

/// Lowers a statement list to the sequence of the target: the flattening
/// pass, then the lowering pass. A fault of either pass is the result, and
/// no part of a sequence beside it.
pub fn lower_statements(ast: &[TreeStmt]) -> (result: Result<Vec<TargetNode>, LoweringError>)
    ensures
        lowered_view(result) == lowering(stmts_view(ast@)),
{
    match flatten_statements(ast) {
        Ok(flattened) => translate_flattened_ast(flattened),
        Err(error) => Err(error),
    }
}

} // verus!
