//! The instruction nodes of the stack target, as the backend takes them.

use vstd::prelude::*;
use crate::position::Location;
use crate::value::{Iota, IotaModel};

verus! {

/// The instructions that deal with variables and embedded constants.
#[derive(Clone, Copy, Debug, PartialEq, Eq, Structural)]
pub enum OpName {
    /// Binds the top of the stack to a variable.
    Store,
    /// Reads a variable onto the stack.
    Push,
    /// Puts an embedded constant onto the stack.
    IntroEmbed,
}

/// The operand of a variable or embed instruction.
#[derive(Debug, PartialEq, Eq)]
pub enum OpValue {
    Iota(Iota),
    Var(String),
}

/// The mathematical model of an [`OpValue`].
pub enum OpValueModel {
    Iota(IotaModel),
    Var(Seq<char>),
}

impl View for OpValue {
    type V = OpValueModel;

    open spec fn view(&self) -> OpValueModel {
        match self {
            OpValue::Iota(value) => OpValueModel::Iota(value@),
            OpValue::Var(name) => OpValueModel::Var(name@),
        }
    }
}

/// The immediate operand of a primitive instruction.
#[derive(Debug, PartialEq, Eq)]
pub enum ActionValue {
    Iota(Iota),
    /// The mask of a stack-cleanup instruction: which of the top values stay
    /// (`-`) and which go (`v`).
    Bookkeeper(String),
}

/// The mathematical model of an [`ActionValue`].
pub enum ActionValueModel {
    Iota(IotaModel),
    Bookkeeper(Seq<char>),
}

impl View for ActionValue {
    type V = ActionValueModel;

    open spec fn view(&self) -> ActionValueModel {
        match self {
            ActionValue::Iota(value) => ActionValueModel::Iota(value@),
            ActionValue::Bookkeeper(mask) => ActionValueModel::Bookkeeper(mask@),
        }
    }
}

/// A node of the target sequence.
#[allow(inconsistent_fields)]
#[derive(Debug, PartialEq, Eq)]
pub enum TargetNode {
    /// A variable store, a variable read or an embedded constant.
    Op { location: Location, name: OpName, arg: Option<OpValue> },
    /// A primitive instruction of the target, by its name.
    Action { location: Location, name: String, value: Option<ActionValue> },
    /// A group of nodes with no effect beyond that of its contents.
    Block { nodes: Vec<TargetNode> },
    /// A conditional; each of its fields is a `Block`.
    IfBlock {
        location: Location,
        condition: Box<TargetNode>,
        succeed: Box<TargetNode>,
        fail: Option<Box<TargetNode>>,
    },
    /// A loop; each of its fields is a `Block`.
    WhileBlock {
        location: Location,
        do_while: bool,
        condition: Box<TargetNode>,
        block: Box<TargetNode>,
    },
}

/// The mathematical model of a [`TargetNode`].
#[allow(inconsistent_fields)]
pub enum TargetModel {
    Op { location: Location, name: OpName, arg: Option<OpValueModel> },
    Action { location: Location, name: Seq<char>, value: Option<ActionValueModel> },
    Block { nodes: Seq<TargetModel> },
    IfBlock {
        location: Location,
        condition: Box<TargetModel>,
        succeed: Box<TargetModel>,
        fail: Option<Box<TargetModel>>,
    },
    WhileBlock {
        location: Location,
        do_while: bool,
        condition: Box<TargetModel>,
        block: Box<TargetModel>,
    },
}

/// The models of a sequence of target nodes, item by item.
pub open spec fn target_view(items: Seq<TargetNode>) -> Seq<TargetModel>
    decreases items,
{
    Seq::new(
        items.len(),
        |i: int|
            if 0 <= i < items.len() {
                node_view(items[i])
            } else {
                TargetModel::Block { nodes: Seq::empty() }
            },
    )
}

/// The model of an optional operand.
pub open spec fn op_value_view(value: Option<OpValue>) -> Option<OpValueModel> {
    match value {
        Some(operand) => Some(operand@),
        None => None,
    }
}

/// The model of an optional immediate operand.
pub open spec fn action_value_view(value: Option<ActionValue>) -> Option<ActionValueModel> {
    match value {
        Some(operand) => Some(operand@),
        None => None,
    }
}

/// The model of a target node.
pub open spec fn node_view(node: TargetNode) -> TargetModel
    decreases node,
{
    match node {
        TargetNode::Op { location, name, arg } => TargetModel::Op {
            location,
            name,
            arg: op_value_view(arg),
        },
        TargetNode::Action { location, name, value } => TargetModel::Action {
            location,
            name: name@,
            value: action_value_view(value),
        },
        TargetNode::Block { nodes } => TargetModel::Block { nodes: target_view(nodes@) },
        TargetNode::IfBlock { location, condition, succeed, fail } => TargetModel::IfBlock {
            location,
            condition: Box::new(node_view(*condition)),
            succeed: Box::new(node_view(*succeed)),
            fail: match fail {
                Some(node) => Some(Box::new(node_view(*node))),
                None => None,
            },
        },
        TargetNode::WhileBlock { location, do_while, condition, block } => TargetModel::WhileBlock {
            location,
            do_while,
            condition: Box::new(node_view(*condition)),
            block: Box::new(node_view(*block)),
        },
    }
}

impl View for TargetNode {
    type V = TargetModel;

    open spec fn view(&self) -> TargetModel {
        node_view(*self)
    }
}

impl TargetModel {
    /// Whether the node has the shape that the backend takes: the fields of
    /// a conditional and of a loop are groups, and so on inside every group.
    pub open spec fn well_formed(self) -> bool
        decreases self,
    {
        match self {
            TargetModel::Op { .. } => true,
            TargetModel::Action { .. } => true,
            TargetModel::Block { nodes } => forall|i: int|
                0 <= i < nodes.len() ==> (#[trigger] nodes[i]).well_formed(),
            TargetModel::IfBlock { condition, succeed, fail, .. } => {
                &&& *condition is Block
                &&& condition.well_formed()
                &&& *succeed is Block
                &&& succeed.well_formed()
                &&& match fail {
                    Some(block) => *block is Block && block.well_formed(),
                    None => true,
                }
            },
            TargetModel::WhileBlock { condition, block, .. } => {
                &&& *condition is Block
                &&& condition.well_formed()
                &&& *block is Block
                &&& block.well_formed()
            },
        }
    }
}

/// The primitive instruction `name` without an operand.
pub open spec fn action(name: Seq<char>, location: Location) -> TargetModel {
    TargetModel::Action { location, name, value: None }
}

/// The view of a concatenation is the concatenation of the views.
pub proof fn lemma_target_view_concat(front: Seq<TargetNode>, back: Seq<TargetNode>)
    ensures
        target_view(front + back) == target_view(front) + target_view(back),
{
}

/// The view of a sequence with one more node is the view with one more
/// model.
pub proof fn lemma_target_view_push(front: Seq<TargetNode>, node: TargetNode)
    ensures
        target_view(front.push(node)) == target_view(front).push(node@),
{
}

} // verus!
