//! Folded constants on the way to the target: each becomes a value that an
//! instruction can embed, or is refused.

use vstd::prelude::*;
use crate::error::LoweringError;
use crate::position::Position;
use crate::value::{
    char_to_string, constants_view, vector_new, vector_push_back, Constant, ConstantModel, Iota,
    IotaModel, Number,
};

verus! {

/// The embeddable value that stands for a folded constant. A list is taken
/// apart item by item; a boolean, a number, a text and the unit map
/// directly, a character to the text that holds it. Any other shape is
/// refused, with the position of the constant.
pub open spec fn constant_iota(value: ConstantModel, position: Position) -> Result<
    IotaModel,
    LoweringError,
>
    decreases value, 0nat,
{
    match value {
        ConstantModel::Unit => Ok(IotaModel::Null),
        ConstantModel::Boolean(flag) => Ok(IotaModel::Boolean(flag)),
        ConstantModel::Integer(number) => Ok(
            IotaModel::Number(Number::Integer(number as i128)),
        ),
        ConstantModel::Float(bits) => Ok(IotaModel::Number(Number::Float(bits))),
        ConstantModel::Character(symbol) => Ok(IotaModel::Text(seq![symbol])),
        ConstantModel::Text(text) => Ok(IotaModel::Text(text)),
        ConstantModel::List(items) => match constants_iota_upto(items, items.len(), position) {
            Ok(values) => Ok(IotaModel::List(values)),
            Err(error) => Err(error),
        },
        ConstantModel::Opaque => Err(LoweringError::UnrepresentableConstant { position }),
    }
}

/// The embeddable values of the first `count` constants. The constants are
/// visited in order: of several faulty ones the first is reported.
pub open spec fn constants_iota_upto(
    items: Seq<ConstantModel>,
    count: nat,
    position: Position,
) -> Result<Seq<IotaModel>, LoweringError>
    decreases items, count,
{
    if count == 0 || count > items.len() {
        Ok(Seq::empty())
    } else {
        match constants_iota_upto(items, (count - 1) as nat, position) {
            Ok(front) => match constant_iota(items[count - 1], position) {
                Ok(value) => Ok(front.push(value)),
                Err(error) => Err(error),
            },
            Err(error) => Err(error),
        }
    }
}

/// What the conversion of a constant hands back, as a model.
pub open spec fn iota_result_view(result: Result<Iota, LoweringError>) -> Result<
    IotaModel,
    LoweringError,
> {
    match result {
        Ok(value) => Ok(value@),
        Err(error) => Err(error),
    }
}

/// A fault in the first `fewer` constants is the fault of every longer run
/// of them.
pub proof fn lemma_constants_fault_spreads(
    items: Seq<ConstantModel>,
    fewer: nat,
    more: nat,
    position: Position,
)
    requires
        fewer <= more <= items.len(),
        constants_iota_upto(items, fewer, position) is Err,
    ensures
        constants_iota_upto(items, more, position) == constants_iota_upto(items, fewer, position),
    decreases more - fewer,
{
    if fewer < more {
        lemma_constants_fault_spreads(items, fewer, (more - 1) as nat, position);
    }
}

/// Turns a folded constant into the value that an instruction embeds. A
/// constant that holds a shape without a counterpart on the target is
/// refused as a whole.
pub fn translate_dynamic_to_iota(val: Constant, position: Position) -> (result: Result<
    Iota,
    LoweringError,
>)
    ensures
        iota_result_view(result) == constant_iota(val@, position),
    decreases val@,
{
    match val {
        Constant::Unit => Ok(Iota::Null),
        Constant::Boolean(flag) => Ok(Iota::Boolean(flag)),
        Constant::Integer(number) => Ok(Iota::Number(Number::Integer(number as i128))),
        Constant::Float(bits) => Ok(Iota::Number(Number::Float(bits))),
        Constant::Character(symbol) => Ok(Iota::Text(char_to_string(symbol))),
        Constant::Text(text) => Ok(Iota::Text(text)),
        Constant::List(items) => {
            let ghost all = items@;
            let ghost models = constants_view(all);
            let mut values = vector_new();
            for item in it: items
                invariant
                    it.seq() == all,
                    models == constants_view(all),
                    val@ == ConstantModel::List(models),
                    constants_iota_upto(models, it.index() as nat, position) == Ok::<
                        Seq<IotaModel>,
                        LoweringError,
                    >(values@),
            {
                let ghost index = it.index();
                match translate_dynamic_to_iota(item, position) {
                    Ok(value) => {
                        vector_push_back(&mut values, value);
                    },
                    Err(error) => {
                        proof {
                            lemma_constants_fault_spreads(
                                models,
                                (index + 1) as nat,
                                models.len(),
                                position,
                            );
                        }
                        return Err(error);
                    },
                }
            }
            Ok(Iota::List(values))
        },
        Constant::Opaque => Err(LoweringError::UnrepresentableConstant { position }),
    }
}

} // verus!
