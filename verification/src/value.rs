//! Literal payloads: numbers, folded constants and the values that the stack
//! target can embed.
//!
//! A list of embeddable values lives in a persistent vector of the `im`
//! crate. The verifier does not look into that vector: what it holds has a
//! name here, `list_items`, and the few operations on it are trusted to do
//! to the items what the vector's documentation says.

use vstd::prelude::*;

verus! {

/// A numeric literal: a whole number, or a double given by its IEEE 754 bits.
///
/// The target knows one kind of number only; the backend turns either form
/// into it when it encodes the instruction.
#[derive(Clone, Copy, Debug, PartialEq, Eq, Structural)]
pub enum Number {
    Integer(i128),
    Float(u64),
}

/// A value that was folded to a constant before the tree reached the
/// flattener.
#[derive(Debug, PartialEq, Eq)]
pub enum Constant {
    Unit,
    Boolean(bool),
    Integer(i64),
    /// A double, as its IEEE 754 bits.
    Float(u64),
    Character(char),
    Text(String),
    List(Vec<Constant>),
    /// Any shape that the target's value model cannot hold.
    Opaque,
}

/// The mathematical model of a [`Constant`].
pub enum ConstantModel {
    Unit,
    Boolean(bool),
    Integer(i64),
    Float(u64),
    Character(char),
    Text(Seq<char>),
    List(Seq<ConstantModel>),
    Opaque,
}

/// The models of a sequence of constants, item by item.
pub open spec fn constants_view(items: Seq<Constant>) -> Seq<ConstantModel>
    decreases items,
{
    Seq::new(
        items.len(),
        |i: int|
            if 0 <= i < items.len() {
                items[i]@
            } else {
                ConstantModel::Unit
            },
    )
}

impl View for Constant {
    type V = ConstantModel;

    open spec fn view(&self) -> ConstantModel
        decreases self,
    {
        match self {
            Constant::Unit => ConstantModel::Unit,
            Constant::Boolean(b) => ConstantModel::Boolean(*b),
            Constant::Integer(i) => ConstantModel::Integer(*i),
            Constant::Float(bits) => ConstantModel::Float(*bits),
            Constant::Character(c) => ConstantModel::Character(*c),
            Constant::Text(s) => ConstantModel::Text(s@),
            Constant::List(items) => ConstantModel::List(constants_view(items@)),
            Constant::Opaque => ConstantModel::Opaque,
        }
    }
}

impl Clone for Constant {
    /// A deep copy: the copy has the model of the value it was made from.
    fn clone(&self) -> (copy: Self)
        ensures
            copy@ == self@,
        decreases self,
    {
        match self {
            Constant::Unit => Constant::Unit,
            Constant::Boolean(b) => Constant::Boolean(*b),
            Constant::Integer(i) => Constant::Integer(*i),
            Constant::Float(bits) => Constant::Float(*bits),
            Constant::Character(c) => Constant::Character(*c),
            Constant::Text(s) => Constant::Text(s.clone()),
            Constant::List(items) => {
                let mut copies: Vec<Constant> = Vec::new();
                let mut i: usize = 0;
                while i < items.len()
                    invariant
                        i <= items.len(),
                        forall|k: int| 0 <= k < items.len() ==> decreases_to!(self => items[k]),
                        copies.len() == i,
                        forall|k: int| 0 <= k < i ==> copies[k]@ == items[k]@,
                    decreases items.len() - i,
                {
                    let copy = items[i].clone();
                    copies.push(copy);
                    i += 1;
                }
                assert(constants_view(copies@) =~= constants_view(items@));
                Constant::List(copies)
            },
            Constant::Opaque => Constant::Opaque,
        }
    }
}

/// A value that the stack target can embed in an instruction.
#[derive(Debug, PartialEq, Eq)]
pub enum Iota {
    /// The target's "no value".
    Null,
    Boolean(bool),
    Number(Number),
    Text(String),
    List(IotaList),
}

/// The mathematical model of an [`Iota`].
pub enum IotaModel {
    Null,
    Boolean(bool),
    Number(Number),
    Text(Seq<char>),
    List(Seq<IotaModel>),
}

/// The items of a list value, in a persistent vector (`im::Vector`) as the
/// backend holds its lists.
///
/// Trusted: the verifier does not look into the vector. What it holds is
/// named by [`list_items`], and nothing but the operations below reaches
/// it.
#[derive(Debug, PartialEq, Eq)]
#[verifier::external_body]
pub struct IotaList {
    items: im::Vector<Iota>,
}

/// What a list holds: the models of its items, from the front to the back.
pub uninterp spec fn list_items(list: IotaList) -> Seq<IotaModel>;

impl View for IotaList {
    type V = Seq<IotaModel>;

    open spec fn view(&self) -> Seq<IotaModel> {
        list_items(*self)
    }
}

impl View for Iota {
    type V = IotaModel;

    open spec fn view(&self) -> IotaModel {
        match self {
            Iota::Null => IotaModel::Null,
            Iota::Boolean(b) => IotaModel::Boolean(*b),
            Iota::Number(n) => IotaModel::Number(*n),
            Iota::Text(s) => IotaModel::Text(s@),
            Iota::List(items) => IotaModel::List(items@),
        }
    }
}

/// The models of a sequence of embeddable values, item by item.
pub open spec fn iotas_view(items: Seq<Iota>) -> Seq<IotaModel> {
    Seq::new(items.len(), |i: int| items[i]@)
}

/// The list that holds nothing.
///
/// Trusted: wraps `im::Vector::new`, which constructs an empty vector.
#[verifier::external_body]
pub(crate) fn vector_new() -> (list: IotaList)
    ensures
        list_items(list) == Seq::<IotaModel>::empty(),
{
    IotaList { items: im::Vector::new() }
}

/// Puts `item` behind the items of `list`.
///
/// Trusted: wraps `im::Vector::push_back`, which pushes a value to the back
/// of the vector: what the vector held stays where it was, and the value is
/// the last item.
#[verifier::external_body]
pub(crate) fn vector_push_back(list: &mut IotaList, item: Iota)
    ensures
        list_items(*final(list)) == list_items(*old(list)).push(item@),
{
    list.items.push_back(item)
}

/// How many items `list` holds.
///
/// Trusted: wraps `im::Vector::len`, which gives the length of the vector.
#[verifier::external_body]
fn vector_len(list: &IotaList) -> (count: usize)
    ensures
        count == list_items(*list).len(),
{
    list.items.len()
}

/// The item of `list` at `index`.
///
/// Trusted: wraps `im::Vector::get`, which gives a reference to the value at
/// the index, and `None` where the index is out of bounds.
#[verifier::external_body]
fn vector_get(list: &IotaList, index: usize) -> (item: Option<&Iota>)
    ensures
        match item {
            Some(found) => index < list_items(*list).len() && found@ == list_items(*list)[
                index as int
            ],
            None => index >= list_items(*list).len(),
        },
{
    list.items.get(index)
}

/// A list with the items of `list`.
///
/// Trusted: wraps the `clone` of `im::Vector`, which yields a vector with
/// the same items; the two share their storage.
#[verifier::external_body]
fn vector_clone(list: &IotaList) -> (copy: IotaList)
    ensures
        list_items(copy) == list_items(*list),
{
    IotaList { items: list.items.clone() }
}

impl IotaList {
    /// The list of the given items, in their order.
    pub fn from_vec(items: Vec<Iota>) -> (list: IotaList)
        ensures
            list@ == iotas_view(items@),
    {
        let ghost all = items@;
        let mut list = vector_new();
        for item in it: items
            invariant
                it.seq() == all,
                list@ == iotas_view(all.take(it.index() as int)),
        {
            let ghost index = it.index() as int;
            vector_push_back(&mut list, item);
            assert(iotas_view(all.take(index)).push(item@) =~= iotas_view(all.take(index + 1)));
        }
        assert(all.take(all.len() as int) =~= all);
        list
    }

    /// Copies of the items of the list, in their order.
    pub fn to_vec(&self) -> (items: Vec<Iota>)
        ensures
            iotas_view(items@) == self@,
    {
        let count = vector_len(self);
        let mut items: Vec<Iota> = Vec::new();
        let mut index: usize = 0;
        while index < count
            invariant
                index <= count,
                count == self@.len(),
                items.len() == index,
                forall|k: int| 0 <= k < index ==> items[k]@ == self@[k],
            decreases count - index,
        {
            match vector_get(self, index) {
                Some(item) => {
                    items.push(item.clone());
                },
                None => {},
            }
            index += 1;
        }
        assert(iotas_view(items@) =~= self@);
        items
    }
}

impl Clone for IotaList {
    /// A copy that holds the same items.
    fn clone(&self) -> (copy: Self)
        ensures
            copy@ == self@,
    {
        vector_clone(self)
    }
}

impl Clone for Iota {
    /// A copy with the model of the value it was made from.
    fn clone(&self) -> (copy: Self)
        ensures
            copy@ == self@,
    {
        match self {
            Iota::Null => Iota::Null,
            Iota::Boolean(flag) => Iota::Boolean(*flag),
            Iota::Number(number) => Iota::Number(*number),
            Iota::Text(text) => Iota::Text(text.clone()),
            Iota::List(items) => Iota::List(items.clone()),
        }
    }
}

/// The string that holds the one character `value`.
///
/// Trusted: wraps `char::to_string` of the standard library, which yields
/// the text made of that character alone.
#[verifier::external_body]
pub(crate) fn char_to_string(value: char) -> (text: String)
    ensures
        text@ == seq![value],
{
    value.to_string()
}

} // verus!
