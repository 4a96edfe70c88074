//! A reference machine for the instructions that select between two
//! instructions at run time, as mathematics, and the law of the sequence
//! that the operator table emits for an operator with two meanings.
//!
//! The machine knows the stack instructions of that sequence, quoting, and
//! the logic and bit arithmetic that the sequence chooses between. What any
//! other instruction computes is left to a table of primitives. Blocks,
//! lists of quoted instructions that are run as a whole, and everything
//! else that the sequence does not use stop this machine.

use vstd::prelude::*;
use crate::machine::{datum_of, Datum, Primitives};
use crate::position::Location;
use crate::target::{ActionValueModel, OpName, OpValueModel, TargetModel};
use crate::translate_ops::{and_target, dual_path_target, or_target};
use crate::value::Number;

verus! {

/// The state of the machine: the operand stack, its top at the end, the
/// variables, and the quote that is being read, if one is open.
pub struct TargetMachine {
    pub stack: Seq<Datum>,
    pub variables: Map<Seq<char>, Datum>,
    /// How many quotes are open.
    pub depth: nat,
    /// What the outermost open quote holds so far.
    pub quoted: Seq<Datum>,
}

impl TargetMachine {
    /// The machine with `value` on top of the stack.
    pub open spec fn push(self, value: Datum) -> TargetMachine {
        TargetMachine { stack: self.stack.push(value), ..self }
    }

    /// The machine with this stack.
    pub open spec fn with_stack(self, stack: Seq<Datum>) -> TargetMachine {
        TargetMachine { stack, ..self }
    }

    /// Whether no quote is open.
    pub open spec fn idle(self) -> bool {
        self.depth == 0 && self.quoted == Seq::<Datum>::empty()
    }
}

/// An instruction outside a quote. Where the stack does not hold what the
/// instruction takes, the machine stops.
pub open spec fn perform(primitives: Primitives, name: Seq<char>, machine: TargetMachine) -> Option<
    TargetMachine,
> {
    let stack = machine.stack;
    let size = stack.len();
    if name == "duplicate"@ {
        if size >= 1 {
            Some(machine.push(stack.last()))
        } else {
            None
        }
    } else if name == "swap"@ {
        if size >= 2 {
            Some(
                machine.with_stack(
                    stack.take(size - 2).push(stack[size - 1]).push(stack[size - 2]),
                ),
            )
        } else {
            None
        }
    } else if name == "const/true"@ {
        Some(machine.push(Datum::Boolean(true)))
    } else if name == "const/false"@ {
        Some(machine.push(Datum::Boolean(false)))
    } else if name == "equals"@ {
        if size >= 2 {
            Some(
                machine.with_stack(
                    stack.take(size - 2).push(Datum::Boolean(stack[size - 2] == stack[size - 1])),
                ),
            )
        } else {
            None
        }
    } else if name == "or"@ {
        if size >= 2 {
            match (stack[size - 2], stack[size - 1]) {
                (Datum::Boolean(left), Datum::Boolean(right)) => Some(
                    machine.with_stack(stack.take(size - 2).push(Datum::Boolean(left || right))),
                ),
                _ => None,
            }
        } else {
            None
        }
    } else if name == "and"@ {
        if size >= 2 {
            match (stack[size - 2], stack[size - 1]) {
                (Datum::Boolean(left), Datum::Boolean(right)) => Some(
                    machine.with_stack(stack.take(size - 2).push(Datum::Boolean(left && right))),
                ),
                _ => None,
            }
        } else {
            None
        }
    } else if name == "and_bit"@ {
        if size >= 2 {
            match (stack[size - 2], stack[size - 1]) {
                (
                    Datum::Number(Number::Integer(left)),
                    Datum::Number(Number::Integer(right)),
                ) => Some(
                    machine.with_stack(
                        stack.take(size - 2).push(Datum::Number(Number::Integer(left & right))),
                    ),
                ),
                _ => None,
            }
        } else {
            None
        }
    } else if name == "or_bit"@ {
        if size >= 2 {
            match (stack[size - 2], stack[size - 1]) {
                (
                    Datum::Number(Number::Integer(left)),
                    Datum::Number(Number::Integer(right)),
                ) => Some(
                    machine.with_stack(
                        stack.take(size - 2).push(Datum::Number(Number::Integer(left | right))),
                    ),
                ),
                _ => None,
            }
        } else {
            None
        }
    } else if name == "splat"@ {
        if size >= 1 {
            match stack.last() {
                Datum::List(items) => Some(machine.with_stack(stack.drop_last() + items)),
                _ => None,
            }
        } else {
            None
        }
    } else if name == "if"@ {
        if size >= 3 {
            match stack[size - 3] {
                Datum::Boolean(flag) => Some(
                    machine.with_stack(
                        stack.take(size - 3).push(
                            if flag {
                                stack[size - 2]
                            } else {
                                stack[size - 1]
                            },
                        ),
                    ),
                ),
                _ => None,
            }
        } else {
            None
        }
    } else if name == "open_paren"@ || name == "close_paren"@ || name == "eval"@ {
        None
    } else {
        let taken = (primitives.arity)(name);
        if taken <= size {
            Some(
                machine.with_stack(
                    stack.take(size - taken).push(
                        (primitives.apply)(name, stack.skip(size - taken)),
                    ),
                ),
            )
        } else {
            None
        }
    }
}

/// An instruction by its name. Inside a quote the instruction is not
/// carried out but taken into the quote; the quote that closes the
/// outermost open one puts the list of what was taken onto the stack.
/// Outside a quote, `eval` carries out the quoted instruction on top of the
/// stack.
pub open spec fn act(primitives: Primitives, name: Seq<char>, machine: TargetMachine) -> Option<
    TargetMachine,
> {
    if machine.depth > 0 {
        if name == "close_paren"@ && machine.depth == 1 {
            Some(
                TargetMachine {
                    stack: machine.stack.push(Datum::List(machine.quoted)),
                    variables: machine.variables,
                    depth: 0,
                    quoted: Seq::empty(),
                },
            )
        } else {
            Some(
                TargetMachine {
                    stack: machine.stack,
                    variables: machine.variables,
                    depth: if name == "open_paren"@ {
                        machine.depth + 1
                    } else if name == "close_paren"@ {
                        (machine.depth - 1) as nat
                    } else {
                        machine.depth
                    },
                    quoted: machine.quoted.push(Datum::Instruction(name)),
                },
            )
        }
    } else if name == "open_paren"@ {
        Some(TargetMachine { depth: 1, quoted: Seq::empty(), ..machine })
    } else if name == "eval"@ {
        if machine.stack.len() >= 1 {
            match machine.stack.last() {
                Datum::Instruction(quoted) => perform(
                    primitives,
                    quoted,
                    machine.with_stack(machine.stack.drop_last()),
                ),
                _ => None,
            }
        } else {
            None
        }
    } else {
        perform(primitives, name, machine)
    }
}

/// One node on the machine. An instruction with an operand, a variable
/// instruction and an embedded constant are read outside a quote only.
pub open spec fn target_step(
    primitives: Primitives,
    node: TargetModel,
    machine: TargetMachine,
) -> Option<TargetMachine> {
    match node {
        TargetModel::Action { name, value: None, .. } => act(primitives, name, machine),
        TargetModel::Action { name, value: Some(ActionValueModel::Iota(value)), .. } => {
            if machine.depth == 0 && name == "number"@ {
                Some(machine.push(datum_of(value)))
            } else {
                None
            }
        },
        TargetModel::Op { name: OpName::IntroEmbed, arg: Some(OpValueModel::Iota(value)), .. } => {
            if machine.depth == 0 {
                Some(machine.push(datum_of(value)))
            } else {
                None
            }
        },
        TargetModel::Op { name: OpName::Push, arg: Some(OpValueModel::Var(name)), .. } => {
            if machine.depth == 0 {
                Some(machine.push(machine.variables[name]))
            } else {
                None
            }
        },
        TargetModel::Op { name: OpName::Store, arg: Some(OpValueModel::Var(name)), .. } => {
            if machine.depth == 0 && machine.stack.len() >= 1 {
                Some(
                    TargetMachine {
                        stack: machine.stack.drop_last(),
                        variables: machine.variables.insert(name, machine.stack.last()),
                        ..machine
                    },
                )
            } else {
                None
            }
        },
        _ => None,
    }
}

/// The machine after it has read the nodes from index `start` to the end,
/// or `None` where it stopped on the way.
pub open spec fn run_target_from(
    primitives: Primitives,
    code: Seq<TargetModel>,
    start: int,
    machine: TargetMachine,
) -> Option<TargetMachine>
    decreases code.len() - start,
{
    if start < 0 || start >= code.len() {
        Some(machine)
    } else {
        match target_step(primitives, code[start], machine) {
            Some(next) => run_target_from(primitives, code, start + 1, next),
            None => None,
        }
    }
}

/// The machine after it has read `code` from the front to the end.
pub open spec fn run_target(
    primitives: Primitives,
    code: Seq<TargetModel>,
    machine: TargetMachine,
) -> Option<TargetMachine> {
    run_target_from(primitives, code, 0, machine)
}

/// The instruction that the sequence for an operator with two meanings
/// selects: the logical one where the operand on top of the stack is a
/// boolean, the bitwise one where it is anything else.
pub open spec fn selected(logical: Seq<char>, bitwise: Seq<char>, top: Datum) -> Seq<char> {
    if top is Boolean {
        logical
    } else {
        bitwise
    }
}

/// What the names of the machine's own instructions hold, as far as it
/// takes to tell them apart.
proof fn lemma_instruction_names()
    ensures
        "duplicate"@.len() == 9,
        "swap"@.len() == 4,
        "swap"@[0] == 's',
        "const/true"@.len() == 10,
        "const/true"@[0] == 'c',
        "const/false"@.len() == 11,
        "const/false"@[1] == 'o',
        "equals"@.len() == 6,
        "equals"@[0] == 'e',
        "or"@.len() == 2,
        "or"@[0] == 'o',
        "and"@.len() == 3,
        "and_bit"@.len() == 7,
        "or_bit"@.len() == 6,
        "or_bit"@[0] == 'o',
        "splat"@.len() == 5,
        "if"@.len() == 2,
        "if"@[0] == 'i',
        "open_paren"@.len() == 10,
        "open_paren"@[0] == 'o',
        "close_paren"@.len() == 11,
        "close_paren"@[1] == 'l',
        "eval"@.len() == 4,
        "eval"@[0] == 'e',
{
    reveal_strlit("duplicate");
    reveal_strlit("swap");
    reveal_strlit("const/true");
    reveal_strlit("const/false");
    reveal_strlit("equals");
    reveal_strlit("or");
    reveal_strlit("and");
    reveal_strlit("and_bit");
    reveal_strlit("or_bit");
    reveal_strlit("splat");
    reveal_strlit("if");
    reveal_strlit("open_paren");
    reveal_strlit("close_paren");
    reveal_strlit("eval");
}

/// The sequence for an operator with two meanings decides by the operand on
/// top of the stack and by nothing else: on a machine with the two operands
/// on the stack it does exactly what the selected instruction does there,
/// the logical one for a boolean on top and the bitwise one otherwise.
pub proof fn law_dual_path_dispatch(
    primitives: Primitives,
    logical: Seq<char>,
    bitwise: Seq<char>,
    location: Location,
    machine: TargetMachine,
    left: Datum,
    right: Datum,
)
    requires
        machine.idle(),
        logical != "open_paren"@,
        logical != "close_paren"@,
        bitwise != "open_paren"@,
        bitwise != "close_paren"@,
    ensures
        run_target(
            primitives,
            dual_path_target(logical, bitwise, location),
            machine.push(left).push(right),
        ) == perform(
            primitives,
            selected(logical, bitwise, right),
            machine.push(left).push(right),
        ),
{
    lemma_instruction_names();
    let code = dual_path_target(logical, bitwise, location);
    let base = machine.stack;
    let yes = Datum::Boolean(true);
    let no = Datum::Boolean(false);
    let is_true = Datum::Boolean(right == yes);
    let is_false = Datum::Boolean(right == no);
    let is_boolean = Datum::Boolean(right is Boolean);
    let first = Datum::Instruction(logical);
    let second = Datum::Instruction(bitwise);
    let chosen = Datum::Instruction(selected(logical, bitwise, right));
    // the stack after each instruction
    let s0 = base + seq![left, right];
    let s1 = base + seq![left, right, right];
    let s2 = base + seq![left, right, right, right];
    let s3 = base + seq![left, right, right, right, yes];
    let s4 = base + seq![left, right, right, is_true];
    let s5 = base + seq![left, right, is_true, right];
    let s6 = base + seq![left, right, is_true, right, no];
    let s7 = base + seq![left, right, is_true, is_false];
    let s8 = base + seq![left, right, is_boolean];
    let s12 = base + seq![left, right, is_boolean, Datum::List(seq![first, second])];
    let s13 = base + seq![left, right, is_boolean, first, second];
    let s14 = base + seq![left, right, chosen];
    let m0 = machine.with_stack(s0);
    let m1 = machine.with_stack(s1);
    let m2 = machine.with_stack(s2);
    let m3 = machine.with_stack(s3);
    let m4 = machine.with_stack(s4);
    let m5 = machine.with_stack(s5);
    let m6 = machine.with_stack(s6);
    let m7 = machine.with_stack(s7);
    let m8 = machine.with_stack(s8);
    // the machine while the quote is open
    let m9 = TargetMachine { depth: 1, quoted: Seq::empty(), ..m8 };
    let m10 = TargetMachine { depth: 1, quoted: seq![first], ..m8 };
    let m11 = TargetMachine { depth: 1, quoted: seq![first, second], ..m8 };
    let m12 = machine.with_stack(s12);
    let m13 = machine.with_stack(s13);
    let m14 = machine.with_stack(s14);
    assert(machine.push(left).push(right).stack =~= s0);
    assert(target_step(primitives, code[0], m0) == Some(m1)) by {
        assert(s0.push(s0.last()) =~= s1);
    }
    assert(target_step(primitives, code[1], m1) == Some(m2)) by {
        assert(s1.push(s1.last()) =~= s2);
    }
    assert(target_step(primitives, code[2], m2) == Some(m3)) by {
        assert(s2.push(yes) =~= s3);
    }
    assert(target_step(primitives, code[3], m3) == Some(m4)) by {
        let size = s3.len();
        assert(s3.take(size - 2).push(Datum::Boolean(s3[size - 2] == s3[size - 1])) =~= s4);
    }
    assert(target_step(primitives, code[4], m4) == Some(m5)) by {
        let size = s4.len();
        assert(s4.take(size - 2).push(s4[size - 1]).push(s4[size - 2]) =~= s5);
    }
    assert(target_step(primitives, code[5], m5) == Some(m6)) by {
        assert(s5.push(no) =~= s6);
    }
    assert(target_step(primitives, code[6], m6) == Some(m7)) by {
        let size = s6.len();
        assert(s6.take(size - 2).push(Datum::Boolean(s6[size - 2] == s6[size - 1])) =~= s7);
    }
    assert(target_step(primitives, code[7], m7) == Some(m8)) by {
        let size = s7.len();
        assert(s7.take(size - 2).push(is_boolean) =~= s8);
    }
    assert(target_step(primitives, code[8], m8) == Some(m9));
    assert(target_step(primitives, code[9], m9) == Some(m10));
    assert(target_step(primitives, code[10], m10) == Some(m11)) by {
        assert(seq![first].push(second) =~= seq![first, second]);
    }
    assert(target_step(primitives, code[11], m11) == Some(m12)) by {
        assert(s8.push(Datum::List(seq![first, second])) =~= s12);
    }
    assert(target_step(primitives, code[12], m12) == Some(m13)) by {
        assert(s12.drop_last() + seq![first, second] =~= s13);
    }
    assert(target_step(primitives, code[13], m13) == Some(m14)) by {
        let size = s13.len();
        assert(s13.take(size - 3).push(chosen) =~= s14);
    }
    assert(target_step(primitives, code[14], m14) == perform(
        primitives,
        selected(logical, bitwise, right),
        m0,
    )) by {
        assert(s14.drop_last() =~= s0);
    }
    reveal_with_fuel(run_target_from, 16);
}

/// The operator `&` on two booleans gives their logical and, on two whole
/// numbers their bitwise and; the same sequence serves both.
pub proof fn law_ambiguous_and(
    primitives: Primitives,
    location: Location,
    machine: TargetMachine,
    left: Datum,
    right: Datum,
)
    requires
        machine.idle(),
    ensures
        match (left, right) {
            (Datum::Boolean(a), Datum::Boolean(b)) => run_target(
                primitives,
                and_target(location),
                machine.push(left).push(right),
            ) == Some(machine.push(Datum::Boolean(a && b))),
            (Datum::Number(Number::Integer(a)), Datum::Number(Number::Integer(b))) => run_target(
                primitives,
                and_target(location),
                machine.push(left).push(right),
            ) == Some(machine.push(Datum::Number(Number::Integer(a & b)))),
            _ => true,
        },
{
    lemma_instruction_names();
    law_dual_path_dispatch(primitives, "and"@, "and_bit"@, location, machine, left, right);
    let loaded = machine.push(left).push(right);
    let size = loaded.stack.len();
    assert(loaded.stack.take(size - 2) =~= machine.stack);
    match (left, right) {
        (Datum::Boolean(a), Datum::Boolean(b)) => {
            assert(perform(primitives, "and"@, loaded) == Some(
                loaded.with_stack(loaded.stack.take(size - 2).push(Datum::Boolean(a && b))),
            ));
        },
        (Datum::Number(Number::Integer(a)), Datum::Number(Number::Integer(b))) => {
            assert(perform(primitives, "and_bit"@, loaded) == Some(
                loaded.with_stack(
                    loaded.stack.take(size - 2).push(Datum::Number(Number::Integer(a & b))),
                ),
            ));
        },
        _ => {},
    }
}

/// The operator `|` on two booleans gives their logical or, on two whole
/// numbers their bitwise or; the same sequence serves both.
pub proof fn law_ambiguous_or(
    primitives: Primitives,
    location: Location,
    machine: TargetMachine,
    left: Datum,
    right: Datum,
)
    requires
        machine.idle(),
    ensures
        match (left, right) {
            (Datum::Boolean(a), Datum::Boolean(b)) => run_target(
                primitives,
                or_target(location),
                machine.push(left).push(right),
            ) == Some(machine.push(Datum::Boolean(a || b))),
            (Datum::Number(Number::Integer(a)), Datum::Number(Number::Integer(b))) => run_target(
                primitives,
                or_target(location),
                machine.push(left).push(right),
            ) == Some(machine.push(Datum::Number(Number::Integer(a | b)))),
            _ => true,
        },
{
    lemma_instruction_names();
    law_dual_path_dispatch(primitives, "or"@, "or_bit"@, location, machine, left, right);
    let loaded = machine.push(left).push(right);
    let size = loaded.stack.len();
    assert(loaded.stack.take(size - 2) =~= machine.stack);
    match (left, right) {
        (Datum::Boolean(a), Datum::Boolean(b)) => {
            assert(perform(primitives, "or"@, loaded) == Some(
                loaded.with_stack(loaded.stack.take(size - 2).push(Datum::Boolean(a || b))),
            ));
        },
        (Datum::Number(Number::Integer(a)), Datum::Number(Number::Integer(b))) => {
            assert(perform(primitives, "or_bit"@, loaded) == Some(
                loaded.with_stack(
                    loaded.stack.take(size - 2).push(Datum::Number(Number::Integer(a | b))),
                ),
            ));
        },
        _ => {},
    }
}

} // verus!
