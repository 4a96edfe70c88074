use stack_lowering::error::{ConstructKind, LoweringError};
use stack_lowering::flatten_ast::{FlatNode, Op};
use stack_lowering::position::{location_to_position, position_to_location, Location, Position};
use stack_lowering::target::{ActionValue, OpName, OpValue, TargetNode};
use stack_lowering::translate::{
    lower_statements, translate_flattened_ast, translate_if, translate_node, translate_while,
};
use stack_lowering::translate_dynamic::translate_dynamic_to_iota;
use stack_lowering::translate_ops::{
    translate_fn_call, translate_op, translate_op_and, translate_op_in, translate_op_or,
    translate_op_print, translate_op_range, translate_op_range_inclusive,
};
use stack_lowering::tree::{TreeExpr, TreeStmt};
use stack_lowering::value::{Constant, Iota, IotaList, Number};

fn at(line: usize, column: usize) -> Position {
    Position { line, column }
}

fn on(line: usize, column: usize) -> Location {
    Location { line, column }
}

fn action(name: &str, location: Location) -> TargetNode {
    TargetNode::Action { location, name: name.to_string(), value: None }
}

fn actions(names: &[&str], location: Location) -> Vec<TargetNode> {
    names.iter().map(|name| action(name, location)).collect()
}

fn embed(value: Iota, location: Location) -> TargetNode {
    TargetNode::Op { location, name: OpName::IntroEmbed, arg: Some(OpValue::Iota(value)) }
}

fn load_number(value: i128, location: Location) -> TargetNode {
    TargetNode::Action {
        location,
        name: "number".to_string(),
        value: Some(ActionValue::Iota(Iota::Number(Number::Integer(value)))),
    }
}

fn list(items: Vec<Iota>) -> Iota {
    Iota::List(IotaList::from_vec(items))
}

fn mask(pattern: &str, location: Location) -> TargetNode {
    TargetNode::Action {
        location,
        name: "mask".to_string(),
        value: Some(ActionValue::Bookkeeper(pattern.to_string())),
    }
}

fn range_actions(location: Location) -> Vec<TargetNode> {
    let mut expected = actions(
        &[
            "open_paren",
            "swap",
            "duplicate_n",
            "close_paren",
            "open_paren",
            "duplicate",
            "list_size",
            "append",
            "close_paren",
            "singleton",
            "for_each",
        ],
        location,
    );
    expected.push(mask("v-", location));
    expected.extend(actions(
        &["open_paren", "splat", "close_paren", "swap", "for_each", "empty_list", "swap", "eval"],
        location,
    ));
    expected
}

fn dual_path(logical: &str, bitwise: &str, location: Location) -> Vec<TargetNode> {
    actions(
        &[
            "duplicate",
            "duplicate",
            "const/true",
            "equals",
            "swap",
            "const/false",
            "equals",
            "or",
            "open_paren",
            logical,
            bitwise,
            "close_paren",
            "splat",
            "if",
            "eval",
        ],
        location,
    )
}

#[test]
fn position_and_location_agree() {
    assert_eq!(position_to_location(at(12, 34)), on(12, 34));
    assert_eq!(location_to_position(on(12, 34)), at(12, 34));
    assert_eq!(location_to_position(position_to_location(at(0, 7))), at(0, 7));
}

#[test]
fn direct_operators_map_to_one_instruction() {
    let table = [
        ("==", "equals"),
        ("!=", "not_equals"),
        (">", "greater"),
        ("<", "less"),
        (">=", "greater_eq"),
        ("<=", "less_eq"),
        ("!", "not"),
        ("+", "add"),
        ("-", "subtract"),
        ("*", "mul_dot"),
        ("/", "div_cross"),
        ("%", "modulo"),
        ("**", "pow_proj"),
        ("^", "xor_bit"),
    ];
    for (operator, instruction) in table {
        assert_eq!(
            translate_fn_call(operator.to_string(), on(2, 3)),
            Ok(vec![action(instruction, on(2, 3))])
        );
    }
}

#[test]
fn unknown_name_passes_through() {
    assert_eq!(
        translate_fn_call("my_function".to_string(), on(1, 1)),
        Ok(vec![action("my_function", on(1, 1))])
    );
    assert_eq!(
        translate_fn_call("string/add".to_string(), on(1, 2)),
        Ok(vec![action("string/add", on(1, 2))])
    );
    assert_eq!(translate_fn_call(String::new(), on(1, 3)), Ok(vec![action("", on(1, 3))]));
    assert_eq!(
        translate_fn_call("===".to_string(), on(1, 4)),
        Ok(vec![action("===", on(1, 4))])
    );
}

#[test]
fn shifts_and_short_circuit_connectives_are_refused() {
    let table = [
        ("||", ConstructKind::Or),
        ("&&", ConstructKind::And),
        ("??", ConstructKind::Coalesce),
        ("<<", ConstructKind::ShiftLeft),
        (">>", ConstructKind::ShiftRight),
    ];
    for (operator, kind) in table {
        assert_eq!(
            translate_fn_call(operator.to_string(), on(5, 6)),
            Err(LoweringError::UnsupportedConstruct { kind, position: at(5, 6) })
        );
        assert_eq!(
            translate_op(Op::FnCall(operator.to_string()), on(5, 7)),
            Err(LoweringError::UnsupportedConstruct { kind, position: at(5, 7) })
        );
    }
}

#[test]
fn ambiguous_and_decides_at_run_time() {
    assert_eq!(translate_op_and(on(3, 1)), dual_path("and", "and_bit", on(3, 1)));
    assert_eq!(translate_fn_call("&".to_string(), on(3, 1)), Ok(translate_op_and(on(3, 1))));
    assert_eq!(translate_op_and(on(3, 1)).len(), 15);
}

#[test]
fn ambiguous_or_decides_at_run_time() {
    assert_eq!(translate_op_or(on(3, 2)), dual_path("or", "or_bit", on(3, 2)));
    assert_eq!(translate_fn_call("|".to_string(), on(3, 2)), Ok(translate_op_or(on(3, 2))));
}

#[test]
fn membership_compares_the_index_with_zero() {
    assert_eq!(
        translate_op_in(on(4, 4)),
        vec![action("index_of", on(4, 4)), load_number(0, on(4, 4)), action("greater_eq", on(4, 4))]
    );
    assert_eq!(translate_fn_call("in".to_string(), on(4, 4)), Ok(translate_op_in(on(4, 4))));
}

#[test]
fn range_is_materialized_by_stack_manipulation() {
    assert_eq!(translate_op_range(on(6, 1)), range_actions(on(6, 1)));
    assert_eq!(translate_op_range(on(6, 1)).len(), 20);
    assert_eq!(translate_fn_call("..".to_string(), on(6, 1)), Ok(range_actions(on(6, 1))));
}

#[test]
fn inclusive_range_adds_one_to_the_upper_bound() {
    let mut expected = vec![load_number(1, on(6, 2)), action("add", on(6, 2))];
    expected.extend(range_actions(on(6, 2)));
    assert_eq!(translate_op_range_inclusive(on(6, 2)), expected);
    assert_eq!(translate_fn_call("..=".to_string(), on(6, 2)), Ok(expected));
}

#[test]
fn print_cleans_up_after_itself() {
    assert_eq!(translate_op_print(on(7, 1)), vec![action("print", on(7, 1)), mask("v", on(7, 1))]);
    assert_eq!(translate_fn_call("print".to_string(), on(7, 1)), Ok(translate_op_print(on(7, 1))));
}

#[test]
fn store_and_read_become_variable_instructions() {
    assert_eq!(
        translate_op(Op::Store("x".to_string()), on(1, 1)),
        Ok(vec![TargetNode::Op {
            location: on(1, 1),
            name: OpName::Store,
            arg: Some(OpValue::Var("x".to_string())),
        }])
    );
    assert_eq!(
        translate_op(Op::Push("y".to_string()), on(1, 2)),
        Ok(vec![TargetNode::Op {
            location: on(1, 2),
            name: OpName::Push,
            arg: Some(OpValue::Var("y".to_string())),
        }])
    );
    assert_eq!(
        translate_op(Op::FnCall("+".to_string()), on(1, 3)),
        Ok(vec![action("add", on(1, 3))])
    );
}

#[test]
fn literals_become_embed_instructions() {
    assert_eq!(
        translate_node(FlatNode::NumberLiteral(Number::Integer(4), at(1, 1))),
        Ok(vec![embed(Iota::Number(Number::Integer(4)), on(1, 1))])
    );
    assert_eq!(
        translate_node(FlatNode::NumberLiteral(Number::Float(0.5f64.to_bits()), at(1, 2))),
        Ok(vec![embed(Iota::Number(Number::Float(0.5f64.to_bits())), on(1, 2))])
    );
    assert_eq!(
        translate_node(FlatNode::BooleanLiteral(false, at(1, 3))),
        Ok(vec![embed(Iota::Boolean(false), on(1, 3))])
    );
    assert_eq!(
        translate_node(FlatNode::StringLiteral("s".to_string(), at(1, 4))),
        Ok(vec![embed(Iota::Text("s".to_string()), on(1, 4))])
    );
    assert_eq!(translate_node(FlatNode::Unit(at(1, 5))), Ok(vec![embed(Iota::Null, on(1, 5))]));
}

#[test]
fn folded_constants_are_taken_apart() {
    assert_eq!(translate_dynamic_to_iota(Constant::Unit, at(1, 1)), Ok(Iota::Null));
    assert_eq!(
        translate_dynamic_to_iota(Constant::Boolean(true), at(1, 1)),
        Ok(Iota::Boolean(true))
    );
    assert_eq!(
        translate_dynamic_to_iota(Constant::Integer(-7), at(1, 1)),
        Ok(Iota::Number(Number::Integer(-7)))
    );
    assert_eq!(
        translate_dynamic_to_iota(Constant::Float(3.25f64.to_bits()), at(1, 1)),
        Ok(Iota::Number(Number::Float(3.25f64.to_bits())))
    );
    assert_eq!(
        translate_dynamic_to_iota(Constant::Character('z'), at(1, 1)),
        Ok(Iota::Text("z".to_string()))
    );
    assert_eq!(
        translate_dynamic_to_iota(Constant::Text("abc".to_string()), at(1, 1)),
        Ok(Iota::Text("abc".to_string()))
    );
    let nested = Constant::List(vec![
        Constant::Integer(1),
        Constant::List(vec![Constant::Character('a'), Constant::Unit]),
        Constant::List(vec![]),
    ]);
    assert_eq!(
        translate_dynamic_to_iota(nested, at(1, 1)),
        Ok(list(vec![
            Iota::Number(Number::Integer(1)),
            list(vec![Iota::Text("a".to_string()), Iota::Null]),
            list(vec![]),
        ]))
    );
}

#[test]
fn list_keeps_its_items_in_order() {
    let items = || {
        vec![
            Iota::Null,
            Iota::Boolean(true),
            Iota::Number(Number::Integer(3)),
            Iota::Text("t".to_string()),
            list(vec![Iota::Number(Number::Float(1.5f64.to_bits()))]),
        ]
    };
    let held = IotaList::from_vec(items());
    assert_eq!(held.to_vec(), items());
    assert_eq!(held.clone(), held);
    assert_eq!(IotaList::from_vec(vec![]).to_vec(), Vec::<Iota>::new());
    let mut turned = items();
    turned.reverse();
    assert_ne!(IotaList::from_vec(turned), held);
    assert_ne!(
        IotaList::from_vec(vec![Iota::Null]),
        IotaList::from_vec(vec![Iota::Null, Iota::Null])
    );
    assert_eq!(list(items()).clone(), list(items()));
}

#[test]
fn list_constant_is_taken_apart_in_order() {
    let source = Constant::List((0..40).map(Constant::Integer).collect());
    let expected: Vec<Iota> = (0..40).map(|n| Iota::Number(Number::Integer(n))).collect();
    match translate_dynamic_to_iota(source, at(1, 1)) {
        Ok(Iota::List(items)) => assert_eq!(items.to_vec(), expected),
        other => panic!("no list came out: {:?}", other),
    }
}

#[test]
fn unrepresentable_constant_is_refused_with_its_position() {
    assert_eq!(
        translate_dynamic_to_iota(Constant::Opaque, at(8, 9)),
        Err(LoweringError::UnrepresentableConstant { position: at(8, 9) })
    );
    let nested = Constant::List(vec![
        Constant::Integer(1),
        Constant::List(vec![Constant::Opaque]),
        Constant::Integer(2),
    ]);
    assert_eq!(
        translate_dynamic_to_iota(nested.clone(), at(8, 10)),
        Err(LoweringError::UnrepresentableConstant { position: at(8, 10) })
    );
    assert_eq!(
        translate_node(FlatNode::DynamicConstant(nested, at(8, 11))),
        Err(LoweringError::UnrepresentableConstant { position: at(8, 11) })
    );
    assert_eq!(
        translate_node(FlatNode::DynamicConstant(Constant::Integer(3), at(8, 12))),
        Ok(vec![embed(Iota::Number(Number::Integer(3)), on(8, 12))])
    );
}

#[test]
fn if_block_wraps_its_fields_in_groups() {
    let condition = vec![FlatNode::BooleanLiteral(true, at(1, 4))];
    let succeed = vec![FlatNode::Op(Op::FnCall("+".to_string()), at(2, 1))];
    let fail = vec![FlatNode::Unit(at(3, 1))];
    assert_eq!(
        translate_if(condition, succeed, Some(fail), at(1, 1)),
        Ok(TargetNode::IfBlock {
            location: on(1, 1),
            condition: Box::new(TargetNode::Block {
                nodes: vec![embed(Iota::Boolean(true), on(1, 4))],
            }),
            succeed: Box::new(TargetNode::Block { nodes: vec![action("add", on(2, 1))] }),
            fail: Some(Box::new(TargetNode::Block { nodes: vec![embed(Iota::Null, on(3, 1))] })),
        })
    );
    assert_eq!(
        translate_if(vec![], vec![], None, at(4, 1)),
        Ok(TargetNode::IfBlock {
            location: on(4, 1),
            condition: Box::new(TargetNode::Block { nodes: vec![] }),
            succeed: Box::new(TargetNode::Block { nodes: vec![] }),
            fail: None,
        })
    );
}

#[test]
fn while_block_wraps_its_fields_in_groups() {
    let condition = vec![FlatNode::Op(Op::Push("go".to_string()), at(1, 7))];
    let block = vec![FlatNode::Op(Op::FnCall("print".to_string()), at(2, 1))];
    for do_while in [false, true] {
        assert_eq!(
            translate_while(
                do_while,
                condition.iter().map(copy_node).collect(),
                block.iter().map(copy_node).collect(),
                at(1, 1)
            ),
            Ok(TargetNode::WhileBlock {
                location: on(1, 1),
                do_while,
                condition: Box::new(TargetNode::Block {
                    nodes: vec![TargetNode::Op {
                        location: on(1, 7),
                        name: OpName::Push,
                        arg: Some(OpValue::Var("go".to_string())),
                    }],
                }),
                block: Box::new(TargetNode::Block {
                    nodes: vec![action("print", on(2, 1)), mask("v", on(2, 1))],
                }),
            })
        );
    }
}

fn copy_node(node: &FlatNode) -> FlatNode {
    match node {
        FlatNode::Op(Op::FnCall(name), position) => {
            FlatNode::Op(Op::FnCall(name.clone()), *position)
        }
        FlatNode::Op(Op::Store(name), position) => FlatNode::Op(Op::Store(name.clone()), *position),
        FlatNode::Op(Op::Push(name), position) => FlatNode::Op(Op::Push(name.clone()), *position),
        _ => panic!("only operations are copied here"),
    }
}

#[test]
fn blocks_nest() {
    let inner = FlatNode::WhileBlock {
        do_while: true,
        condition: vec![],
        block: vec![FlatNode::Unit(at(3, 1))],
        position: at(2, 1),
    };
    let outer = FlatNode::IfBlock {
        condition: vec![],
        succeed: vec![inner],
        fail: None,
        position: at(1, 1),
    };
    assert_eq!(
        translate_node(outer),
        Ok(vec![TargetNode::IfBlock {
            location: on(1, 1),
            condition: Box::new(TargetNode::Block { nodes: vec![] }),
            succeed: Box::new(TargetNode::Block {
                nodes: vec![TargetNode::WhileBlock {
                    location: on(2, 1),
                    do_while: true,
                    condition: Box::new(TargetNode::Block { nodes: vec![] }),
                    block: Box::new(TargetNode::Block { nodes: vec![embed(Iota::Null, on(3, 1))] }),
                }],
            }),
            fail: None,
        }])
    );
}

#[test]
fn sequence_is_lowered_node_by_node_in_order() {
    let flat = vec![
        FlatNode::Op(Op::Push("a".to_string()), at(1, 1)),
        FlatNode::NumberLiteral(Number::Integer(2), at(1, 5)),
        FlatNode::Op(Op::FnCall("in".to_string()), at(1, 3)),
        FlatNode::Op(Op::Store("r".to_string()), at(1, 1)),
    ];
    assert_eq!(
        translate_flattened_ast(flat),
        Ok(vec![
            TargetNode::Op {
                location: on(1, 1),
                name: OpName::Push,
                arg: Some(OpValue::Var("a".to_string())),
            },
            embed(Iota::Number(Number::Integer(2)), on(1, 5)),
            action("index_of", on(1, 3)),
            load_number(0, on(1, 3)),
            action("greater_eq", on(1, 3)),
            TargetNode::Op {
                location: on(1, 1),
                name: OpName::Store,
                arg: Some(OpValue::Var("r".to_string())),
            },
        ])
    );
    assert_eq!(translate_flattened_ast(vec![]), Ok(vec![]));
}

#[test]
fn first_fault_of_the_lowering_pass_wins() {
    let flat = vec![
        FlatNode::Unit(at(1, 1)),
        FlatNode::Op(Op::FnCall("<<".to_string()), at(2, 2)),
        FlatNode::DynamicConstant(Constant::Opaque, at(3, 3)),
    ];
    assert_eq!(
        translate_flattened_ast(flat),
        Err(LoweringError::UnsupportedConstruct {
            kind: ConstructKind::ShiftLeft,
            position: at(2, 2),
        })
    );
    let in_block = FlatNode::IfBlock {
        condition: vec![FlatNode::DynamicConstant(Constant::Opaque, at(4, 4))],
        succeed: vec![FlatNode::Op(Op::FnCall(">>".to_string()), at(5, 5))],
        fail: None,
        position: at(4, 1),
    };
    assert_eq!(
        translate_node(in_block),
        Err(LoweringError::UnrepresentableConstant { position: at(4, 4) })
    );
    assert_eq!(
        translate_while(
            false,
            vec![],
            vec![FlatNode::Op(Op::FnCall("&&".to_string()), at(6, 6))],
            at(6, 1)
        ),
        Err(LoweringError::UnsupportedConstruct { kind: ConstructKind::And, position: at(6, 6) })
    );
}

#[test]
fn both_passes_in_a_row() {
    // r = 1..=4
    let program = vec![TreeStmt::Assignment {
        target: TreeExpr::Variable { name: "r".to_string(), position: at(1, 1) },
        operator: None,
        value: TreeExpr::FnCall {
            name: "..=".to_string(),
            args: vec![
                TreeExpr::IntegerConstant(1, at(1, 5)),
                TreeExpr::IntegerConstant(4, at(1, 9)),
            ],
            position: at(1, 6),
        },
    }];
    let mut expected = vec![
        embed(Iota::Number(Number::Integer(1)), on(1, 5)),
        embed(Iota::Number(Number::Integer(4)), on(1, 9)),
        load_number(1, on(1, 6)),
        action("add", on(1, 6)),
    ];
    expected.extend(range_actions(on(1, 6)));
    expected.push(TargetNode::Op {
        location: on(1, 1),
        name: OpName::Store,
        arg: Some(OpValue::Var("r".to_string())),
    });
    assert_eq!(lower_statements(&program), Ok(expected));
}

#[test]
fn exclusive_range_lowers_to_bounds_and_expansion() {
    // 1..4 as a bare call
    let program = vec![TreeStmt::FnCall {
        name: "..".to_string(),
        args: vec![TreeExpr::IntegerConstant(1, at(1, 1)), TreeExpr::IntegerConstant(4, at(1, 4))],
        position: at(1, 2),
    }];
    let mut expected = vec![
        embed(Iota::Number(Number::Integer(1)), on(1, 1)),
        embed(Iota::Number(Number::Integer(4)), on(1, 4)),
    ];
    expected.extend(range_actions(on(1, 2)));
    assert_eq!(lower_statements(&program), Ok(expected));
}

#[test]
fn fault_of_either_pass_leaves_no_sequence() {
    let sound = TreeStmt::Var {
        name: "a".to_string(),
        position: at(1, 5),
        value: TreeExpr::IntegerConstant(1, at(1, 9)),
    };
    let refused = TreeStmt::Unsupported(ConstructKind::TryCatch, at(2, 1));
    assert_eq!(
        lower_statements(&[sound, refused]),
        Err(LoweringError::UnsupportedConstruct {
            kind: ConstructKind::TryCatch,
            position: at(2, 1),
        })
    );
    let shift = TreeStmt::Var {
        name: "b".to_string(),
        position: at(3, 5),
        value: TreeExpr::FnCall {
            name: "<<".to_string(),
            args: vec![
                TreeExpr::IntegerConstant(1, at(3, 9)),
                TreeExpr::IntegerConstant(2, at(3, 14)),
            ],
            position: at(3, 11),
        },
    };
    assert_eq!(
        lower_statements(&[shift]),
        Err(LoweringError::UnsupportedConstruct {
            kind: ConstructKind::ShiftLeft,
            position: at(3, 11),
        })
    );
    let opaque = TreeStmt::Var {
        name: "c".to_string(),
        position: at(4, 5),
        value: TreeExpr::DynamicConstant(Constant::Opaque, at(4, 9)),
    };
    assert_eq!(
        lower_statements(&[opaque]),
        Err(LoweringError::UnrepresentableConstant { position: at(4, 9) })
    );
}
