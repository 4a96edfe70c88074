use std::collections::HashMap;

use stack_lowering::position::Position;
use stack_lowering::target::{ActionValue, OpName, OpValue, TargetNode};
use stack_lowering::translate::lower_statements;
use stack_lowering::tree::{TreeExpr, TreeStmt};
use stack_lowering::value::{Iota, Number};

// A small stack machine for the target sequence, with the instructions that
// straight-line code needs, and a direct evaluation of the tree to hold it
// against.

#[derive(Clone, Debug, PartialEq)]
enum Value {
    Null,
    Bool(bool),
    Num(f64),
    Text(String),
    List(Vec<Value>),
    Instruction(String),
}

fn number_value(number: &Number) -> f64 {
    match number {
        Number::Integer(whole) => *whole as f64,
        Number::Float(bits) => f64::from_bits(*bits),
    }
}

fn iota_value(iota: &Iota) -> Value {
    match iota {
        Iota::Null => Value::Null,
        Iota::Boolean(flag) => Value::Bool(*flag),
        Iota::Number(number) => Value::Num(number_value(number)),
        Iota::Text(text) => Value::Text(text.clone()),
        Iota::List(items) => Value::List(items.to_vec().iter().map(iota_value).collect()),
    }
}

fn show(value: &Value) -> String {
    match value {
        Value::Null => "null".to_string(),
        Value::Bool(flag) => format!("{}", flag),
        Value::Num(number) => format!("{}", number),
        Value::Text(text) => text.clone(),
        Value::List(items) => {
            let shown: Vec<String> = items.iter().map(show).collect();
            format!("[{}]", shown.join(", "))
        }
        Value::Instruction(name) => format!("<{}>", name),
    }
}

// The meaning of the named calls, shared by the machine and the tree walk.
// Names that are no operators stand for functions that record how they were
// called, so that a swapped or misplaced argument shows in the result.
fn arity(name: &str) -> usize {
    match name {
        "not" | "string/iota" | "h" => 1,
        "k" => 3,
        _ => 2,
    }
}

fn apply(name: &str, arguments: &[Value]) -> Value {
    let num = |index: usize| match &arguments[index] {
        Value::Num(number) => *number,
        other => panic!("{} wants a number, got {:?}", name, other),
    };
    let truth = |index: usize| match &arguments[index] {
        Value::Bool(flag) => *flag,
        other => panic!("{} wants a boolean, got {:?}", name, other),
    };
    match name {
        "add" => Value::Num(num(0) + num(1)),
        "subtract" => Value::Num(num(0) - num(1)),
        "mul_dot" => Value::Num(num(0) * num(1)),
        "div_cross" => Value::Num(num(0) / num(1)),
        "modulo" => Value::Num(num(0) % num(1)),
        "pow_proj" => Value::Num(num(0).powf(num(1))),
        "xor_bit" => Value::Num(((num(0) as i64) ^ (num(1) as i64)) as f64),
        "and_bit" => Value::Num(((num(0) as i64) & (num(1) as i64)) as f64),
        "or_bit" => Value::Num(((num(0) as i64) | (num(1) as i64)) as f64),
        "equals" => Value::Bool(arguments[0] == arguments[1]),
        "not_equals" => Value::Bool(arguments[0] != arguments[1]),
        "greater" => Value::Bool(num(0) > num(1)),
        "less" => Value::Bool(num(0) < num(1)),
        "greater_eq" => Value::Bool(num(0) >= num(1)),
        "less_eq" => Value::Bool(num(0) <= num(1)),
        "and" => Value::Bool(truth(0) && truth(1)),
        "or" => Value::Bool(truth(0) || truth(1)),
        "not" => Value::Bool(!truth(0)),
        "string/iota" => Value::Text(show(&arguments[0])),
        "string/add" => match (&arguments[0], &arguments[1]) {
            (Value::Text(left), Value::Text(right)) => Value::Text(format!("{}{}", left, right)),
            other => panic!("string/add wants two texts, got {:?}", other),
        },
        "index_of" => match &arguments[0] {
            Value::List(items) => Value::Num(
                items.iter().position(|item| *item == arguments[1]).map_or(-1.0, |at| at as f64),
            ),
            other => panic!("index_of wants a list, got {:?}", other),
        },
        _ => {
            let mut record = vec![Value::Text(name.to_string())];
            record.extend(arguments.iter().cloned());
            Value::List(record)
        }
    }
}

// What the operator table calls each source operator.
fn instruction_of(operator: &str) -> &str {
    match operator {
        "==" => "equals",
        "!=" => "not_equals",
        ">" => "greater",
        "<" => "less",
        ">=" => "greater_eq",
        "<=" => "less_eq",
        "!" => "not",
        "+" => "add",
        "-" => "subtract",
        "*" => "mul_dot",
        "/" => "div_cross",
        "%" => "modulo",
        "**" => "pow_proj",
        "^" => "xor_bit",
        other => other,
    }
}

struct Simulator {
    stack: Vec<Value>,
    variables: HashMap<String, Value>,
    printed: Vec<String>,
    depth: usize,
    quoted: Vec<Value>,
}

impl Simulator {
    fn new() -> Simulator {
        Simulator {
            stack: Vec::new(),
            variables: HashMap::new(),
            printed: Vec::new(),
            depth: 0,
            quoted: Vec::new(),
        }
    }

    fn with(bindings: &[(&str, Value)]) -> Simulator {
        let mut simulator = Simulator::new();
        for (name, value) in bindings {
            simulator.variables.insert(name.to_string(), value.clone());
        }
        simulator
    }

    fn pop(&mut self) -> Value {
        self.stack.pop().expect("the stack is empty")
    }

    fn run(&mut self, nodes: &[TargetNode]) {
        for node in nodes {
            match node {
                TargetNode::Op { name: OpName::Store, arg: Some(OpValue::Var(var)), .. } => {
                    let value = self.pop();
                    self.variables.insert(var.clone(), value);
                }
                TargetNode::Op { name: OpName::Push, arg: Some(OpValue::Var(var)), .. } => {
                    let value = self.variables.get(var).expect("unbound variable").clone();
                    self.stack.push(value);
                }
                TargetNode::Op { name: OpName::IntroEmbed, arg: Some(OpValue::Iota(iota)), .. } => {
                    self.stack.push(iota_value(iota));
                }
                TargetNode::Action { name, value, .. } => self.action(name, value.as_ref()),
                other => panic!("the simulator has no {:?}", other),
            }
        }
    }

    fn action(&mut self, name: &str, value: Option<&ActionValue>) {
        if self.depth > 0 {
            if name == "open_paren" {
                self.depth += 1;
            } else if name == "close_paren" {
                self.depth -= 1;
                if self.depth == 0 {
                    let list = std::mem::take(&mut self.quoted);
                    self.stack.push(Value::List(list));
                    return;
                }
            }
            self.quoted.push(Value::Instruction(name.to_string()));
            return;
        }
        match name {
            "open_paren" => self.depth = 1,
            "duplicate" => {
                let top = self.stack.last().expect("the stack is empty").clone();
                self.stack.push(top);
            }
            "swap" => {
                let top = self.pop();
                let below = self.pop();
                self.stack.push(top);
                self.stack.push(below);
            }
            "const/true" => self.stack.push(Value::Bool(true)),
            "const/false" => self.stack.push(Value::Bool(false)),
            "number" => match value {
                Some(ActionValue::Iota(iota)) => self.stack.push(iota_value(iota)),
                other => panic!("number wants a value, got {:?}", other),
            },
            "mask" => match value {
                Some(ActionValue::Bookkeeper(pattern)) => {
                    let width = pattern.chars().count();
                    let base = self.stack.len() - width;
                    let top = self.stack.split_off(base);
                    for (item, keep) in top.into_iter().zip(pattern.chars()) {
                        if keep == '-' {
                            self.stack.push(item);
                        }
                    }
                }
                other => panic!("mask wants a pattern, got {:?}", other),
            },
            "print" => {
                let shown = show(self.stack.last().expect("the stack is empty"));
                self.printed.push(shown);
            }
            "splat" => match self.pop() {
                Value::List(items) => self.stack.extend(items),
                other => panic!("splat wants a list, got {:?}", other),
            },
            "if" => {
                let otherwise = self.pop();
                let then = self.pop();
                match self.pop() {
                    Value::Bool(true) => self.stack.push(then),
                    Value::Bool(false) => self.stack.push(otherwise),
                    other => panic!("if wants a boolean, got {:?}", other),
                }
            }
            "eval" => match self.pop() {
                Value::Instruction(instruction) => self.action(&instruction, None),
                Value::List(items) => {
                    for item in items {
                        match item {
                            Value::Instruction(instruction) => self.action(&instruction, None),
                            other => panic!("eval wants instructions, got {:?}", other),
                        }
                    }
                }
                other => panic!("eval wants an instruction, got {:?}", other),
            },
            "last_n_list" => {
                let count = match self.pop() {
                    Value::Num(count) => count as usize,
                    other => panic!("last_n_list wants a count, got {:?}", other),
                };
                let base = self.stack.len() - count;
                let items = self.stack.split_off(base);
                self.stack.push(Value::List(items));
            }
            _ => {
                let base = self.stack.len() - arity(name);
                let arguments = self.stack.split_off(base);
                self.stack.push(apply(name, &arguments));
            }
        }
    }
}

// The tree walked directly, operands from the left to the right.
fn eval(expression: &TreeExpr, variables: &HashMap<String, Value>) -> Value {
    match expression {
        TreeExpr::FnCall { name, args, .. } => {
            let arguments: Vec<Value> = args.iter().map(|arg| eval(arg, variables)).collect();
            match name.as_str() {
                "&" => match (&arguments[0], &arguments[1]) {
                    (Value::Bool(left), Value::Bool(right)) => Value::Bool(*left && *right),
                    _ => apply("and_bit", &arguments),
                },
                "|" => match (&arguments[0], &arguments[1]) {
                    (Value::Bool(left), Value::Bool(right)) => Value::Bool(*left || *right),
                    _ => apply("or_bit", &arguments),
                },
                "in" => match &arguments[0] {
                    Value::List(items) => Value::Bool(items.contains(&arguments[1])),
                    other => panic!("in wants a list, got {:?}", other),
                },
                operator => apply(instruction_of(operator), &arguments),
            }
        }
        TreeExpr::Variable { name, .. } => variables.get(name).expect("unbound variable").clone(),
        TreeExpr::IntegerConstant(value, _) => Value::Num(*value as f64),
        TreeExpr::FloatConstant(bits, _) => Value::Num(f64::from_bits(*bits)),
        TreeExpr::BoolConstant(value, _) => Value::Bool(*value),
        TreeExpr::CharConstant(value, _) => Value::Text(value.to_string()),
        TreeExpr::StringConstant(value, _) => Value::Text(value.clone()),
        TreeExpr::Unit(_) => Value::Null,
        TreeExpr::Array(items, _) => {
            Value::List(items.iter().map(|item| eval(item, variables)).collect())
        }
        TreeExpr::InterpolatedString(parts, _) => {
            let mut text = String::new();
            for part in parts {
                text.push_str(&show(&eval(part, variables)));
            }
            Value::Text(text)
        }
        other => panic!("the tree walk has no {:?}", other),
    }
}

fn at(line: usize, column: usize) -> Position {
    Position { line, column }
}

fn whole(value: i64) -> TreeExpr {
    TreeExpr::IntegerConstant(value, at(1, 1))
}

fn float(value: f64) -> TreeExpr {
    TreeExpr::FloatConstant(value.to_bits(), at(1, 1))
}

fn var(name: &str) -> TreeExpr {
    TreeExpr::Variable { name: name.to_string(), position: at(1, 1) }
}

fn call(name: &str, args: Vec<TreeExpr>) -> TreeExpr {
    TreeExpr::FnCall { name: name.to_string(), args, position: at(1, 1) }
}

fn assign(name: &str, value: TreeExpr) -> TreeStmt {
    TreeStmt::Assignment { target: var(name), operator: None, value }
}

// Lowers `result = expression`, runs it, and hands back what was stored.
fn simulated(expression: TreeExpr, bindings: &[(&str, Value)]) -> Value {
    let lowered = lower_statements(&[assign("result", expression)]).expect("lowering failed");
    let mut simulator = Simulator::with(bindings);
    simulator.run(&lowered);
    assert!(simulator.stack.is_empty(), "the stack keeps {:?}", simulator.stack);
    simulator.variables.remove("result").expect("nothing was stored")
}

fn walked(expression: &TreeExpr, bindings: &[(&str, Value)]) -> Value {
    let variables: HashMap<String, Value> =
        bindings.iter().map(|(name, value)| (name.to_string(), value.clone())).collect();
    eval(expression, &variables)
}

#[test]
fn binary_operators_take_their_operands_in_source_order() {
    let operators = ["+", "-", "*", "/", "%", "**", "==", "!=", "<", ">", "<=", ">="];
    let operands = [(7.0, 2.0), (2.0, 7.0), (3.0, 3.0), (-4.0, 5.0), (0.5, 8.0), (9.0, -0.25)];
    for operator in operators {
        for (left, right) in operands {
            let expression = call(operator, vec![float(left), float(right)]);
            let expected = walked(&expression, &[]);
            assert_eq!(simulated(expression, &[]), expected, "{} {} {}", left, operator, right);
        }
    }
}

#[test]
fn subtraction_and_division_are_not_turned_round() {
    assert_eq!(simulated(call("-", vec![whole(7), whole(2)]), &[]), Value::Num(5.0));
    assert_eq!(simulated(call("/", vec![whole(8), whole(2)]), &[]), Value::Num(4.0));
    assert_eq!(simulated(call("%", vec![whole(7), whole(4)]), &[]), Value::Num(3.0));
    assert_eq!(simulated(call("**", vec![whole(2), whole(5)]), &[]), Value::Num(32.0));
    assert_eq!(simulated(call("<", vec![whole(1), whole(2)]), &[]), Value::Bool(true));
    assert_eq!(simulated(call(">=", vec![whole(1), whole(2)]), &[]), Value::Bool(false));
    assert_eq!(
        simulated(call("!", vec![TreeExpr::BoolConstant(true, at(1, 1))]), &[]),
        Value::Bool(false)
    );
}

#[test]
fn operands_may_be_variables_and_nested() {
    // (a - b) * (c - (a / b))
    let bindings = [("a", Value::Num(9.0)), ("b", Value::Num(3.0)), ("c", Value::Num(10.0))];
    let expression = call(
        "*",
        vec![
            call("-", vec![var("a"), var("b")]),
            call("-", vec![var("c"), call("/", vec![var("a"), var("b")])]),
        ],
    );
    assert_eq!(simulated(expression, &bindings), Value::Num(42.0));
}

#[test]
fn nested_call_runs_like_the_tree() {
    // x = f(a, g(b, c))
    let bindings = [("a", Value::Num(1.0)), ("b", Value::Num(2.0)), ("c", Value::Num(3.0))];
    let expression = call("f", vec![var("a"), call("g", vec![var("b"), var("c")])]);
    let expected = Value::List(vec![
        Value::Text("f".to_string()),
        Value::Num(1.0),
        Value::List(vec![Value::Text("g".to_string()), Value::Num(2.0), Value::Num(3.0)]),
    ]);
    assert_eq!(walked(&expression, &bindings), expected);
    let lowered = lower_statements(&[assign("x", expression)]).expect("lowering failed");
    let mut simulator = Simulator::with(&bindings);
    simulator.run(&lowered);
    assert!(simulator.stack.is_empty());
    assert_eq!(simulator.variables.get("x"), Some(&expected));
}

// A small generator of expression trees: a linear congruential sequence
// decides the shape.
struct Shapes {
    state: u64,
}

impl Shapes {
    fn next(&mut self, bound: u64) -> u64 {
        self.state = self.state.wrapping_mul(6364136223846793005).wrapping_add(1442695040888963407);
        (self.state >> 33) % bound
    }

    fn tree(&mut self, depth: u32) -> TreeExpr {
        let choice = if depth == 0 { self.next(4) } else { self.next(10) };
        match choice {
            0 => whole(self.next(100) as i64 - 50),
            1 => var(["a", "b", "c"][self.next(3) as usize]),
            2 => TreeExpr::StringConstant(format!("s{}", self.next(9)), at(1, 1)),
            3 => TreeExpr::BoolConstant(self.next(2) == 0, at(1, 1)),
            4 => call("h", vec![self.tree(depth - 1)]),
            5 => call("f", vec![self.tree(depth - 1), self.tree(depth - 1)]),
            6 => call("g", vec![self.tree(depth - 1), self.tree(depth - 1)]),
            7 => call("k", vec![self.tree(depth - 1), self.tree(depth - 1), self.tree(depth - 1)]),
            8 => {
                let length = self.next(4);
                TreeExpr::Array((0..length).map(|_| self.tree(depth - 1)).collect(), at(1, 1))
            }
            _ => {
                let head = TreeExpr::StringConstant(format!("t{}", self.next(9)), at(1, 1));
                let mut parts = vec![head];
                for _ in 0..self.next(3) {
                    parts.push(self.tree(depth - 1));
                }
                TreeExpr::InterpolatedString(parts, at(1, 1))
            }
        }
    }
}

#[test]
fn generated_trees_run_like_the_tree_walk() {
    let bindings = [
        ("a", Value::Num(1.5)),
        ("b", Value::Text("bee".to_string())),
        ("c", Value::List(vec![Value::Null])),
    ];
    let mut shapes = Shapes { state: 2024 };
    for round in 0..400 {
        let expression = shapes.tree(round % 5);
        let expected = walked(&expression, &bindings);
        assert_eq!(simulated(expression, &bindings), expected, "round {}", round);
    }
}

#[test]
fn compound_assignment_updates_the_variable() {
    // x += 1 with x = 5
    let program = vec![TreeStmt::Assignment {
        target: var("x"),
        operator: Some("+".to_string()),
        value: whole(1),
    }];
    let lowered = lower_statements(&program).expect("lowering failed");
    let mut simulator = Simulator::with(&[("x", Value::Num(5.0))]);
    simulator.run(&lowered);
    assert_eq!(simulator.variables.get("x"), Some(&Value::Num(6.0)));
    assert!(simulator.stack.is_empty());
    // read back as an operand, the new value is what comes onto the stack
    let read = lower_statements(&[assign("y", var("x"))]).expect("lowering failed");
    simulator.run(&read);
    assert_eq!(simulator.variables.get("y"), Some(&Value::Num(6.0)));
}

#[test]
fn compound_assignment_keeps_the_old_value_on_the_left() {
    // x -= 2 with x = 10; x /= 4 with x = 8
    let step = |operator: &str, right: i64| TreeStmt::Assignment {
        target: var("x"),
        operator: Some(operator.to_string()),
        value: whole(right),
    };
    let mut simulator = Simulator::with(&[("x", Value::Num(10.0))]);
    simulator.run(&lower_statements(&[step("-", 2)]).expect("lowering failed"));
    assert_eq!(simulator.variables.get("x"), Some(&Value::Num(8.0)));
    simulator.run(&lower_statements(&[step("/", 4)]).expect("lowering failed"));
    assert_eq!(simulator.variables.get("x"), Some(&Value::Num(2.0)));
}

#[test]
fn ambiguous_and_takes_the_boolean_path_for_booleans() {
    let truth = |flag: bool| TreeExpr::BoolConstant(flag, at(1, 1));
    assert_eq!(simulated(call("&", vec![truth(true), truth(false)]), &[]), Value::Bool(false));
    assert_eq!(simulated(call("&", vec![truth(true), truth(true)]), &[]), Value::Bool(true));
    assert_eq!(simulated(call("&", vec![truth(false), truth(false)]), &[]), Value::Bool(false));
}

#[test]
fn ambiguous_and_takes_the_bitwise_path_for_numbers() {
    assert_eq!(simulated(call("&", vec![whole(5), whole(3)]), &[]), Value::Num(1.0));
    assert_eq!(simulated(call("&", vec![whole(12), whole(10)]), &[]), Value::Num(8.0));
}

#[test]
fn one_lowering_of_and_serves_both_kinds() {
    // the same target sequence, run on operands of either kind
    let expression = call("&", vec![var("p"), var("q")]);
    let lowered = lower_statements(&[assign("r", expression)]).expect("lowering failed");
    let mut booleans = Simulator::with(&[("p", Value::Bool(true)), ("q", Value::Bool(false))]);
    booleans.run(&lowered);
    assert_eq!(booleans.variables.get("r"), Some(&Value::Bool(false)));
    let mut numbers = Simulator::with(&[("p", Value::Num(5.0)), ("q", Value::Num(3.0))]);
    numbers.run(&lowered);
    assert_eq!(numbers.variables.get("r"), Some(&Value::Num(1.0)));
    assert!(booleans.stack.is_empty() && numbers.stack.is_empty());
}

#[test]
fn one_lowering_of_or_serves_both_kinds() {
    let expression = call("|", vec![var("p"), var("q")]);
    let lowered = lower_statements(&[assign("r", expression)]).expect("lowering failed");
    let mut booleans = Simulator::with(&[("p", Value::Bool(false)), ("q", Value::Bool(true))]);
    booleans.run(&lowered);
    assert_eq!(booleans.variables.get("r"), Some(&Value::Bool(true)));
    let mut neither = Simulator::with(&[("p", Value::Bool(false)), ("q", Value::Bool(false))]);
    neither.run(&lowered);
    assert_eq!(neither.variables.get("r"), Some(&Value::Bool(false)));
    let mut numbers = Simulator::with(&[("p", Value::Num(5.0)), ("q", Value::Num(3.0))]);
    numbers.run(&lowered);
    assert_eq!(numbers.variables.get("r"), Some(&Value::Num(7.0)));
}

#[test]
fn interpolated_string_folds_to_one_text() {
    // `sum=${3 + 4} done`
    let parts = vec![
        TreeExpr::StringConstant("sum=".to_string(), at(1, 2)),
        call("+", vec![whole(3), whole(4)]),
        TreeExpr::StringConstant(" done".to_string(), at(1, 14)),
    ];
    let expression = TreeExpr::InterpolatedString(parts, at(1, 1));
    assert_eq!(simulated(expression, &[]), Value::Text("sum=7 done".to_string()));
}

#[test]
fn interpolated_string_coerces_what_is_no_text() {
    let parts = vec![
        TreeExpr::StringConstant("n=".to_string(), at(1, 2)),
        var("n"),
        TreeExpr::CharConstant(';', at(1, 8)),
        TreeExpr::BoolConstant(true, at(1, 9)),
    ];
    let expression = TreeExpr::InterpolatedString(parts, at(1, 1));
    assert_eq!(
        simulated(expression, &[("n", Value::Num(7.0))]),
        Value::Text("n=7;true".to_string())
    );
}

#[test]
fn array_literal_collects_its_elements_in_order() {
    let expression = TreeExpr::Array(
        vec![whole(1), call("-", vec![whole(5), whole(3)]), TreeExpr::Array(vec![], at(1, 1))],
        at(1, 1),
    );
    assert_eq!(
        simulated(expression, &[]),
        Value::List(vec![Value::Num(1.0), Value::Num(2.0), Value::List(vec![])])
    );
}

#[test]
fn membership_compares_like_the_tree() {
    let list = TreeExpr::Array(vec![whole(4), whole(5), whole(6)], at(1, 1));
    let expression = call("in", vec![list, whole(5)]);
    assert_eq!(walked(&expression, &[]), Value::Bool(true));
    assert_eq!(simulated(expression, &[]), Value::Bool(true));
    let missing = call("in", vec![TreeExpr::Array(vec![whole(4)], at(1, 1)), whole(5)]);
    assert_eq!(simulated(missing, &[]), Value::Bool(false));
}

#[test]
fn print_statement_leaves_the_stack_clean() {
    let program = vec![TreeStmt::FnCall {
        name: "print".to_string(),
        args: vec![call("+", vec![whole(1), whole(2)])],
        position: at(1, 1),
    }];
    let lowered = lower_statements(&program).expect("lowering failed");
    let mut simulator = Simulator::new();
    simulator.run(&lowered);
    assert_eq!(simulator.printed, vec!["3".to_string()]);
    assert!(simulator.stack.is_empty());
}

#[test]
fn statements_run_one_after_the_other() {
    // let a = 2; let b = a * 10; b -= a; let c = [a, b]
    let program = vec![
        TreeStmt::Var { name: "a".to_string(), position: at(1, 5), value: whole(2) },
        TreeStmt::Var {
            name: "b".to_string(),
            position: at(2, 5),
            value: call("*", vec![var("a"), whole(10)]),
        },
        TreeStmt::Assignment { target: var("b"), operator: Some("-".to_string()), value: var("a") },
        TreeStmt::Var {
            name: "c".to_string(),
            position: at(4, 5),
            value: TreeExpr::Array(vec![var("a"), var("b")], at(4, 9)),
        },
    ];
    let lowered = lower_statements(&program).expect("lowering failed");
    let mut simulator = Simulator::new();
    simulator.run(&lowered);
    assert!(simulator.stack.is_empty());
    assert_eq!(simulator.variables.get("b"), Some(&Value::Num(18.0)));
    assert_eq!(
        simulator.variables.get("c"),
        Some(&Value::List(vec![Value::Num(2.0), Value::Num(18.0)]))
    );
}
