use popper::error::Error;
use popper::eval::{execute, function, run_nodes, Evaluateur};
use popper::expr::{Expr, IOp, IOpType};
use popper::value::{Builtin, Function, Ident, ParamList, Type, Value, Var};
use popper::vm::Vm;

fn num_var(n: i64, mutable: bool) -> Var {
    Var { value: Value::Number(n), type_: Type::Int, mutable }
}

fn env_with(name: &str, var: Var) -> Vm {
    let mut vm = Vm::new();
    vm.set_ident(Ident(name.to_string()), var);
    vm
}

fn number_of(vm: &Vm, name: &str) -> Option<i64> {
    match vm.get_ident(Ident(name.to_string())) {
        Some(Var { value: Value::Number(n), .. }) => Some(*n),
        _ => None,
    }
}

fn iop(op: IOpType, name: &str, value: Expr) -> Expr {
    Expr::IOp(IOp { op, name: name.to_string(), value: Box::new(value) })
}

fn let_expr(name: &str, mutable: bool, value: Expr) -> Expr {
    Expr::Let { name: name.to_string(), mutable, value: Box::new(value) }
}

#[test]
fn constant_binding_is_not_updated() {
    let mut vm = env_with("x", num_var(5, false));
    for op in [IOpType::IAdd, IOpType::ISub, IOpType::IMul, IOpType::IDiv] {
        let r = match op {
            IOpType::IAdd => vm.iadd("x".to_string(), Value::Number(2)),
            IOpType::ISub => vm.isub("x".to_string(), Value::Number(2)),
            IOpType::IMul => vm.imul("x".to_string(), Value::Number(2)),
            IOpType::IDiv => vm.idiv("x".to_string(), Value::Number(2)),
        };
        match r {
            Err(Error::ItsAConstant(e)) => assert_eq!(e.var_name, "x"),
            other => panic!("unexpected {:?}", other),
        }
        assert_eq!(number_of(&vm, "x"), Some(5));
    }
}

#[test]
fn unbound_target_is_not_found() {
    let mut vm = Vm::new();
    match vm.imul("y".to_string(), Value::Number(3)) {
        Err(Error::VarNotFound(e)) => assert_eq!(e.var_name, "y"),
        other => panic!("unexpected {:?}", other),
    }
    assert!(!vm.exists_ident(Ident("y".to_string())));
}

#[test]
fn arithmetic_updates_give_exact_results() {
    let cases: [(IOpType, i64, i64, i64); 6] = [
        (IOpType::IAdd, 7, 3, 10),
        (IOpType::ISub, 7, 3, 4),
        (IOpType::IMul, 7, 3, 21),
        (IOpType::IDiv, 7, 2, 3),
        (IOpType::IDiv, -7, 2, -3),
        (IOpType::ISub, 3, 7, -4),
    ];
    for (op, n, m, expected) in cases {
        let mut vm = env_with("x", num_var(n, true));
        let r = match op {
            IOpType::IAdd => vm.iadd("x".to_string(), Value::Number(m)),
            IOpType::ISub => vm.isub("x".to_string(), Value::Number(m)),
            IOpType::IMul => vm.imul("x".to_string(), Value::Number(m)),
            IOpType::IDiv => vm.idiv("x".to_string(), Value::Number(m)),
        };
        assert!(matches!(r, Ok(Value::Unit)));
        let v = vm.get_ident(Ident("x".to_string())).unwrap();
        assert!(matches!(v.value, Value::Number(k) if k == expected));
        assert_eq!(v.type_, Type::Int);
        assert!(v.mutable);
    }
}

#[test]
fn function_typed_target_is_a_type_mismatch() {
    let f = Var {
        value: Value::Function {
            name: "f".to_string(),
            func: function(Expr::Unit),
            args: ParamList::End,
        },
        type_: Type::Func,
        mutable: true,
    };
    let mut vm = env_with("f", f);
    match vm.iadd("f".to_string(), Value::Number(1)) {
        Err(Error::TypeMismatch(e)) => {
            assert_eq!(e.expected, Type::Int);
            assert_eq!(e.found, Type::Func);
        },
        other => panic!("unexpected {:?}", other),
    }
    assert!(matches!(vm.get_ident(Ident("f".to_string())).unwrap().value, Value::Function { .. }));
}

#[test]
fn non_numeric_operand_is_checked_before_the_target() {
    let mut vm = Vm::new();
    match vm.idiv("missing".to_string(), Value::Str("a".to_string())) {
        Err(Error::TypeMismatch(e)) => {
            assert_eq!(e.expected, Type::Int);
            assert_eq!(e.found, Type::Str);
        },
        other => panic!("unexpected {:?}", other),
    }
    let mut vm = env_with("x", num_var(4, true));
    match vm.isub("x".to_string(), Value::Unit) {
        Err(Error::TypeMismatch(e)) => assert_eq!(e.found, Type::Unit),
        other => panic!("unexpected {:?}", other),
    }
    assert_eq!(number_of(&vm, "x"), Some(4));
}

#[test]
fn overflow_and_division_by_zero_are_errors() {
    let mut vm = env_with("x", num_var(i64::MAX, true));
    assert!(matches!(vm.iadd("x".to_string(), Value::Number(1)), Err(Error::Arithmetic(_))));
    assert_eq!(number_of(&vm, "x"), Some(i64::MAX));
    let mut vm = env_with("x", num_var(9, true));
    assert!(matches!(vm.idiv("x".to_string(), Value::Number(0)), Err(Error::Arithmetic(_))));
    assert_eq!(number_of(&vm, "x"), Some(9));
}

#[test]
fn declared_type_must_match_the_result() {
    let var = Var { value: Value::Number(1), type_: Type::Str, mutable: true };
    let mut vm = env_with("x", var);
    match vm.iadd("x".to_string(), Value::Number(1)) {
        Err(Error::TypeMismatch(e)) => {
            assert_eq!(e.expected, Type::Str);
            assert_eq!(e.found, Type::Int);
        },
        other => panic!("unexpected {:?}", other),
    }
    assert_eq!(number_of(&vm, "x"), Some(1));
}

#[test]
fn function_call_works_on_a_copy() {
    let vm = env_with("y", num_var(1, true));
    let f = function(iop(IOpType::IAdd, "y", Expr::Number(1)));
    assert!(matches!(f.call(Vec::new(), &vm), Ok(Value::Unit)));
    assert_eq!(number_of(&vm, "y"), Some(1));
    let g = function(Expr::Ident(Ident("y".to_string())));
    assert!(matches!(g.call(vec![(Ident("y".to_string()), num_var(8, true))], &vm), Ok(Value::Number(8))));
    assert_eq!(number_of(&vm, "y"), Some(1));
}

#[test]
fn fresh_environment_holds_the_builtins() {
    let vm = Vm::new();
    for b in [Builtin::Min, Builtin::Max] {
        let v = vm.get_ident(Ident(b.name())).unwrap();
        assert!(!v.mutable);
        assert_eq!(v.type_, Type::Func);
        assert_eq!(v.value.get_type(), Type::Func);
    }
    assert!(vm.exists_ident(Ident("min".to_string())));
    assert!(vm.exists_ident(Ident("max".to_string())));
    let mut vm = Vm::new();
    assert!(matches!(vm.iadd("max".to_string(), Value::Number(1)), Err(Error::ItsAConstant(_))));
}

#[test]
fn builtins_compute_min_and_max() {
    let vm = Vm::new();
    let args = vec![
        (Ident("a".to_string()), num_var(4, false)),
        (Ident("b".to_string()), num_var(-2, false)),
    ];
    let min = Function::Builtin(Builtin::Min);
    let max = Function::Builtin(Builtin::Max);
    assert!(matches!(min.call(args.clone(), &vm), Ok(Value::Number(-2))));
    assert!(matches!(max.call(args, &vm), Ok(Value::Number(4))));
    match min.call(vec![(Ident("a".to_string()), num_var(1, false))], &vm) {
        Err(Error::VarNotFound(e)) => assert_eq!(e.var_name, "b"),
        other => panic!("unexpected {:?}", other),
    }
    let bad = vec![(Ident("a".to_string()), Var { value: Value::Unit, type_: Type::Unit, mutable: false })];
    match max.call(bad, &vm) {
        Err(Error::TypeMismatch(e)) => assert_eq!(e.found, Type::Unit),
        other => panic!("unexpected {:?}", other),
    }
}

#[test]
fn program_runs_in_sequence() {
    let nodes = vec![
        let_expr("x", true, Expr::Number(5)),
        iop(IOpType::IAdd, "x", Expr::Number(3)),
        iop(IOpType::IMul, "x", Expr::Number(2)),
    ];
    let vm = execute(&nodes).unwrap();
    assert_eq!(number_of(&vm, "x"), Some(16));
}

#[test]
fn program_halts_at_first_error() {
    let nodes = vec![
        let_expr("x", true, Expr::Number(5)),
        iop(IOpType::IAdd, "x", Expr::Str("a".to_string())),
        let_expr("z", true, Expr::Number(1)),
        iop(IOpType::IAdd, "x", Expr::Number(3)),
    ];
    let mut vm = Vm::new();
    match run_nodes(&nodes, &mut vm) {
        Err(Error::TypeMismatch(e)) => assert_eq!(e.found, Type::Str),
        other => panic!("unexpected {:?}", other),
    }
    assert_eq!(number_of(&vm, "x"), Some(5));
    assert!(!vm.exists_ident(Ident("z".to_string())));
    assert!(matches!(execute(&nodes), Err(Error::TypeMismatch(_))));
}

#[test]
fn identifiers_and_declarations_evaluate() {
    let mut vm = Vm::new();
    assert!(matches!(let_expr("s", false, Expr::Str("hi".to_string())).eval(&mut vm), Ok(Value::Unit)));
    let v = vm.get_ident(Ident("s".to_string())).unwrap();
    assert_eq!(v.type_, Type::Str);
    assert!(!v.mutable);
    match Expr::Ident(Ident("s".to_string())).eval(&mut vm) {
        Ok(Value::Str(s)) => assert_eq!(s, "hi"),
        other => panic!("unexpected {:?}", other),
    }
    match Expr::Ident(Ident("nope".to_string())).eval(&mut vm) {
        Err(Error::VarNotFound(e)) => assert_eq!(e.var_name, "nope"),
        other => panic!("unexpected {:?}", other),
    }
    let node = IOp { op: IOpType::IAdd, name: "s".to_string(), value: Box::new(Expr::Number(1)) };
    assert!(matches!(node.eval(&mut vm), Err(Error::ItsAConstant(_))));
}

#[test]
fn snapshot_is_independent() {
    let vm = env_with("x", num_var(2, true));
    let mut copy = vm.clone();
    assert!(matches!(copy.imul("x".to_string(), Value::Number(5)), Ok(Value::Unit)));
    assert_eq!(number_of(&copy, "x"), Some(10));
    assert_eq!(number_of(&vm, "x"), Some(2));
    let names = vec!["p".to_string(), "q".to_string()];
    match ParamList::from_names(&names) {
        ParamList::Param(p, rest) => {
            assert_eq!(p, "p");
            assert!(matches!(*rest, ParamList::Param(ref q, _) if q == "q"));
        },
        ParamList::End => panic!("empty list"),
    }
}
