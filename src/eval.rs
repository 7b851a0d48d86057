use vstd::prelude::*;

use crate::error::{Error, TypeMismatchError, VarNotFoundError};
use crate::expr::{Expr, IOp, IOpType};
use crate::value::{Builtin, Function, Ident, Type, Value, Var};
use crate::vm::{builtin_var, iop_step, is_builtin_name, Vm};

verus! {

/// Outcome and next environment of evaluating `e` against `m`.
/// Sub-expressions are evaluated first; their first error is passed on.
pub open spec fn eval_step(e: Expr, m: Map<Seq<char>, Var>) -> (
    Result<Value, Error>,
    Map<Seq<char>, Var>,
)
    decreases e,
{
    match e {
        Expr::Number(n) => (Ok(Value::Number(n)), m),
        Expr::Str(s) => (Ok(Value::Str(s)), m),
        Expr::Unit => (Ok(Value::Unit), m),
        Expr::Ident(id) => if m.contains_key(id.0@) {
            (Ok(m[id.0@].value), m)
        } else {
            (Err(Error::VarNotFound(VarNotFoundError { var_name: id.0 })), m)
        },
        Expr::Let { name, mutable, value } => {
            let (r, m1) = eval_step(*value, m);
            match r {
                Ok(v) => (
                    Ok(Value::Unit),
                    m1.insert(name@, Var { value: v, type_: v.type_of(), mutable: mutable }),
                ),
                Err(err) => (Err(err), m1),
            }
        },
        Expr::IOp(iop) => {
            let (r, m1) = eval_step(*iop.value, m);
            match r {
                Ok(v) => iop_step(m1, iop.name, v, iop.op),
                Err(err) => (Err(err), m1),
            }
        },
    }
}

/// The evaluation contract: every node of the language evaluates against an
/// environment to a value or an error, changing the environment only through
/// its own operations.
pub trait Evaluateur {
    /// Outcome and next environment of evaluating this node against `m`.
    spec fn eval_model(&self, m: Map<Seq<char>, Var>) -> (Result<Value, Error>, Map<Seq<char>, Var>);

    fn eval(&self, vm: &mut Vm) -> (r: Result<Value, Error>)
        requires
            old(vm).wf(),
        ensures
            final(vm).wf(),
            (r, final(vm)@) == self.eval_model(old(vm)@),
    ;
}

impl Expr {
    /// Evaluates this expression against `vm`.
    pub fn evaluate(&self, vm: &mut Vm) -> (r: Result<Value, Error>)
        requires
            old(vm).wf(),
        ensures
            final(vm).wf(),
            (r, final(vm)@) == eval_step(*self, old(vm)@),
        decreases self,
    {
        match self {
            Expr::Number(n) => Ok(Value::Number(*n)),
            Expr::Str(s) => Ok(Value::Str(s.clone())),
            Expr::Unit => Ok(Value::Unit),
            Expr::Ident(id) => match vm.get_ident(Ident(id.0.clone())) {
                Some(v) => Ok(v.value.duplicate()),
                None => Err(Error::VarNotFound(VarNotFoundError { var_name: id.0.clone() })),
            },
            Expr::Let { name, mutable, value } => {
                let v = value.evaluate(vm)?;
                let t = v.get_type();
                vm.set_ident(Ident(name.clone()), Var { value: v, type_: t, mutable: *mutable });
                Ok(Value::Unit)
            },
            Expr::IOp(iop) => {
                let v = iop.value.evaluate(vm)?;
                match iop.op {
                    IOpType::IAdd => vm.iadd(iop.name.clone(), v),
                    IOpType::ISub => vm.isub(iop.name.clone(), v),
                    IOpType::IMul => vm.imul(iop.name.clone(), v),
                    IOpType::IDiv => vm.idiv(iop.name.clone(), v),
                }
            },
        }
    }
}

impl Evaluateur for Expr {
    open spec fn eval_model(&self, m: Map<Seq<char>, Var>) -> (
        Result<Value, Error>,
        Map<Seq<char>, Var>,
    ) {
        eval_step(*self, m)
    }

    fn eval(&self, vm: &mut Vm) -> (r: Result<Value, Error>) {
        self.evaluate(vm)
    }
}

impl Evaluateur for IOp {
    open spec fn eval_model(&self, m: Map<Seq<char>, Var>) -> (
        Result<Value, Error>,
        Map<Seq<char>, Var>,
    ) {
        eval_step(Expr::IOp(*self), m)
    }

    fn eval(&self, vm: &mut Vm) -> (r: Result<Value, Error>) {
        let v = self.value.evaluate(vm)?;
        match self.op {
            IOpType::IAdd => vm.iadd(self.name.clone(), v),
            IOpType::ISub => vm.isub(self.name.clone(), v),
            IOpType::IMul => vm.imul(self.name.clone(), v),
            IOpType::IDiv => vm.idiv(self.name.clone(), v),
        }
    }
}

/// `m` extended, in order, with each argument binding; a later argument of
/// the same name shadows an earlier one.
pub open spec fn bind_args(m: Map<Seq<char>, Var>, args: Seq<(Ident, Var)>) -> Map<Seq<char>, Var>
    decreases args.len(),
{
    if args.len() == 0 {
        m
    } else {
        bind_args(m, args.drop_last()).insert(args.last().0.0@, args.last().1)
    }
}

/// The result of builtin `b` given the numbers it reads.
pub open spec fn builtin_number(b: Builtin, x: i64, y: i64) -> i64 {
    match b {
        Builtin::Min => if x <= y { x } else { y },
        Builtin::Max => if x >= y { x } else { y },
    }
}

/// `r` is an acceptable outcome of reading parameter `p` from `m` as a
/// number, where that read fails.
pub open spec fn param_error(m: Map<Seq<char>, Var>, p: Seq<char>, r: Result<Value, Error>) -> bool {
    if !m.contains_key(p) {
        r matches Err(Error::VarNotFound(e)) && e.var_name@ == p
    } else {
        r == Err::<Value, Error>(
            Error::TypeMismatch(
                TypeMismatchError { expected: Type::Int, found: m[p].value.type_of() },
            ),
        )
    }
}

/// `m[p]` holds a number.
pub open spec fn number_at(m: Map<Seq<char>, Var>, p: Seq<char>) -> bool {
    m.contains_key(p) && m[p].value is Number
}

/// Outcome of running builtin `b` in environment `m`: it reads its two
/// parameters as numbers, the first before the second.
pub open spec fn builtin_outcome(b: Builtin, m: Map<Seq<char>, Var>, r: Result<Value, Error>) -> bool {
    let pa = b.spec_params()[0];
    let pb = b.spec_params()[1];
    if !number_at(m, pa) {
        param_error(m, pa, r)
    } else if !number_at(m, pb) {
        param_error(m, pb, r)
    } else {
        r == Ok::<Value, Error>(
            Value::Number(builtin_number(b, m[pa].value->Number_0, m[pb].value->Number_0)),
        )
    }
}

/// Outcome of calling `f` with `args` from environment `m`: the body runs
/// against a copy of `m` extended with the arguments.
pub open spec fn call_outcome(
    f: Function,
    args: Seq<(Ident, Var)>,
    m: Map<Seq<char>, Var>,
    r: Result<Value, Error>,
) -> bool {
    let callee = bind_args(m, args);
    match f {
        Function::Builtin(b) => builtin_outcome(b, callee, r),
        Function::User(body) => r == eval_step(*body, callee).0,
    }
}

/// A function value whose body is `body`.
pub fn function(body: Expr) -> (r: Function)
    ensures
        r == Function::User(Box::new(body)),
{
    Function::User(Box::new(body))
}

/// Reads parameter `p` of a builtin from `vm` as a number.
fn number_param(vm: &Vm, p: String) -> (r: Result<i64, Error>)
    requires
        vm.wf(),
    ensures
        match r {
            Ok(n) => number_at(vm@, p@) && vm@[p@].value == Value::Number(n),
            Err(e) => !number_at(vm@, p@) && param_error(vm@, p@, Err(e)),
        },
{
    match vm.get_ident(Ident(p.clone())) {
        None => Err(Error::VarNotFound(VarNotFoundError { var_name: p })),
        Some(v) => match &v.value {
            Value::Number(n) => Ok(*n),
            other => Err(
                Error::TypeMismatch(TypeMismatchError { expected: Type::Int, found: other.get_type() }),
            ),
        },
    }
}

impl Builtin {
    /// Runs this builtin against `vm`, where its parameters are bound.
    pub fn run(&self, vm: &Vm) -> (r: Result<Value, Error>)
        requires
            vm.wf(),
        ensures
            builtin_outcome(*self, vm@, r),
    {
        proof {
            reveal_strlit("a");
            reveal_strlit("b");
        }
        let pa = "a".to_owned();
        let pb = "b".to_owned();
        assert(pa@ == self.spec_params()[0]);
        assert(pb@ == self.spec_params()[1]);
        let x = number_param(vm, pa)?;
        let y = number_param(vm, pb)?;
        let n = match self {
            Builtin::Min => if x <= y {
                x
            } else {
                y
            },
            Builtin::Max => if x >= y {
                x
            } else {
                y
            },
        };
        Ok(Value::Number(n))
    }
}

impl Function {
    /// Calls this function with `args`. The body runs against a snapshot of
    /// `vm` extended with the arguments, so nothing it writes reaches `vm`.
    pub fn call(&self, args: Vec<(Ident, Var)>, vm: &Vm) -> (r: Result<Value, Error>)
        requires
            vm.wf(),
        ensures
            call_outcome(*self, args@, vm@, r),
    {
        let mut callee = vm.snapshot();
        let mut i: usize = 0;
        while i < args.len()
            invariant
                i <= args@.len(),
                callee.wf(),
                callee@ == bind_args(vm@, args@.subrange(0, i as int)),
            decreases args@.len() - i,
        {
            let entry = &args[i];
            callee.set_ident(Ident(entry.0.0.clone()), entry.1.duplicate());
            assert(args@.subrange(0, i + 1).drop_last() =~= args@.subrange(0, i as int));
            i = i + 1;
        }
        assert(args@.subrange(0, args@.len() as int) =~= args@);
        match self {
            Function::Builtin(b) => b.run(&callee),
            Function::User(body) => body.evaluate(&mut callee),
        }
    }
}

/// Outcome and final environment of evaluating `nodes` in order against one
/// environment, stopping at the first error.
pub open spec fn run_steps(nodes: Seq<Expr>, m: Map<Seq<char>, Var>) -> (
    Result<(), Error>,
    Map<Seq<char>, Var>,
)
    decreases nodes.len(),
{
    if nodes.len() == 0 {
        (Ok(()), m)
    } else {
        let (r, m1) = eval_step(nodes[0], m);
        match r {
            Ok(_) => run_steps(nodes.drop_first(), m1),
            Err(e) => (Err(e), m1),
        }
    }
}

/// Evaluates `nodes` in order against `vm`; the first error ends the run and
/// is returned, and no later node is evaluated.
pub fn run_nodes(nodes: &Vec<Expr>, vm: &mut Vm) -> (r: Result<(), Error>)
    requires
        old(vm).wf(),
    ensures
        final(vm).wf(),
        (r, final(vm)@) == run_steps(nodes@, old(vm)@),
{
    let mut i: usize = 0;
    assert(nodes@.subrange(0, nodes@.len() as int) =~= nodes@);
    while i < nodes.len()
        invariant
            i <= nodes@.len(),
            vm.wf(),
            run_steps(nodes@.subrange(i as int, nodes@.len() as int), vm@) == run_steps(nodes@, old(vm)@),
        decreases nodes@.len() - i,
    {
        let ghost rest = nodes@.subrange(i as int, nodes@.len() as int);
        assert(rest.drop_first() =~= nodes@.subrange(i + 1, nodes@.len() as int));
        assert(rest[0] == nodes@[i as int]);
        match nodes[i].evaluate(vm) {
            Ok(_) => {},
            Err(e) => {
                return Err(e);
            },
        }
        i = i + 1;
    }
    assert(nodes@.subrange(nodes@.len() as int, nodes@.len() as int) =~= Seq::<Expr>::empty());
    Ok(())
}

/// Evaluates `nodes` in order against a fresh environment and returns the
/// final environment, or the first error.
pub fn execute(nodes: &Vec<Expr>) -> (r: Result<Vm, Error>)
    ensures
        r is Ok ==> r->Ok_0.wf(),
        exists|m: Map<Seq<char>, Var>|
            {
                &&& is_fresh_env(m)
                &&& #[trigger] run_steps(nodes@, m).0 == match r {
                    Ok(_) => Ok::<(), Error>(()),
                    Err(e) => Err(e),
                }
                &&& r is Ok ==> run_steps(nodes@, m).1 == r->Ok_0@
            },
{
    let mut vm = Vm::new();
    let ghost m = vm@;
    let r = run_nodes(nodes, &mut vm);
    assert(is_fresh_env(m));
    assert(run_steps(nodes@, m) == (r, vm@));
    match r {
        Ok(done) => {
            assert(r == Ok::<(), Error>(done));
            let ghost after = vm@;
            let res: Result<Vm, Error> = Ok(vm);
            assert(res->Ok_0@ == after);
            assert(run_steps(nodes@, m).0 == Ok::<(), Error>(()));
            res
        },
        Err(e) => Err(e),
    }
}

/// `m` is the environment that `Vm::new` returns.
pub open spec fn is_fresh_env(m: Map<Seq<char>, Var>) -> bool {
    &&& forall|k: Seq<char>| m.contains_key(k) <==> is_builtin_name(k)
    &&& forall|b: Builtin| #[trigger] builtin_var(b, m[b.spec_name()])
}

} // verus!
