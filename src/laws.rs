//! Properties of compound assignment and function calls, stated over the
//! models that the executable operations are verified against.
use vstd::prelude::*;

use crate::error::{Error, ItsAConstantError, TypeMismatchError, VarNotFoundError};
use crate::eval::{bind_args, call_outcome, eval_step};
use crate::expr::{Expr, IOp, IOpType};
use crate::value::{Function, Ident, Type, Value, Var};
use crate::vm::iop_step;

verus! {

/// Division of integers that truncates toward zero.
pub open spec fn trunc_div(n: int, k: int) -> int {
    if n >= 0 && k > 0 {
        n / k
    } else if n < 0 && k < 0 {
        (-n) / (-k)
    } else if n < 0 {
        -((-n) / k)
    } else {
        -(n / (-k))
    }
}

/// The exact integer result of `n op k`.
pub open spec fn exact_op(op: IOpType, n: int, k: int) -> int {
    match op {
        IOpType::IAdd => n + k,
        IOpType::ISub => n - k,
        IOpType::IMul => n * k,
        IOpType::IDiv => trunc_div(n, k),
    }
}

/// A compound assignment with a numeric right-hand side against an
/// immutable binding fails with `ItsAConstant` and changes nothing.
pub proof fn lemma_constant_rejected(m: Map<Seq<char>, Var>, a: String, k: i64, op: IOpType)
    requires
        m.contains_key(a@),
        !m[a@].mutable,
    ensures
        iop_step(m, a, Value::Number(k), op) == (
            Err::<Value, Error>(Error::ItsAConstant(ItsAConstantError { var_name: a })),
            m,
        ),
{
}

/// A compound assignment with a numeric right-hand side against an unbound
/// name fails with `VarNotFound` and changes nothing.
pub proof fn lemma_unbound_rejected(m: Map<Seq<char>, Var>, a: String, k: i64, op: IOpType)
    requires
        !m.contains_key(a@),
    ensures
        iop_step(m, a, Value::Number(k), op) == (
            Err::<Value, Error>(Error::VarNotFound(VarNotFoundError { var_name: a })),
            m,
        ),
{
}

/// On a mutable numeric binding `a = n` declared numeric, `a op= k` stores
/// the exact result `n op k` (where it fits and no division by zero is
/// asked), returns the unit value and keeps the declared type and the
/// mutability of the binding.
pub proof fn lemma_arithmetic_update(
    m: Map<Seq<char>, Var>,
    a: String,
    n: i64,
    k: i64,
    op: IOpType,
)
    requires
        m.contains_key(a@),
        m[a@].mutable,
        m[a@].type_ == Type::Int,
        m[a@].value == Value::Number(n),
        op == IOpType::IDiv ==> k != 0,
        i64::MIN <= exact_op(op, n as int, k as int) <= i64::MAX,
    ensures
        ({
            let (r, m1) = iop_step(m, a, Value::Number(k), op);
            &&& r == Ok::<Value, Error>(Value::Unit)
            &&& m1.dom() == m.dom()
            &&& forall|x: Seq<char>| x != a@ && m.contains_key(x) ==> m1[x] == m[x]
            &&& m1[a@].value == Value::Number(exact_op(op, n as int, k as int) as i64)
            &&& m1[a@].type_ == m[a@].type_
            &&& m1[a@].mutable == m[a@].mutable
        }),
{
    let (r, m1) = iop_step(m, a, Value::Number(k), op);
    assert(m1.dom() =~= m.dom());
}

/// A compound assignment with a numeric right-hand side against a mutable
/// binding whose value is not a number fails with a type mismatch that names
/// the value's type, and changes nothing.
pub proof fn lemma_non_numeric_target_rejected(
    m: Map<Seq<char>, Var>,
    a: String,
    k: i64,
    op: IOpType,
)
    requires
        m.contains_key(a@),
        m[a@].mutable,
        !(m[a@].value is Number),
    ensures
        iop_step(m, a, Value::Number(k), op) == (
            Err::<Value, Error>(
                Error::TypeMismatch(
                    TypeMismatchError { expected: Type::Int, found: m[a@].value.type_of() },
                ),
            ),
            m,
        ),
{
}

/// A non-numeric right-hand side makes any compound assignment fail with a
/// type mismatch that names the right-hand type, before the target is looked
/// at: whether or not it is bound, nothing changes.
pub proof fn lemma_non_numeric_operand_rejected(
    m: Map<Seq<char>, Var>,
    a: String,
    b: Value,
    op: IOpType,
)
    requires
        !(b is Number),
    ensures
        iop_step(m, a, b, op) == (
            Err::<Value, Error>(
                Error::TypeMismatch(TypeMismatchError { expected: Type::Int, found: b.type_of() }),
            ),
            m,
        ),
{
}

/// Calling a function whose body is `y += k` on a mutable numeric binding
/// `y = n` succeeds, and the update is made in the callee's copy of the
/// environment: that copy holds `y = n + k`, while the caller's environment,
/// which the call only reads, still holds `y = n`.
pub proof fn lemma_call_updates_only_copy(m: Map<Seq<char>, Var>, y: String, n: i64, k: i64)
    requires
        m.contains_key(y@),
        m[y@] == (Var { value: Value::Number(n), type_: Type::Int, mutable: true }),
        i64::MIN <= n + k <= i64::MAX,
    ensures
        ({
            let body = Expr::IOp(IOp { op: IOpType::IAdd, name: y, value: Box::new(Expr::Number(k)) });
            let callee = bind_args(m, Seq::empty());
            &&& call_outcome(Function::User(Box::new(body)), Seq::empty(), m, Ok(Value::Unit))
            &&& eval_step(body, callee).1[y@].value == Value::Number((n + k) as i64)
            &&& m[y@].value == Value::Number(n)
        }),
{
    let body = Expr::IOp(IOp { op: IOpType::IAdd, name: y, value: Box::new(Expr::Number(k)) });
    assert(bind_args(m, Seq::empty()) == m);
    assert(eval_step(Expr::Number(k), m) == (Ok::<Value, Error>(Value::Number(k)), m));
    assert(eval_step(body, m) == iop_step(m, y, Value::Number(k), IOpType::IAdd));
}

} // verus!
