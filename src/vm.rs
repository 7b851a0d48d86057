use vstd::prelude::*;

use crate::error::{ArithmeticError, Error, ItsAConstantError, TypeMismatchError, VarNotFoundError};
use crate::expr::IOpType;
use crate::value::{Builtin, Function, Ident, Type, Value, Var};

verus! {

/// The name under which a stored binding is found.
pub open spec fn key_of(b: (Ident, Var)) -> Seq<char> {
    b.0.0@
}

/// No two stored bindings share a name.
pub open spec fn keys_unique(s: Seq<(Ident, Var)>) -> bool {
    forall|i: int, j: int|
        0 <= i < s.len() && 0 <= j < s.len() && i != j ==> #[trigger] key_of(s[i]) != #[trigger] key_of(
            s[j],
        )
}

/// The map from names to bindings that a sequence of stored bindings
/// stands for; a later entry shadows an earlier one of the same name.
pub open spec fn env_of(s: Seq<(Ident, Var)>) -> Map<Seq<char>, Var>
    decreases s.len(),
{
    if s.len() == 0 {
        Map::empty()
    } else {
        env_of(s.drop_last()).insert(key_of(s.last()), s.last().1)
    }
}

proof fn lemma_env_dom(s: Seq<(Ident, Var)>, k: Seq<char>)
    ensures
        env_of(s).contains_key(k) <==> exists|i: int| 0 <= i < s.len() && key_of(s[i]) == k,
    decreases s.len(),
{
    if s.len() > 0 {
        lemma_env_dom(s.drop_last(), k);
        if env_of(s).contains_key(k) && key_of(s.last()) != k {
            let i = choose|i: int| 0 <= i < s.len() - 1 && key_of(s.drop_last()[i]) == k;
            assert(key_of(s[i]) == k);
        }
        if exists|i: int| 0 <= i < s.len() && key_of(s[i]) == k {
            let i = choose|i: int| 0 <= i < s.len() && key_of(s[i]) == k;
            if i < s.len() - 1 {
                assert(key_of(s.drop_last()[i]) == k);
            }
        }
    }
}

proof fn lemma_env_at(s: Seq<(Ident, Var)>, i: int)
    requires
        keys_unique(s),
        0 <= i < s.len(),
    ensures
        env_of(s).contains_key(key_of(s[i])),
        env_of(s)[key_of(s[i])] == s[i].1,
    decreases s.len(),
{
    if i < s.len() - 1 {
        let t = s.drop_last();
        assert(keys_unique(t)) by {
            assert forall|a: int, b: int|
                0 <= a < t.len() && 0 <= b < t.len() && a != b implies #[trigger] key_of(t[a])
                != #[trigger] key_of(t[b]) by {
                assert(t[a] == s[a] && t[b] == s[b]);
            }
        }
        lemma_env_at(t, i);
        assert(key_of(s[i]) != key_of(s[s.len() - 1]));
    }
}

proof fn lemma_env_update(s: Seq<(Ident, Var)>, i: int, b: (Ident, Var))
    requires
        keys_unique(s),
        0 <= i < s.len(),
        key_of(s[i]) == key_of(b),
    ensures
        keys_unique(s.update(i, b)),
        env_of(s.update(i, b)) == env_of(s).insert(key_of(b), b.1),
{
    let t = s.update(i, b);
    assert(keys_unique(t)) by {
        assert forall|x: int, y: int|
            0 <= x < t.len() && 0 <= y < t.len() && x != y implies #[trigger] key_of(t[x])
            != #[trigger] key_of(t[y]) by {
            assert(key_of(t[x]) == key_of(s[x]) && key_of(t[y]) == key_of(s[y]));
        }
    }
    let m = env_of(s).insert(key_of(b), b.1);
    assert forall|k: Seq<char>| #[trigger] env_of(t).contains_key(k) <==> m.contains_key(k) by {
        lemma_env_dom(s, k);
        lemma_env_dom(t, k);
        if exists|j: int| 0 <= j < s.len() && key_of(s[j]) == k {
            let j = choose|j: int| 0 <= j < s.len() && key_of(s[j]) == k;
            assert(key_of(t[j]) == k);
        }
        if exists|j: int| 0 <= j < t.len() && key_of(t[j]) == k {
            let j = choose|j: int| 0 <= j < t.len() && key_of(t[j]) == k;
            assert(key_of(s[j]) == k);
        }
        lemma_env_at(s, i);
    }
    assert forall|k: Seq<char>| #[trigger] env_of(t).contains_key(k) implies env_of(t)[k] == m[k] by {
        lemma_env_dom(t, k);
        let j = choose|j: int| 0 <= j < t.len() && key_of(t[j]) == k;
        lemma_env_at(t, j);
        if j != i {
            lemma_env_at(s, j);
        }
    }
    assert(env_of(t) =~= m);
}

proof fn lemma_env_push(s: Seq<(Ident, Var)>, b: (Ident, Var))
    requires
        keys_unique(s),
        !env_of(s).contains_key(key_of(b)),
    ensures
        keys_unique(s.push(b)),
        env_of(s.push(b)) == env_of(s).insert(key_of(b), b.1),
{
    let t = s.push(b);
    assert(t.drop_last() =~= s);
    assert(keys_unique(t)) by {
        assert forall|x: int, y: int|
            0 <= x < t.len() && 0 <= y < t.len() && x != y implies #[trigger] key_of(t[x])
            != #[trigger] key_of(t[y]) by {
            if x < s.len() && y < s.len() {
                assert(t[x] == s[x] && t[y] == s[y]);
            } else if x < s.len() {
                lemma_env_dom(s, key_of(b));
                assert(t[x] == s[x]);
            } else {
                lemma_env_dom(s, key_of(b));
                assert(t[y] == s[y]);
            }
        }
    }
}

/// `v` is the immutable, function-typed binding under which builtin `b` is
/// installed.
pub open spec fn builtin_var(b: Builtin, v: Var) -> bool {
    &&& v.type_ == Type::Func
    &&& !v.mutable
    &&& match v.value {
        Value::Function { name, func, args } => {
            &&& name@ == b.spec_name()
            &&& func == Function::Builtin(b)
            &&& args@ == b.spec_params()
        },
        _ => false,
    }
}

/// `k` is the name of some builtin.
pub open spec fn is_builtin_name(k: Seq<char>) -> bool {
    exists|b: Builtin| b.spec_name() == k
}

/// The arithmetic of a compound assignment on two numbers; `None` where the
/// result does not fit or the divisor is zero. Division truncates toward zero.
pub open spec fn apply_op(op: IOpType, n: i64, m: i64) -> Option<i64> {
    match op {
        IOpType::IAdd => n.checked_add(m),
        IOpType::ISub => n.checked_sub(m),
        IOpType::IMul => n.checked_mul(m),
        IOpType::IDiv => n.checked_div(m),
    }
}

/// Outcome and next environment of the compound assignment `a op= b`
/// against environment `m`. The checks come in this order: the right-hand
/// value is a number, `a` is bound, its binding is mutable, its value is a
/// number, the arithmetic succeeds, its declared type is the numeric one.
/// On any failure the environment is left as it was.
pub open spec fn iop_step(m: Map<Seq<char>, Var>, a: String, b: Value, op: IOpType) -> (
    Result<Value, Error>,
    Map<Seq<char>, Var>,
) {
    match b {
        Value::Number(rhs) => {
            if !m.contains_key(a@) {
                (Err(Error::VarNotFound(VarNotFoundError { var_name: a })), m)
            } else if !m[a@].mutable {
                (Err(Error::ItsAConstant(ItsAConstantError { var_name: a })), m)
            } else {
                let v = m[a@];
                match v.value {
                    Value::Number(n) => match apply_op(op, n, rhs) {
                        Some(r) => if v.type_ != Type::Int {
                            (
                                Err(
                                    Error::TypeMismatch(
                                        TypeMismatchError { expected: v.type_, found: Type::Int },
                                    ),
                                ),
                                m,
                            )
                        } else {
                            (
                                Ok(Value::Unit),
                                m.insert(
                                    a@,
                                    Var { value: Value::Number(r), type_: v.type_, mutable: v.mutable },
                                ),
                            )
                        },
                        None => (Err(Error::Arithmetic(ArithmeticError { var_name: a })), m),
                    },
                    _ => (
                        Err(
                            Error::TypeMismatch(
                                TypeMismatchError { expected: Type::Int, found: v.value.type_of() },
                            ),
                        ),
                        m,
                    ),
                }
            }
        },
        _ => (
            Err(Error::TypeMismatch(TypeMismatchError { expected: Type::Int, found: b.type_of() })),
            m,
        ),
    }
}

/// The machine state of one evaluation session: every binding, by name.
#[derive(Debug)]
pub struct Vm {
    vars: Vec<(Ident, Var)>,
}

impl View for Vm {
    type V = Map<Seq<char>, Var>;

    closed spec fn view(&self) -> Map<Seq<char>, Var> {
        env_of(self.vars@)
    }
}

impl Vm {
    /// The stored bindings have distinct names.
    pub closed spec fn wf(&self) -> bool {
        keys_unique(self.vars@)
    }

    /// An environment with no binding.
    pub fn empty() -> (r: Vm)
        ensures
            r.wf(),
            r@ == Map::<Seq<char>, Var>::empty(),
    {
        Vm { vars: Vec::new() }
    }

    /// A fresh environment holding every builtin and nothing else.
    pub fn new() -> (r: Vm)
        ensures
            r.wf(),
            forall|k: Seq<char>| r@.contains_key(k) <==> is_builtin_name(k),
            forall|b: Builtin| #[trigger] builtin_var(b, r@[b.spec_name()]),
    {
        let mut vm = Vm::empty();
        vm.use_builtin_function();
        proof {
            assert forall|k: Seq<char>| vm@.contains_key(k) implies is_builtin_name(k) by {
                assert(Map::<Seq<char>, Var>::empty().contains_key(k) == false);
            }
        }
        vm
    }

    /// Binds one builtin under its name.
    fn install(&mut self, b: Builtin)
        requires
            old(self).wf(),
        ensures
            final(self).wf(),
            final(self)@.dom() == old(self)@.dom().insert(b.spec_name()),
            forall|k: Seq<char>| k != b.spec_name() && old(self)@.contains_key(k) ==> final(self)@[k] == old(self)@[k],
            builtin_var(b, final(self)@[b.spec_name()]),
    {
        let name = b.name();
        let var = Var {
            value: Value::Function { name: b.name(), func: Function::Builtin(b), args: b.params() },
            type_: Type::Func,
            mutable: false,
        };
        self.set_ident(Ident(name), var);
    }

    /// Installs every builtin as an immutable, function-typed binding,
    /// replacing any binding of the same name.
    pub fn use_builtin_function(&mut self)
        requires
            old(self).wf(),
        ensures
            final(self).wf(),
            forall|k: Seq<char>|
                final(self)@.contains_key(k) <==> old(self)@.contains_key(k) || is_builtin_name(k),
            forall|k: Seq<char>|
                old(self)@.contains_key(k) && !is_builtin_name(k) ==> final(self)@[k] == old(self)@[k],
            forall|b: Builtin| #[trigger] builtin_var(b, final(self)@[b.spec_name()]),
    {
        self.install(Builtin::Min);
        self.install(Builtin::Max);
        proof {
            assert(Builtin::Min.spec_name() != Builtin::Max.spec_name());
            assert forall|k: Seq<char>|
                is_builtin_name(k) implies k == Builtin::Min.spec_name() || k
                == Builtin::Max.spec_name() by {
                let b = choose|b: Builtin| b.spec_name() == k;
                match b {
                    Builtin::Min => {},
                    Builtin::Max => {},
                }
            }
            assert forall|b: Builtin| #[trigger] builtin_var(b, self@[b.spec_name()]) by {
                match b {
                    Builtin::Min => {},
                    Builtin::Max => {},
                }
            }
        }
    }

    /// A separate environment with the same bindings.
    pub fn snapshot(&self) -> (r: Vm)
        ensures
            r.wf() == self.wf(),
            r@ == self@,
    {
        let mut vars: Vec<(Ident, Var)> = Vec::new();
        let mut i: usize = 0;
        while i < self.vars.len()
            invariant
                i <= self.vars@.len(),
                vars@ == self.vars@.subrange(0, i as int),
            decreases self.vars@.len() - i,
        {
            let entry = &self.vars[i];
            vars.push((Ident(entry.0.0.clone()), entry.1.duplicate()));
            assert(vars@ =~= self.vars@.subrange(0, i + 1));
            i = i + 1;
        }
        assert(vars@ =~= self.vars@);
        Vm { vars }
    }

    /// Where the binding named `name` is stored, if there is one.
    fn position(&self, name: &String) -> (r: Option<usize>)
        requires
            self.wf(),
        ensures
            match r {
                Some(i) => i < self.vars@.len() && key_of(self.vars@[i as int]) == name@,
                None => forall|i: int|
                    0 <= i < self.vars@.len() ==> key_of(self.vars@[i]) != name@,
            },
    {
        let mut i: usize = 0;
        while i < self.vars.len()
            invariant
                i <= self.vars@.len(),
                forall|j: int| 0 <= j < i ==> key_of(self.vars@[j]) != name@,
            decreases self.vars@.len() - i,
        {
            if self.vars[i].0.0 == *name {
                return Some(i);
            }
            i = i + 1;
        }
        None
    }

    /// Binds `ident` to `value`, replacing any binding of that name. No
    /// mutability or type check is made here.
    pub fn set_ident(&mut self, ident: Ident, value: Var)
        requires
            old(self).wf(),
        ensures
            final(self).wf(),
            final(self)@ == old(self)@.insert(ident.0@, value),
    {
        let ghost s = self.vars@;
        let ghost k = ident.0@;
        match self.position(&ident.0) {
            Some(i) => {
                proof {
                    lemma_env_update(s, i as int, (ident, value));
                }
                self.vars.set(i, (ident, value));
            },
            None => {
                proof {
                    lemma_env_dom(s, k);
                    lemma_env_push(s, (ident, value));
                }
                self.vars.push((ident, value));
            },
        }
    }

    /// The binding of `ident`, if any.
    pub fn get_ident(&self, ident: Ident) -> (r: Option<&Var>)
        requires
            self.wf(),
        ensures
            match r {
                Some(v) => self@.contains_key(ident.0@) && *v == self@[ident.0@],
                None => !self@.contains_key(ident.0@),
            },
    {
        proof {
            lemma_env_dom(self.vars@, ident.0@);
        }
        match self.position(&ident.0) {
            Some(i) => {
                proof {
                    lemma_env_at(self.vars@, i as int);
                }
                Some(&self.vars[i].1)
            },
            None => None,
        }
    }

    /// Whether `ident` is bound.
    pub fn exists_ident(&self, ident: Ident) -> (r: bool)
        requires
            self.wf(),
        ensures
            r == self@.contains_key(ident.0@),
    {
        proof {
            lemma_env_dom(self.vars@, ident.0@);
        }
        match self.position(&ident.0) {
            Some(i) => true,
            None => false,
        }
    }

    /// The compound assignment `a op= b`, shared by the four operators.
    fn apply_iop(&mut self, a: String, b: Value, op: IOpType) -> (r: Result<Value, Error>)
        requires
            old(self).wf(),
        ensures
            final(self).wf(),
            (r, final(self)@) == iop_step(old(self)@, a, b, op),
    {
        let rhs = match b {
            Value::Number(rhs) => rhs,
            _ => {
                return Err(
                    Error::TypeMismatch(
                        TypeMismatchError { expected: Type::Int, found: b.get_type() },
                    ),
                );
            },
        };
        let (n, declared, mutable) = match self.get_ident(Ident(a.clone())) {
            None => {
                return Err(Error::VarNotFound(VarNotFoundError { var_name: a }));
            },
            Some(v) => {
                if !v.mutable {
                    return Err(Error::ItsAConstant(ItsAConstantError { var_name: a }));
                }
                match &v.value {
                    Value::Number(n) => (*n, v.type_, v.mutable),
                    other => {
                        return Err(
                            Error::TypeMismatch(
                                TypeMismatchError { expected: Type::Int, found: other.get_type() },
                            ),
                        );
                    },
                }
            },
        };
        let computed = match op {
            IOpType::IAdd => n.checked_add(rhs),
            IOpType::ISub => n.checked_sub(rhs),
            IOpType::IMul => n.checked_mul(rhs),
            IOpType::IDiv => n.checked_div(rhs),
        };
        let result = match computed {
            Some(result) => result,
            None => {
                return Err(Error::Arithmetic(ArithmeticError { var_name: a }));
            },
        };
        let produced = Value::Number(result).get_type();
        if produced != declared {
            return Err(
                Error::TypeMismatch(TypeMismatchError { expected: declared, found: produced }),
            );
        }
        self.set_ident(
            Ident(a),
            Var { value: Value::Number(result), type_: declared, mutable: mutable },
        );
        Ok(Value::Unit)
    }

    /// `a += b`.
    pub fn iadd(&mut self, a: String, b: Value) -> (r: Result<Value, Error>)
        requires
            old(self).wf(),
        ensures
            final(self).wf(),
            (r, final(self)@) == iop_step(old(self)@, a, b, IOpType::IAdd),
    {
        self.apply_iop(a, b, IOpType::IAdd)
    }

    /// `a -= b`.
    pub fn isub(&mut self, a: String, b: Value) -> (r: Result<Value, Error>)
        requires
            old(self).wf(),
        ensures
            final(self).wf(),
            (r, final(self)@) == iop_step(old(self)@, a, b, IOpType::ISub),
    {
        self.apply_iop(a, b, IOpType::ISub)
    }

    /// `a *= b`.
    pub fn imul(&mut self, a: String, b: Value) -> (r: Result<Value, Error>)
        requires
            old(self).wf(),
        ensures
            final(self).wf(),
            (r, final(self)@) == iop_step(old(self)@, a, b, IOpType::IMul),
    {
        self.apply_iop(a, b, IOpType::IMul)
    }

    /// `a /= b`; the quotient is truncated toward zero.
    pub fn idiv(&mut self, a: String, b: Value) -> (r: Result<Value, Error>)
        requires
            old(self).wf(),
        ensures
            final(self).wf(),
            (r, final(self)@) == iop_step(old(self)@, a, b, IOpType::IDiv),
    {
        self.apply_iop(a, b, IOpType::IDiv)
    }
}

impl Clone for Vm {
    fn clone(&self) -> (r: Self)
        ensures
            r@ == self@,
    {
        self.snapshot()
    }
}

} // verus!
