use vstd::prelude::*;

use crate::expr::Expr;

verus! {

/// The type tag of a runtime value.
#[derive(Clone, Copy, Debug, PartialEq, Eq, Structural)]
pub enum Type {
    Int,
    Str,
    Func,
    Unit,
}

/// A name under which a binding is stored; compared by its exact text.
#[derive(Clone, Debug)]
pub struct Ident(pub String);

/// The declared parameter names of a function, in order.
#[derive(Debug)]
pub enum ParamList {
    End,
    Param(String, Box<ParamList>),
}

impl View for ParamList {
    type V = Seq<Seq<char>>;

    open spec fn view(&self) -> Seq<Seq<char>>
        decreases self,
    {
        match self {
            ParamList::End => Seq::empty(),
            ParamList::Param(p, rest) => seq![p@] + (**rest).view(),
        }
    }
}

impl ParamList {
    /// The parameter list holding the given names, in the same order.
    pub fn from_names(names: &Vec<String>) -> (r: ParamList)
        ensures
            r@ == names@.map_values(|s: String| s@),
    {
        let mut r = ParamList::End;
        let mut i: usize = names.len();
        while i > 0
            invariant
                i <= names.len(),
                r@ == names@.subrange(i as int, names.len() as int).map_values(|s: String| s@),
            decreases i,
        {
            i = i - 1;
            r = ParamList::Param(names[i].clone(), Box::new(r));
            assert(r@ =~= names@.subrange(i as int, names.len() as int).map_values(
                |s: String| s@,
            ));
        }
        assert(names@.subrange(0, names.len() as int) =~= names@);
        r
    }

    /// A copy equal to this list.
    pub fn duplicate(&self) -> (r: ParamList)
        ensures
            r == *self,
        decreases self,
    {
        match self {
            ParamList::End => ParamList::End,
            ParamList::Param(p, rest) => ParamList::Param(p.clone(), Box::new(rest.duplicate())),
        }
    }
}

/// The functions installed in every fresh environment.
#[derive(Clone, Copy, Debug, PartialEq, Eq, Structural)]
pub enum Builtin {
    Min,
    Max,
}

impl Builtin {
    pub open spec fn spec_name(self) -> Seq<char> {
        match self {
            Builtin::Min => seq!['m', 'i', 'n'],
            Builtin::Max => seq!['m', 'a', 'x'],
        }
    }

    /// Both builtins take two numbers, `a` and `b`.
    pub open spec fn spec_params(self) -> Seq<Seq<char>> {
        seq![seq!['a'], seq!['b']]
    }

    /// The name under which this builtin is installed.
    pub fn name(&self) -> (r: String)
        ensures
            r@ == self.spec_name(),
    {
        match self {
            Builtin::Min => {
                proof {
                    reveal_strlit("min");
                }
                "min".to_owned()
            },
            Builtin::Max => {
                proof {
                    reveal_strlit("max");
                }
                "max".to_owned()
            },
        }
    }

    /// The declared parameters of this builtin.
    pub fn params(&self) -> (r: ParamList)
        ensures
            r@ == self.spec_params(),
    {
        proof {
            reveal_strlit("a");
            reveal_strlit("b");
        }
        let b = "b".to_owned();
        assert(b@ == seq!['b']);
        let end = ParamList::End;
        assert(end@ == Seq::<Seq<char>>::empty());
        let tail = ParamList::Param(b, Box::new(end));
        assert(tail@ =~= seq![seq!['b']]);
        let a = "a".to_owned();
        assert(a@ == seq!['a']);
        let r = ParamList::Param(a, Box::new(tail));
        assert(r@ =~= self.spec_params());
        r
    }
}

/// The body of a function value: a native builtin or an expression.
#[derive(Debug)]
pub enum Function {
    Builtin(Builtin),
    User(Box<Expr>),
}

impl Function {
    /// A copy equal to this function.
    pub fn duplicate(&self) -> (r: Function)
        ensures
            r == *self,
    {
        match self {
            Function::Builtin(b) => Function::Builtin(*b),
            Function::User(body) => Function::User(Box::new(body.duplicate())),
        }
    }
}

/// A runtime value. Values are never changed in place.
#[derive(Debug)]
pub enum Value {
    Number(i64),
    Str(String),
    Function { name: String, func: Function, args: ParamList },
    Unit,
}

impl Value {
    pub open spec fn type_of(self) -> Type {
        match self {
            Value::Number(_) => Type::Int,
            Value::Str(_) => Type::Str,
            Value::Function { .. } => Type::Func,
            Value::Unit => Type::Unit,
        }
    }

    /// The type tag of this value.
    pub fn get_type(&self) -> (r: Type)
        ensures
            r == self.type_of(),
    {
        match self {
            Value::Number(_) => Type::Int,
            Value::Str(_) => Type::Str,
            Value::Function { .. } => Type::Func,
            Value::Unit => Type::Unit,
        }
    }

    /// A copy equal to this value.
    pub fn duplicate(&self) -> (r: Value)
        ensures
            r == *self,
    {
        match self {
            Value::Number(n) => Value::Number(*n),
            Value::Str(s) => Value::Str(s.clone()),
            Value::Function { name, func, args } => Value::Function {
                name: name.clone(),
                func: func.duplicate(),
                args: args.duplicate(),
            },
            Value::Unit => Value::Unit,
        }
    }
}

/// A binding: a value with the type it was declared with and whether it may
/// be updated.
#[derive(Debug)]
pub struct Var {
    pub value: Value,
    pub type_: Type,
    pub mutable: bool,
}

impl Var {
    /// A copy equal to this binding.
    pub fn duplicate(&self) -> (r: Var)
        ensures
            r == *self,
    {
        Var { value: self.value.duplicate(), type_: self.type_, mutable: self.mutable }
    }
}

impl Clone for ParamList {
    fn clone(&self) -> (r: Self)
        ensures
            r == *self,
    {
        self.duplicate()
    }
}
impl Clone for Function {
    fn clone(&self) -> (r: Self)
        ensures
            r == *self,
    {
        self.duplicate()
    }
}
impl Clone for Value {
    fn clone(&self) -> (r: Self)
        ensures
            r == *self,
    {
        self.duplicate()
    }
}
impl Clone for Var {
    fn clone(&self) -> (r: Self)
        ensures
            r == *self,
    {
        self.duplicate()
    }
}
} // verus!
