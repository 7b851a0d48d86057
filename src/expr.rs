use vstd::prelude::*;

use crate::value::Ident;

verus! {

/// The four compound-assignment operators.
#[derive(Clone, Copy, Debug, PartialEq, Eq, Structural)]
pub enum IOpType {
    IAdd,
    ISub,
    IMul,
    IDiv,
}

/// A compound assignment `name op= value`.
#[derive(Debug)]
pub struct IOp {
    pub op: IOpType,
    pub name: String,
    pub value: Box<Expr>,
}

/// An expression or statement of the language.
#[derive(Debug)]
pub enum Expr {
    Number(i64),
    Str(String),
    Unit,
    /// A reference to a bound identifier.
    Ident(Ident),
    /// A declaration: binds `name` to the value, with the value's type.
    Let { name: String, mutable: bool, value: Box<Expr> },
    IOp(IOp),
}

impl Expr {
    /// A copy equal to this expression.
    pub fn duplicate(&self) -> (r: Expr)
        ensures
            r == *self,
        decreases self,
    {
        match self {
            Expr::Number(n) => Expr::Number(*n),
            Expr::Str(s) => Expr::Str(s.clone()),
            Expr::Unit => Expr::Unit,
            Expr::Ident(id) => Expr::Ident(Ident(id.0.clone())),
            Expr::Let { name, mutable, value } => Expr::Let {
                name: name.clone(),
                mutable: *mutable,
                value: Box::new(value.duplicate()),
            },
            Expr::IOp(iop) => Expr::IOp(
                IOp { op: iop.op, name: iop.name.clone(), value: Box::new(iop.value.duplicate()) },
            ),
        }
    }
}

impl Clone for IOp {
    fn clone(&self) -> (r: Self)
        ensures
            r == *self,
    {
        IOp { op: self.op, name: self.name.clone(), value: Box::new(self.value.duplicate()) }
    }
}

impl Clone for Expr {
    fn clone(&self) -> (r: Self)
        ensures
            r == *self,
    {
        self.duplicate()
    }
}
} // verus!
