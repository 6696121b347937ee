//! Driving a proving backend of which nothing is known.
//!
//! A backend takes the chip's claims in its own types and does with them
//! what it does: it may fold them into a quotient, count degrees, or test
//! them on values. `Recording` puts such a backend behind the builder that
//! the chip asks for, hands every call on to it unchanged, and keeps the
//! sequence of claims that were handed on.

use crate::air::{BusMessage, Claim, RecursionAirBuilder, Term};
use crate::columns::Address;
use vstd::prelude::*;
use vstd::slice::slice_to_vec;

verus! {

/// What a proving backend takes from a chip. No method promises anything.
pub trait Backend {
    /// A cell of a row.
    type Var: Copy;

    /// An expression over cells.
    type Expr;

    fn one(&self) -> Self::Expr;

    fn var(&self, v: Self::Var) -> Self::Expr;

    fn add(&self, lhs: Self::Expr, rhs: Self::Expr) -> Self::Expr;

    fn sub(&self, lhs: Self::Expr, rhs: Self::Expr) -> Self::Expr;

    fn mul(&self, lhs: Self::Expr, rhs: Self::Expr) -> Self::Expr;

    /// Consumes `mult` units of the pair of `addr` and `val`.
    fn receive_single(&mut self, addr: Address<Self::Var>, val: Self::Var, mult: Self::Var);

    /// Supplies `mult` units of the pair of `addr` and `val`.
    fn send_single(&mut self, addr: Address<Self::Var>, val: Self::Var, mult: Self::Var);

    /// States that `lhs` and `rhs` are equal.
    fn assert_eq(&mut self, lhs: Self::Expr, rhs: Self::Expr);
}

/// An expression of a backend, with the term that it was built as.
pub struct Built<B: Backend> {
    expr: B::Expr,
    term: Ghost<Term<B::Var>>,
}

impl<B: Backend> Built<B> {
    /// The term that the expression was built as.
    pub closed spec fn term(self) -> Term<B::Var> {
        self.term@
    }
}

/// A backend and the rows that it is at, together with the claims that were
/// stated to it.
pub struct Recording<B: Backend> {
    backend: B,
    main: Vec<B::Var>,
    preprocessed: Vec<B::Var>,
    claims: Ghost<Seq<Claim<B::Var>>>,
}

impl<B: Backend> Recording<B> {
    /// The backend as it is now.
    pub closed spec fn backend(&self) -> B {
        self.backend
    }

    /// Nothing is stated yet. `main` and `preprocessed` are the rows that
    /// `backend` is at.
    pub fn new(backend: B, main: Vec<B::Var>, preprocessed: Vec<B::Var>) -> (recording: Self)
        ensures
            recording.backend() == backend,
            recording.main_local() == main@,
            recording.preprocessed_local() == preprocessed@,
            recording.claims() == Seq::<Claim<B::Var>>::empty(),
    {
        Recording { backend, main, preprocessed, claims: Ghost(Seq::empty()) }
    }

    /// Whether the current rows have `main` and `preprocessed` cells.
    pub fn has_widths(&self, main: usize, preprocessed: usize) -> (yes: bool)
        ensures
            yes == (self.main_local().len() == main && self.preprocessed_local().len()
                == preprocessed),
    {
        self.main.len() == main && self.preprocessed.len() == preprocessed
    }

    /// The backend, after all that was stated to it.
    pub fn into_backend(self) -> (backend: B)
        ensures
            backend == self.backend(),
    {
        self.backend
    }
}

impl<B: Backend> RecursionAirBuilder for Recording<B> {
    type Var = B::Var;

    type Expr = Built<B>;

    closed spec fn main_local(&self) -> Seq<B::Var> {
        self.main@
    }

    closed spec fn preprocessed_local(&self) -> Seq<B::Var> {
        self.preprocessed@
    }

    closed spec fn claims(&self) -> Seq<Claim<B::Var>> {
        self.claims@
    }

    open spec fn term(expr: Built<B>) -> Term<B::Var> {
        expr.term()
    }

    fn main_row(&self) -> (row: Vec<B::Var>) {
        slice_to_vec(self.main.as_slice())
    }

    fn preprocessed_row(&self) -> (row: Vec<B::Var>) {
        slice_to_vec(self.preprocessed.as_slice())
    }

    fn one(&self) -> (expr: Built<B>) {
        Built { expr: self.backend.one(), term: Ghost(Term::One) }
    }

    fn var(&self, v: B::Var) -> (expr: Built<B>) {
        Built { expr: self.backend.var(v), term: Ghost(Term::Var(v)) }
    }

    fn add(&self, lhs: Built<B>, rhs: Built<B>) -> (expr: Built<B>) {
        let ghost term = Term::Add(Box::new(lhs.term@), Box::new(rhs.term@));
        Built { expr: self.backend.add(lhs.expr, rhs.expr), term: Ghost(term) }
    }

    fn sub(&self, lhs: Built<B>, rhs: Built<B>) -> (expr: Built<B>) {
        let ghost term = Term::Sub(Box::new(lhs.term@), Box::new(rhs.term@));
        Built { expr: self.backend.sub(lhs.expr, rhs.expr), term: Ghost(term) }
    }

    fn mul(&self, lhs: Built<B>, rhs: Built<B>) -> (expr: Built<B>) {
        let ghost term = Term::Mul(Box::new(lhs.term@), Box::new(rhs.term@));
        Built { expr: self.backend.mul(lhs.expr, rhs.expr), term: Ghost(term) }
    }

    fn receive_single(&mut self, addr: Address<B::Var>, val: B::Var, mult: B::Var) {
        self.backend.receive_single(addr, val, mult);
        self.claims = Ghost(
            self.claims@.push(Claim::Receive(BusMessage { addr, value: val, mult })),
        );
    }

    fn send_single(&mut self, addr: Address<B::Var>, val: B::Var, mult: B::Var) {
        self.backend.send_single(addr, val, mult);
        self.claims = Ghost(self.claims@.push(Claim::Send(BusMessage { addr, value: val, mult })));
    }

    fn assert_eq(&mut self, lhs: Built<B>, rhs: Built<B>) {
        let ghost claim = Claim::AssertEq(lhs.term@, rhs.term@);
        self.backend.assert_eq(lhs.expr, rhs.expr);
        self.claims = Ghost(self.claims@.push(claim));
    }
}

} // verus!
