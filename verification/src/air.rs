//! The constraints of the SELECT chip.
//!
//! The chip states its constraints to a builder: bus messages, which the
//! proving backend balances across all chips, and equalities between
//! expressions over the cells of a row. What has been stated is a sequence of
//! claims, and the evaluator's contract is that sequence.

use crate::chip::SelectChip;
use crate::columns::{Address, SelectCols, SelectPreprocessedCols, SELECT_COLS,
    SELECT_PREPROCESSED_COLS};
use crate::field::Felt;
use vstd::prelude::*;

verus! {

/// An expression over variables of type `V`.
pub enum Term<V> {
    One,
    Var(V),
    Add(Box<Term<V>>, Box<Term<V>>),
    Sub(Box<Term<V>>, Box<Term<V>>),
    Mul(Box<Term<V>>, Box<Term<V>>),
}

/// A message on the memory bus: `mult` units of the pair of `addr` and
/// `value`.
#[derive(Clone, Copy, Debug, PartialEq, Eq)]
pub struct BusMessage<V> {
    pub addr: Address<V>,
    pub value: V,
    pub mult: V,
}

/// One thing that a chip states of a row.
pub enum Claim<V> {
    /// The row consumes the message.
    Receive(BusMessage<V>),
    /// The row supplies the message.
    Send(BusMessage<V>),
    /// The two expressions are equal.
    AssertEq(Term<V>, Term<V>),
}

impl Term<Felt> {
    /// The value of the expression where each variable is the field element
    /// that it holds.
    pub open spec fn value(self) -> Felt
        decreases self,
    {
        match self {
            Term::One => Felt::spec_one(),
            Term::Var(v) => v,
            Term::Add(lhs, rhs) => lhs.value().spec_add(rhs.value()),
            Term::Sub(lhs, rhs) => lhs.value().spec_sub(rhs.value()),
            Term::Mul(lhs, rhs) => lhs.value().spec_mul(rhs.value()),
        }
    }
}

/// The claim is met on field values: an equality holds, and a bus message
/// asks nothing of the row itself.
pub open spec fn claim_holds(claim: Claim<Felt>) -> bool {
    match claim {
        Claim::AssertEq(lhs, rhs) => lhs.value() == rhs.value(),
        Claim::Receive(_) => true,
        Claim::Send(_) => true,
    }
}

/// Every claim is met.
pub open spec fn claims_hold(claims: Seq<Claim<Felt>>) -> bool {
    forall|i: int| 0 <= i < claims.len() ==> claim_holds(#[trigger] claims[i])
}

/// The messages that the claims consume, oldest first.
pub open spec fn received<V>(claims: Seq<Claim<V>>) -> Seq<BusMessage<V>>
    decreases claims.len(),
{
    if claims.len() == 0 {
        Seq::empty()
    } else {
        let before = received(claims.drop_last());
        match claims.last() {
            Claim::Receive(message) => before.push(message),
            _ => before,
        }
    }
}

/// The messages that the claims supply, oldest first.
pub open spec fn sent<V>(claims: Seq<Claim<V>>) -> Seq<BusMessage<V>>
    decreases claims.len(),
{
    if claims.len() == 0 {
        Seq::empty()
    } else {
        let before = sent(claims.drop_last());
        match claims.last() {
            Claim::Send(message) => before.push(message),
            _ => before,
        }
    }
}

/// Stating one more claim: the messages grow by it where it is one, and all
/// claims hold exactly when they held before and the new one holds.
pub proof fn lemma_push_claim(claims: Seq<Claim<Felt>>, claim: Claim<Felt>)
    ensures
        claims_hold(claims.push(claim)) == (claims_hold(claims) && claim_holds(claim)),
        received(claims.push(claim)) == match claim {
            Claim::Receive(message) => received(claims).push(message),
            _ => received(claims),
        },
        sent(claims.push(claim)) == match claim {
            Claim::Send(message) => sent(claims).push(message),
            _ => sent(claims),
        },
{
    let pushed = claims.push(claim);
    assert(pushed.drop_last() =~= claims);
    assert(pushed.last() == claim);
    if claims_hold(claims) && claim_holds(claim) {
        assert forall|i: int| 0 <= i < pushed.len() implies claim_holds(#[trigger] pushed[i]) by {
            if i < claims.len() {
                assert(pushed[i] == claims[i]);
            }
        }
    }
    if claims_hold(pushed) {
        assert(claim_holds(pushed[claims.len() as int]));
        assert forall|i: int| 0 <= i < claims.len() implies claim_holds(#[trigger] claims[i]) by {
            assert(pushed[i] == claims[i]);
        }
    }
}

/// What the evaluator asks of a proving backend: the current row of each
/// trace, expressions over its cells, and a sink for claims.
pub trait RecursionAirBuilder {
    /// A cell of a row.
    type Var: Copy;

    /// An expression over cells.
    type Expr;

    /// The current row of the main trace.
    spec fn main_local(&self) -> Seq<Self::Var>;

    /// The current row of the preprocessed trace.
    spec fn preprocessed_local(&self) -> Seq<Self::Var>;

    /// The claims stated so far, oldest first.
    spec fn claims(&self) -> Seq<Claim<Self::Var>>;

    /// The expression that `expr` stands for.
    spec fn term(expr: Self::Expr) -> Term<Self::Var>;

    fn main_row(&self) -> (row: Vec<Self::Var>)
        ensures
            row@ == self.main_local(),
    ;

    fn preprocessed_row(&self) -> (row: Vec<Self::Var>)
        ensures
            row@ == self.preprocessed_local(),
    ;

    fn one(&self) -> (expr: Self::Expr)
        ensures
            Self::term(expr) == Term::<Self::Var>::One,
    ;

    fn var(&self, v: Self::Var) -> (expr: Self::Expr)
        ensures
            Self::term(expr) == Term::Var(v),
    ;

    fn add(&self, lhs: Self::Expr, rhs: Self::Expr) -> (expr: Self::Expr)
        ensures
            Self::term(expr) == Term::Add(Box::new(Self::term(lhs)), Box::new(Self::term(rhs))),
    ;

    fn sub(&self, lhs: Self::Expr, rhs: Self::Expr) -> (expr: Self::Expr)
        ensures
            Self::term(expr) == Term::Sub(Box::new(Self::term(lhs)), Box::new(Self::term(rhs))),
    ;

    fn mul(&self, lhs: Self::Expr, rhs: Self::Expr) -> (expr: Self::Expr)
        ensures
            Self::term(expr) == Term::Mul(Box::new(Self::term(lhs)), Box::new(Self::term(rhs))),
    ;

    /// Consumes `mult` units of the pair of `addr` and `val`.
    fn receive_single(&mut self, addr: Address<Self::Var>, val: Self::Var, mult: Self::Var)
        ensures
            final(self).claims() == old(self).claims().push(
                Claim::Receive(BusMessage { addr, value: val, mult }),
            ),
            final(self).main_local() == old(self).main_local(),
            final(self).preprocessed_local() == old(self).preprocessed_local(),
    ;

    /// Supplies `mult` units of the pair of `addr` and `val`.
    fn send_single(&mut self, addr: Address<Self::Var>, val: Self::Var, mult: Self::Var)
        ensures
            final(self).claims() == old(self).claims().push(
                Claim::Send(BusMessage { addr, value: val, mult }),
            ),
            final(self).main_local() == old(self).main_local(),
            final(self).preprocessed_local() == old(self).preprocessed_local(),
    ;

    /// States that `lhs` and `rhs` are equal.
    fn assert_eq(&mut self, lhs: Self::Expr, rhs: Self::Expr)
        ensures
            final(self).claims() == old(self).claims().push(
                Claim::AssertEq(Self::term(lhs), Self::term(rhs)),
            ),
            final(self).main_local() == old(self).main_local(),
            final(self).preprocessed_local() == old(self).preprocessed_local(),
    ;
}

/// `bit * on_one + (1 - bit) * on_zero`: `on_one` where `bit` is one,
/// `on_zero` where it is zero.
pub open spec fn selection<V>(bit: V, on_one: V, on_zero: V) -> Term<V> {
    Term::Add(
        Box::new(Term::Mul(Box::new(Term::Var(bit)), Box::new(Term::Var(on_one)))),
        Box::new(
            Term::Mul(
                Box::new(Term::Sub(Box::new(Term::One), Box::new(Term::Var(bit)))),
                Box::new(Term::Var(on_zero)),
            ),
        ),
    )
}

/// The claims of the chip on one row pair, in the order in which they are
/// stated: the three operands read are consumed under `is_real`, the two
/// outputs are supplied under their multiplicities, and each output equals
/// its selection.
pub open spec fn select_claims<V: Copy>(
    local: SelectCols<V>,
    prep: SelectPreprocessedCols<V>,
) -> Seq<Claim<V>> {
    seq![
        Claim::Receive(
            BusMessage { addr: prep.addrs.bit, value: local.vals.bit, mult: prep.is_real },
        ),
        Claim::Receive(
            BusMessage { addr: prep.addrs.in1, value: local.vals.in1, mult: prep.is_real },
        ),
        Claim::Receive(
            BusMessage { addr: prep.addrs.in2, value: local.vals.in2, mult: prep.is_real },
        ),
        Claim::Send(BusMessage { addr: prep.addrs.out1, value: local.vals.out1, mult: prep.mult1 }),
        Claim::Send(BusMessage { addr: prep.addrs.out2, value: local.vals.out2, mult: prep.mult2 }),
        Claim::AssertEq(
            Term::Var(local.vals.out1),
            selection(local.vals.bit, local.vals.in2, local.vals.in1),
        ),
        Claim::AssertEq(
            Term::Var(local.vals.out2),
            selection(local.vals.bit, local.vals.in1, local.vals.in2),
        ),
    ]
}

impl SelectChip {
    /// States the chip's claims on the builder's current rows.
    ///
    /// Nothing is claimed of the bit itself: that it is zero or one is owed
    /// by whoever supplied it to the bus.
    pub fn eval<AB: RecursionAirBuilder>(&self, builder: &mut AB)
        requires
            old(builder).main_local().len() == SELECT_COLS,
            old(builder).preprocessed_local().len() == SELECT_PREPROCESSED_COLS,
        ensures
            final(builder).claims() == old(builder).claims() + select_claims(
                SelectCols::spec_from_row(old(builder).main_local()),
                SelectPreprocessedCols::spec_from_row(old(builder).preprocessed_local()),
            ),
            final(builder).main_local() == old(builder).main_local(),
            final(builder).preprocessed_local() == old(builder).preprocessed_local(),
    {
        let main = builder.main_row();
        let local = SelectCols::from_row(main.as_slice());
        let prep = builder.preprocessed_row();
        let prep_local = SelectPreprocessedCols::from_row(prep.as_slice());

        builder.receive_single(prep_local.addrs.bit, local.vals.bit, prep_local.is_real);
        builder.receive_single(prep_local.addrs.in1, local.vals.in1, prep_local.is_real);
        builder.receive_single(prep_local.addrs.in2, local.vals.in2, prep_local.is_real);
        builder.send_single(prep_local.addrs.out1, local.vals.out1, prep_local.mult1);
        builder.send_single(prep_local.addrs.out2, local.vals.out2, prep_local.mult2);

        let swapped = builder.mul(builder.var(local.vals.bit), builder.var(local.vals.in2));
        let not_bit = builder.sub(builder.one(), builder.var(local.vals.bit));
        let kept = builder.mul(not_bit, builder.var(local.vals.in1));
        let selected = builder.add(swapped, kept);
        builder.assert_eq(builder.var(local.vals.out1), selected);

        let kept = builder.mul(builder.var(local.vals.bit), builder.var(local.vals.in1));
        let not_bit = builder.sub(builder.one(), builder.var(local.vals.bit));
        let swapped = builder.mul(not_bit, builder.var(local.vals.in2));
        let selected = builder.add(kept, swapped);
        builder.assert_eq(builder.var(local.vals.out2), selected);

        assert(builder.claims() =~= old(builder).claims() + select_claims(local, prep_local));
    }
}

} // verus!
