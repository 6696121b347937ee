//! A builder for debugging: it takes the claims on field values.
//!
//! It evaluates each expression as it is built, keeps the bus messages, and
//! tells whether every equality stated so far holds.

use crate::air::{claims_hold, lemma_push_claim, received, select_claims, sent, BusMessage, Claim,
    RecursionAirBuilder, Term};
use crate::chip::SelectChip;
use crate::columns::{Address, SelectCols, SelectPreprocessedCols};
use crate::field::Felt;
use vstd::prelude::*;
use vstd::slice::slice_to_vec;

verus! {

/// An expression together with its value.
pub struct Evaluated {
    value: Felt,
    term: Ghost<Term<Felt>>,
}

impl Evaluated {
    #[verifier::type_invariant]
    spec fn evaluated(self) -> bool {
        self.term@.value() == self.value
    }

    /// The expression that was evaluated.
    pub closed spec fn term(self) -> Term<Felt> {
        self.term@
    }

    /// Its value.
    pub fn value(&self) -> (value: Felt)
        ensures
            value == self.term().value(),
    {
        proof {
            use_type_invariant(self);
        }
        self.value
    }
}

/// What the builder keeps of a claim.
enum Entry {
    Receive(BusMessage<Felt>),
    Send(BusMessage<Felt>),
    /// The values of the two sides of an equality.
    Equality(Felt, Felt),
}

/// A claim as it was stated, with what the builder keeps of it.
struct Recorded {
    entry: Entry,
    claim: Ghost<Claim<Felt>>,
}

impl Recorded {
    #[verifier::type_invariant]
    spec fn faithful(self) -> bool {
        match self.entry {
            Entry::Receive(message) => self.claim@ == Claim::Receive(message),
            Entry::Send(message) => self.claim@ == Claim::Send(message),
            Entry::Equality(lhs, rhs) => self.claim@ matches Claim::AssertEq(l, r) && l.value()
                == lhs && r.value() == rhs,
        }
    }
}

/// Takes the claims that a chip states of one row of the main trace and
/// the row of the preprocessed trace beside it, on the values of the rows.
pub struct DebugBuilder {
    main: Vec<Felt>,
    preprocessed: Vec<Felt>,
    log: Vec<Recorded>,
}

impl DebugBuilder {
    /// A builder on the two rows, with nothing stated yet.
    pub fn new(main: Vec<Felt>, preprocessed: Vec<Felt>) -> (builder: Self)
        ensures
            builder.main_local() == main@,
            builder.preprocessed_local() == preprocessed@,
            builder.claims() == Seq::<Claim<Felt>>::empty(),
    {
        let builder = DebugBuilder { main, preprocessed, log: Vec::new() };
        assert(builder.claims() =~= Seq::<Claim<Felt>>::empty());
        builder
    }

    /// Whether every equality stated so far holds.
    pub fn satisfied(&self) -> (yes: bool)
        ensures
            yes == claims_hold(self.claims()),
    {
        let mut yes = true;
        let mut i: usize = 0;
        while i < self.log.len()
            invariant
                i <= self.log@.len(),
                yes == claims_hold(self.claims().take(i as int)),
            decreases self.log@.len() - i,
        {
            let recorded = &self.log[i];
            proof {
                use_type_invariant(recorded);
                assert(self.claims().take(i + 1) =~= self.claims().take(i as int).push(
                    self.claims()[i as int],
                ));
                lemma_push_claim(self.claims().take(i as int), self.claims()[i as int]);
            }
            match recorded.entry {
                Entry::Equality(lhs, rhs) => {
                    yes = yes && lhs == rhs;
                },
                _ => {},
            }
            i = i + 1;
        }
        assert(self.claims().take(i as int) =~= self.claims());
        yes
    }

    /// The messages consumed so far, oldest first.
    pub fn receives(&self) -> (messages: Vec<BusMessage<Felt>>)
        ensures
            messages@ == received(self.claims()),
    {
        let mut messages: Vec<BusMessage<Felt>> = Vec::new();
        let mut i: usize = 0;
        while i < self.log.len()
            invariant
                i <= self.log@.len(),
                messages@ == received(self.claims().take(i as int)),
            decreases self.log@.len() - i,
        {
            let recorded = &self.log[i];
            proof {
                use_type_invariant(recorded);
                assert(self.claims().take(i + 1) =~= self.claims().take(i as int).push(
                    self.claims()[i as int],
                ));
                lemma_push_claim(self.claims().take(i as int), self.claims()[i as int]);
            }
            match recorded.entry {
                Entry::Receive(message) => {
                    messages.push(message);
                },
                _ => {},
            }
            i = i + 1;
        }
        assert(self.claims().take(i as int) =~= self.claims());
        messages
    }

    /// The messages supplied so far, oldest first.
    pub fn sends(&self) -> (messages: Vec<BusMessage<Felt>>)
        ensures
            messages@ == sent(self.claims()),
    {
        let mut messages: Vec<BusMessage<Felt>> = Vec::new();
        let mut i: usize = 0;
        while i < self.log.len()
            invariant
                i <= self.log@.len(),
                messages@ == sent(self.claims().take(i as int)),
            decreases self.log@.len() - i,
        {
            let recorded = &self.log[i];
            proof {
                use_type_invariant(recorded);
                assert(self.claims().take(i + 1) =~= self.claims().take(i as int).push(
                    self.claims()[i as int],
                ));
                lemma_push_claim(self.claims().take(i as int), self.claims()[i as int]);
            }
            match recorded.entry {
                Entry::Send(message) => {
                    messages.push(message);
                },
                _ => {},
            }
            i = i + 1;
        }
        assert(self.claims().take(i as int) =~= self.claims());
        messages
    }
}

impl RecursionAirBuilder for DebugBuilder {
    type Var = Felt;

    type Expr = Evaluated;

    closed spec fn main_local(&self) -> Seq<Felt> {
        self.main@
    }

    closed spec fn preprocessed_local(&self) -> Seq<Felt> {
        self.preprocessed@
    }

    closed spec fn claims(&self) -> Seq<Claim<Felt>> {
        Seq::new(self.log@.len(), |i: int| self.log@[i].claim@)
    }

    open spec fn term(expr: Evaluated) -> Term<Felt> {
        expr.term()
    }

    fn main_row(&self) -> (row: Vec<Felt>) {
        self.main.clone()
    }

    fn preprocessed_row(&self) -> (row: Vec<Felt>) {
        self.preprocessed.clone()
    }

    fn one(&self) -> (expr: Evaluated) {
        Evaluated { value: Felt::one(), term: Ghost(Term::One) }
    }

    fn var(&self, v: Felt) -> (expr: Evaluated) {
        Evaluated { value: v, term: Ghost(Term::Var(v)) }
    }

    fn add(&self, lhs: Evaluated, rhs: Evaluated) -> (expr: Evaluated) {
        proof {
            use_type_invariant(&lhs);
            use_type_invariant(&rhs);
        }
        Evaluated {
            value: lhs.value.add(rhs.value),
            term: Ghost(Term::Add(Box::new(lhs.term@), Box::new(rhs.term@))),
        }
    }

    fn sub(&self, lhs: Evaluated, rhs: Evaluated) -> (expr: Evaluated) {
        proof {
            use_type_invariant(&lhs);
            use_type_invariant(&rhs);
        }
        Evaluated {
            value: lhs.value.sub(rhs.value),
            term: Ghost(Term::Sub(Box::new(lhs.term@), Box::new(rhs.term@))),
        }
    }

    fn mul(&self, lhs: Evaluated, rhs: Evaluated) -> (expr: Evaluated) {
        proof {
            use_type_invariant(&lhs);
            use_type_invariant(&rhs);
        }
        Evaluated {
            value: lhs.value.mul(rhs.value),
            term: Ghost(Term::Mul(Box::new(lhs.term@), Box::new(rhs.term@))),
        }
    }

    fn receive_single(&mut self, addr: Address<Felt>, val: Felt, mult: Felt) {
        let message = BusMessage { addr, value: val, mult };
        let ghost claim = Claim::Receive(message);
        self.log.push(Recorded { entry: Entry::Receive(message), claim: Ghost(claim) });
        assert(self.claims() =~= old(self).claims().push(claim));
    }

    fn send_single(&mut self, addr: Address<Felt>, val: Felt, mult: Felt) {
        let message = BusMessage { addr, value: val, mult };
        let ghost claim = Claim::Send(message);
        self.log.push(Recorded { entry: Entry::Send(message), claim: Ghost(claim) });
        assert(self.claims() =~= old(self).claims().push(claim));
    }

    fn assert_eq(&mut self, lhs: Evaluated, rhs: Evaluated) {
        proof {
            use_type_invariant(&lhs);
            use_type_invariant(&rhs);
        }
        let ghost claim = Claim::AssertEq(lhs.term@, rhs.term@);
        self.log.push(
            Recorded { entry: Entry::Equality(lhs.value, rhs.value), claim: Ghost(claim) },
        );
        assert(self.claims() =~= old(self).claims().push(claim));
    }
}

impl SelectChip {
    /// Whether the chip's equalities hold on a row of the main trace and
    /// the row of the preprocessed trace beside it.
    pub fn holds_on(&self, local: &SelectCols<Felt>, prep: &SelectPreprocessedCols<Felt>) -> (yes:
        bool)
        ensures
            yes == claims_hold(select_claims(*local, *prep)),
    {
        let main = local.to_row();
        let preprocessed = prep.to_row();
        let mut builder = DebugBuilder::new(
            slice_to_vec(main.as_slice()),
            slice_to_vec(preprocessed.as_slice()),
        );
        self.eval(&mut builder);
        assert(builder.claims() =~= select_claims(*local, *prep));
        builder.satisfied()
    }
}

} // verus!
