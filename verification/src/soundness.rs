//! What the chip's claims say of field values.
//!
//! On a row whose bit is zero or one, the two equalities hold exactly when
//! the outputs are the selected inputs. On a row of zeros they hold and no
//! bus message has weight.

use crate::air::{claim_holds, claims_hold, received, select_claims, selection, sent, BusMessage,
    Term};
use crate::columns::{SelectCols, SelectIo, SelectPreprocessedCols, SELECT_COLS,
    SELECT_PREPROCESSED_COLS};
use crate::field::Felt;
use crate::trace::zero_cells;
use vstd::prelude::*;

verus! {

/// Every operand is a canonical field element.
pub open spec fn canonical_vals(vals: SelectIo<Felt>) -> bool {
    &&& vals.bit.is_canonical()
    &&& vals.in1.is_canonical()
    &&& vals.in2.is_canonical()
    &&& vals.out1.is_canonical()
    &&& vals.out2.is_canonical()
}

/// The outputs of SELECT: the inputs swapped where `bit` is one, the inputs
/// as they are where it is not.
pub open spec fn selected(bit: Felt, in1: Felt, in2: Felt) -> (Felt, Felt) {
    if bit == Felt::spec_one() {
        (in2, in1)
    } else {
        (in1, in2)
    }
}

/// On a bit that is zero or one, a selection has the value of the operand
/// that the bit picks.
pub proof fn lemma_selection_value(bit: Felt, on_one: Felt, on_zero: Felt)
    requires
        on_one.is_canonical(),
        on_zero.is_canonical(),
        bit == Felt::spec_zero() || bit == Felt::spec_one(),
    ensures
        selection(bit, on_one, on_zero).value() == if bit == Felt::spec_one() {
            on_one
        } else {
            on_zero
        },
{
    reveal_with_fuel(Term::value, 5);
    Felt::lemma_zero_one();
    Felt::lemma_zero_one_laws(on_one);
    Felt::lemma_zero_one_laws(on_zero);
}

/// The bus messages among the chip's claims: the three operands read are
/// consumed, the two outputs are supplied.
pub proof fn lemma_select_messages<V: Copy>(local: SelectCols<V>, prep: SelectPreprocessedCols<V>)
    ensures
        received(select_claims(local, prep)) == seq![
            BusMessage { addr: prep.addrs.bit, value: local.vals.bit, mult: prep.is_real },
            BusMessage { addr: prep.addrs.in1, value: local.vals.in1, mult: prep.is_real },
            BusMessage { addr: prep.addrs.in2, value: local.vals.in2, mult: prep.is_real },
        ],
        sent(select_claims(local, prep)) == seq![
            BusMessage { addr: prep.addrs.out1, value: local.vals.out1, mult: prep.mult1 },
            BusMessage { addr: prep.addrs.out2, value: local.vals.out2, mult: prep.mult2 },
        ],
{
    let claims = select_claims(local, prep);
    let c0 = claims.take(0);
    let c1 = claims.take(1);
    let c2 = claims.take(2);
    let c3 = claims.take(3);
    let c4 = claims.take(4);
    let c5 = claims.take(5);
    let c6 = claims.take(6);
    assert(c1.drop_last() =~= c0);
    assert(c2.drop_last() =~= c1);
    assert(c3.drop_last() =~= c2);
    assert(c4.drop_last() =~= c3);
    assert(c5.drop_last() =~= c4);
    assert(c6.drop_last() =~= c5);
    assert(claims.drop_last() =~= c6);
    assert(received(c0) =~= Seq::empty());
    assert(sent(c0) =~= Seq::empty());
    assert(received(c1) =~= seq![claims[0]->Receive_0]);
    assert(received(c2) =~= seq![claims[0]->Receive_0, claims[1]->Receive_0]);
    assert(received(c3) =~= seq![
        claims[0]->Receive_0,
        claims[1]->Receive_0,
        claims[2]->Receive_0,
    ]);
    assert(sent(c1) =~= Seq::empty());
    assert(sent(c2) =~= Seq::empty());
    assert(sent(c3) =~= Seq::empty());
    assert(sent(c4) =~= seq![claims[3]->Send_0]);
    assert(sent(c5) =~= seq![claims[3]->Send_0, claims[4]->Send_0]);
    assert(received(c4) =~= received(c3));
    assert(received(c5) =~= received(c3));
    assert(received(c6) =~= received(c3));
    assert(sent(c6) =~= sent(c5));
    assert(received(claims) =~= received(c3));
    assert(sent(claims) =~= sent(c5));
}

/// The chip's claims hold on field values exactly when each output has the
/// value of its selection.
pub proof fn lemma_select_identities(local: SelectCols<Felt>, prep: SelectPreprocessedCols<Felt>)
    ensures
        claims_hold(select_claims(local, prep)) <==> {
            &&& local.vals.out1 == selection(local.vals.bit, local.vals.in2, local.vals.in1).value()
            &&& local.vals.out2 == selection(local.vals.bit, local.vals.in1, local.vals.in2).value()
        },
{
    let claims = select_claims(local, prep);
    reveal_with_fuel(Term::value, 2);
    if claims_hold(claims) {
        assert(claim_holds(claims[5]));
        assert(claim_holds(claims[6]));
    }
}

/// Where the bit is zero or one, the chip's equalities accept the outputs
/// that SELECT gives for the bit and the inputs, and no others.
pub proof fn lemma_selection_correct(local: SelectCols<Felt>, prep: SelectPreprocessedCols<Felt>)
    requires
        canonical_vals(local.vals),
        local.vals.bit == Felt::spec_zero() || local.vals.bit == Felt::spec_one(),
    ensures
        claims_hold(select_claims(local, prep)) <==> (local.vals.out1, local.vals.out2) == selected(
            local.vals.bit,
            local.vals.in1,
            local.vals.in2,
        ),
{
    lemma_select_identities(local, prep);
    lemma_selection_value(local.vals.bit, local.vals.in2, local.vals.in1);
    lemma_selection_value(local.vals.bit, local.vals.in1, local.vals.in2);
}

/// A row of zeros beside a row of zeros meets every claim of the chip, and
/// each bus message of the pair has weight zero.
pub proof fn lemma_padding_row_sound()
    ensures
        ({
            let local = SelectCols::spec_from_row(zero_cells(SELECT_COLS as nat));
            let prep = SelectPreprocessedCols::spec_from_row(
                zero_cells(SELECT_PREPROCESSED_COLS as nat),
            );
            let claims = select_claims(local, prep);
            &&& claims_hold(claims)
            &&& forall|i: int|
                0 <= i < received(claims).len() ==> (#[trigger] received(claims)[i]).mult
                    == Felt::spec_zero()
            &&& forall|i: int|
                0 <= i < sent(claims).len() ==> (#[trigger] sent(claims)[i]).mult
                    == Felt::spec_zero()
        }),
{
    let local = SelectCols::spec_from_row(zero_cells(SELECT_COLS as nat));
    let prep = SelectPreprocessedCols::spec_from_row(zero_cells(SELECT_PREPROCESSED_COLS as nat));
    Felt::lemma_zero_one();
    lemma_selection_correct(local, prep);
    lemma_select_messages(local, prep);
}

} // verus!
