use select_chip::air::RecursionAirBuilder;
use select_chip::backend::{Backend, Recording};
use select_chip::chip::SelectChip;
use select_chip::columns::Address;

/// A backend whose cells are column names and which writes down, as text,
/// what it is told.
#[derive(Default)]
struct Transcript {
    lines: Vec<String>,
}

fn on_select_rows() -> Recording<Transcript> {
    Recording::new(
        Transcript::default(),
        vec!["bit", "in1", "in2", "out1", "out2"],
        vec!["is_real", "@bit", "@in1", "@in2", "@out1", "@out2", "mult1", "mult2"],
    )
}

impl Backend for Transcript {
    type Var = &'static str;

    type Expr = String;

    fn one(&self) -> String {
        "1".to_string()
    }

    fn var(&self, v: &'static str) -> String {
        v.to_string()
    }

    fn add(&self, lhs: String, rhs: String) -> String {
        format!("({lhs} + {rhs})")
    }

    fn sub(&self, lhs: String, rhs: String) -> String {
        format!("({lhs} - {rhs})")
    }

    fn mul(&self, lhs: String, rhs: String) -> String {
        format!("({lhs} * {rhs})")
    }

    fn receive_single(&mut self, addr: Address<&'static str>, val: &'static str, mult: &'static str) {
        self.lines.push(format!("receive {} {} x{}", addr.0, val, mult));
    }

    fn send_single(&mut self, addr: Address<&'static str>, val: &'static str, mult: &'static str) {
        self.lines.push(format!("send {} {} x{}", addr.0, val, mult));
    }

    fn assert_eq(&mut self, lhs: String, rhs: String) {
        self.lines.push(format!("{lhs} == {rhs}"));
    }
}

#[test]
fn the_chip_states_its_seven_claims_in_order() {
    let mut recording = on_select_rows();
    assert!(recording.has_widths(5, 8));
    SelectChip.eval(&mut recording);
    let transcript = recording.into_backend();
    assert_eq!(
        transcript.lines,
        vec![
            "receive @bit bit xis_real",
            "receive @in1 in1 xis_real",
            "receive @in2 in2 xis_real",
            "send @out1 out1 xmult1",
            "send @out2 out2 xmult2",
            "out1 == ((bit * in2) + ((1 - bit) * in1))",
            "out2 == ((bit * in1) + ((1 - bit) * in2))",
        ]
    );
}

#[test]
fn evaluating_twice_states_the_claims_twice() {
    let mut recording = on_select_rows();
    SelectChip.eval(&mut recording);
    SelectChip.eval(&mut recording);
    let lines = recording.into_backend().lines;
    assert_eq!(lines.len(), 14);
    assert_eq!(lines[..7], lines[7..]);
}

#[test]
fn a_recording_hands_every_call_on() {
    let mut recording = Recording::new(Transcript::default(), vec!["a", "b"], vec!["c"]);
    assert!(recording.has_widths(2, 1));
    assert!(!recording.has_widths(5, 8));
    assert!(!recording.has_widths(2, 8));
    assert_eq!(recording.main_row(), vec!["a", "b"]);
    assert_eq!(recording.preprocessed_row(), vec!["c"]);

    let sum = recording.add(recording.var("a"), recording.one());
    let product = recording.mul(recording.var("b"), recording.var("c"));
    let difference = recording.sub(sum, product);
    recording.assert_eq(difference, recording.var("a"));
    recording.send_single(Address("c"), "a", "b");
    recording.receive_single(Address("a"), "b", "c");
    assert_eq!(
        recording.into_backend().lines,
        vec!["((a + 1) - (b * c)) == a", "send c a xb", "receive a b xc"]
    );
}
