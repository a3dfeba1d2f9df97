//! A consensus state as the bootstrap handles it: an opaque payload and the
//! challenge period attached to each counterparty that it tracks.

use vstd::prelude::*;

use ismp::host::StateMachine;

verus! {

/// The initial consensus state of one chain.
#[derive(Debug, PartialEq, Eq)]
pub struct ConsensusState {
    /// Scale-encoded consensus state, carried through unchanged.
    pub consensus_state: Vec<u8>,
    /// Challenge period, in seconds, for each counterparty state machine.
    pub challenge_periods: Vec<(StateMachine, u64)>,
}

/// The counterparties of a list of challenge periods, in order.
pub open spec fn counterparties(periods: Seq<(StateMachine, u64)>) -> Seq<StateMachine> {
    periods.map_values(|e: (StateMachine, u64)| e.0)
}

/// No counterparty occurs twice.
pub open spec fn distinct_counterparties(periods: Seq<(StateMachine, u64)>) -> bool {
    forall|i: int, j: int|
        0 <= i < j < periods.len() ==> #[trigger] periods[i].0 != #[trigger] periods[j].0
}

/// Every counterparty of `periods` keeps its place, and its period becomes `p`.
pub open spec fn overwritten(periods: Seq<(StateMachine, u64)>, p: u64) -> Seq<(StateMachine, u64)> {
    periods.map_values(|e: (StateMachine, u64)| (e.0, p))
}

impl ConsensusState {
    pub open spec fn wf(&self) -> bool {
        distinct_counterparties(self.challenge_periods@)
    }
}

/// Lowercase hex digit of a value below sixteen.
pub open spec fn hex_digit(n: u8) -> char {
    if n < 10 {
        ((n + 48) as u8) as char
    } else {
        ((n + 87) as u8) as char
    }
}

/// Two lowercase hex digits per byte, high nibble first.
pub open spec fn hex_of(b: Seq<u8>) -> Seq<char>
    decreases b.len(),
{
    if b.len() == 0 {
        Seq::empty()
    } else {
        hex_of(b.drop_last()) + seq![hex_digit(b.last() / 16), hex_digit(b.last() % 16)]
    }
}

/// The line that log mode prints for a payload.
pub open spec fn log_text(payload: Seq<u8>) -> Seq<char> {
    "ConsensusState: "@ + hex_of(payload)
}

/// Log mode prints the same line for the same fetched payload, whatever the
/// challenge periods that came with it: the line is a function of the payload
/// alone, so running log mode twice on an unchanged chain prints the same bytes.
pub proof fn lemma_log_line_stable(a: ConsensusState, b: ConsensusState)
    requires
        a.consensus_state@ == b.consensus_state@,
    ensures
        log_text(a.consensus_state@) == log_text(b.consensus_state@),
{
}

/// Relies on `hex::encode`: two lowercase hex digits for each byte, in order.
#[verifier::external_body]
fn encode_hex(b: &Vec<u8>) -> (r: String)
    ensures
        r@ == hex_of(b@),
{
    hex::encode(b)
}

/// Replaces the challenge period of every counterparty by `challenge_period`,
/// keeping the counterparties, their order and the payload.
pub fn normalize(state: ConsensusState, challenge_period: u64) -> (r: ConsensusState)
    ensures
        r.consensus_state@ == state.consensus_state@,
        r.challenge_periods@ == overwritten(state.challenge_periods@, challenge_period),
        r.challenge_periods@.len() == state.challenge_periods@.len(),
        counterparties(r.challenge_periods@) == counterparties(state.challenge_periods@),
        forall|i: int| 0 <= i < r.challenge_periods@.len() ==> #[trigger] r.challenge_periods@[i].1 == challenge_period,
        state.wf() ==> r.wf(),
{
    let ConsensusState { consensus_state, challenge_periods } = state;
    let mut out: Vec<(StateMachine, u64)> = Vec::with_capacity(challenge_periods.len());
    let mut i: usize = 0;
    while i < challenge_periods.len()
        invariant
            i <= challenge_periods@.len(),
            out@ == overwritten(challenge_periods@.take(i as int), challenge_period),
        decreases challenge_periods@.len() - i,
    {
        let key = challenge_periods[i].0;
        out.push((key, challenge_period));
        proof {
            assert(challenge_periods@.take(i as int + 1) == challenge_periods@.take(i as int).push(challenge_periods@[i as int]));
        }
        i = i + 1;
    }
    proof {
        assert(challenge_periods@.take(i as int) == challenge_periods@);
        assert(counterparties(out@) =~= counterparties(challenge_periods@));
    }
    ConsensusState { consensus_state, challenge_periods: out }
}

/// The line that log mode prints: the label, then the payload in lowercase hex.
/// The challenge periods take no part in it.
pub fn log_line(state: &ConsensusState) -> (r: String)
    ensures
        r@ == log_text(state.consensus_state@),
{
    let mut line = String::from_str("ConsensusState: ");
    let hex = encode_hex(&state.consensus_state);
    line.append(hex.as_str());
    line
}

} // verus!
