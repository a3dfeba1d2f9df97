//! Chain identifiers: ismp's `StateMachine`, parsed from its textual name.

use std::str::FromStr;
use vstd::prelude::*;

use ismp::host::StateMachine;

verus! {

#[verifier::external_type_specification]
#[verifier::external_body]
pub struct ExStateMachine(StateMachine);

/// Relies on the derived `PartialEq` of `ismp::host::StateMachine`: a
/// field-by-field comparison of a plain enum, so equal exactly when the two
/// values are the same.
pub assume_specification[ <StateMachine as PartialEq>::eq ](a: &StateMachine, b: &StateMachine) -> (r: bool)
    ensures
        r == (*a == *b),
;

/// The state machine that ismp reads from a name such as `EVM-1` or
/// `POLKADOT-3367`, or `None` where ismp does not recognise the text.
pub uninterp spec fn state_machine_of(s: Seq<char>) -> Option<StateMachine>;

/// Relies on `<StateMachine as FromStr>::from_str`: the result depends on the
/// text alone.
#[verifier::external_body]
pub(crate) fn parse_state_machine(s: &str) -> (r: Option<StateMachine>)
    ensures
        r == state_machine_of(s@),
{
    StateMachine::from_str(s).ok()
}

} // verus!
