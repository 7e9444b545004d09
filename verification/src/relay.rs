//! The relay controller, reduced to its decisions.
//!
//! Driving a relay/GPIO line goes through an external privileged executor.
//! The library decides what to hand it — the pin in decimal, a signal value,
//! and the credential line for interactive privilege authentication — and
//! how to read what came back: exit status zero is success, everything else
//! is a structured failure carrying the captured detail. Spawning the
//! process, feeding its input and collecting its output happen outside the
//! library; the controller itself holds no state between calls.

use crate::text::{dec_chars, decimal_string};
use vstd::prelude::*;
use vstd::string::*;

verus! {

/// A request to drive one relay/GPIO line: which pin, and whether the line
/// should be driven on.
pub struct RelayRequest {
    pub pin: u32,
    pub desired_on: bool,
}

/// The signal value handed to the privileged executor: `"1"` drives the
/// line on, `"0"` drives it off.
pub open spec fn spec_signal(desired_on: bool) -> Seq<char> {
    if desired_on {
        "1"@
    } else {
        "0"@
    }
}

/// The signal value for a desired state, as executable text.
pub fn signal_value(desired_on: bool) -> (s: &'static str)
    ensures
        s@ == spec_signal(desired_on),
{
    if desired_on {
        "1"
    } else {
        "0"
    }
}

/// Everything the privileged executor is handed for one request: its two
/// positional arguments, and the line written to its input when it asks for
/// privilege authentication. The credential is supplied by the caller at
/// call time; the library never holds one of its own.
pub struct RelayPlan {
    pub pin_arg: String,
    pub signal_arg: String,
    pub credential_line: String,
}

/// Build the executor's inputs for `req`: the pin number in decimal, the
/// signal value for the desired state, and the credential followed by a
/// newline.
pub fn relay_plan(req: &RelayRequest, credential: &str) -> (p: RelayPlan)
    ensures
        p.pin_arg@ == dec_chars(req.pin as nat),
        p.signal_arg@ == spec_signal(req.desired_on),
        p.credential_line@ == credential@ + "\n"@,
{
    let pin_arg = decimal_string(req.pin);
    let signal_arg = String::from_str(signal_value(req.desired_on));
    let mut credential_line = String::from_str(credential);
    credential_line.append("\n");
    RelayPlan { pin_arg, signal_arg, credential_line }
}

/// What the caller observed of one run of the privileged executor.
pub enum ExecOutcome {
    /// The executor could not be spawned; the detail of the spawn error.
    SpawnFailed(String),
    /// The credential could not be written to the executor's input.
    CredentialWriteFailed(String),
    /// Waiting for the executor to finish failed.
    WaitFailed(String),
    /// The executor ran to completion: whether it exited with status zero,
    /// and what it wrote to its error stream.
    Exited { exit_zero: bool, stderr: String },
}

/// The result owed to the caller for an observed executor outcome: a fixed
/// message on success (exit status zero), and otherwise the failure's detail
/// behind a prefix naming what went wrong.
pub open spec fn spec_relay_result(o: ExecOutcome) -> Result<Seq<char>, Seq<char>> {
    match o {
        ExecOutcome::SpawnFailed(d) => Err("failed to spawn privileged executor: "@ + d@),
        ExecOutcome::CredentialWriteFailed(d) => Err(
            "failed to write credential to executor: "@ + d@,
        ),
        ExecOutcome::WaitFailed(d) => Err("failed to wait for executor: "@ + d@),
        ExecOutcome::Exited { exit_zero, stderr } => {
            if exit_zero {
                Ok("relay command succeeded"@)
            } else {
                Err("relay command failed: "@ + stderr@)
            }
        },
    }
}

/// Turn the observed executor outcome into the caller's result. Success if
/// and only if the executor exited with status zero; every failure carries
/// its detail — for a non-zero exit, the captured error stream.
pub fn relay_outcome(o: ExecOutcome) -> (r: Result<String, String>)
    ensures
        r is Ok <==> spec_relay_result(o) is Ok,
        r matches Ok(m) ==> m@ == spec_relay_result(o)->Ok_0,
        r matches Err(e) ==> e@ == spec_relay_result(o)->Err_0,
{
    match o {
        ExecOutcome::SpawnFailed(d) => {
            let mut e = String::from_str("failed to spawn privileged executor: ");
            e.append(d.as_str());
            Err(e)
        },
        ExecOutcome::CredentialWriteFailed(d) => {
            let mut e = String::from_str("failed to write credential to executor: ");
            e.append(d.as_str());
            Err(e)
        },
        ExecOutcome::WaitFailed(d) => {
            let mut e = String::from_str("failed to wait for executor: ");
            e.append(d.as_str());
            Err(e)
        },
        ExecOutcome::Exited { exit_zero, stderr } => {
            if exit_zero {
                Ok(String::from_str("relay command succeeded"))
            } else {
                let mut e = String::from_str("relay command failed: ");
                e.append(stderr.as_str());
                Err(e)
            }
        },
    }
}

/// Law: a relay call succeeds exactly when the privileged executor exits
/// with status zero, and the failure reason for a non-zero exit carries the
/// captured error stream after a fixed prefix.
pub proof fn lemma_relay_success_iff_exit_zero(o: ExecOutcome)
    ensures
        spec_relay_result(o) is Ok <==> (o matches ExecOutcome::Exited { exit_zero: true, .. }),
        (o matches ExecOutcome::Exited { exit_zero: false, stderr } ==> spec_relay_result(o)->Err_0
            == "relay command failed: "@ + stderr@),
{
}

/// The results of a sequence of relay calls, one entry per call, given what
/// the executor did on each.
pub open spec fn spec_relay_results(outcomes: Seq<ExecOutcome>) -> Seq<
    Result<Seq<char>, Seq<char>>,
> {
    outcomes.map(|i: int, o: ExecOutcome| spec_relay_result(o))
}

/// Law: relay calls are independent. The controller holds no state between
/// calls, so in any sequence of calls each call's result is a function of
/// that call's own executor outcome alone — in particular, two consecutive
/// calls with opposite desired states cannot influence one another.
pub proof fn lemma_relay_calls_independent(outcomes: Seq<ExecOutcome>, i: int)
    requires
        0 <= i < outcomes.len(),
    ensures
        spec_relay_results(outcomes)[i] == spec_relay_result(outcomes[i]),
{
}

/// Law: the mapping from desired state to signal value is total and
/// injective — opposite desired states are handed to the executor as
/// distinct signal values.
pub proof fn lemma_signal_distinct()
    ensures
        spec_signal(true) != spec_signal(false),
{
    reveal_strlit("1");
    reveal_strlit("0");
    assert(spec_signal(true)[0] == '1');
    assert(spec_signal(false)[0] == '0');
}

} // verus!
