//! The report model of the one-shot TCP port probe.
//!
//! The connect attempt itself and its five-second timeout run outside this
//! module; what they came to is classified here into the report handed to
//! the caller, whose literal reason strings are part of the wire contract.

use vstd::prelude::*;

verus! {

/// The reported outcome of probing one TCP port.
#[derive(Debug, Clone)]
pub struct CheckPortResult {
    pub result: bool,
    pub reason: String,
}

impl CheckPortResult {
    /// A probe report with the given verdict and reason.
    pub fn new(result: bool, reason: &str) -> (r: CheckPortResult)
        ensures
            r.result == result,
            r.reason@ == reason@,
    {
        CheckPortResult { result, reason: reason.to_owned() }
    }
}

/// What a TCP connect attempt bounded by a timeout came to.
#[derive(Clone, Copy, Debug, PartialEq, Eq, Structural)]
pub enum ProbeOutcome {
    /// The connection was established before the timeout.
    Connected,
    /// The connection attempt failed: refused, reset or unreachable.
    Refused,
    /// The timeout elapsed before the attempt concluded.
    TimedOut,
}

/// Turns a connect outcome into the probe's report: an established
/// connection reports the port open, a failed attempt reports it closed or
/// refusing, and an elapsed timeout is a failure of the probe itself, not a
/// verdict on the port.
pub fn classify_probe(outcome: ProbeOutcome) -> (r: Result<CheckPortResult, String>)
    ensures
        r is Err <==> outcome == ProbeOutcome::TimedOut,
        outcome == ProbeOutcome::Connected ==> (r matches Ok(c) && c.result == true && c.reason@
            == "端口开放"@),
        outcome == ProbeOutcome::Refused ==> (r matches Ok(c) && c.result == false && c.reason@
            == "端口关闭或被拒绝"@),
        outcome == ProbeOutcome::TimedOut ==> (r matches Err(s) && s@ == "连接超时"@),
{
    match outcome {
        ProbeOutcome::Connected => Ok(CheckPortResult::new(true, "端口开放")),
        ProbeOutcome::Refused => Ok(CheckPortResult::new(false, "端口关闭或被拒绝")),
        ProbeOutcome::TimedOut => Err("连接超时".to_owned()),
    }
}

} // verus!
