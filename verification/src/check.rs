//! The check protocol's classification core.
//!
//! One probe attempt resolves the target, issues a request under a deadline,
//! reads the response body chunk by chunk, and classifies the outcome as a
//! plain boolean. The network steps live with the runtime; everything the
//! attempt decides — which resolved address to use, how delivered bytes are
//! accumulated across chunks and mid-stream errors, and the exact byte-count
//! rule that defines "up" — is verified here.

use vstd::prelude::*;
use vstd::string::StringExecFns;
use crate::trickle::TRICKLE_LEN;

verus! {

/// Overall wall-clock budget for one probe, from request submission to the
/// end of the body read.
pub const PROBE_DEADLINE_SECS: u64 = 45;

/// The fixed service port: probes connect to it, and the front door listens
/// on it.
pub const SERVICE_PORT: u16 = 8080;

/// One event observed while reading a probe response body.
#[derive(Clone, Copy, Debug)]
pub enum StreamEvent {
    /// A body chunk of the given byte length arrived.
    Data(usize),
    /// The stream failed mid-flight; reading stops here, and the bytes
    /// accumulated so far are retained.
    Failed,
}

/// Everything one probe attempt yielded, as seen by the classifier.
pub enum ProbeAttempt {
    /// Name resolution produced no IPv4 address (no-such-domain, an
    /// IPv6-only answer, or a resolver error); no connection is attempted.
    NoIpv4,
    /// The connection or request failed, or the deadline expired before the
    /// response arrived.
    NoResponse,
    /// A response arrived; the events observed while reading its body, in
    /// order, ending at the natural end of the stream or at its first error.
    Responded(Vec<StreamEvent>),
}

/// Total bytes delivered before the stream ended or first failed.
pub open spec fn received_total(events: Seq<StreamEvent>) -> nat
    decreases events.len(),
{
    if events.len() == 0 {
        0
    } else {
        match events[0] {
            StreamEvent::Data(n) => n as nat + received_total(events.drop_first()),
            StreamEvent::Failed => 0,
        }
    }
}

/// The classification rule: up exactly when a response arrived whose
/// delivered bytes total exactly the trickle length. Fewer bytes (drop,
/// timeout) and more bytes (a misbehaving peer) both classify as down.
pub open spec fn spec_is_up(attempt: ProbeAttempt) -> bool {
    match attempt {
        ProbeAttempt::Responded(events) => received_total(events@) == TRICKLE_LEN,
        _ => false,
    }
}

/// Accumulate the bytes a response body delivered, stopping at the first
/// stream error but keeping what arrived before it.
pub fn count_received(events: &Vec<StreamEvent>) -> (total: usize)
    requires
        received_total(events@) <= usize::MAX,
    ensures
        total == received_total(events@),
{
    let mut total: usize = 0;
    let mut i: usize = 0;
    proof {
        assert(events@.skip(0) =~= events@);
    }
    while i < events.len()
        invariant_except_break
            i <= events@.len(),
            received_total(events@) <= usize::MAX,
            total + received_total(events@.skip(i as int)) == received_total(events@),
        ensures
            total == received_total(events@),
        decreases events@.len() - i,
    {
        proof {
            assert(events@.skip(i as int)[0] == events@[i as int]);
            assert(events@.skip(i as int).drop_first() =~= events@.skip(i + 1 as int));
        }
        match events[i] {
            StreamEvent::Data(n) => {
                total = total + n;
            },
            StreamEvent::Failed => {
                break ;
            },
        }
        i = i + 1;
    }
    total
}

/// Classify one probe attempt as up or down. Every failure mode — no IPv4
/// address, no response within the deadline, a mid-stream error, a byte
/// count other than the trickle length — is a plain `false`, never an error.
pub fn classify_attempt(attempt: &ProbeAttempt) -> (up: bool)
    requires
        attempt matches ProbeAttempt::Responded(events) ==> received_total(events@)
            <= usize::MAX,
    ensures
        up == spec_is_up(*attempt),
{
    match attempt {
        ProbeAttempt::Responded(events) => {
            let total = count_received(events);
            total == TRICKLE_LEN
        },
        _ => false,
    }
}

/// The request line target for one probe: the trickle path on the resolved
/// address at the service port. The virtual host header carries the original
/// domain name separately, so the connection itself goes by raw address.
pub fn probe_url(ip: &str) -> (url: String)
    ensures
        url@ == "http://"@ + ip@ + ":8080/trickle"@,
{
    let mut url = "http://".to_owned();
    url.append(ip);
    url.append(":8080/trickle");
    url
}

/// Pick the address a probe connects to: the first IPv4 result of a fresh
/// resolution, given per answer whether it was an IPv4 address. `None` means
/// the attempt classifies as down with no connection made.
pub fn first_ipv4_index(is_v4: &Vec<bool>) -> (choice: Option<usize>)
    ensures
        choice matches Some(i) ==> i < is_v4@.len() && is_v4@[i as int] && (forall|j: int|
            0 <= j < i ==> !is_v4@[j]),
        choice is None ==> forall|j: int| 0 <= j < is_v4@.len() ==> !is_v4@[j],
{
    let mut i: usize = 0;
    while i < is_v4.len()
        invariant
            i <= is_v4@.len(),
            forall|j: int| 0 <= j < i ==> !is_v4@[j],
        decreases is_v4@.len() - i,
    {
        if is_v4[i] {
            return Some(i);
        }
        i = i + 1;
    }
    None
}

} // verus!
