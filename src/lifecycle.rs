//! The phases of a request as the host runs them.
use vstd::prelude::*;

verus! {

/// A point in the life of a request that a telemetry handler observes.
#[derive(Clone, Copy, Debug, PartialEq, Eq, Structural)]
pub enum HostEvent {
    /// Main processing reaches the handler.
    Run,
    /// The response is about to be sent.
    BeforeSend,
    /// The response was fully sent (`success`), or sending failed or the
    /// request was aborted (`!success`). The host signals this once per request.
    Sent { success: bool },
}

/// Whether the host ran main processing, then the pre-send phase, then signalled
/// the end of sending, in that order.
pub open spec fn runs_to_completion(evs: Seq<HostEvent>) -> bool {
    exists|i: int, j: int, k: int|
        0 <= i < j < k < evs.len() && #[trigger] evs[i] == HostEvent::Run && #[trigger] evs[j]
            == HostEvent::BeforeSend && (#[trigger] evs[k] is Sent)
}

/// Whether main processing never reached the handler.
pub open spec fn never_runs(evs: Seq<HostEvent>) -> bool {
    forall|i: int| 0 <= i < evs.len() ==> #[trigger] evs[i] != HostEvent::Run
}

} // verus!
