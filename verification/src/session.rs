//! The capture-session model: staged configuration, activation into a live
//! session, filter compilation, capture statistics, the poll-retry decision
//! of the packet iterator, and the exactly-once release discipline for
//! native resources.
//!
//! Every call into the capture engine blocks and may fail; the engine's
//! verdicts enter this module as explicit values (`EngineOutcome`,
//! `PollOutcome`), and the decisions taken on them are verified here. The
//! unverified shell performs the native calls and drives these functions
//! with what the engine returned.

use vstd::prelude::*;

use crate::error::Error;
use crate::packet::Packet;

verus! {

/// The engine's verdict on one configuration, activation or installation
/// call.
#[derive(Debug, Clone, PartialEq, Eq)]
pub enum EngineOutcome {
    /// The engine accepted the call.
    Accepted,
    /// The engine rejected the call, with the error built from its
    /// diagnostic text.
    Rejected(Error),
}

/// The options requested on a capture handle before activation.
#[derive(Debug, Clone, Copy, PartialEq, Eq, Structural)]
pub struct CaptureConfig {
    /// Requested buffer size in bytes, if set.
    pub buffer_size: Option<usize>,
    /// Requested promiscuous mode, if set.
    pub promiscuous: Option<bool>,
    /// Requested immediate mode, if set.
    pub immediate: Option<bool>,
    /// Requested snapshot length, if set.
    pub snaplen: Option<usize>,
}

/// The empty configuration: nothing requested yet.
pub open spec fn spec_empty_config() -> CaptureConfig {
    CaptureConfig {
        buffer_size: None,
        promiscuous: None,
        immediate: None,
        snaplen: None,
    }
}

impl CaptureConfig {
    /// The empty configuration: nothing requested yet.
    pub fn new() -> (r: CaptureConfig)
        ensures
            r == spec_empty_config(),
    {
        CaptureConfig { buffer_size: None, promiscuous: None, immediate: None, snaplen: None }
    }
}

/// Builder for a capture session: a handle that has been created but not
/// yet activated. Capture and injection are not available on this type;
/// only activation turns it into a `Pcap` session, so the raw API's
/// undefined "capture before activate" cannot be expressed.
#[derive(Debug, Clone, PartialEq, Eq)]
pub struct PcapBuilder {
    /// The options requested so far.
    pub config: CaptureConfig,
}

impl PcapBuilder {
    /// A fresh builder with nothing configured.
    pub fn new() -> (r: PcapBuilder)
        ensures
            r.config == spec_empty_config(),
    {
        PcapBuilder { config: CaptureConfig::new() }
    }

    /// Request the buffer size to use once the handle is activated.
    pub fn set_buffer_size(self, buffer_size: usize) -> (r: PcapBuilder)
        ensures
            r.config == (CaptureConfig { buffer_size: Some(buffer_size), ..self.config }),
    {
        PcapBuilder { config: CaptureConfig { buffer_size: Some(buffer_size), ..self.config } }
    }

    /// Request promiscuous mode for the activated handle.
    pub fn set_promiscuous(self, promiscuous: bool) -> (r: PcapBuilder)
        ensures
            r.config == (CaptureConfig { promiscuous: Some(promiscuous), ..self.config }),
    {
        PcapBuilder { config: CaptureConfig { promiscuous: Some(promiscuous), ..self.config } }
    }

    /// Request immediate mode: packets are delivered as soon as they
    /// arrive, with no buffering.
    pub fn set_immediate(self, immediate: bool) -> (r: PcapBuilder)
        ensures
            r.config == (CaptureConfig { immediate: Some(immediate), ..self.config }),
    {
        PcapBuilder { config: CaptureConfig { immediate: Some(immediate), ..self.config } }
    }

    /// Request the snapshot length for the activated handle.
    pub fn set_snaplen(self, snaplen: usize) -> (r: PcapBuilder)
        ensures
            r.config == (CaptureConfig { snaplen: Some(snaplen), ..self.config }),
    {
        PcapBuilder { config: CaptureConfig { snaplen: Some(snaplen), ..self.config } }
    }

    /// Activate the configured handle. The builder is consumed either way:
    /// on rejection the handle is unusable and the caller must start over
    /// from a fresh open.
    pub fn activate(self, outcome: EngineOutcome) -> (r: Result<Pcap, Error>)
        ensures
            outcome is Accepted ==> (r matches Ok(p) && p.config == self.config),
            outcome matches EngineOutcome::Rejected(e) ==> r == Err::<Pcap, Error>(e),
    {
        match outcome {
            EngineOutcome::Accepted => Ok(Pcap { config: self.config }),
            EngineOutcome::Rejected(e) => Err(e),
        }
    }
}

/// An activated capture session. Only this type offers filter
/// installation, capture, injection and statistics.
#[derive(Debug, Clone, PartialEq, Eq)]
pub struct Pcap {
    /// The options the session was activated with.
    pub config: CaptureConfig,
}

impl Pcap {
    /// Install a filter: compile the expression, then attach the program.
    /// A compilation error is reported before any installation verdict.
    pub fn set_filter(&self, filter: &str, compile: EngineOutcome, install: EngineOutcome) -> (r:
        Result<(), Error>)
        ensures
            compile matches EngineOutcome::Rejected(e) ==> r == Err::<(), Error>(e),
            compile is Accepted && install is Accepted ==> r is Ok,
            compile is Accepted ==> (install matches EngineOutcome::Rejected(e) ==> r == Err::<
                (),
                Error,
            >(e)),
    {
        let mut program = match PcapFilter::compile(filter, compile) {
            Ok(program) => program,
            Err(e) => {
                return Err(e);
            },
        };
        program.install(install)
    }

    /// Transmit a packet: the engine decides, and its verdict — the number
    /// of bytes written, or its error — is handed through unchanged.
    pub fn inject(&self, outcome: Result<usize, Error>) -> (r: Result<usize, Error>)
        ensures
            r == outcome,
    {
        outcome
    }

    /// Capture statistics: the engine's three counters become a statistics
    /// snapshot; its failure is handed through.
    pub fn stats(&self, outcome: Result<(u32, u32, u32), Error>) -> (r: Result<PcapStat, Error>)
        ensures
            outcome matches Ok(c) ==> r == Ok::<PcapStat, Error>(PcapStat {
                ps_recv: c.0,
                ps_drop: c.1,
                ps_ifdrop: c.2,
            }),
            outcome matches Err(e) ==> r == Err::<PcapStat, Error>(e),
    {
        match outcome {
            Ok((ps_recv, ps_drop, ps_ifdrop)) => Ok(PcapStat { ps_recv, ps_drop, ps_ifdrop }),
            Err(e) => Err(e),
        }
    }
}

/// The engine's most recent error, rebuilt from its diagnostic text.
/// Retrieving the text can itself fail: the outer `Err` reports that, the
/// inner `Ok` carries the engine's error for `operation`.
pub fn error_from_engine_text(operation: &str, text: Option<String>) -> (r: Result<Error, Error>)
    ensures
        text matches Some(t) ==> (r matches Ok(e) && e matches Error::PcapError {
            operation: op,
            message,
        } && op@ == operation@ && message@ == t@),
        text is None ==> r == Err::<Error, Error>(Error::ErrorTextUnavailable),
{
    match text {
        Some(t) => Ok(Error::PcapError { operation: operation.to_owned(), message: t }),
        None => Err(Error::ErrorTextUnavailable),
    }
}

/// A compiled filter program, bound to the session that compiled it. It
/// owns one native program allocation, released exactly once.
#[derive(Debug, Clone, PartialEq, Eq)]
pub struct PcapFilter {
    /// The filter expression the program was compiled from.
    pub expression: String,
}

impl PcapFilter {
    /// Compile a filter expression. Rejection means a malformed or
    /// unsupported expression and carries the engine's diagnostic.
    pub fn compile(filter_str: &str, outcome: EngineOutcome) -> (r: Result<PcapFilter, Error>)
        ensures
            outcome is Accepted ==> (r matches Ok(f) && f.expression@ == filter_str@),
            outcome matches EngineOutcome::Rejected(e) ==> r == Err::<PcapFilter, Error>(e),
    {
        match outcome {
            EngineOutcome::Accepted => Ok(PcapFilter { expression: filter_str.to_owned() }),
            EngineOutcome::Rejected(e) => Err(e),
        }
    }

    /// Attach the compiled program to its session. Reinstalling replaces
    /// the active filter; the engine's verdict is handed through.
    pub fn install(&mut self, outcome: EngineOutcome) -> (r: Result<(), Error>)
        ensures
            *final(self) == *old(self),
            outcome is Accepted ==> r is Ok,
            outcome matches EngineOutcome::Rejected(e) ==> r == Err::<(), Error>(e),
    {
        match outcome {
            EngineOutcome::Accepted => Ok(()),
            EngineOutcome::Rejected(e) => Err(e),
        }
    }
}

/// Capture statistics: a pure value snapshot of the engine's counters.
#[derive(Debug, Clone, Copy, PartialEq, Eq, Structural)]
pub struct PcapStat {
    /// Packets received.
    pub ps_recv: u32,
    /// Packets dropped because the buffer was full.
    pub ps_drop: u32,
    /// Packets dropped by the network interface or its driver.
    pub ps_ifdrop: u32,
}

impl Default for PcapStat {
    /// All counters zero.
    fn default() -> (r: PcapStat)
        ensures
            r == (PcapStat { ps_recv: 0u32, ps_drop: 0u32, ps_ifdrop: 0u32 }),
    {
        PcapStat { ps_recv: 0, ps_drop: 0, ps_ifdrop: 0 }
    }
}

impl PcapStat {
    /// Number of packets received.
    pub fn packets_received(&self) -> (r: u32)
        ensures
            r == self.ps_recv,
    {
        self.ps_recv
    }

    /// Number of packets dropped because there was no room in the
    /// operating system's buffer when they arrived.
    pub fn packets_dropped(&self) -> (r: u32)
        ensures
            r == self.ps_drop,
    {
        self.ps_drop
    }

    /// Number of packets dropped by the network interface or its driver.
    pub fn packets_dropped_interface(&self) -> (r: u32)
        ensures
            r == self.ps_ifdrop,
    {
        self.ps_ifdrop
    }
}

/// One poll verdict from the engine.
pub enum PollOutcome<'p> {
    /// A packet was delivered: a view into engine-owned memory, valid only
    /// until the next poll on the same session.
    Delivered(&'p [u8]),
    /// The transient empty-buffer condition; never surfaced to consumers.
    TimedOut,
    /// Any other failure; it silently ends the packet sequence.
    Failed(Error),
}

/// What the capture iterator does after one poll.
pub enum CaptureStep<'p> {
    /// Yield this packet to the consumer.
    Yield(Packet<'p>),
    /// Poll again without yielding anything.
    Retry,
    /// End the packet sequence.
    Stop,
}

/// The per-poll decision of the capture iterator: a delivery is wrapped as
/// a borrowed packet holding exactly the delivered bytes, a timeout is
/// retried, anything else stops the sequence.
pub fn capture_step<'p>(outcome: &PollOutcome<'p>) -> (r: CaptureStep<'p>)
    ensures
        (*outcome) matches PollOutcome::Delivered(b) ==> (r matches CaptureStep::Yield(p) && (p
            is Borrowed) && p@ == b@),
        outcome is TimedOut ==> r is Retry,
        outcome is Failed ==> r is Stop,
{
    match outcome {
        PollOutcome::Delivered(b) => CaptureStep::Yield(Packet::from_slice(b)),
        PollOutcome::TimedOut => CaptureStep::Retry,
        PollOutcome::Failed(_) => CaptureStep::Stop,
    }
}

/// The bytes of the first packet a poll sequence yields: leading timeouts
/// are skipped; a delivery yields its bytes; any other failure ends the
/// sequence with nothing.
pub open spec fn first_delivery(polls: Seq<PollOutcome>) -> Option<Seq<u8>>
    decreases polls.len(),
{
    if polls.len() == 0 {
        None
    } else {
        match polls[0] {
            PollOutcome::Delivered(b) => Some(b@),
            PollOutcome::TimedOut => first_delivery(polls.drop_first()),
            PollOutcome::Failed(_) => None,
        }
    }
}

/// One iterator step over a recorded poll sequence: exactly the loop of
/// the capture iterator, retrying on timeout and stopping on failure. The
/// result is the first delivery's bytes as a borrowed packet.
pub fn next_from_polls<'p>(polls: &Vec<PollOutcome<'p>>) -> (r: Option<Packet<'p>>)
    ensures
        r is Some <==> first_delivery(polls@) is Some,
        r matches Some(p) ==> (p is Borrowed) && Some(p@) == first_delivery(polls@),
{
    let n = polls.len();
    let mut i: usize = 0;
    proof {
        assert(polls@.skip(0) =~= polls@);
    }
    while i < n
        invariant
            0 <= i <= n,
            n == polls@.len(),
            first_delivery(polls@) == first_delivery(polls@.skip(i as int)),
        decreases n - i,
    {
        proof {
            assert(polls@.skip(i as int)[0] == polls@[i as int]);
            assert(polls@.skip(i as int).drop_first() =~= polls@.skip(i as int + 1));
        }
        match capture_step(&polls[i]) {
            CaptureStep::Yield(p) => {
                return Some(p);
            },
            CaptureStep::Retry => {
            },
            CaptureStep::Stop => {
                return None;
            },
        }
        i += 1;
    }
    proof {
        assert(polls@.skip(n as int).len() == 0);
    }
    None
}

/// The byte sequences of every packet a poll sequence yields, in delivery
/// order: timeouts are skipped, the first other failure ends the sequence.
pub open spec fn deliveries(polls: Seq<PollOutcome>) -> Seq<Seq<u8>>
    decreases polls.len(),
{
    if polls.len() == 0 {
        Seq::empty()
    } else {
        match polls[0] {
            PollOutcome::Delivered(b) => seq![b@] + deliveries(polls.drop_first()),
            PollOutcome::TimedOut => deliveries(polls.drop_first()),
            PollOutcome::Failed(_) => Seq::empty(),
        }
    }
}

/// Drain a recorded poll sequence as the capture iterator would: the
/// packets come out exactly in the order the engine delivered them, with
/// no reordering, buffering, duplication or loss before the terminal
/// failure.
pub fn capture_from_polls<'p>(polls: &Vec<PollOutcome<'p>>) -> (r: Vec<Packet<'p>>)
    ensures
        r@.len() == deliveries(polls@).len(),
        forall|k: int| 0 <= k < r@.len() ==> (#[trigger] r@[k])@ == deliveries(polls@)[k],
{
    let n = polls.len();
    let mut out: Vec<Packet<'p>> = Vec::new();
    let mut i: usize = 0;
    proof {
        assert(polls@.skip(0) =~= polls@);
    }
    while i < n
        invariant
            0 <= i <= n,
            n == polls@.len(),
            deliveries(polls@).len() == out@.len() + deliveries(polls@.skip(i as int)).len(),
            forall|k: int|
                0 <= k < out@.len() ==> (#[trigger] out@[k])@ == deliveries(polls@)[k],
            deliveries(polls@) =~= out@.map_values(|p: Packet| p@) + deliveries(
                polls@.skip(i as int),
            ),
        decreases n - i,
    {
        proof {
            assert(polls@.skip(i as int)[0] == polls@[i as int]);
            assert(polls@.skip(i as int).drop_first() =~= polls@.skip(i as int + 1));
        }
        let ghost prev = out@;
        match capture_step(&polls[i]) {
            CaptureStep::Yield(p) => {
                out.push(p);
                proof {
                    assert(out@.map_values(|q: Packet| q@) =~= prev.map_values(|q: Packet| q@)
                        + seq![out@[prev.len() as int]@]);
                }
            },
            CaptureStep::Retry => {
            },
            CaptureStep::Stop => {
                proof {
                    assert(deliveries(polls@.skip(i as int)) =~= Seq::<Seq<u8>>::empty());
                }
                return out;
            },
        }
        i += 1;
    }
    proof {
        assert(deliveries(polls@.skip(n as int)) =~= Seq::<Seq<u8>>::empty());
    }
    out
}

/// Law: timeout transparency. If the engine reports the transient timeout
/// `n` times in a row and then delivers a packet, the iterator yields
/// exactly that packet: no timeout is observable in the result.
pub proof fn lemma_timeout_transparency(polls: Seq<PollOutcome>, n: int)
    requires
        0 <= n < polls.len(),
        forall|i: int| 0 <= i < n ==> (#[trigger] polls[i]) is TimedOut,
        polls[n] is Delivered,
    ensures
        first_delivery(polls) == Some(polls[n]->Delivered_0@),
    decreases n,
{
    if n == 0 {
    } else {
        lemma_timeout_transparency(polls.drop_first(), n - 1);
    }
}

/// State of one native resource (a capture handle, a compiled filter
/// program, a device list) held by the safety layer.
#[derive(Debug, Clone, Copy, PartialEq, Eq, Structural)]
pub enum ResourceState {
    /// The native allocation is held and usable.
    Live,
    /// The native allocation has been handed back to the engine.
    Released,
}

/// One step an owner takes with its resource.
#[derive(Debug, Clone, Copy, PartialEq, Eq, Structural)]
pub enum ResourceEvent {
    /// Any use of the resource that keeps it alive.
    Access,
    /// The owner goes out of scope.
    Finalize,
}

/// One step of the release discipline: the native release call is issued
/// exactly on the transition out of `Live` at finalization.
pub open spec fn spec_release_step(s: ResourceState, e: ResourceEvent) -> (ResourceState, bool) {
    match (s, e) {
        (ResourceState::Live, ResourceEvent::Finalize) => (ResourceState::Released, true),
        (ResourceState::Live, ResourceEvent::Access) => (ResourceState::Live, false),
        (ResourceState::Released, _) => (ResourceState::Released, false),
    }
}

/// Take one step of the release discipline; the flag says whether the
/// native release call is issued now.
pub fn release_step(s: ResourceState, e: ResourceEvent) -> (r: (ResourceState, bool))
    ensures
        r == spec_release_step(s, e),
{
    match (s, e) {
        (ResourceState::Live, ResourceEvent::Finalize) => (ResourceState::Released, true),
        (ResourceState::Live, ResourceEvent::Access) => (ResourceState::Live, false),
        (ResourceState::Released, _) => (ResourceState::Released, false),
    }
}

/// How many native release calls a run of the discipline issues.
pub open spec fn count_releases(s: ResourceState, events: Seq<ResourceEvent>) -> nat
    decreases events.len(),
{
    if events.len() == 0 {
        0
    } else {
        let step = spec_release_step(s, events[0]);
        (if step.1 {
            1nat
        } else {
            0nat
        }) + count_releases(step.0, events.drop_first())
    }
}

/// Law: release-once. Over any event trace, a live resource's native
/// release is issued exactly once if the trace finalizes the owner — on
/// every path, early or late — and never again once released.
pub proof fn lemma_release_once(events: Seq<ResourceEvent>)
    ensures
        count_releases(ResourceState::Live, events) == (if events.contains(ResourceEvent::Finalize) {
            1nat
        } else {
            0nat
        }),
        count_releases(ResourceState::Released, events) == 0,
    decreases events.len(),
{
    if events.len() == 0 {
        assert(!events.contains(ResourceEvent::Finalize));
    } else {
        lemma_release_once(events.drop_first());
        if events[0] == ResourceEvent::Finalize {
            assert(events.contains(ResourceEvent::Finalize));
        } else {
            assert(events.contains(ResourceEvent::Finalize) <==> events.drop_first().contains(
                ResourceEvent::Finalize,
            )) by {
                if events.drop_first().contains(ResourceEvent::Finalize) {
                    let j = choose|j: int|
                        0 <= j < events.drop_first().len() && events.drop_first()[j]
                            == ResourceEvent::Finalize;
                    assert(events[j + 1] == ResourceEvent::Finalize);
                }
                if events.contains(ResourceEvent::Finalize) {
                    let j = choose|j: int|
                        0 <= j < events.len() && events[j] == ResourceEvent::Finalize;
                    assert(j != 0);
                    assert(events.drop_first()[j - 1] == ResourceEvent::Finalize);
                }
            }
        }
    }
}

} // verus!
