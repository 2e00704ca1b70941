//! The capture session: the decisions of the open / negotiate / stream /
//! rebuild cycle. The device work itself is done by the caller, which performs
//! each command that a transition returns and reports back what the device
//! granted.
use vstd::prelude::*;

use crate::codec::{decode, decode_spec, DecodeError};
use crate::config::DeviceConfig;
use crate::format::{FrameMessage, NegotiatedFormat, StreamRate};

verus! {

/// Consecutive transient read failures that are retried before the session
/// gives up.
pub const MAX_READ_RETRIES: u32 = 3;

/// Failures that end the session and close the delivery queue.
#[derive(Clone, Copy, Debug, PartialEq, Eq, Structural)]
pub enum FatalError {
    OpenError,
    NotACaptureDevice,
    FormatRejected,
    AllocationFailed,
    ReadFailed,
}

#[derive(Clone, Copy, Debug, PartialEq, Eq, Structural)]
pub enum SessionState {
    Closed,
    /// The device is open and the first format request is outstanding.
    Negotiating,
    Streaming,
    /// The buffer stream has been dropped and a new format is being negotiated.
    RebuildingFormat,
    /// The stream is stopped while a new frame interval is applied.
    RebuildingRate,
    Fatal(FatalError),
}

/// What the caller must do to the device before the next buffer is read.
#[derive(Clone, Copy, Debug, PartialEq, Eq)]
pub enum Rebuild {
    /// Nothing: read the next buffer.
    Keep,
    /// Stop the stream, apply this frame interval, and restart the same stream.
    Rate(StreamRate),
    /// Drop the buffer stream, request this format and frame interval, and
    /// allocate a new stream.
    Format(NegotiatedFormat, StreamRate),
}

/// The session's state as the transitions speak of it.
pub struct SessionView {
    pub state: SessionState,
    /// The format that the device granted last.
    pub format: NegotiatedFormat,
    /// The format that was requested last.
    pub requested: NegotiatedFormat,
    /// The frame interval that the device applied last.
    pub rate: StreamRate,
    /// The frame interval that was requested last.
    pub requested_rate: StreamRate,
    /// Which buffer stream is in use: the number of the allocation that made it.
    pub stream_id: u64,
    /// How many buffer streams have been allocated.
    pub allocations: u64,
    pub read_failures: u32,
}

impl SessionView {
    pub open spec fn wf(self) -> bool {
        &&& self.stream_id <= self.allocations
        &&& self.read_failures <= MAX_READ_RETRIES
    }

    /// `c`'s format differs from both the granted and the requested format.
    /// Comparing with the request too keeps a device that grants something
    /// other than what was asked from being asked again on every frame.
    pub open spec fn format_drift(self, c: DeviceConfig) -> bool {
        !c.format_spec().same_as(self.format) && !c.format_spec().same_as(self.requested)
    }

    /// `c`'s frame interval differs from both the applied and the requested one.
    pub open spec fn rate_drift(self, c: DeviceConfig) -> bool {
        c.rate != self.rate && c.rate != self.requested_rate
    }

    /// The device was opened: the first format request goes out.
    pub open spec fn opened(self, c: DeviceConfig) -> (SessionView, Rebuild) {
        (
            SessionView {
                state: SessionState::Negotiating,
                requested: c.format_spec(),
                requested_rate: c.rate,
                ..self
            },
            Rebuild::Format(c.format_spec(), c.rate),
        )
    }

    /// The check made once per captured frame. Format drift is handled before
    /// rate drift, since a format rebuild applies the rate as well.
    pub open spec fn drift(self, c: DeviceConfig) -> (SessionView, Rebuild) {
        if self.format_drift(c) {
            (
                SessionView {
                    state: SessionState::RebuildingFormat,
                    requested: c.format_spec(),
                    requested_rate: c.rate,
                    ..self
                },
                Rebuild::Format(c.format_spec(), c.rate),
            )
        } else if self.rate_drift(c) {
            (
                SessionView { state: SessionState::RebuildingRate, requested_rate: c.rate, ..self },
                Rebuild::Rate(c.rate),
            )
        } else {
            (self, Rebuild::Keep)
        }
    }

    /// The device granted `granted` and `rate` and a new buffer stream was
    /// allocated.
    pub open spec fn format_applied(self, granted: NegotiatedFormat, rate: StreamRate) -> SessionView {
        if self.allocations == u64::MAX {
            SessionView { state: SessionState::Fatal(FatalError::AllocationFailed), ..self }
        } else {
            SessionView {
                state: SessionState::Streaming,
                format: granted,
                rate: rate,
                stream_id: (self.allocations + 1) as u64,
                allocations: (self.allocations + 1) as u64,
                read_failures: 0,
                ..self
            }
        }
    }

    /// The device applied frame interval `rate` and the stream was restarted.
    pub open spec fn rate_applied(self, rate: StreamRate) -> SessionView {
        SessionView { state: SessionState::Streaming, rate: rate, ..self }
    }

    /// Stopping or restarting the stream failed: the stream can no longer be
    /// trusted, so the last request is negotiated again from scratch.
    pub open spec fn rate_failed(self) -> (SessionView, Rebuild) {
        (
            SessionView { state: SessionState::RebuildingFormat, ..self },
            Rebuild::Format(self.requested, self.requested_rate),
        )
    }

    /// Completes the command of a drift check with what the device granted.
    pub open spec fn complete(
        self,
        cmd: Rebuild,
        granted: NegotiatedFormat,
        rate: StreamRate,
    ) -> SessionView {
        match cmd {
            Rebuild::Keep => self,
            Rebuild::Rate(_) => self.rate_applied(rate),
            Rebuild::Format(_, _) => self.format_applied(granted, rate),
        }
    }

    /// A buffer was read.
    pub open spec fn frame_read(self) -> SessionView {
        SessionView { read_failures: 0, ..self }
    }

    /// A buffer read failed; transient failures are retried a bounded number
    /// of times in a row. The flag says whether to read again.
    pub open spec fn read_failed(self, transient: bool) -> (SessionView, bool) {
        if transient && self.read_failures < MAX_READ_RETRIES {
            (SessionView { read_failures: (self.read_failures + 1) as u32, ..self }, true)
        } else {
            (SessionView { state: SessionState::Fatal(FatalError::ReadFailed), ..self }, false)
        }
    }

    pub open spec fn failed(self, e: FatalError) -> SessionView {
        SessionView { state: SessionState::Fatal(e), ..self }
    }

    pub open spec fn closed(self) -> SessionView {
        SessionView { state: SessionState::Closed, ..self }
    }
}

/// The state of one capture session.
pub struct CaptureSession {
    state: SessionState,
    format: NegotiatedFormat,
    requested: NegotiatedFormat,
    rate: StreamRate,
    requested_rate: StreamRate,
    stream_id: u64,
    allocations: u64,
    read_failures: u32,
}

impl View for CaptureSession {
    type V = SessionView;

    closed spec fn view(&self) -> SessionView {
        SessionView {
            state: self.state,
            format: self.format,
            requested: self.requested,
            rate: self.rate,
            requested_rate: self.requested_rate,
            stream_id: self.stream_id,
            allocations: self.allocations,
            read_failures: self.read_failures,
        }
    }
}

impl CaptureSession {
    /// A closed session that expects the device's current format and rate.
    pub fn new(format: NegotiatedFormat, rate: StreamRate) -> (r: CaptureSession)
        ensures
            r@ == (SessionView {
                state: SessionState::Closed,
                format,
                requested: format,
                rate,
                requested_rate: rate,
                stream_id: 0,
                allocations: 0,
                read_failures: 0,
            }),
            r@.wf(),
    {
        CaptureSession {
            state: SessionState::Closed,
            format,
            requested: format,
            rate,
            requested_rate: rate,
            stream_id: 0,
            allocations: 0,
            read_failures: 0,
        }
    }

    pub fn state(&self) -> (r: SessionState)
        ensures
            r == self@.state,
    {
        self.state
    }

    /// The format the device granted last.
    pub fn format(&self) -> (r: NegotiatedFormat)
        ensures
            r == self@.format,
    {
        self.format
    }

    /// The frame interval the device applied last.
    pub fn rate(&self) -> (r: StreamRate)
        ensures
            r == self@.rate,
    {
        self.rate
    }

    /// Which buffer stream is in use.
    pub fn stream_id(&self) -> (r: u64)
        ensures
            r == self@.stream_id,
    {
        self.stream_id
    }

    /// How many buffer streams have been allocated.
    pub fn allocations(&self) -> (r: u64)
        ensures
            r == self@.allocations,
    {
        self.allocations
    }

    /// The device was opened; returns the first format request.
    pub fn opened(&mut self, config: &DeviceConfig) -> (r: Rebuild)
        requires
            old(self)@.wf(),
            old(self)@.state == SessionState::Closed,
        ensures
            (final(self)@, r) == old(self)@.opened(*config),
            final(self)@.wf(),
    {
        let format = config.format();
        self.state = SessionState::Negotiating;
        self.requested = format;
        self.requested_rate = config.rate;
        Rebuild::Format(format, config.rate)
    }

    /// Compares the desired configuration with what is in effect and says
    /// which rebuild, if any, must come before the next read.
    pub fn check_drift(&mut self, config: &DeviceConfig) -> (r: Rebuild)
        requires
            old(self)@.wf(),
            old(self)@.state == SessionState::Streaming,
        ensures
            (final(self)@, r) == old(self)@.drift(*config),
            final(self)@.wf(),
    {
        let wanted = config.format();
        if !wanted.same(&self.format) && !wanted.same(&self.requested) {
            self.state = SessionState::RebuildingFormat;
            self.requested = wanted;
            self.requested_rate = config.rate;
            Rebuild::Format(wanted, config.rate)
        } else if config.rate != self.rate && config.rate != self.requested_rate {
            self.state = SessionState::RebuildingRate;
            self.requested_rate = config.rate;
            Rebuild::Rate(config.rate)
        } else {
            Rebuild::Keep
        }
    }

    /// A format request was answered with `granted`, the device reports
    /// frame interval `rate`, and a new buffer stream was allocated.
    pub fn format_applied(&mut self, granted: NegotiatedFormat, rate: StreamRate)
        requires
            old(self)@.wf(),
            old(self)@.state == SessionState::Negotiating || old(self)@.state
                == SessionState::RebuildingFormat,
        ensures
            final(self)@ == old(self)@.format_applied(granted, rate),
            final(self)@.wf(),
    {
        if self.allocations == u64::MAX {
            self.state = SessionState::Fatal(FatalError::AllocationFailed);
        } else {
            self.state = SessionState::Streaming;
            self.format = granted;
            self.rate = rate;
            self.allocations = self.allocations + 1;
            self.stream_id = self.allocations;
            self.read_failures = 0;
        }
    }

    /// The device applied frame interval `rate` and the same stream restarted.
    pub fn rate_applied(&mut self, rate: StreamRate)
        requires
            old(self)@.wf(),
            old(self)@.state == SessionState::RebuildingRate,
        ensures
            final(self)@ == old(self)@.rate_applied(rate),
            final(self)@.wf(),
    {
        self.state = SessionState::Streaming;
        self.rate = rate;
    }

    /// The stream could not be stopped or restarted for a rate change; returns
    /// the full rebuild that replaces it.
    pub fn rate_failed(&mut self) -> (r: Rebuild)
        requires
            old(self)@.wf(),
            old(self)@.state == SessionState::RebuildingRate,
        ensures
            (final(self)@, r) == old(self)@.rate_failed(),
            final(self)@.wf(),
    {
        self.state = SessionState::RebuildingFormat;
        Rebuild::Format(self.requested, self.requested_rate)
    }

    /// A buffer `raw` was read: decodes it in the granted format. A decode
    /// failure drops this frame only; the session streams on either way.
    pub fn process_buffer(&mut self, raw: &[u8]) -> (r: Result<FrameMessage, DecodeError>)
        requires
            old(self)@.wf(),
            old(self)@.state == SessionState::Streaming,
        ensures
            final(self)@ == old(self)@.frame_read(),
            final(self)@.wf(),
            decode_spec(old(self)@.format, raw@, r),
    {
        self.read_failures = 0;
        decode(&self.format, raw)
    }

    /// A buffer read failed; returns whether to read again.
    pub fn read_failed(&mut self, transient: bool) -> (r: bool)
        requires
            old(self)@.wf(),
            old(self)@.state == SessionState::Streaming,
        ensures
            (final(self)@, r) == old(self)@.read_failed(transient),
            final(self)@.wf(),
    {
        if transient && self.read_failures < MAX_READ_RETRIES {
            self.read_failures = self.read_failures + 1;
            true
        } else {
            self.state = SessionState::Fatal(FatalError::ReadFailed);
            false
        }
    }

    /// The device work failed with `e`; the session ends.
    pub fn fail(&mut self, e: FatalError)
        requires
            old(self)@.wf(),
        ensures
            final(self)@ == old(self)@.failed(e),
            final(self)@.wf(),
    {
        self.state = SessionState::Fatal(e);
    }

    /// The session was shut down.
    pub fn close(&mut self)
        requires
            old(self)@.wf(),
        ensures
            final(self)@ == old(self)@.closed(),
            final(self)@.wf(),
    {
        self.state = SessionState::Closed;
    }
}

/// Eventual consistency: whatever state a streaming session is in, once the
/// desired configuration `c` stops changing, one drift check and the rebuild it
/// asks for (answered by the device with `granted` and `rate`) bring the
/// session back to streaming with nothing left to rebuild for `c`. Its format
/// is then `c`'s, or the one the device granted when `c`'s was requested.
pub proof fn lemma_eventually_consistent(
    s: SessionView,
    c: DeviceConfig,
    granted: NegotiatedFormat,
    rate: StreamRate,
)
    requires
        s.wf(),
        s.state == SessionState::Streaming,
        s.allocations < u64::MAX,
    ensures
        ({
            let (s1, cmd) = s.drift(c);
            let s2 = s1.complete(cmd, granted, rate);
            &&& s2.wf()
            &&& s2.state == SessionState::Streaming
            &&& s2.drift(c) == (s2, Rebuild::Keep)
            &&& s2.format.same_as(c.format_spec()) || s2.requested.same_as(c.format_spec())
            &&& s2.rate == c.rate || s2.requested_rate == c.rate
            &&& cmd is Format ==> s2.format == granted && s2.requested == c.format_spec()
        }),
{
}

/// The session after one capture iteration per configuration of `configs`:
/// a drift check, then the rebuild it asks for, answered by the device with the
/// format and rate of the same position in `grants` and `rates`.
pub open spec fn iterate(
    s: SessionView,
    configs: Seq<DeviceConfig>,
    grants: Seq<NegotiatedFormat>,
    rates: Seq<StreamRate>,
) -> SessionView
    decreases configs.len(),
{
    if configs.len() == 0 {
        s
    } else {
        let n = configs.len() - 1;
        let prev = iterate(s, configs.drop_last(), grants, rates);
        let (s1, cmd) = prev.drift(configs.last());
        s1.complete(cmd, grants[n], rates[n])
    }
}

proof fn lemma_iterate_streams(
    s: SessionView,
    configs: Seq<DeviceConfig>,
    grants: Seq<NegotiatedFormat>,
    rates: Seq<StreamRate>,
)
    requires
        s.wf(),
        s.state == SessionState::Streaming,
        s.allocations + configs.len() < u64::MAX,
        grants.len() >= configs.len(),
        rates.len() >= configs.len(),
    ensures
        iterate(s, configs, grants, rates).wf(),
        iterate(s, configs, grants, rates).state == SessionState::Streaming,
        iterate(s, configs, grants, rates).allocations <= s.allocations + configs.len(),
    decreases configs.len(),
{
    if configs.len() > 0 {
        lemma_iterate_streams(s, configs.drop_last(), grants, rates);
        let n = configs.len() - 1;
        lemma_eventually_consistent(
            iterate(s, configs.drop_last(), grants, rates),
            configs.last(),
            grants[n],
            rates[n],
        );
    }
}

/// Eventual consistency over any sequence of writes: when the capture loop
/// has seen configurations `configs` one per iteration, whatever the device
/// granted on the way, the session streams with nothing left to rebuild for
/// the last of them, and its format is that configuration's or the device's
/// grant for it.
pub proof fn lemma_settles_on_last_write(
    s: SessionView,
    configs: Seq<DeviceConfig>,
    grants: Seq<NegotiatedFormat>,
    rates: Seq<StreamRate>,
)
    requires
        s.wf(),
        s.state == SessionState::Streaming,
        configs.len() >= 1,
        s.allocations + configs.len() < u64::MAX,
        grants.len() == configs.len(),
        rates.len() == configs.len(),
    ensures
        ({
            let t = iterate(s, configs, grants, rates);
            let last = configs.last();
            &&& t.wf()
            &&& t.state == SessionState::Streaming
            &&& t.drift(last) == (t, Rebuild::Keep)
            &&& t.format.same_as(last.format_spec()) || t.requested.same_as(last.format_spec())
            &&& t.rate == last.rate || t.requested_rate == last.rate
        }),
{
    let n = configs.len() - 1;
    lemma_iterate_streams(s, configs.drop_last(), grants, rates);
    lemma_eventually_consistent(
        iterate(s, configs.drop_last(), grants, rates),
        configs.last(),
        grants[n],
        rates[n],
    );
}

/// Idempotence: a configuration equal to what is in effect triggers no
/// rebuild and leaves the session as it is.
pub proof fn lemma_no_rebuild_when_in_effect(s: SessionView, c: DeviceConfig)
    requires
        c.format_spec().same_as(s.format),
        c.rate == s.rate,
    ensures
        s.drift(c) == (s, Rebuild::Keep),
{
}

/// A change of frame interval alone takes the light path: the stream is
/// stopped and restarted, never reallocated, so the same stream stays in use.
pub proof fn lemma_rate_change_keeps_stream(s: SessionView, c: DeviceConfig, rate: StreamRate)
    requires
        s.state == SessionState::Streaming,
        c.format_spec().same_as(s.format),
        c.rate != s.rate,
        c.rate != s.requested_rate,
    ensures
        ({
            let (s1, cmd) = s.drift(c);
            let s2 = s1.complete(cmd, s.format, rate);
            &&& cmd == Rebuild::Rate(c.rate)
            &&& s1.state == SessionState::RebuildingRate
            &&& s2.state == SessionState::Streaming
            &&& s2.stream_id == s.stream_id
            &&& s2.allocations == s.allocations
            &&& s2.format == s.format
            &&& s2.rate == rate
        }),
{
}

/// A change of pixel format or frame size takes the full path: the stream is
/// dropped and a new one allocated, so another stream is in use afterwards.
pub proof fn lemma_format_change_replaces_stream(
    s: SessionView,
    c: DeviceConfig,
    granted: NegotiatedFormat,
    rate: StreamRate,
)
    requires
        s.wf(),
        s.state == SessionState::Streaming,
        s.format_drift(c),
        s.allocations < u64::MAX,
    ensures
        ({
            let (s1, cmd) = s.drift(c);
            let s2 = s1.complete(cmd, granted, rate);
            &&& cmd == Rebuild::Format(c.format_spec(), c.rate)
            &&& s1.state == SessionState::RebuildingFormat
            &&& s2.state == SessionState::Streaming
            &&& s2.stream_id != s.stream_id
            &&& s2.allocations == s.allocations + 1
            &&& s2.format == granted
        }),
{
}

/// A frame that fails to decode does not end the session: it keeps streaming
/// in the same format on the same stream, and the next buffer is decoded as if
/// the failed one had never come.
pub proof fn lemma_decode_error_keeps_streaming(s: SessionView)
    requires
        s.wf(),
        s.state == SessionState::Streaming,
    ensures
        s.frame_read().wf(),
        s.frame_read().state == SessionState::Streaming,
        s.frame_read().format == s.format,
        s.frame_read().stream_id == s.stream_id,
{
}

} // verus!
