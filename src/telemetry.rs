use vstd::prelude::*;

verus! {

/// How many finished spans wait in the buffer before it is shipped.
pub const BUFFER_CAPACITY: u64 = 2048;

/// Where the exporter session stands. Transitions go one way only.
#[derive(Clone, Copy, Debug, PartialEq, Eq, Structural)]
pub enum TelemetryPhase {
    Uninitialized,
    Active,
    ShutDown,
}

#[derive(Clone, Copy, Debug, PartialEq, Eq, Structural)]
pub enum TelemetryError {
    /// The span-recording frontend is process-wide: a second initialisation
    /// is a programming error.
    AlreadyInitialized,
}

/// Identity and target of the exporter.
pub struct TelemetryConfig {
    pub service_name: String,
    pub exporter_endpoint: String,
    pub environment: String,
}

pub open spec fn default_service_name() -> Seq<char> {
    "excelsior"@
}

pub open spec fn default_exporter_endpoint() -> Seq<char> {
    "http://localhost:4317"@
}

pub open spec fn default_environment() -> Seq<char> {
    "development"@
}

/// The configured value, or the default when none was configured.
pub open spec fn setting_or(v: Option<String>, default: Seq<char>) -> Seq<char> {
    match v {
        Some(s) => s@,
        None => default,
    }
}

fn value_or(v: Option<String>, default: &str) -> (r: String)
    ensures
        r@ == setting_or(v, default@),
{
    match v {
        Some(s) => s,
        None => String::from_str(default),
    }
}

impl TelemetryConfig {
    /// Builds the configuration from the settings that were found, each
    /// falling back to its default when absent.
    pub fn from_settings(
        service_name: Option<String>,
        exporter_endpoint: Option<String>,
        environment: Option<String>,
    ) -> (r: TelemetryConfig)
        ensures
            r.service_name@ == setting_or(service_name, default_service_name()),
            r.exporter_endpoint@ == setting_or(exporter_endpoint, default_exporter_endpoint()),
            r.environment@ == setting_or(environment, default_environment()),
    {
        TelemetryConfig {
            service_name: value_or(service_name, "excelsior"),
            exporter_endpoint: value_or(exporter_endpoint, "http://localhost:4317"),
            environment: value_or(environment, "development"),
        }
    }
}

/// The exporter session as numbers: its phase, the spans buffered and not yet
/// shipped, those the exporter took, and those lost to an unreachable exporter.
pub ghost struct TelemetryView {
    pub phase: TelemetryPhase,
    pub pending: nat,
    pub exported: nat,
    pub dropped: nat,
}

/// The single exporter session of a process, passed by the runner to whoever
/// records spans.
pub struct TelemetryManager {
    phase: TelemetryPhase,
    pending: u64,
    exported: u64,
    dropped: u64,
    config: Option<TelemetryConfig>,
}

impl View for TelemetryManager {
    type V = TelemetryView;

    closed spec fn view(&self) -> TelemetryView {
        TelemetryView {
            phase: self.phase,
            pending: self.pending as nat,
            exported: self.exported as nat,
            dropped: self.dropped as nat,
        }
    }
}

/// Every span ever accepted: buffered, exported or dropped.
pub open spec fn recorded(v: TelemetryView) -> nat {
    v.pending + v.exported + v.dropped
}

pub open spec fn fresh_view() -> TelemetryView {
    TelemetryView { phase: TelemetryPhase::Uninitialized, pending: 0, exported: 0, dropped: 0 }
}

/// Initialisation succeeds only on a session that was never initialised.
pub open spec fn init_next(v: TelemetryView) -> TelemetryView {
    if v.phase == TelemetryPhase::Uninitialized {
        TelemetryView { phase: TelemetryPhase::Active, ..v }
    } else {
        v
    }
}

/// An active session buffers the span, shipping the buffer first when it is
/// full; any other session ignores the span.
pub open spec fn record_next(v: TelemetryView, reachable: bool) -> TelemetryView {
    if v.phase == TelemetryPhase::Active {
        let room = if v.pending >= BUFFER_CAPACITY {
            flush_next(v, reachable)
        } else {
            v
        };
        TelemetryView { pending: room.pending + 1, ..room }
    } else {
        v
    }
}

/// Ships the buffer: to the exporter when it is reachable, else it is lost.
pub open spec fn flush_next(v: TelemetryView, reachable: bool) -> TelemetryView {
    if reachable {
        TelemetryView { pending: 0, exported: v.exported + v.pending, ..v }
    } else {
        TelemetryView { pending: 0, dropped: v.dropped + v.pending, ..v }
    }
}

/// Shutting down an active session flushes it and ends it; on any other
/// session it has no effect.
pub open spec fn shutdown_next(v: TelemetryView, reachable: bool) -> TelemetryView {
    if v.phase == TelemetryPhase::Active {
        TelemetryView { phase: TelemetryPhase::ShutDown, ..flush_next(v, reachable) }
    } else {
        v
    }
}

impl TelemetryManager {
    pub fn new() -> (r: TelemetryManager)
        ensures
            r@ == fresh_view(),
            r.config_spec().is_none(),
    {
        TelemetryManager {
            phase: TelemetryPhase::Uninitialized,
            pending: 0,
            exported: 0,
            dropped: 0,
            config: None,
        }
    }

    /// The configuration the session was started with.
    pub closed spec fn config_spec(&self) -> Option<TelemetryConfig> {
        self.config
    }

    pub fn config(&self) -> (r: Option<&TelemetryConfig>)
        ensures
            r.is_some() == self.config_spec().is_some(),
            r.is_some() ==> *r.unwrap() == self.config_spec().unwrap(),
    {
        match &self.config {
            Some(c) => Some(c),
            None => None,
        }
    }

    pub fn phase(&self) -> (r: TelemetryPhase)
        ensures
            r == self@.phase,
    {
        self.phase
    }

    pub fn pending(&self) -> (r: u64)
        ensures
            r == self@.pending,
    {
        self.pending
    }

    pub fn exported(&self) -> (r: u64)
        ensures
            r == self@.exported,
    {
        self.exported
    }

    pub fn dropped(&self) -> (r: u64)
        ensures
            r == self@.dropped,
    {
        self.dropped
    }

    /// Starts the exporter session. Fails on a session that was already
    /// started, whether or not it has been shut down since.
    pub fn init_telemetry(&mut self, config: TelemetryConfig) -> (r: Result<(), TelemetryError>)
        ensures
            r is Ok <==> old(self)@.phase == TelemetryPhase::Uninitialized,
            r is Err ==> r == Err::<(), _>(TelemetryError::AlreadyInitialized),
            final(self)@ == init_next(old(self)@),
            r is Ok ==> final(self).config_spec() == Some(config),
            r is Err ==> final(self).config_spec() == old(self).config_spec(),
    {
        if self.phase == TelemetryPhase::Uninitialized {
            self.phase = TelemetryPhase::Active;
            self.config = Some(config);
            Ok(())
        } else {
            Err(TelemetryError::AlreadyInitialized)
        }
    }

    /// Submits one finished span; it is kept only while the session is active.
    /// A full buffer is shipped first, to the exporter when `reachable` says it
    /// can be reached, else it is lost.
    pub fn record_span(&mut self, reachable: bool) -> (accepted: bool)
        requires
            recorded(old(self)@) < u64::MAX,
        ensures
            accepted == (old(self)@.phase == TelemetryPhase::Active),
            final(self)@ == record_next(old(self)@, reachable),
    {
        if self.phase == TelemetryPhase::Active {
            if self.pending >= BUFFER_CAPACITY {
                self.flush(reachable);
            }
            self.pending = self.pending + 1;
            true
        } else {
            false
        }
    }

    /// Ships the buffered spans of an active session; `reachable` is whether
    /// the exporter could be reached.
    pub fn export_batch(&mut self, reachable: bool)
        requires
            recorded(old(self)@) <= u64::MAX,
        ensures
            old(self)@.phase == TelemetryPhase::Active ==> final(self)@ == flush_next(
                old(self)@,
                reachable,
            ),
            old(self)@.phase != TelemetryPhase::Active ==> final(self)@ == old(self)@,
    {
        if self.phase == TelemetryPhase::Active {
            self.flush(reachable);
        }
    }

    fn flush(&mut self, reachable: bool)
        requires
            recorded(old(self)@) <= u64::MAX,
        ensures
            final(self)@ == flush_next(old(self)@, reachable),
    {
        if reachable {
            self.exported = self.exported + self.pending;
        } else {
            self.dropped = self.dropped + self.pending;
        }
        self.pending = 0;
    }

    /// Flushes what is buffered and ends the session; returns how many spans
    /// the exporter took in this flush. Calling it again has no effect.
    pub fn shutdown_telemetry(&mut self, reachable: bool) -> (shipped: u64)
        requires
            recorded(old(self)@) <= u64::MAX,
        ensures
            final(self)@ == shutdown_next(old(self)@, reachable),
            shipped == (if old(self)@.phase == TelemetryPhase::Active && reachable {
                old(self)@.pending
            } else {
                0
            }),
    {
        if self.phase == TelemetryPhase::Active {
            let shipped = if reachable {
                self.pending
            } else {
                0
            };
            self.flush(reachable);
            self.phase = TelemetryPhase::ShutDown;
            shipped
        } else {
            0
        }
    }
}

/// The session after `n` spans were submitted to it while the exporter was
/// reachable.
pub open spec fn records(v: TelemetryView, n: nat) -> TelemetryView
    decreases n,
{
    if n == 0 {
        v
    } else {
        record_next(records(v, (n - 1) as nat), true)
    }
}

proof fn lemma_records_while_active(v: TelemetryView, n: nat)
    requires
        v.phase == TelemetryPhase::Active,
        v.pending <= BUFFER_CAPACITY,
    ensures
        ({
            let w = records(v, n);
            &&& w.phase == v.phase
            &&& w.dropped == v.dropped
            &&& w.pending <= BUFFER_CAPACITY
            &&& w.pending + w.exported == v.pending + v.exported + n
        }),
    decreases n,
{
    if n > 0 {
        lemma_records_while_active(v, (n - 1) as nat);
    }
}

/// Initialisation followed by shutdown: every span submitted in between
/// reaches a reachable exporter, none is buffered or lost, and the session
/// cannot be started again.
pub proof fn lemma_spans_reach_exporter(n: nat)
    ensures
        ({
            let v = shutdown_next(records(init_next(fresh_view()), n), true);
            &&& v.exported == n
            &&& v.pending == 0
            &&& v.dropped == 0
            &&& v.phase == TelemetryPhase::ShutDown
            &&& init_next(v) == v
        }),
{
    lemma_records_while_active(init_next(fresh_view()), n);
}

/// A second shutdown changes nothing, whatever the exporter's state.
pub proof fn lemma_shutdown_idempotent(v: TelemetryView, first: bool, second: bool)
    ensures
        shutdown_next(shutdown_next(v, first), second) == shutdown_next(v, first),
{
}

} // verus!
