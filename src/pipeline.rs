use vstd::prelude::*;

verus! {

/// The default ceiling on a request body: 10 MiB.
pub const DEFAULT_BODY_LIMIT_BYTES: u64 = 1024 * 1024 * 10;

/// The default time a request may take: 60 seconds.
pub const DEFAULT_TIMEOUT_MILLIS: u64 = 60000;

pub const PAYLOAD_TOO_LARGE: u16 = 413;

pub const REQUEST_TIMEOUT: u16 = 408;

/// One middleware stage around the route table.
#[derive(Clone, Copy, Debug, PartialEq, Eq, Structural)]
pub enum Stage {
    /// Opens a span per request and logs an error on a failed outcome.
    Trace,
    /// Compresses responses in an encoding the client advertised.
    Compression,
    /// Rejects a body longer than this many bytes before any handler runs.
    BodyLimit(u64),
    /// Aborts a request that runs this many milliseconds or more.
    Timeout(u64),
}

/// The configurable ceilings of the pipeline.
#[derive(Clone, Copy, Debug, PartialEq, Eq, Structural)]
pub struct Limits {
    pub body_limit_bytes: u64,
    pub timeout_millis: u64,
}

impl Default for Limits {
    /// 10 MiB and 60 seconds.
    fn default() -> (r: Limits)
        ensures
            r.body_limit_bytes == DEFAULT_BODY_LIMIT_BYTES,
            r.timeout_millis == DEFAULT_TIMEOUT_MILLIS,
    {
        Limits { body_limit_bytes: DEFAULT_BODY_LIMIT_BYTES, timeout_millis: DEFAULT_TIMEOUT_MILLIS }
    }
}

/// What the pipeline learns of one request: the length of its body, how long
/// its handler runs, and the status that handler would answer.
#[derive(Clone, Copy, Debug, PartialEq, Eq, Structural)]
pub struct RequestFacts {
    pub body_len: u64,
    pub handler_millis: u64,
    pub handler_status: u16,
}

/// How a request ends: the status sent, whether its handler started, whether
/// the handler's own answer was sent, and whether an error event was logged.
#[derive(Clone, Copy, Debug, PartialEq, Eq, Structural)]
pub struct Outcome {
    pub status: u16,
    pub handler_ran: bool,
    pub handler_answered: bool,
    pub failure_logged: bool,
}

/// Server errors are the outcomes that the trace stage classifies as failures.
pub open spec fn is_failure(status: u16) -> bool {
    500 <= status < 600
}

/// The outcome of a request that enters the stages from index `i` inward; past
/// the last stage the route handler answers.
pub open spec fn run_from(stages: Seq<Stage>, i: int, req: RequestFacts) -> Outcome
    decreases stages.len() - i,
{
    if i < 0 || i >= stages.len() {
        Outcome {
            status: req.handler_status,
            handler_ran: true,
            handler_answered: true,
            failure_logged: false,
        }
    } else {
        let inner = run_from(stages, i + 1, req);
        match stages[i] {
            Stage::Trace => Outcome {
                failure_logged: inner.failure_logged || is_failure(inner.status),
                ..inner
            },
            Stage::Compression => inner,
            Stage::BodyLimit(limit) => if req.body_len > limit {
                Outcome {
                    status: PAYLOAD_TOO_LARGE,
                    handler_ran: false,
                    handler_answered: false,
                    failure_logged: false,
                }
            } else {
                inner
            },
            Stage::Timeout(millis) => if inner.handler_ran && req.handler_millis >= millis {
                Outcome {
                    status: REQUEST_TIMEOUT,
                    handler_ran: true,
                    handler_answered: false,
                    failure_logged: false,
                }
            } else {
                inner
            },
        }
    }
}

/// The ordered middleware stack, outermost first, read only once built.
pub struct PipelineSpec {
    stages: Vec<Stage>,
}

impl View for PipelineSpec {
    type V = Seq<Stage>;

    closed spec fn view(&self) -> Seq<Stage> {
        self.stages@
    }
}

/// The fixed order: tracing outermost, then compression, then the body
/// limit, then the timeout around the handler.
pub open spec fn standard_stages(limits: Limits) -> Seq<Stage> {
    seq![
        Stage::Trace,
        Stage::Compression,
        Stage::BodyLimit(limits.body_limit_bytes),
        Stage::Timeout(limits.timeout_millis),
    ]
}

/// Composes the middleware stack for the given limits.
pub fn build_pipeline(limits: Limits) -> (r: PipelineSpec)
    ensures
        r@ == standard_stages(limits),
{
    let stages = vec![
        Stage::Trace,
        Stage::Compression,
        Stage::BodyLimit(limits.body_limit_bytes),
        Stage::Timeout(limits.timeout_millis),
    ];
    PipelineSpec { stages }
}

impl PipelineSpec {
    pub fn stages(&self) -> (r: &Vec<Stage>)
        ensures
            r@ == self@,
    {
        &self.stages
    }

    /// The outcome of a request through the whole stack.
    pub fn outcome(&self, req: RequestFacts) -> (r: Outcome)
        ensures
            r == run_from(self@, 0, req),
    {
        self.outcome_from(0, req)
    }

    fn outcome_from(&self, i: usize, req: RequestFacts) -> (r: Outcome)
        requires
            i <= self@.len(),
        ensures
            r == run_from(self@, i as int, req),
        decreases self@.len() - i,
    {
        if i >= self.stages.len() {
            return Outcome {
                status: req.handler_status,
                handler_ran: true,
                handler_answered: true,
                failure_logged: false,
            };
        }
        let inner = self.outcome_from(i + 1, req);
        match self.stages[i] {
            Stage::Trace => Outcome {
                failure_logged: inner.failure_logged || (500 <= inner.status && inner.status < 600),
                ..inner
            },
            Stage::Compression => inner,
            Stage::BodyLimit(limit) => if req.body_len > limit {
                Outcome {
                    status: PAYLOAD_TOO_LARGE,
                    handler_ran: false,
                    handler_answered: false,
                    failure_logged: false,
                }
            } else {
                inner
            },
            Stage::Timeout(millis) => if inner.handler_ran && req.handler_millis >= millis {
                Outcome {
                    status: REQUEST_TIMEOUT,
                    handler_ran: true,
                    handler_answered: false,
                    failure_logged: false,
                }
            } else {
                inner
            },
        }
    }
}

/// Through the standard stack, a body over the limit is answered 413 before
/// any handler runs; any other request gets its handler's own answer unless
/// the timeout elapses first, in which case it gets 408; and an error event is
/// logged exactly when the status sent is a server error, whichever stage
/// decided it.
pub proof fn lemma_standard_pipeline(limits: Limits, req: RequestFacts)
    ensures
        ({
            let o = run_from(standard_stages(limits), 0, req);
            &&& req.body_len > limits.body_limit_bytes ==> o.status == PAYLOAD_TOO_LARGE
                && !o.handler_ran
            &&& req.body_len <= limits.body_limit_bytes && req.handler_millis
                < limits.timeout_millis ==> o.status == req.handler_status && o.handler_answered
            &&& req.body_len <= limits.body_limit_bytes && req.handler_millis
                >= limits.timeout_millis ==> o.status == REQUEST_TIMEOUT && !o.handler_answered
            &&& o.failure_logged == is_failure(o.status)
        }),
{
    reveal_with_fuel(run_from, 5);
}

} // verus!
