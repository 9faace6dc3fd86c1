//! Streaming response state and validation contracts.
//!
//! Streaming values distinguish complete responses from ordered stream events,
//! terminal states, cancellation reasons, provider metadata, and invalid sequence
//! diagnostics for provider execution outcomes.

use vstd::prelude::*;

use crate::errors::CoreError;
use crate::protocol::{
    is_protocol_error, CanonicalProtocolResponse, CanonicalResponseView, ProtocolMetadata,
    ProtocolPayload, ProtocolPayloadView,
};
use crate::text::{
    concat2, decimal, decimal_string, has_prefix, is_blank, is_blank_text, is_present_and_blank,
    owned, starts_with,
};

verus! {

/// Minimum supported stream-control duration in milliseconds.
pub const MIN_STREAMING_CONTROL_DURATION_MS: u64 = 1;

/// Maximum supported stream-control duration in milliseconds.
pub const MAX_STREAMING_CONTROL_DURATION_MS: u64 = 300_000;

/// Maximum supported additional bootstrap retry attempts after the initial attempt.
pub const MAX_STREAMING_BOOTSTRAP_RETRY_COUNT: u8 = 10;

/// Reserved metadata key emitted by typed keepalive helpers.
pub const OXMUX_KEEPALIVE_METADATA_KEY: &'static str = "oxmux.keepalive";

/// Reserved metadata key emitted by typed timeout helpers.
pub const OXMUX_TIMEOUT_METADATA_KEY: &'static str = "oxmux.timeout";

/// Reserved metadata key emitted by typed committed retry-summary helpers.
pub const OXMUX_RETRY_SUMMARY_METADATA_KEY: &'static str = "oxmux.retry_summary";

/// Reserved metadata key emitted by typed retry-exhaustion helpers.
pub const OXMUX_RETRY_EXHAUSTED_METADATA_KEY: &'static str = "oxmux.retry_exhausted";

/// Marker for streaming response ownership in the headless core.
#[derive(Clone, Copy, Debug, PartialEq, Eq, Structural)]
pub struct StreamingBoundary;

/// A streaming policy diagnostic: field and message.
pub type PolicyProblem = (Seq<char>, Seq<char>);

/// The error is the structured streaming policy error for this problem.
pub open spec fn is_policy_error(e: CoreError, p: PolicyProblem) -> bool {
    &&& e matches CoreError::Streaming { failure: StreamingFailure::InvalidPolicy { field, message } }
    &&& field@ == p.0
    &&& message@ == p.1
}

/// Message for a duration outside the supported range.
pub open spec fn duration_message() -> Seq<char> {
    "duration must be between 1 and 300000 milliseconds"@
}

/// Problem of a stream-control duration, if any.
pub open spec fn duration_problem(field: Seq<char>, value: u64) -> Option<PolicyProblem> {
    if MIN_STREAMING_CONTROL_DURATION_MS <= value && value <= MAX_STREAMING_CONTROL_DURATION_MS {
        None
    } else {
        Some((field, duration_message()))
    }
}

/// Problem of an optional stream-control duration, if any.
pub open spec fn optional_duration_problem(field: Seq<char>, value: Option<u64>) -> Option<
    PolicyProblem,
> {
    match value {
        Some(v) => duration_problem(field, v),
        None => None,
    }
}

fn invalid_policy(field: &'static str, message: &str) -> (r: CoreError)
    ensures
        is_policy_error(r, (field@, message@)),
{
    CoreError::Streaming { failure: StreamingFailure::InvalidPolicy { field, message: owned(message) } }
}

fn validate_duration(field: &'static str, value: u64) -> (r: Result<(), CoreError>)
    ensures
        match r {
            Ok(()) => duration_problem(field@, value) is None,
            Err(e) => duration_problem(field@, value) is Some && is_policy_error(
                e,
                duration_problem(field@, value).unwrap(),
            ),
        },
{
    if MIN_STREAMING_CONTROL_DURATION_MS <= value && value <= MAX_STREAMING_CONTROL_DURATION_MS {
        Ok(())
    } else {
        Err(invalid_policy(field, "duration must be between 1 and 300000 milliseconds"))
    }
}

fn validate_optional_duration(field: &'static str, value: Option<u64>) -> (r: Result<(), CoreError>)
    ensures
        match r {
            Ok(()) => optional_duration_problem(field@, value) is None,
            Err(e) => optional_duration_problem(field@, value) is Some && is_policy_error(
                e,
                optional_duration_problem(field@, value).unwrap(),
            ),
        },
{
    match value {
        Some(v) => validate_duration(field, v),
        None => Ok(()),
    }
}

/// Deterministic headless policy for stream keepalive, bootstrap retry, timeout, and cancellation behavior.
#[derive(Clone, Debug, PartialEq, Eq)]
pub struct StreamingRobustnessPolicy {
    /// Optional keepalive interval represented in milliseconds; omission disables keepalive metadata.
    pub keepalive_interval_ms: Option<u64>,
    /// Additional bootstrap attempts after the initial streaming attempt.
    pub bootstrap_retry_count: u8,
    /// Optional timeout duration represented in milliseconds; omission disables timeout metadata.
    pub timeout_ms: Option<u64>,
    /// Cancellation behavior enabled for deterministic stream-control handling.
    pub cancellation: StreamingCancellationPolicy,
}

impl Default for StreamingRobustnessPolicy {
    fn default() -> (r: Self)
        ensures
            r == StreamingRobustnessPolicy::disabled_spec(),
    {
        StreamingRobustnessPolicy {
            keepalive_interval_ms: None,
            bootstrap_retry_count: 0,
            timeout_ms: None,
            cancellation: StreamingCancellationPolicy::Disabled,
        }
    }
}

impl StreamingRobustnessPolicy {
    /// The default policy: nothing enabled.
    pub open spec fn disabled_spec() -> StreamingRobustnessPolicy {
        StreamingRobustnessPolicy {
            keepalive_interval_ms: None,
            bootstrap_retry_count: 0,
            timeout_ms: None,
            cancellation: StreamingCancellationPolicy::Disabled,
        }
    }

    /// First policy problem: keepalive range, retry count, timeout range, then the
    /// rule that timeout cancellation needs a timeout.
    pub open spec fn problem(self) -> Option<PolicyProblem> {
        if optional_duration_problem("streaming.keepalive-interval-ms"@, self.keepalive_interval_ms) is Some {
            optional_duration_problem("streaming.keepalive-interval-ms"@, self.keepalive_interval_ms)
        } else if self.bootstrap_retry_count > MAX_STREAMING_BOOTSTRAP_RETRY_COUNT {
            Some(("streaming.bootstrap-retry-count"@, "retry count must be between 0 and 10"@))
        } else if optional_duration_problem("streaming.timeout-ms"@, self.timeout_ms) is Some {
            optional_duration_problem("streaming.timeout-ms"@, self.timeout_ms)
        } else if self.cancellation == StreamingCancellationPolicy::Timeout && self.timeout_ms is None {
            Some(("streaming.cancellation"@, "timeout cancellation requires streaming.timeout-ms"@))
        } else {
            None
        }
    }

    /// Creates a policy and validates all supported ranges and cross-field rules.
    pub fn new(
        keepalive_interval_ms: Option<u64>,
        bootstrap_retry_count: u8,
        timeout_ms: Option<u64>,
        cancellation: StreamingCancellationPolicy,
    ) -> (r: Result<Self, CoreError>)
        ensures
            ({
                let candidate = StreamingRobustnessPolicy {
                    keepalive_interval_ms,
                    bootstrap_retry_count,
                    timeout_ms,
                    cancellation,
                };
                match r {
                    Ok(p) => p == candidate && candidate.problem() is None,
                    Err(e) => candidate.problem() is Some && is_policy_error(
                        e,
                        candidate.problem().unwrap(),
                    ),
                }
            }),
    {
        let policy = StreamingRobustnessPolicy {
            keepalive_interval_ms,
            bootstrap_retry_count,
            timeout_ms,
            cancellation,
        };
        policy.validate()?;
        Ok(policy)
    }

    /// Validates this policy and returns structured streaming errors for invalid code-owned values.
    pub fn validate(&self) -> (r: Result<(), CoreError>)
        ensures
            match r {
                Ok(()) => self.problem() is None,
                Err(e) => self.problem() is Some && is_policy_error(e, self.problem().unwrap()),
            },
    {
        validate_optional_duration("streaming.keepalive-interval-ms", self.keepalive_interval_ms)?;
        if self.bootstrap_retry_count > MAX_STREAMING_BOOTSTRAP_RETRY_COUNT {
            return Err(
                invalid_policy(
                    "streaming.bootstrap-retry-count",
                    "retry count must be between 0 and 10",
                ),
            );
        }
        validate_optional_duration("streaming.timeout-ms", self.timeout_ms)?;
        if self.cancellation == StreamingCancellationPolicy::Timeout && self.timeout_ms.is_none() {
            return Err(
                invalid_policy(
                    "streaming.cancellation",
                    "timeout cancellation requires streaming.timeout-ms",
                ),
            );
        }
        Ok(())
    }

    /// Returns true when no stream robustness behavior is enabled.
    pub fn is_disabled(&self) -> (r: bool)
        ensures
            r == (*self == StreamingRobustnessPolicy::disabled_spec()),
    {
        self.keepalive_interval_ms.is_none() && self.bootstrap_retry_count == 0
            && self.timeout_ms.is_none() && self.cancellation
            == StreamingCancellationPolicy::Disabled
    }

    /// Returns the maximum number of total attempts allowed by this policy.
    pub fn max_attempts(&self) -> (r: u8)
        ensures
            r == if self.bootstrap_retry_count == 255 {
                255
            } else {
                self.bootstrap_retry_count + 1
            },
    {
        if self.bootstrap_retry_count == 255 {
            255
        } else {
            self.bootstrap_retry_count + 1
        }
    }
}

/// Deterministic cancellation behavior configured for stream-control handling.
#[derive(Clone, Copy, Debug, PartialEq, Eq, Structural)]
pub enum StreamingCancellationPolicy {
    /// Automatic cancellation is disabled.
    Disabled,
    /// Client disconnect may be represented by deterministic mock outcomes.
    ClientDisconnect,
    /// Timeout policy may convert timeout observations into cancellation.
    Timeout,
}

/// Provider response mode, either complete or streaming.
#[derive(Debug, PartialEq, Eq)]
pub enum ResponseMode {
    /// Response is available as a complete canonical payload.
    Complete(CanonicalProtocolResponse),
    /// Provider execution returns a streaming response.
    Streaming(StreamingResponse),
}

/// Model of a response mode.
pub enum ResponseModeView {
    /// Complete response model.
    Complete(CanonicalResponseView),
    /// Models of the stream's events.
    Streaming(Seq<StreamEventView>),
}

impl View for ResponseMode {
    type V = ResponseModeView;

    open spec fn view(&self) -> ResponseModeView {
        match self {
            ResponseMode::Complete(r) => ResponseModeView::Complete(r@),
            ResponseMode::Streaming(s) => ResponseModeView::Streaming(s@),
        }
    }
}

impl Clone for ResponseMode {
    fn clone(&self) -> (r: Self)
        ensures
            r@ == self@,
    {
        match self {
            ResponseMode::Complete(response) => ResponseMode::Complete(response.clone()),
            ResponseMode::Streaming(response) => ResponseMode::Streaming(response.clone()),
        }
    }
}

impl ResponseMode {
    /// Wraps a complete canonical response mode.
    pub fn complete(response: CanonicalProtocolResponse) -> (r: Self)
        ensures
            r == ResponseMode::Complete(response),
    {
        ResponseMode::Complete(response)
    }

    /// Creates a validated streaming response mode.
    pub fn streaming(events: Vec<StreamEvent>) -> (r: Result<Self, CoreError>)
        ensures
            match r {
                Ok(mode) => mode matches ResponseMode::Streaming(s) && s.events_spec() == events@
                    && sequence_problem(events@) is None,
                Err(e) => sequence_problem(events@) is Some && e == (CoreError::Streaming {
                    failure: StreamingFailure::InvalidSequence {
                        reason: sequence_problem(events@).unwrap(),
                    },
                }),
            },
    {
        Ok(ResponseMode::Streaming(StreamingResponse::new(events)?))
    }

    /// Returns the complete response when this mode is complete.
    pub fn complete_response(&self) -> (r: Option<&CanonicalProtocolResponse>)
        ensures
            match self {
                ResponseMode::Complete(response) => r == Some(response),
                ResponseMode::Streaming(_) => r is None,
            },
    {
        match self {
            ResponseMode::Complete(response) => Some(response),
            ResponseMode::Streaming(_) => None,
        }
    }

    /// Returns the streaming response when this mode is streaming.
    pub fn streaming_response(&self) -> (r: Option<&StreamingResponse>)
        ensures
            match self {
                ResponseMode::Complete(_) => r is None,
                ResponseMode::Streaming(response) => r == Some(response),
            },
    {
        match self {
            ResponseMode::Complete(_) => None,
            ResponseMode::Streaming(response) => Some(response),
        }
    }
}

/// Index of the first terminal event of a sequence.
pub open spec fn is_first_terminal(events: Seq<StreamEvent>, t: int) -> bool {
    &&& 0 <= t < events.len()
    &&& events[t] is Terminal
    &&& forall|j: int| 0 <= j < t ==> !(#[trigger] events[j] is Terminal)
}

/// A sequence is well ordered when exactly one terminal event closes it.
pub open spec fn is_well_ordered(events: Seq<StreamEvent>) -> bool {
    &&& events.len() > 0
    &&& events.last() is Terminal
    &&& forall|j: int| 0 <= j < events.len() - 1 ==> !(#[trigger] events[j] is Terminal)
}

/// The ordering diagnostic for a sequence: none when well ordered; a missing terminal
/// when there is none; otherwise the event right after the first terminal decides
/// between a second terminal and a trailing event.
pub open spec fn sequence_problem(events: Seq<StreamEvent>) -> Option<InvalidStreamSequence> {
    if exists|t: int| is_first_terminal(events, t) {
        let t = choose|t: int| is_first_terminal(events, t);
        if t == events.len() - 1 {
            None
        } else if events[t + 1] is Terminal {
            Some(
                InvalidStreamSequence::MultipleTerminals {
                    first_terminal_index: t as usize,
                    terminal_index: (t + 1) as usize,
                },
            )
        } else {
            Some(
                InvalidStreamSequence::EventAfterTerminal {
                    terminal_index: t as usize,
                    event_index: (t + 1) as usize,
                },
            )
        }
    } else {
        Some(InvalidStreamSequence::MissingTerminal)
    }
}

/// Validated ordered sequence of stream events ending in one terminal state.
#[derive(Debug, PartialEq, Eq)]
pub struct StreamingResponse {
    events: Vec<StreamEvent>,
}

impl View for StreamingResponse {
    type V = Seq<StreamEventView>;

    open spec fn view(&self) -> Seq<StreamEventView> {
        self.events_spec().map_values(|e: StreamEvent| e@)
    }
}

impl Clone for StreamingResponse {
    fn clone(&self) -> (r: Self)
        ensures
            r@ == self@,
    {
        let mut events: Vec<StreamEvent> = Vec::new();
        let mut i: usize = 0;
        while i < self.events.len()
            invariant
                i <= self.events.len(),
                events@.len() == i,
                forall|j: int| 0 <= j < i ==> (#[trigger] events@[j])@ == self.events@[j]@,
            decreases self.events.len() - i,
        {
            events.push(self.events[i].clone());
            i = i + 1;
        }
        let r = StreamingResponse { events };
        assert(r@ =~= self@);
        r
    }
}

impl StreamingResponse {
    /// The ordered events of this response.
    pub closed spec fn events_spec(self) -> Seq<StreamEvent> {
        self.events@
    }

    /// Creates a streaming response after validating terminal event ordering.
    pub fn new(events: Vec<StreamEvent>) -> (r: Result<Self, CoreError>)
        ensures
            match r {
                Ok(s) => s.events_spec() == events@ && sequence_problem(events@) is None,
                Err(e) => sequence_problem(events@) is Some && e == (CoreError::Streaming {
                    failure: StreamingFailure::InvalidSequence {
                        reason: sequence_problem(events@).unwrap(),
                    },
                }),
            },
    {
        StreamingResponse::validate_events(&events)?;
        Ok(StreamingResponse { events })
    }

    /// Returns the ordered stream events.
    pub fn events(&self) -> (r: &[StreamEvent])
        ensures
            r@ == self.events_spec(),
    {
        self.events.as_slice()
    }

    /// Returns the terminal stream state, when present.
    pub fn terminal(&self) -> (r: Option<&StreamTerminalState>)
        ensures
            match r {
                Some(t) => self.events_spec().len() > 0 && self.events_spec().last()
                    == StreamEvent::Terminal(*t),
                None => self.events_spec().len() == 0 || !(self.events_spec().last() is Terminal),
            },
    {
        let n = self.events.len();
        if n == 0 {
            return None;
        }
        match &self.events[n - 1] {
            StreamEvent::Terminal(terminal) => Some(terminal),
            _ => None,
        }
    }

    /// Consumes the response and returns its ordered stream events.
    pub fn into_events(self) -> (r: Vec<StreamEvent>)
        ensures
            r@ == self.events_spec(),
    {
        self.events
    }

    /// Validates this value and returns a structured core error on failure.
    pub fn validate(&self) -> (r: Result<(), CoreError>)
        ensures
            match r {
                Ok(()) => sequence_problem(self.events_spec()) is None,
                Err(e) => sequence_problem(self.events_spec()) is Some && e == (CoreError::Streaming {
                    failure: StreamingFailure::InvalidSequence {
                        reason: sequence_problem(self.events_spec()).unwrap(),
                    },
                }),
            },
    {
        StreamingResponse::validate_events(&self.events)
    }

    /// Validates stream event ordering and terminal state.
    pub fn validate_events(events: &[StreamEvent]) -> (r: Result<(), CoreError>)
        ensures
            match r {
                Ok(()) => sequence_problem(events@) is None,
                Err(e) => sequence_problem(events@) is Some && e == (CoreError::Streaming {
                    failure: StreamingFailure::InvalidSequence {
                        reason: sequence_problem(events@).unwrap(),
                    },
                }),
            },
    {
        let mut terminal_index: Option<usize> = None;
        let mut event_index: usize = 0;
        while event_index < events.len()
            invariant
                event_index <= events@.len(),
                match terminal_index {
                    None => forall|j: int| 0 <= j < event_index ==> !(#[trigger] events@[j] is Terminal),
                    Some(t) => is_first_terminal(events@, t as int) && t + 1 == event_index,
                },
            decreases events.len() - event_index,
        {
            let is_terminal = matches!(&events[event_index], StreamEvent::Terminal(_));
            if is_terminal {
                if let Some(first_terminal_index) = terminal_index {
                    proof {
                        lemma_first_terminal_unique(events@, first_terminal_index as int);
                    }
                    return Err(
                        CoreError::Streaming {
                            failure: StreamingFailure::InvalidSequence {
                                reason: InvalidStreamSequence::MultipleTerminals {
                                    first_terminal_index,
                                    terminal_index: event_index,
                                },
                            },
                        },
                    );
                }
                terminal_index = Some(event_index);
            } else if let Some(t) = terminal_index {
                proof {
                    lemma_first_terminal_unique(events@, t as int);
                }
                return Err(
                    CoreError::Streaming {
                        failure: StreamingFailure::InvalidSequence {
                            reason: InvalidStreamSequence::EventAfterTerminal {
                                terminal_index: t,
                                event_index,
                            },
                        },
                    },
                );
            }
            event_index = event_index + 1;
        }
        match terminal_index {
            None => {
                assert(!exists|t: int| is_first_terminal(events@, t));
                Err(
                    CoreError::Streaming {
                        failure: StreamingFailure::InvalidSequence {
                            reason: InvalidStreamSequence::MissingTerminal,
                        },
                    },
                )
            },
            Some(t) => {
                proof {
                    lemma_first_terminal_unique(events@, t as int);
                }
                Ok(())
            },
        }
    }
}

/// The first terminal index is unique, so the specification's choice is that index.
pub proof fn lemma_first_terminal_unique(events: Seq<StreamEvent>, t: int)
    requires
        is_first_terminal(events, t),
    ensures
        (choose|u: int| is_first_terminal(events, u)) == t,
{
    let u = choose|u: int| is_first_terminal(events, u);
    assert(is_first_terminal(events, u));
    if u < t {
        assert(!(events[u] is Terminal));
    }
    if t < u {
        assert(!(events[t] is Terminal));
    }
}

/// A stream sequence validates exactly when one terminal event closes it.
pub proof fn lemma_sequence_valid_iff_well_ordered(events: Seq<StreamEvent>)
    ensures
        sequence_problem(events) is None <==> is_well_ordered(events),
{
    if exists|t: int| is_first_terminal(events, t) {
        let t = choose|t: int| is_first_terminal(events, t);
        if t == events.len() - 1 {
            assert(is_well_ordered(events));
        } else {
            assert(!is_well_ordered(events)) by {
                if is_well_ordered(events) {
                    assert(events[t] is Terminal);
                }
            }
        }
    } else {
        if is_well_ordered(events) {
            assert(is_first_terminal(events, events.len() - 1));
        }
    }
}

/// One event in a streaming provider response.
#[derive(Debug, PartialEq, Eq)]
pub enum StreamEvent {
    /// Stream event carrying protocol content.
    Content(StreamContent),
    /// Stream event carrying name/value metadata.
    Metadata(StreamMetadata),
    /// Stream event carrying the terminal state.
    Terminal(StreamTerminalState),
}

/// Model of a stream event: content by its payload model, metadata and terminals as they are.
pub enum StreamEventView {
    /// Content event.
    Content(StreamContentView),
    /// Metadata event.
    Metadata(StreamMetadata),
    /// Terminal event.
    Terminal(StreamTerminalState),
}

impl View for StreamEvent {
    type V = StreamEventView;

    open spec fn view(&self) -> StreamEventView {
        match self {
            StreamEvent::Content(c) => StreamEventView::Content(c@),
            StreamEvent::Metadata(m) => StreamEventView::Metadata(*m),
            StreamEvent::Terminal(t) => StreamEventView::Terminal(*t),
        }
    }
}

impl Clone for StreamEvent {
    fn clone(&self) -> (r: Self)
        ensures
            r@ == self@,
            r is Terminal <==> self is Terminal,
    {
        match self {
            StreamEvent::Content(c) => StreamEvent::Content(
                StreamContent { protocol: c.protocol.clone(), payload: c.payload.clone() },
            ),
            StreamEvent::Metadata(m) => StreamEvent::Metadata(
                StreamMetadata { name: m.name.clone(), value: m.value.clone() },
            ),
            StreamEvent::Terminal(t) => StreamEvent::Terminal(t.clone()),
        }
    }
}

/// Protocol-tagged content payload emitted by a stream.
#[derive(Clone, Debug, PartialEq, Eq)]
pub struct StreamContent {
    /// Protocol metadata attached to this payload.
    pub protocol: ProtocolMetadata,
    /// Opaque protocol payload for this request, response, or stream event.
    pub payload: ProtocolPayload,
}

/// Model of stream content.
pub struct StreamContentView {
    /// Protocol metadata.
    pub protocol: ProtocolMetadata,
    /// Model of the payload.
    pub payload: ProtocolPayloadView,
}

impl View for StreamContent {
    type V = StreamContentView;

    open spec fn view(&self) -> StreamContentView {
        StreamContentView { protocol: self.protocol, payload: self.payload@ }
    }
}

impl StreamContent {
    /// Creates a content event payload for a specific protocol family.
    pub fn new(protocol: ProtocolMetadata, payload: ProtocolPayload) -> (r: Result<Self, CoreError>)
        ensures
            match r {
                Ok(c) => c.protocol == protocol && c.payload == payload && protocol.problem() is None,
                Err(e) => protocol.problem() is Some && is_protocol_error(e, protocol.problem().unwrap()),
            },
    {
        protocol.validate()?;
        Ok(StreamContent { protocol, payload })
    }
}

/// The failure code recorded for blank stream fields.
pub open spec fn invalid_field_code() -> Seq<char> {
    "invalid_stream_field"@
}

/// The error is the pre-stream failure reported for a blank stream field.
pub open spec fn is_blank_field_error(e: CoreError, message: Seq<char>) -> bool {
    &&& e matches CoreError::Streaming { failure: StreamingFailure::PreStreamFailure { failure } }
    &&& failure.code_spec() == invalid_field_code()
    &&& failure.message_spec() == message
    &&& failure.provider_metadata_spec() is None
}

fn blank_field_error(field: &'static str, suffix: &str) -> (r: CoreError)
    ensures
        is_blank_field_error(r, field@ + suffix@),
{
    CoreError::Streaming {
        failure: StreamingFailure::PreStreamFailure {
            failure: StreamFailure::invalid_field(concat2(field, suffix)),
        },
    }
}

/// Name/value metadata event emitted by a stream.
#[derive(Clone, Debug, PartialEq, Eq)]
pub struct StreamMetadata {
    name: String,
    value: String,
}

/// Name prefix reserved for typed metadata helpers.
pub open spec fn reserved_prefix() -> Seq<char> {
    "oxmux."@
}

impl StreamMetadata {
    /// Entry name.
    pub closed spec fn name_spec(self) -> Seq<char> {
        self.name@
    }

    /// Entry value.
    pub closed spec fn value_spec(self) -> Seq<char> {
        self.value@
    }

    /// Creates a stream metadata entry with non-empty name and value fields.
    pub fn new(name: &str, value: &str) -> (r: Result<Self, CoreError>)
        ensures
            is_blank_text(name@) ==> r is Err && is_blank_field_error(
                r->Err_0,
                "stream.metadata.name"@ + " must not be blank"@,
            ),
            !is_blank_text(name@) && is_blank_text(value@) ==> r is Err && is_blank_field_error(
                r->Err_0,
                "stream.metadata.value"@ + " must not be blank"@,
            ),
            !is_blank_text(name@) && !is_blank_text(value@) && has_prefix(name@, reserved_prefix())
                ==> r is Err && (r->Err_0 matches CoreError::Streaming {
                failure: StreamingFailure::InvalidSequence {
                    reason: InvalidStreamSequence::ReservedMetadataKey { name: rejected },
                },
            } && rejected@ == name@),
            !is_blank_text(name@) && !is_blank_text(value@) && !has_prefix(name@, reserved_prefix())
                ==> r is Ok && r->Ok_0.name_spec() == name@ && r->Ok_0.value_spec() == value@,
    {
        if is_blank(name) {
            return Err(blank_field_error("stream.metadata.name", " must not be blank"));
        }
        if is_blank(value) {
            return Err(blank_field_error("stream.metadata.value", " must not be blank"));
        }
        if starts_with(name, "oxmux.") {
            return Err(
                CoreError::Streaming {
                    failure: StreamingFailure::InvalidSequence {
                        reason: InvalidStreamSequence::ReservedMetadataKey { name: owned(name) },
                    },
                },
            );
        }
        Ok(StreamMetadata { name: owned(name), value: owned(value) })
    }

    /// Creates deterministic keepalive metadata using the reserved `oxmux.keepalive` key.
    pub fn keepalive() -> (r: Self)
        ensures
            r.name_spec() == OXMUX_KEEPALIVE_METADATA_KEY@,
            r.value_spec() == "true"@,
    {
        StreamMetadata { name: owned(OXMUX_KEEPALIVE_METADATA_KEY), value: owned("true") }
    }

    /// Creates deterministic timeout metadata using the reserved `oxmux.timeout` key.
    pub fn timeout(timeout_ms: u64) -> (r: Result<Self, CoreError>)
        ensures
            match r {
                Ok(m) => duration_problem("streaming.timeout-ms"@, timeout_ms) is None
                    && m.name_spec() == OXMUX_TIMEOUT_METADATA_KEY@ && m.value_spec() == decimal(
                    timeout_ms as nat,
                ),
                Err(e) => duration_problem("streaming.timeout-ms"@, timeout_ms) is Some
                    && is_policy_error(e, duration_problem("streaming.timeout-ms"@, timeout_ms).unwrap()),
            },
    {
        validate_duration("streaming.timeout-ms", timeout_ms)?;
        Ok(
            StreamMetadata {
                name: owned(OXMUX_TIMEOUT_METADATA_KEY),
                value: decimal_string(timeout_ms),
            },
        )
    }

    /// Creates committed-attempt retry summary metadata using the reserved `oxmux.retry_summary` key.
    pub fn retry_summary(failed_attempts: u8, total_attempts: u8) -> (r: Result<Self, CoreError>)
        ensures
            match r {
                Ok(m) => total_attempts != 0 && failed_attempts < total_attempts && m.name_spec()
                    == OXMUX_RETRY_SUMMARY_METADATA_KEY@ && m.value_spec() == "failed_attempts="@
                    + decimal(failed_attempts as nat) + ";total_attempts="@ + decimal(
                    total_attempts as nat,
                ),
                Err(e) => (total_attempts == 0 || failed_attempts >= total_attempts)
                    && is_policy_error(
                    e,
                    (
                        "streaming.bootstrap-retry-count"@,
                        "retry summary requires failed attempts to be less than total attempts"@,
                    ),
                ),
            },
    {
        if total_attempts == 0 || failed_attempts >= total_attempts {
            return Err(
                invalid_policy(
                    "streaming.bootstrap-retry-count",
                    "retry summary requires failed attempts to be less than total attempts",
                ),
            );
        }
        let mut value = owned("failed_attempts=");
        value.append(decimal_string(failed_attempts as u64).as_str());
        value.append(";total_attempts=");
        value.append(decimal_string(total_attempts as u64).as_str());
        Ok(StreamMetadata { name: owned(OXMUX_RETRY_SUMMARY_METADATA_KEY), value })
    }

    /// Creates retry exhaustion metadata using the reserved `oxmux.retry_exhausted` key.
    pub fn retry_exhausted(total_attempts: u8, failure: &StreamFailure) -> (r: Result<
        Self,
        CoreError,
    >)
        ensures
            match r {
                Ok(m) => total_attempts != 0 && m.name_spec() == OXMUX_RETRY_EXHAUSTED_METADATA_KEY@
                    && m.value_spec() == "total_attempts="@ + decimal(total_attempts as nat)
                    + ";failure_code="@ + failure.code_spec(),
                Err(e) => total_attempts == 0 && is_policy_error(
                    e,
                    (
                        "streaming.bootstrap-retry-count"@,
                        "retry exhaustion requires at least one attempted stream execution"@,
                    ),
                ),
            },
    {
        if total_attempts == 0 {
            return Err(
                invalid_policy(
                    "streaming.bootstrap-retry-count",
                    "retry exhaustion requires at least one attempted stream execution",
                ),
            );
        }
        let mut value = owned("total_attempts=");
        value.append(decimal_string(total_attempts as u64).as_str());
        value.append(";failure_code=");
        value.append(failure.code());
        Ok(StreamMetadata { name: owned(OXMUX_RETRY_EXHAUSTED_METADATA_KEY), value })
    }

    /// Returns the metadata entry name.
    pub fn name(&self) -> (r: &str)
        ensures
            r@ == self.name_spec(),
    {
        self.name.as_str()
    }

    /// Returns the metadata entry value.
    pub fn value(&self) -> (r: &str)
        ensures
            r@ == self.value_spec(),
    {
        self.value.as_str()
    }
}

/// Terminal outcome of a stream.
#[derive(Debug, PartialEq, Eq)]
pub enum StreamTerminalState {
    /// Stream completed normally.
    Completed,
    /// Stream ended because it was cancelled.
    Cancelled {
        /// Human-readable reason for this state.
        reason: CancellationReason,
    },
    /// Stream ended with a failure.
    Errored {
        /// Structured failure associated with this state.
        failure: StreamFailure,
    },
}

impl Clone for StreamTerminalState {
    fn clone(&self) -> (r: Self)
        ensures
            r == *self,
    {
        match self {
            StreamTerminalState::Completed => StreamTerminalState::Completed,
            StreamTerminalState::Cancelled { reason } => StreamTerminalState::Cancelled {
                reason: reason.clone(),
            },
            StreamTerminalState::Errored { failure } => StreamTerminalState::Errored {
                failure: failure.clone(),
            },
        }
    }
}

impl StreamTerminalState {
    /// Creates a completed stream terminal state.
    pub fn completed() -> (r: Self)
        ensures
            r == StreamTerminalState::Completed,
    {
        StreamTerminalState::Completed
    }

    /// Creates a cancelled stream terminal state.
    pub fn cancelled(reason: CancellationReason) -> (r: Self)
        ensures
            r == (StreamTerminalState::Cancelled { reason }),
    {
        StreamTerminalState::Cancelled { reason }
    }

    /// Creates an errored stream terminal state.
    pub fn errored(failure: StreamFailure) -> (r: Self)
        ensures
            r == (StreamTerminalState::Errored { failure }),
    {
        StreamTerminalState::Errored { failure }
    }
}

/// Reason a stream ended by cancellation rather than completion or error.
#[derive(Debug, PartialEq, Eq)]
pub enum CancellationReason {
    /// Cancellation was requested by the user or caller.
    UserRequested,
    /// Cancellation followed a client disconnect.
    ClientDisconnected,
    /// Cancellation followed upstream closure.
    UpstreamClosed,
    /// Cancellation followed a timeout.
    Timeout,
    /// Cancellation reason is provider- or caller-specific.
    Other {
        /// Stable code for this failure or response.
        code: String,
        /// Human-readable diagnostic message.
        message: String,
    },
}

impl Clone for CancellationReason {
    fn clone(&self) -> (r: Self)
        ensures
            r == *self,
    {
        match self {
            CancellationReason::UserRequested => CancellationReason::UserRequested,
            CancellationReason::ClientDisconnected => CancellationReason::ClientDisconnected,
            CancellationReason::UpstreamClosed => CancellationReason::UpstreamClosed,
            CancellationReason::Timeout => CancellationReason::Timeout,
            CancellationReason::Other { code, message } => CancellationReason::Other {
                code: code.clone(),
                message: message.clone(),
            },
        }
    }
}

impl CancellationReason {
    /// Creates a provider- or caller-specific cancellation reason.
    pub fn other(code: &str, message: &str) -> (r: Result<Self, CoreError>)
        ensures
            is_blank_text(code@) ==> r is Err && is_blank_field_error(
                r->Err_0,
                "stream.cancellation.code"@ + " must not be blank"@,
            ),
            !is_blank_text(code@) && is_blank_text(message@) ==> r is Err && is_blank_field_error(
                r->Err_0,
                "stream.cancellation.message"@ + " must not be blank"@,
            ),
            !is_blank_text(code@) && !is_blank_text(message@) ==> r is Ok && (r->Ok_0 matches CancellationReason::Other {
                code: c,
                message: m,
            } && c@ == code@ && m@ == message@),
    {
        if is_blank(code) {
            return Err(blank_field_error("stream.cancellation.code", " must not be blank"));
        }
        if is_blank(message) {
            return Err(blank_field_error("stream.cancellation.message", " must not be blank"));
        }
        Ok(CancellationReason::Other { code: owned(code), message: owned(message) })
    }
}

/// Provider or validation failure attached to stream errors.
#[derive(Debug, PartialEq, Eq)]
pub struct StreamFailure {
    code: String,
    message: String,
    provider_metadata: Option<String>,
}

impl Clone for StreamFailure {
    fn clone(&self) -> (r: Self)
        ensures
            r == *self,
    {
        StreamFailure {
            code: self.code.clone(),
            message: self.message.clone(),
            provider_metadata: self.provider_metadata.clone(),
        }
    }
}

/// Blank-field problem of a stream failure built from these texts, if any.
pub open spec fn stream_failure_problem(
    code: Seq<char>,
    message: Seq<char>,
    provider_metadata: Option<String>,
) -> Option<Seq<char>> {
    if is_blank_text(code) {
        Some("stream.failure.code"@ + " must not be blank"@)
    } else if is_blank_text(message) {
        Some("stream.failure.message"@ + " must not be blank"@)
    } else if provider_metadata is Some && is_blank_text(provider_metadata.unwrap()@) {
        Some("stream.failure.provider_metadata"@ + " must not be blank when present"@)
    } else {
        None
    }
}

impl StreamFailure {
    /// Stable failure code.
    pub closed spec fn code_spec(self) -> Seq<char> {
        self.code@
    }

    /// Human-readable failure message.
    pub closed spec fn message_spec(self) -> Seq<char> {
        self.message@
    }

    /// Provider metadata, when any.
    pub closed spec fn provider_metadata_spec(self) -> Option<String> {
        self.provider_metadata
    }

    /// Creates a stream failure without provider-specific metadata.
    pub fn new(code: &str, message: &str) -> (r: Result<Self, CoreError>)
        ensures
            match r {
                Ok(f) => stream_failure_problem(code@, message@, None) is None && f.code_spec()
                    == code@ && f.message_spec() == message@ && f.provider_metadata_spec() is None,
                Err(e) => stream_failure_problem(code@, message@, None) is Some
                    && is_blank_field_error(e, stream_failure_problem(code@, message@, None).unwrap()),
            },
    {
        StreamFailure::with_provider_metadata(code, message, None)
    }

    /// Creates a stream failure with optional provider metadata.
    pub fn with_provider_metadata(
        code: &str,
        message: &str,
        provider_metadata: Option<String>,
    ) -> (r: Result<Self, CoreError>)
        ensures
            match r {
                Ok(f) => stream_failure_problem(code@, message@, provider_metadata) is None
                    && f.code_spec() == code@ && f.message_spec() == message@
                    && f.provider_metadata_spec() == provider_metadata,
                Err(e) => stream_failure_problem(code@, message@, provider_metadata) is Some
                    && is_blank_field_error(
                    e,
                    stream_failure_problem(code@, message@, provider_metadata).unwrap(),
                ),
            },
    {
        let failure = StreamFailure { code: owned(code), message: owned(message), provider_metadata };
        failure.validate()?;
        Ok(failure)
    }

    /// Validates this value and returns a structured core error on failure.
    pub fn validate(&self) -> (r: Result<(), CoreError>)
        ensures
            match r {
                Ok(()) => stream_failure_problem(self.code_spec(), self.message_spec(), self.provider_metadata_spec())
                    is None,
                Err(e) => stream_failure_problem(self.code_spec(), self.message_spec(), self.provider_metadata_spec())
                    is Some && is_blank_field_error(
                    e,
                    stream_failure_problem(self.code_spec(), self.message_spec(), self.provider_metadata_spec()).unwrap(),
                ),
            },
    {
        if is_blank(self.code.as_str()) {
            return Err(blank_field_error("stream.failure.code", " must not be blank"));
        }
        if is_blank(self.message.as_str()) {
            return Err(blank_field_error("stream.failure.message", " must not be blank"));
        }
        if is_present_and_blank(&self.provider_metadata) {
            return Err(
                blank_field_error("stream.failure.provider_metadata", " must not be blank when present"),
            );
        }
        Ok(())
    }

    /// Returns the stream failure code.
    pub fn code(&self) -> (r: &str)
        ensures
            r@ == self.code_spec(),
    {
        self.code.as_str()
    }

    /// Returns a human-readable message for this diagnostic.
    pub fn message(&self) -> (r: &str)
        ensures
            r@ == self.message_spec(),
    {
        self.message.as_str()
    }

    /// Returns provider metadata attached to the stream failure, when any.
    pub fn provider_metadata(&self) -> (r: Option<&str>)
        ensures
            match self.provider_metadata_spec() {
                Some(m) => r is Some && r.unwrap()@ == m@,
                None => r is None,
            },
    {
        match &self.provider_metadata {
            Some(m) => Some(m.as_str()),
            None => None,
        }
    }

    fn invalid_field(message: String) -> (r: Self)
        ensures
            r.code_spec() == invalid_field_code(),
            r.message_spec() == message@,
            r.provider_metadata_spec() is None,
    {
        StreamFailure { code: owned("invalid_stream_field"), message, provider_metadata: None }
    }
}

/// Failure that prevents or invalidates a streaming response.
#[derive(Clone, Debug, PartialEq, Eq)]
pub enum StreamingFailure {
    /// Stream event ordering failed validation.
    InvalidSequence {
        /// Human-readable reason for this state.
        reason: InvalidStreamSequence,
    },
    /// Failure occurred before a valid stream sequence existed.
    PreStreamFailure {
        /// Structured failure associated with this state.
        failure: StreamFailure,
    },
    /// Provider stream failed after a stream response existed or stream output committed.
    ProviderStreamFailure {
        /// Structured provider-neutral stream failure.
        failure: StreamFailure,
    },
    /// Bootstrap retries were exhausted before any stream event was emitted.
    RetryExhausted {
        /// Total attempts that were executed, including the initial attempt.
        total_attempts: u8,
        /// Final underlying stream failure that exhausted retry budget.
        failure: StreamFailure,
    },
    /// Timeout occurred before any stream event was emitted.
    PreStreamTimeout {
        /// Configured timeout duration in milliseconds.
        timeout_ms: u64,
        /// Structured failure associated with the timeout.
        failure: StreamFailure,
    },
    /// Cancellation occurred before any stream event was emitted.
    PreStreamCancellation {
        /// Cancellation reason observed before stream commit.
        reason: CancellationReason,
        /// Structured failure associated with cancellation.
        failure: StreamFailure,
    },
    /// Streaming robustness policy failed validation.
    InvalidPolicy {
        /// Field path associated with this policy diagnostic.
        field: &'static str,
        /// Human-readable diagnostic message.
        message: String,
    },
}

impl StreamingFailure {
    /// The human-readable message of this failure.
    pub open spec fn message_spec(self) -> Seq<char> {
        match self {
            StreamingFailure::InvalidSequence { reason } => reason.message_spec(),
            StreamingFailure::PreStreamFailure { failure } => failure.message_spec(),
            StreamingFailure::ProviderStreamFailure { failure } => "provider stream failed after commit: "@
                + failure.message_spec(),
            StreamingFailure::RetryExhausted { total_attempts, failure } => "stream retry exhausted after "@
                + decimal(total_attempts as nat) + " attempt(s): "@ + failure.message_spec(),
            StreamingFailure::PreStreamTimeout { timeout_ms, failure } => "stream timed out before first event after "@
                + decimal(timeout_ms as nat) + " ms: "@ + failure.message_spec(),
            StreamingFailure::PreStreamCancellation { failure, .. } => "stream cancelled before first event: "@
                + failure.message_spec(),
            StreamingFailure::InvalidPolicy { field, message } => "streaming policy field "@ + field@
                + " is invalid: "@ + message@,
        }
    }

    /// Returns a human-readable message for this diagnostic.
    pub fn message(&self) -> (r: String)
        ensures
            r@ == self.message_spec(),
    {
        match self {
            StreamingFailure::InvalidSequence { reason } => reason.message(),
            StreamingFailure::PreStreamFailure { failure } => owned(failure.message()),
            StreamingFailure::ProviderStreamFailure { failure } => concat2(
                "provider stream failed after commit: ",
                failure.message(),
            ),
            StreamingFailure::RetryExhausted { total_attempts, failure } => {
                let mut s = owned("stream retry exhausted after ");
                s.append(decimal_string(*total_attempts as u64).as_str());
                s.append(" attempt(s): ");
                s.append(failure.message());
                s
            },
            StreamingFailure::PreStreamTimeout { timeout_ms, failure } => {
                let mut s = owned("stream timed out before first event after ");
                s.append(decimal_string(*timeout_ms).as_str());
                s.append(" ms: ");
                s.append(failure.message());
                s
            },
            StreamingFailure::PreStreamCancellation { failure, .. } => concat2(
                "stream cancelled before first event: ",
                failure.message(),
            ),
            StreamingFailure::InvalidPolicy { field, message } => {
                let mut s = owned("streaming policy field ");
                s.append(field);
                s.append(" is invalid: ");
                s.append(message.as_str());
                s
            },
        }
    }
}

/// Validation failure for stream event ordering.
#[derive(Clone, Debug, PartialEq, Eq)]
pub enum InvalidStreamSequence {
    /// Stream sequence did not include a terminal event.
    MissingTerminal,
    /// Stream sequence included more than one terminal event.
    MultipleTerminals {
        /// First terminal index value for the surrounding public enum variant.
        first_terminal_index: usize,
        /// Terminal index value for the surrounding public enum variant.
        terminal_index: usize,
    },
    /// Stream sequence included events after terminal state.
    EventAfterTerminal {
        /// Index of a terminal event in the stream sequence.
        terminal_index: usize,
        /// Index of a non-terminal event in the stream sequence.
        event_index: usize,
    },
    /// Caller attempted to create generic metadata using the reserved `oxmux.` namespace.
    ReservedMetadataKey {
        /// Rejected metadata key.
        name: String,
    },
}

impl InvalidStreamSequence {
    /// The human-readable message of this diagnostic.
    pub open spec fn message_spec(self) -> Seq<char> {
        match self {
            InvalidStreamSequence::MissingTerminal => "stream sequence must include exactly one terminal event"@,
            InvalidStreamSequence::MultipleTerminals { first_terminal_index, terminal_index } => {
                "stream sequence has multiple terminal events at indexes "@ + decimal(
                    first_terminal_index as nat,
                ) + " and "@ + decimal(terminal_index as nat)
            },
            InvalidStreamSequence::EventAfterTerminal { terminal_index, event_index } => {
                "stream sequence has non-terminal event at index "@ + decimal(event_index as nat)
                    + " after terminal event at index "@ + decimal(terminal_index as nat)
            },
            InvalidStreamSequence::ReservedMetadataKey { name } => "stream metadata key "@ + name@
                + " is reserved for typed oxmux helpers"@,
        }
    }

    /// Returns a human-readable message for this diagnostic.
    pub fn message(&self) -> (r: String)
        ensures
            r@ == self.message_spec(),
    {
        match self {
            InvalidStreamSequence::MissingTerminal => owned(
                "stream sequence must include exactly one terminal event",
            ),
            InvalidStreamSequence::MultipleTerminals { first_terminal_index, terminal_index } => {
                let mut s = owned("stream sequence has multiple terminal events at indexes ");
                s.append(decimal_string(*first_terminal_index as u64).as_str());
                s.append(" and ");
                s.append(decimal_string(*terminal_index as u64).as_str());
                s
            },
            InvalidStreamSequence::EventAfterTerminal { terminal_index, event_index } => {
                let mut s = owned("stream sequence has non-terminal event at index ");
                s.append(decimal_string(*event_index as u64).as_str());
                s.append(" after terminal event at index ");
                s.append(decimal_string(*terminal_index as u64).as_str());
                s
            },
            InvalidStreamSequence::ReservedMetadataKey { name } => {
                let mut s = owned("stream metadata key ");
                s.append(name.as_str());
                s.append(" is reserved for typed oxmux helpers");
                s
            },
        }
    }
}

/// Latest stream robustness outcome exposed through management state.
#[derive(Clone, Debug, PartialEq, Eq)]
pub struct StreamingRobustnessOutcome {
    /// Kind of stream robustness outcome observed by core execution.
    pub kind: StreamingRobustnessOutcomeKind,
    /// Provider identifier associated with the outcome, when known.
    pub provider_id: Option<String>,
    /// Account identifier associated with the outcome, when known.
    pub account_id: Option<String>,
}

impl StreamingRobustnessOutcome {
    /// Creates a stream robustness outcome without provider or account context.
    pub fn new(kind: StreamingRobustnessOutcomeKind) -> (r: Self)
        ensures
            r == (StreamingRobustnessOutcome { kind, provider_id: None, account_id: None }),
    {
        StreamingRobustnessOutcome { kind, provider_id: None, account_id: None }
    }

    /// Attaches provider/account context to this outcome.
    pub fn with_provider_context(self, provider_id: &str, account_id: Option<String>) -> (r: Self)
        ensures
            r.kind == self.kind,
            r.provider_id is Some && r.provider_id.unwrap()@ == provider_id@,
            r.account_id == account_id,
    {
        StreamingRobustnessOutcome { kind: self.kind, provider_id: Some(owned(provider_id)), account_id }
    }
}

/// Matchable category for the latest stream robustness outcome.
#[derive(Clone, Debug, PartialEq, Eq)]
pub enum StreamingRobustnessOutcomeKind {
    /// Timeout was observed for a streaming execution.
    Timeout {
        /// Timeout duration in milliseconds.
        timeout_ms: u64,
    },
    /// Cancellation was observed for a streaming execution.
    Cancellation {
        /// Cancellation reason associated with the stream.
        reason: CancellationReason,
    },
    /// Bootstrap retry budget was exhausted before stream commit.
    RetryExhausted {
        /// Total attempts that were executed, including the initial attempt.
        total_attempts: u8,
        /// Underlying stream failure that exhausted retry budget.
        failure: StreamFailure,
    },
    /// Provider stream failed after a valid response existed or stream committed.
    ProviderStreamFailure {
        /// Structured provider-neutral stream failure.
        failure: StreamFailure,
    },
}

} // verus!
