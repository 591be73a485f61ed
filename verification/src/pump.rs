//! The output pump: classification and forwarding of the child's output.
//!
//! The host reads discrete events from the child's combined stdout/stderr
//! stream and hands each one here as plain bytes; `pump_step` decides, per
//! event, which log sink receives it and under which tag, and whether the
//! pump keeps running. `pump_transcript` applies those rules to a whole
//! transcript of events, the way the host's pump task applies them one
//! event at a time until the stream closes.
//!
//! The pump only observes the stream: it never kills or restarts the
//! child, and nothing it forwards affects the supervisor state. Stream
//! errors are logged, never propagated — no caller is waiting on the pump.
//! Rendering the forwarded bytes as text (lossily, so malformed byte
//! sequences are replaced and never fatal) is the sink's job in the host.

use vstd::prelude::*;
use vstd::string::StringExecFns;

verus! {

/// The text that lossy UTF-8 decoding gives to a byte sequence. Malformed
/// byte sequences are replaced, never fatal, so every payload renders; the
/// text is a function of the bytes alone.
pub uninterp spec fn lossy_of(bytes: Seq<u8>) -> Seq<char>;

/// Relies on String::from_utf8_lossy: the decoding depends on the bytes
/// alone, and an empty input decodes to an empty string.
#[verifier::external_body]
fn lossy_text(bytes: &Vec<u8>) -> (r: String)
    ensures
        r@ == lossy_of(bytes@),
        bytes@.len() == 0 ==> r@.len() == 0,
{
    String::from_utf8_lossy(bytes).into_owned()
}

/// One event read from the child's output stream. The host converts the
/// stream's events to this shape; payloads are the raw line bytes, and a
/// stream-level error is handed over already rendered to text bytes.
pub enum OutputEvent {
    /// A newline-delimited line from the child's stdout.
    Stdout(Vec<u8>),
    /// A newline-delimited line from the child's stderr.
    Stderr(Vec<u8>),
    /// An error of the stream itself; this ends the pump.
    StreamError(Vec<u8>),
    /// Any other stream event (termination notices and the like); ignored.
    Other,
}

/// Which log sink a forwarded entry goes to.
#[derive(Clone, Copy, PartialEq, Eq, Structural, Debug)]
pub enum LogSink {
    /// The informational log.
    Info,
    /// The error log.
    Error,
}

/// The tag a forwarded entry carries in front of its payload.
#[derive(Clone, Copy, PartialEq, Eq, Structural, Debug)]
pub enum LogTag {
    /// An ordinary stdout line of the backend.
    Backend,
    /// A stderr line of the backend.
    BackendError,
    /// A stream-level error that ended the pump.
    BackendFatal,
}

impl LogTag {
    /// The text of the tag as it appears in front of the logged line.
    pub open spec fn spec_label(self) -> Seq<char> {
        match self {
            LogTag::Backend => "[Backend]"@,
            LogTag::BackendError => "[Backend Error]"@,
            LogTag::BackendFatal => "[Backend Fatal]"@,
        }
    }

    /// Renders the tag for the host's log sink.
    pub fn label(&self) -> (r: &'static str)
        ensures
            r@ == self.spec_label(),
    {
        match self {
            LogTag::Backend => "[Backend]",
            LogTag::BackendError => "[Backend Error]",
            LogTag::BackendFatal => "[Backend Fatal]",
        }
    }
}

/// One entry forwarded to a log sink: the sink, the tag, and the payload
/// bytes of the line or error text.
pub struct LogEntry {
    /// The sink that receives the entry.
    pub sink: LogSink,
    /// The tag in front of the payload.
    pub tag: LogTag,
    /// The bytes to log, decoded lossily by the sink.
    pub payload: Vec<u8>,
}

impl View for LogEntry {
    type V = (LogSink, LogTag, Seq<u8>);

    open spec fn view(&self) -> (LogSink, LogTag, Seq<u8>) {
        (self.sink, self.tag, self.payload@)
    }
}

impl LogEntry {
    /// The line the sink logs for this entry: the tag, one space, and the
    /// payload decoded lossily.
    pub open spec fn spec_rendered(self) -> Seq<char> {
        self.tag.spec_label() + " "@ + lossy_of(self.payload@)
    }

    /// Renders the entry as the one line its sink logs.
    pub fn render(&self) -> (r: String)
        ensures
            r@ == self.spec_rendered(),
    {
        self.tag.label().to_owned().concat(" ").concat(lossy_text(&self.payload).as_str())
    }
}

/// What the pump does with one event.
pub enum PumpDirective {
    /// Forward the entry to its sink and keep pumping.
    Forward(LogEntry),
    /// Forward the entry to its sink, then end the pump: the stream itself
    /// failed.
    ForwardAndStop(LogEntry),
    /// Nothing to forward; keep pumping.
    Ignore,
}

/// The forwarding rules: a stdout line goes to the informational sink
/// tagged `[Backend]`, a stderr line to the error sink tagged
/// `[Backend Error]`, a stream-level error to the error sink tagged
/// `[Backend Fatal]`.
pub open spec fn spec_forwarded(e: OutputEvent) -> Option<(LogSink, LogTag, Seq<u8>)> {
    match e {
        OutputEvent::Stdout(line) => Some((LogSink::Info, LogTag::Backend, line@)),
        OutputEvent::Stderr(line) => Some((LogSink::Error, LogTag::BackendError, line@)),
        OutputEvent::StreamError(text) => Some((LogSink::Error, LogTag::BackendFatal, text@)),
        OutputEvent::Other => None,
    }
}

/// Whether the event ends the pump: only a stream-level error does; line
/// events keep the pump running, and the pump otherwise terminates only
/// when the stream closes.
pub open spec fn spec_ends_pump(e: OutputEvent) -> bool {
    e is StreamError
}

/// Decides, for one stream event, what the host's pump task forwards and
/// whether it keeps running. Exactly the events the forwarding rules name
/// produce an entry — one entry per event — and supervisor state is not
/// involved at all.
pub fn pump_step(e: OutputEvent) -> (d: PumpDirective)
    ensures
        match d {
            PumpDirective::Forward(entry) => spec_forwarded(e) == Some(entry@) && !spec_ends_pump(
                e,
            ),
            PumpDirective::ForwardAndStop(entry) => spec_forwarded(e) == Some(entry@)
                && spec_ends_pump(e),
            PumpDirective::Ignore => spec_forwarded(e) is None && !spec_ends_pump(e),
        },
{
    match e {
        OutputEvent::Stdout(line) => PumpDirective::Forward(
            LogEntry { sink: LogSink::Info, tag: LogTag::Backend, payload: line },
        ),
        OutputEvent::Stderr(line) => PumpDirective::Forward(
            LogEntry { sink: LogSink::Error, tag: LogTag::BackendError, payload: line },
        ),
        OutputEvent::StreamError(text) => PumpDirective::ForwardAndStop(
            LogEntry { sink: LogSink::Error, tag: LogTag::BackendFatal, payload: text },
        ),
        OutputEvent::Other => PumpDirective::Ignore,
    }
}

/// The log a pump run over a transcript of events produces: each event's
/// forwarded entry in stream order, cut short after the first stream-level
/// error, which ends the pump.
pub open spec fn spec_pump(events: Seq<OutputEvent>) -> Seq<(LogSink, LogTag, Seq<u8>)>
    decreases events.len(),
{
    if events.len() == 0 {
        Seq::empty()
    } else {
        let head = match spec_forwarded(events[0]) {
            Some(entry) => seq![entry],
            None => Seq::empty(),
        };
        if spec_ends_pump(events[0]) {
            head
        } else {
            head + spec_pump(events.drop_first())
        }
    }
}

/// Runs the pump's forwarding rules over a whole transcript of stream
/// events, as the host's pump task does one event at a time, and returns
/// everything the log sinks received, in order. The pump ends when the
/// stream closes (the transcript is exhausted) or a stream-level error is
/// forwarded; events after such an error are not forwarded.
pub fn pump_transcript(events: Vec<OutputEvent>) -> (log: Vec<LogEntry>)
    ensures
        log@.map_values(|entry: LogEntry| entry@) == spec_pump(events@),
{
    let mut rest = events;
    let mut log: Vec<LogEntry> = Vec::new();
    loop
        invariant
            spec_pump(events@) == log@.map_values(|entry: LogEntry| entry@) + spec_pump(rest@),
        decreases rest.len(),
    {
        if rest.len() == 0 {
            proof {
                assert(log@.map_values(|entry: LogEntry| entry@) + spec_pump(rest@) =~= log@
                    .map_values(|entry: LogEntry| entry@));
            }
            return log;
        }
        let e = rest.remove(0);
        let ghost log_before = log@;
        let ghost rest_before_step = rest@;
        match pump_step(e) {
            PumpDirective::Forward(entry) => {
                log.push(entry);
                proof {
                    assert(log@.map_values(|entry: LogEntry| entry@) =~= log_before.map_values(
                        |entry: LogEntry| entry@,
                    ).push(log@.last()@));
                }
            },
            PumpDirective::ForwardAndStop(entry) => {
                log.push(entry);
                proof {
                    assert(log@.map_values(|entry: LogEntry| entry@) =~= log_before.map_values(
                        |entry: LogEntry| entry@,
                    ).push(log@.last()@));
                    assert(spec_pump(events@) =~= log@.map_values(|entry: LogEntry| entry@));
                }
                return log;
            },
            PumpDirective::Ignore => {
            },
        }
    }
}

} // verus!
