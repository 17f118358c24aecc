//! The child's output: each line it writes is decoded and forwarded as it
//! stands, behind a tag that names the stream it came from.
use vstd::prelude::*;
use vstd::string::*;
use vstd::utf8::{valid_utf8, decode_utf8};

verus! {

/// What `String::from_utf8_lossy` makes of a byte sequence.
pub uninterp spec fn utf8_lossy(b: Seq<u8>) -> Seq<char>;

/// Relies on `String::from_utf8_lossy`: bytes that are valid UTF-8 are
/// decoded as they stand; otherwise the result depends on the bytes alone.
#[verifier::external_body]
fn decode_lossy(bytes: &[u8]) -> (r: String)
    ensures
        r@ == utf8_lossy(bytes@),
        valid_utf8(bytes@) ==> r@ == decode_utf8(bytes@),
{
    String::from_utf8_lossy(bytes).into_owned()
}

/// The stream a line came from.
#[derive(Debug, Clone, Copy, PartialEq, Eq, Structural)]
pub enum Origin {
    Stdout,
    Stderr,
}

/// The tag in front of each line from `o`.
pub open spec fn tag(o: Origin) -> Seq<char> {
    match o {
        Origin::Stdout => seq!['[', 'b', 'a', 'c', 'k', 'e', 'n', 'd', ' ', 's', 't', 'd', 'o', 'u', 't', ']', ' '],
        Origin::Stderr => seq!['[', 'b', 'a', 'c', 'k', 'e', 'n', 'd', ' ', 's', 't', 'd', 'e', 'r', 'r', ']', ' '],
    }
}

/// The log line for text `line` that came from `o`.
pub open spec fn tagged(o: Origin, line: Seq<char>) -> Seq<char> {
    tag(o) + line
}

/// The log line for the decoded text `line` that came from `origin`.
pub fn tag_line(origin: Origin, line: &str) -> (r: String)
    ensures
        r@ == tagged(origin, line@),
{
    let mut s = match origin {
        Origin::Stdout => {
            proof {
                reveal_strlit("[backend stdout] ");
            }
            String::from_str("[backend stdout] ")
        },
        Origin::Stderr => {
            proof {
                reveal_strlit("[backend stderr] ");
            }
            String::from_str("[backend stderr] ")
        },
    };
    assert(s@ =~= tag(origin));
    s.append(line);
    s
}

/// The log line for the raw bytes `bytes` that came from `origin`.
pub fn log_line(origin: Origin, bytes: &[u8]) -> (r: String)
    ensures
        r@ == tagged(origin, utf8_lossy(bytes@)),
        valid_utf8(bytes@) ==> r@ == tagged(origin, decode_utf8(bytes@)),
{
    let text = decode_lossy(bytes);
    tag_line(origin, text.as_str())
}

/// What the child's streams deliver, in the order received.
#[derive(Debug, Clone, PartialEq, Eq)]
pub enum StreamEvent {
    /// One line written to standard output.
    Stdout(Vec<u8>),
    /// One line written to standard error.
    Stderr(Vec<u8>),
    /// Reading the streams failed; this ends nothing.
    Error(String),
    /// The child ended, with its exit code when it had one.
    Terminated { code: Option<i32> },
}

/// One line for the application's log.
#[derive(Debug, Clone, PartialEq, Eq)]
pub struct LogEntry {
    pub origin: Origin,
    /// The tagged text.
    pub text: String,
}

impl View for LogEntry {
    type V = (Origin, Seq<char>);

    open spec fn view(&self) -> (Origin, Seq<char>) {
        (self.origin, self.text@)
    }
}

/// The log entries that the events `evs` produce: one per output line, in
/// order, until the stream ends. Errors and the child's exit log nothing.
pub open spec fn drained(evs: Seq<StreamEvent>) -> Seq<(Origin, Seq<char>)>
    decreases evs.len(),
{
    if evs.len() == 0 {
        seq![]
    } else {
        match evs[0] {
            StreamEvent::Stdout(b) => seq![(Origin::Stdout, tagged(Origin::Stdout, utf8_lossy(b@)))]
                + drained(evs.drop_first()),
            StreamEvent::Stderr(b) => seq![(Origin::Stderr, tagged(Origin::Stderr, utf8_lossy(b@)))]
                + drained(evs.drop_first()),
            StreamEvent::Error(_) => drained(evs.drop_first()),
            StreamEvent::Terminated { .. } => drained(evs.drop_first()),
        }
    }
}

/// What the draining worker does with one event.
#[derive(Debug, Clone, PartialEq, Eq)]
pub enum DrainStep {
    /// Write this entry to the log.
    Forward(LogEntry),
    /// Nothing to write; keep reading.
    Skip,
    /// The child has exited: report it to the coordinator and keep reading
    /// until the stream ends.
    ChildExited,
}

/// The worker's decision for event `e`.
pub fn drain_step(e: &StreamEvent) -> (r: DrainStep)
    ensures
        match e {
            StreamEvent::Stdout(b) => r matches DrainStep::Forward(l)
                && l@ == (Origin::Stdout, tagged(Origin::Stdout, utf8_lossy(b@))),
            StreamEvent::Stderr(b) => r matches DrainStep::Forward(l)
                && l@ == (Origin::Stderr, tagged(Origin::Stderr, utf8_lossy(b@))),
            StreamEvent::Error(_) => r == DrainStep::Skip,
            StreamEvent::Terminated { .. } => r == DrainStep::ChildExited,
        },
{
    match e {
        StreamEvent::Stdout(b) => DrainStep::Forward(
            LogEntry { origin: Origin::Stdout, text: log_line(Origin::Stdout, b.as_slice()) },
        ),
        StreamEvent::Stderr(b) => DrainStep::Forward(
            LogEntry { origin: Origin::Stderr, text: log_line(Origin::Stderr, b.as_slice()) },
        ),
        StreamEvent::Error(_) => DrainStep::Skip,
        StreamEvent::Terminated { .. } => DrainStep::ChildExited,
    }
}

/// The log entries for the events `events`, in the order received, that a
/// worker reading the whole stream writes.
pub fn drain(events: &Vec<StreamEvent>) -> (r: Vec<LogEntry>)
    ensures
        r@.map_values(|l: LogEntry| l@) == drained(events@),
{
    let mut out: Vec<LogEntry> = Vec::new();
    let mut i: usize = 0;
    assert(events@.subrange(0, events@.len() as int) =~= events@);
    assert(out@.map_values(|l: LogEntry| l@) =~= Seq::<(Origin, Seq<char>)>::empty());
    while i < events.len()
        invariant
            i <= events@.len(),
            drained(events@) == out@.map_values(|l: LogEntry| l@) + drained(events@.subrange(i as int, events@.len() as int)),
        decreases events@.len() - i,
    {
        let rest = Ghost(events@.subrange(i as int, events@.len() as int));
        assert(rest@.drop_first() =~= events@.subrange(i + 1, events@.len() as int));
        assert(rest@[0] == events@[i as int]);
        match drain_step(&events[i]) {
            DrainStep::Forward(l) => {
                let ghost before = out@;
                out.push(l);
                assert(out@.map_values(|l: LogEntry| l@) =~= before.map_values(|l: LogEntry| l@).push(l@));
                assert(drained(events@) =~= out@.map_values(|l: LogEntry| l@) + drained(events@.subrange(i + 1, events@.len() as int)));
            },
            DrainStep::Skip => {},
            DrainStep::ChildExited => {},
        }
        i = i + 1;
    }
    assert(events@.subrange(i as int, events@.len() as int) =~= Seq::<StreamEvent>::empty());
    assert(drained(events@) =~= out@.map_values(|l: LogEntry| l@));
    out
}

} // verus!
