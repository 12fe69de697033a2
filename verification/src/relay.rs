//! The line-relay session: the decision logic of one unidirectional,
//! line-oriented copy loop from a source stream to a sink stream, together
//! with the classification of stream errors.
//!
//! The loop itself performs I/O and therefore runs outside the library; it
//! feeds each read and write outcome into a [`LineRelay`] session, which
//! decides what to write and when (and how) the relay ends. The session keeps
//! a ghost transcript of the complete lines taken from the source and of the
//! payloads handed to the sink, so that the order-preservation law can be
//! stated and proved of every session.

use vstd::prelude::*;
use vstd::string::StringExecFns;

verus! {

/// The stream-error classes the relay and the connection shutdown
/// distinguish. Every other error is `Other`.
#[derive(Clone, Copy, PartialEq, Eq, Structural, Debug)]
pub enum IoFault {
    BrokenPipe,
    ConnectionReset,
    NotConnected,
    Other,
}

/// How one relay invocation ended: cleanly (end of stream, or the peer went
/// away), or with a fault that the caller must report.
#[derive(Clone, Copy, PartialEq, Eq, Structural, Debug)]
pub enum RelayEnd {
    Clean,
    Failed(IoFault),
}

/// A write failure of this class means the downstream peer departed: the
/// expected way a relay ends when the consumer disappears, not a fault.
pub open spec fn disconnect_class(f: IoFault) -> bool {
    f == IoFault::BrokenPipe || f == IoFault::ConnectionReset
}

/// Decides whether a write fault is a normal peer departure.
pub fn is_disconnect_class(f: &IoFault) -> (b: bool)
    ensures
        b == disconnect_class(*f),
{
    match f {
        IoFault::BrokenPipe => true,
        IoFault::ConnectionReset => true,
        _ => false,
    }
}

/// A line as it is handed to the sink: the line with its terminator restored.
pub open spec fn terminated(line: Seq<char>) -> Seq<char> {
    line.push('\n')
}

/// The payload sequence a relay owes the sink for a given sequence of
/// received lines: each line terminated, in the order received.
pub open spec fn forwarded_image(lines: Seq<Seq<char>>) -> Seq<Seq<char>> {
    lines.map_values(|l: Seq<char>| terminated(l))
}

/// One relay invocation's decision state. The ghost transcript records every
/// complete line taken from the source and every payload handed out for
/// writing (a payload whose write then fails is recorded as handed out, not
/// as delivered).
///
/// A final line with no trailing terminator at end of stream is treated like
/// any other line: the line reader hands it over with the terminator absent,
/// and [`LineRelay::render`] forwards it with a terminator appended.
pub struct LineRelay {
    running: bool,
    received: Ghost<Seq<Seq<char>>>,
    forwarded: Ghost<Seq<Seq<char>>>,
}

impl LineRelay {
    /// The complete lines taken from the source so far, in order.
    pub closed spec fn received_lines(&self) -> Seq<Seq<char>> {
        self.received@
    }

    /// The payloads handed to the sink so far, in order.
    pub closed spec fn forwarded_lines(&self) -> Seq<Seq<char>> {
        self.forwarded@
    }

    /// The session still copies lines; no end-of-relay event has been seen.
    pub closed spec fn is_running(&self) -> bool {
        self.running
    }

    /// Session invariant: exactly the received lines have been handed out,
    /// in order, each with its terminator restored.
    pub closed spec fn wf(&self) -> bool {
        self.forwarded@ == forwarded_image(self.received@)
    }

    /// Starts a relay session with an empty transcript.
    pub fn new() -> (s: Self)
        ensures
            s.wf(),
            s.is_running(),
            s.received_lines() == Seq::<Seq<char>>::empty(),
            s.forwarded_lines() == Seq::<Seq<char>>::empty(),
    {
        let s = LineRelay {
            running: true,
            received: Ghost(Seq::empty()),
            forwarded: Ghost(Seq::empty()),
        };
        proof {
            assert(forwarded_image(Seq::<Seq<char>>::empty()) =~= Seq::<Seq<char>>::empty());
        }
        s
    }

    /// Takes one complete line read from the source (terminator already
    /// stripped) and returns the payload the caller must write to the sink:
    /// the same line with the terminator restored.
    pub fn render(&mut self, line: &String) -> (out: String)
        requires
            old(self).wf(),
            old(self).is_running(),
        ensures
            final(self).wf(),
            final(self).is_running(),
            out@ == terminated(line@),
            final(self).received_lines() == old(self).received_lines().push(line@),
            final(self).forwarded_lines() == old(self).forwarded_lines().push(terminated(line@)),
    {
        let mut out = line.clone();
        out.append("\n");
        proof {
            reveal_strlit("\n");
            assert(out@ =~= terminated(line@));
        }
        self.received = Ghost(self.received@.push(line@));
        self.forwarded = Ghost(self.forwarded@.push(out@));
        proof {
            assert(forwarded_image(self.received@) =~= forwarded_image(
                old(self).received@,
            ).push(terminated(line@)));
        }
        out
    }

    /// The source reached end of stream: the relay ends cleanly.
    pub fn on_source_end(&mut self) -> (end: RelayEnd)
        requires
            old(self).is_running(),
        ensures
            !final(self).is_running(),
            final(self).received_lines() == old(self).received_lines(),
            final(self).forwarded_lines() == old(self).forwarded_lines(),
            old(self).wf() ==> final(self).wf(),
            end == RelayEnd::Clean,
    {
        self.running = false;
        RelayEnd::Clean
    }

    /// A read from the source failed: the relay ends with that fault.
    pub fn on_read_error(&mut self, fault: IoFault) -> (end: RelayEnd)
        requires
            old(self).is_running(),
        ensures
            !final(self).is_running(),
            final(self).received_lines() == old(self).received_lines(),
            final(self).forwarded_lines() == old(self).forwarded_lines(),
            old(self).wf() ==> final(self).wf(),
            end == RelayEnd::Failed(fault),
    {
        self.running = false;
        RelayEnd::Failed(fault)
    }

    /// A write to the sink failed. A broken pipe or a connection reset means
    /// the peer departed and the relay ends cleanly; any other fault ends the
    /// relay with that fault.
    pub fn on_write_error(&mut self, fault: IoFault) -> (end: RelayEnd)
        requires
            old(self).is_running(),
        ensures
            !final(self).is_running(),
            final(self).received_lines() == old(self).received_lines(),
            final(self).forwarded_lines() == old(self).forwarded_lines(),
            old(self).wf() ==> final(self).wf(),
            disconnect_class(fault) ==> end == RelayEnd::Clean,
            !disconnect_class(fault) ==> end == RelayEnd::Failed(fault),
    {
        self.running = false;
        if is_disconnect_class(&fault) {
            RelayEnd::Clean
        } else {
            RelayEnd::Failed(fault)
        }
    }
}

/// Law: a well-formed relay session has handed out exactly the lines it
/// received — one payload per received line, in the order received, each the
/// line with its terminator restored.
pub proof fn lemma_relay_preserves_lines(s: &LineRelay)
    requires
        s.wf(),
    ensures
        s.forwarded_lines().len() == s.received_lines().len(),
        forall|i: int|
            0 <= i < s.received_lines().len() ==> #[trigger] s.forwarded_lines()[i] == terminated(
                s.received_lines()[i],
            ),
{
}

} // verus!
