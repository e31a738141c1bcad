use vstd::prelude::*;

verus! {

/// Carriage return.
pub const CR: u8 = 13;

/// Line feed.
pub const LF: u8 = 10;

/// One relayed line: its text followed by carriage return and line feed.
pub open spec fn crlf(line: Seq<u8>) -> Seq<u8> {
    line + seq![CR, LF]
}

/// Everything relayed for a sequence of lines, in the order they came.
pub open spec fn relayed(lines: Seq<Seq<u8>>) -> Seq<u8>
    decreases lines.len(),
{
    if lines.len() == 0 {
        Seq::empty()
    } else {
        relayed(lines.drop_last()) + crlf(lines.last())
    }
}

/// Where the relayed form of line `i` starts in the relayed output.
pub open spec fn line_offset(lines: Seq<Seq<u8>>, i: int) -> int {
    relayed(lines.take(i)).len() as int
}

/// Relaying two runs of lines one after the other gives the two outputs
/// one after the other.
pub proof fn lemma_relayed_concat(a: Seq<Seq<u8>>, b: Seq<Seq<u8>>)
    ensures
        relayed(a + b) == relayed(a) + relayed(b),
    decreases b.len(),
{
    if b.len() == 0 {
        assert(a + b =~= a);
        assert(relayed(a) + relayed(b) =~= relayed(a));
    } else {
        lemma_relayed_concat(a, b.drop_last());
        assert((a + b).drop_last() =~= a + b.drop_last());
        assert((a + b).last() == b.last());
        assert(relayed(a + b) =~= relayed(a) + relayed(b));
    }
}

/// A single line is relayed as that line followed by carriage return and line feed.
pub proof fn lemma_relayed_single(line: Seq<u8>)
    ensures
        relayed(seq![line]) == crlf(line),
{
    let one = seq![line];
    assert(one.drop_last() =~= Seq::<Seq<u8>>::empty());
    assert(relayed(one.drop_last()) =~= Seq::<u8>::empty());
    assert(relayed(one) =~= crlf(line));
}

/// The relayed output holds each line, terminated by carriage return and
/// line feed, at that line's offset.
pub proof fn lemma_line_in_output(lines: Seq<Seq<u8>>, i: int)
    requires
        0 <= i < lines.len(),
    ensures
        line_offset(lines, i) + crlf(lines[i]).len() <= relayed(lines).len(),
        relayed(lines).subrange(line_offset(lines, i), line_offset(lines, i) + crlf(lines[i]).len())
            == crlf(lines[i]),
{
    let head = lines.take(i);
    let one = seq![lines[i]];
    let tail = lines.skip(i + 1);
    assert(lines =~= head + one + tail);
    lemma_relayed_concat(head + one, tail);
    lemma_relayed_concat(head, one);
    lemma_relayed_single(lines[i]);
    let out = relayed(lines);
    assert(out =~= relayed(head) + crlf(lines[i]) + relayed(tail));
    assert(out.subrange(line_offset(lines, i), line_offset(lines, i) + crlf(lines[i]).len())
        =~= crlf(lines[i]));
}

/// Lines keep their order: a line written earlier by the child is relayed,
/// whole, before any line it wrote later.
pub proof fn lemma_relay_keeps_order(lines: Seq<Seq<u8>>, i: int, j: int)
    requires
        0 <= i < j < lines.len(),
    ensures
        line_offset(lines, i) + crlf(lines[i]).len() <= line_offset(lines, j),
{
    let upto_j = lines.take(j);
    assert(upto_j =~= lines.take(i + 1) + upto_j.skip(i + 1));
    lemma_relayed_concat(lines.take(i + 1), upto_j.skip(i + 1));
    assert(lines.take(i + 1) =~= lines.take(i) + seq![lines[i]]);
    lemma_relayed_concat(lines.take(i), seq![lines[i]]);
    lemma_relayed_single(lines[i]);
}

/// Every relayed line ends with carriage return and line feed, whatever
/// terminator the child used.
pub proof fn lemma_every_line_ends_crlf(lines: Seq<Seq<u8>>, i: int)
    requires
        0 <= i < lines.len(),
    ensures
        ({
            let end = line_offset(lines, i) + lines[i].len() + 2;
            &&& end <= relayed(lines).len()
            &&& relayed(lines)[end - 2] == CR
            &&& relayed(lines)[end - 1] == LF
        }),
{
    lemma_line_in_output(lines, i);
    let off = line_offset(lines, i);
    let len = crlf(lines[i]).len();
    assert(relayed(lines)[off + len - 2] == relayed(lines).subrange(off, off + len)[len - 2]);
    assert(relayed(lines)[off + len - 1] == relayed(lines).subrange(off, off + len)[len - 1]);
}

/// The bytes written for one line: the line, then carriage return and line feed.
pub fn terminated_line(line: Vec<u8>) -> (r: Vec<u8>)
    ensures
        r@ == crlf(line@),
{
    let mut out = line;
    out.push(CR);
    out.push(LF);
    assert(out@ =~= crlf(line@));
    out
}

/// What a drain worker learned from one read of its pipe.
#[derive(Debug)]
pub enum ReadEvent {
    /// A complete line, without its terminator.
    Line(Vec<u8>),
    /// The child closed the stream.
    EndOfStream,
    /// The read failed; the stream is treated as exhausted.
    ReadFailed,
}

/// What a drain worker does next.
#[derive(Debug)]
pub enum DrainAction {
    /// Write these bytes to the parent's corresponding stream, then read again.
    Write(Vec<u8>),
    /// The stream is exhausted: the worker terminates.
    Stop,
}

/// The decisions of the worker that drains one of the child's output pipes.
/// It relays each line it reads, in order, and stops at the end of the stream.
pub struct DrainWorker {
    finished: bool,
    lines: Ghost<Seq<Seq<u8>>>,
}

impl DrainWorker {
    /// The lines relayed so far, in the order they were read.
    pub closed spec fn lines(&self) -> Seq<Seq<u8>> {
        self.lines@
    }

    /// Whether the stream has been exhausted.
    pub closed spec fn finished(&self) -> bool {
        self.finished
    }

    /// Everything the worker has asked to write so far.
    pub open spec fn output(&self) -> Seq<u8> {
        relayed(self.lines())
    }

    /// A worker that has read nothing yet.
    pub fn new() -> (r: DrainWorker)
        ensures
            r.lines() == Seq::<Seq<u8>>::empty(),
            !r.finished(),
    {
        DrainWorker { finished: false, lines: Ghost(Seq::empty()) }
    }

    /// Whether the worker has terminated.
    pub fn is_finished(&self) -> (r: bool)
        ensures
            r == self.finished(),
    {
        self.finished
    }

    /// Decides what to do with the outcome of one read. A line is relayed with a
    /// carriage return and line feed appended; the end of the stream or a failed
    /// read stops the worker, which then stays stopped.
    pub fn step(&mut self, event: ReadEvent) -> (r: DrainAction)
        ensures
            old(self).finished() ==> r is Stop && *final(self) == *old(self),
            !old(self).finished() ==> match event {
                ReadEvent::Line(line) => {
                    &&& r matches DrainAction::Write(bytes) && bytes@ == crlf(line@)
                    &&& final(self).lines() == old(self).lines().push(line@)
                    &&& final(self).output() == old(self).output() + crlf(line@)
                    &&& !final(self).finished()
                },
                _ => {
                    &&& r is Stop
                    &&& final(self).lines() == old(self).lines()
                    &&& final(self).finished()
                },
            },
    {
        if self.finished {
            return DrainAction::Stop;
        }
        match event {
            ReadEvent::Line(line) => {
                let ghost text = line@;
                self.lines = Ghost(self.lines@.push(text));
                assert(self.lines@.drop_last() =~= old(self).lines@);
                DrainAction::Write(terminated_line(line))
            },
            _ => {
                self.finished = true;
                DrainAction::Stop
            },
        }
    }
}

} // verus!
