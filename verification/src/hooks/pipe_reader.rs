//! The lines that a hook writes to a pipe.
//!
//! A [`PipeReader`] is fed the bytes read from one pipe, in chunks of any size, and hands back the
//! lines to be logged. Long lines are cut, and after a total of [`MAX_CAPTURED_BYTES`] nothing
//! more is logged, so that a hook cannot flood the log.

use crate::foreign::{from_utf8_lossy, utf8_lossy};
use crate::hooks::stage::HookStage;
use crate::text::cat2;
use vstd::prelude::*;

verus! {

/// Most bytes of one line.
pub const MAX_LINE_BYTES: usize = 4096;

/// Most bytes of one pipe that are logged.
pub const MAX_CAPTURED_BYTES: usize = 1048576;

/// Which of the two streams of a hook.
#[derive(Debug, Clone, Copy, PartialEq, Eq, Structural)]
pub enum PipeStream {
    /// Standard output.
    Stdout,
    /// Standard error.
    Stderr,
}

impl PipeStream {
    /// Name of the stream.
    pub fn as_str(self) -> (r: &'static str)
        ensures
            r@ == match self {
                PipeStream::Stdout => "stdout"@,
                PipeStream::Stderr => "stderr"@,
            },
    {
        match self {
            PipeStream::Stdout => "stdout",
            PipeStream::Stderr => "stderr",
        }
    }
}

/// The text logged for the bytes of a line: cut after [`MAX_LINE_BYTES`], and marked where it was.
pub open spec fn line_text(raw: Seq<u8>) -> Seq<char> {
    if raw.len() > MAX_LINE_BYTES {
        utf8_lossy(raw.take(MAX_LINE_BYTES as int)) + " … [truncated]"@
    } else {
        utf8_lossy(raw)
    }
}

/// The bytes after the last newline.
pub open spec fn open_line(s: Seq<u8>) -> Seq<u8>
    decreases s.len(),
{
    if s.len() == 0 || s.last() == 10 {
        Seq::empty()
    } else {
        open_line(s.drop_last()).push(s.last())
    }
}

/// The texts of the lines that end in a newline.
pub open spec fn closed_lines(s: Seq<u8>) -> Seq<Seq<char>>
    decreases s.len(),
{
    if s.len() == 0 {
        Seq::empty()
    } else if s.last() == 10 {
        closed_lines(s.drop_last()).push(line_text(open_line(s.drop_last())))
    } else {
        closed_lines(s.drop_last())
    }
}

/// The bytes that count towards the log.
pub open spec fn captured(s: Seq<u8>) -> Seq<u8> {
    if s.len() > MAX_CAPTURED_BYTES {
        s.take(MAX_CAPTURED_BYTES as int)
    } else {
        s
    }
}

/// What a reader remembers.
pub ghost struct PipeState {
    /// The bytes of a line without its end.
    pub partial: Seq<u8>,
    /// Lines handed out.
    pub lines: nat,
    /// Bytes received, as far as the counter reaches.
    pub ingested: nat,
    /// Whether the cap was crossed.
    pub capped: bool,
}

/// What a reader remembers after the bytes `s`, in whatever chunks they came.
pub open spec fn state_after(s: Seq<u8>) -> PipeState {
    PipeState {
        partial: if s.len() > MAX_CAPTURED_BYTES {
            Seq::empty()
        } else {
            open_line(s)
        },
        lines: closed_lines(captured(s)).len(),
        ingested: if s.len() > usize::MAX {
            usize::MAX as nat
        } else {
            s.len()
        },
        capped: s.len() > MAX_CAPTURED_BYTES,
    }
}

/// What came of a chunk.
#[derive(Debug)]
pub struct ChunkReport {
    /// Lines to be logged.
    pub lines: Vec<String>,
    /// Whether the cap was crossed by this chunk.
    pub cap_crossed: bool,
}

/// The texts of the lines.
pub open spec fn line_texts(v: Seq<String>) -> Seq<Seq<char>> {
    v.map_values(|s: String| s@)
}

/// The lines of one pipe.
#[derive(Debug)]
pub struct PipeReader {
    stage: HookStage,
    command_basename: String,
    stream: PipeStream,
    partial: Vec<u8>,
    line_count: u64,
    bytes_ingested: usize,
    capped: bool,
}

proof fn lemma_line_count(s: Seq<u8>)
    ensures
        closed_lines(s).len() <= s.len(),
    decreases s.len(),
{
    if s.len() > 0 {
        lemma_line_count(s.drop_last());
    }
}

proof fn lemma_push(s: Seq<u8>, b: u8)
    ensures
        open_line(s.push(b)) == if b == 10 {
            Seq::empty()
        } else {
            open_line(s).push(b)
        },
        closed_lines(s.push(b)) == if b == 10 {
            closed_lines(s).push(line_text(open_line(s)))
        } else {
            closed_lines(s)
        },
{
    assert(s.push(b).drop_last() =~= s);
}

/// The text logged for the bytes of a line.
fn decode_line(raw: &Vec<u8>) -> (r: String)
    ensures
        r@ == line_text(raw@),
{
    if raw.len() > MAX_LINE_BYTES {
        let mut head: Vec<u8> = Vec::new();
        let mut i: usize = 0;
        while i < MAX_LINE_BYTES
            invariant
                i <= MAX_LINE_BYTES < raw@.len(),
                head@ == raw@.take(i as int),
            decreases MAX_LINE_BYTES - i,
        {
            head.push(raw[i]);
            assert(raw@.take(i + 1) =~= raw@.take(i as int).push(raw@[i as int]));
            i = i + 1;
        }
        let text = from_utf8_lossy(&head);
        cat2(text.as_str(), " … [truncated]")
    } else {
        from_utf8_lossy(raw)
    }
}

impl PipeReader {
    /// What the reader remembers.
    pub closed spec fn state(&self) -> PipeState {
        PipeState {
            partial: self.partial@,
            lines: self.line_count as nat,
            ingested: self.bytes_ingested as nat,
            capped: self.capped,
        }
    }

    /// Whose pipe it is.
    pub closed spec fn source(&self) -> (HookStage, Seq<char>, PipeStream) {
        (self.stage, self.command_basename@, self.stream)
    }

    /// The state is that after some bytes.
    pub open spec fn wf(&self) -> bool {
        exists|s: Seq<u8>| self.state() == #[trigger] state_after(s)
    }

    /// A reader that has received nothing.
    pub fn new(stage: HookStage, command_basename: String, stream: PipeStream) -> (r: PipeReader)
        ensures
            r.state() == state_after(Seq::empty()),
            r.wf(),
            r.source() == (stage, command_basename@, stream),
    {
        let r = PipeReader {
            stage,
            command_basename,
            stream,
            partial: Vec::new(),
            line_count: 0,
            bytes_ingested: 0,
            capped: false,
        };
        assert(r.state().partial =~= Seq::<u8>::empty());
        r
    }

    /// Lines handed out so far.
    pub fn line_count(&self) -> (r: u64)
        ensures
            r as nat == self.state().lines,
    {
        self.line_count
    }

    /// Stage, command and stream of the pipe.
    pub fn describe(&self) -> (r: (HookStage, &str, PipeStream))
        ensures
            (r.0, r.1@, r.2) == self.source(),
    {
        (self.stage, self.command_basename.as_str(), self.stream)
    }

    /// Takes in a chunk, and hands out the lines that it ends. Bytes past the cap count and are
    /// dropped; so is a line that the cap cuts.
    pub fn process_chunk(&mut self, chunk: &[u8]) -> (r: ChunkReport)
        requires
            old(self).wf(),
        ensures
            final(self).wf(),
            final(self).source() == old(self).source(),
            forall|s: Seq<u8>|
                old(self).state() == #[trigger] state_after(s) ==> final(self).state()
                    == state_after(s + chunk@) && line_texts(r.lines@) == closed_lines(
                    captured(s + chunk@),
                ).skip(closed_lines(captured(s)).len() as int) && r.cap_crossed == (s.len()
                    <= MAX_CAPTURED_BYTES < s.len() + chunk@.len()),
    {
        let ghost before = self.state();
        let ghost s0 = choose|s: Seq<u8>| before == #[trigger] state_after(s);
        let n: usize = chunk.len();
        let already: usize = self.bytes_ingested;
        self.bytes_ingested = if already > usize::MAX - n {
            usize::MAX
        } else {
            already + n
        };
        let budget: usize = if already >= MAX_CAPTURED_BYTES {
            0
        } else {
            MAX_CAPTURED_BYTES - already
        };
        let head: usize = if n <= budget {
            n
        } else {
            budget
        };
        let mut lines: Vec<String> = Vec::new();
        let mut i: usize = 0;
        proof {
            assert forall|s: Seq<u8>| before == #[trigger] state_after(s) implies line_texts(
                lines@,
            ) =~= closed_lines(s + chunk@.take(0)).skip(closed_lines(s).len() as int) && s
                + chunk@.take(0) == s by {
                assert(s + chunk@.take(0) =~= s);
            }
        }
        while i < head
            invariant
                i <= head <= n,
                n == chunk@.len(),
                before == state_after(s0),
                already == before.ingested,
                self.source() == old(self).source(),
                self.capped == before.capped,
                self.bytes_ingested == if already + n > usize::MAX {
                    usize::MAX as int
                } else {
                    already + n
                },
                head > 0 ==> already + head <= MAX_CAPTURED_BYTES,
                head == 0 ==> i == 0 && self.partial@ == before.partial && self.line_count
                    == before.lines && lines@.len() == 0,
                forall|s: Seq<u8>|
                    before == #[trigger] state_after(s) && already <= MAX_CAPTURED_BYTES
                        && !before.capped ==> self.partial@ == open_line(s + chunk@.take(i as int))
                        && self.line_count == closed_lines(s + chunk@.take(i as int)).len()
                        && line_texts(lines@) == closed_lines(s + chunk@.take(i as int)).skip(
                        closed_lines(s).len() as int,
                    ),
            decreases head - i,
        {
            let ghost lines_before = lines@;
            let ghost partial_before = self.partial@;
            let ghost count_before = self.line_count;
            proof {
                // Where bytes still count, the cap has not been crossed.
                assert(s0.len() <= MAX_CAPTURED_BYTES);
                lemma_line_count(s0 + chunk@.take(i as int));
            }
            let byte: u8 = chunk[i];
            if byte == 10 {
                let text = decode_line(&self.partial);
                lines.push(text);
                self.partial = Vec::new();
                self.line_count = self.line_count + 1;
            } else {
                self.partial.push(byte);
            }
            proof {
                assert forall|s: Seq<u8>|
                    before == #[trigger] state_after(s) && already <= MAX_CAPTURED_BYTES
                        && !before.capped implies self.partial@ == open_line(
                    s + chunk@.take(i + 1),
                ) && self.line_count == closed_lines(s + chunk@.take(i + 1)).len() && line_texts(
                    lines@,
                ) == closed_lines(s + chunk@.take(i + 1)).skip(closed_lines(s).len() as int) by {
                    let t = s + chunk@.take(i as int);
                    assert(s + chunk@.take(i + 1) =~= t.push(byte));
                    lemma_push(t, byte);
                    lemma_lines_grow(s, chunk@.take(i as int));
                    if byte == 10 {
                        assert(line_texts(lines@) =~= line_texts(lines_before).push(
                            line_text(partial_before),
                        ));
                        assert(closed_lines(t.push(byte)).skip(closed_lines(s).len() as int)
                            =~= closed_lines(t).skip(closed_lines(s).len() as int).push(
                            line_text(open_line(t)),
                        ));
                        assert(self.partial@ =~= Seq::<u8>::empty());
                    }
                }
            }
            i = i + 1;
        }
        let cap_crossed = head < n && !self.capped;
        if cap_crossed {
            self.capped = true;
            self.partial = Vec::new();
        }
        proof {
            assert forall|s: Seq<u8>| before == #[trigger] state_after(s) implies self.state()
                == state_after(s + chunk@) && line_texts(lines@) == closed_lines(
                captured(s + chunk@),
            ).skip(closed_lines(captured(s)).len() as int) && cap_crossed == (s.len()
                <= MAX_CAPTURED_BYTES < s.len() + chunk@.len()) by {
                let t = s + chunk@;
                if s.len() > MAX_CAPTURED_BYTES {
                    // Nothing counts any more.
                    assert(captured(t) =~= captured(s));
                    assert(closed_lines(captured(s)).skip(closed_lines(captured(s)).len() as int)
                        =~= Seq::<Seq<char>>::empty());
                    assert(line_texts(lines@) =~= Seq::<Seq<char>>::empty());
                    assert(self.partial@ =~= Seq::<u8>::empty());
                } else if head == n {
                    assert(chunk@.take(n as int) =~= chunk@);
                    if n == 0 {
                        assert(t =~= s);
                    }
                } else {
                    assert(captured(t) =~= s + chunk@.take(head as int));
                    if head == 0 {
                        assert(s + chunk@.take(0) =~= s);
                        assert(line_texts(lines@) =~= closed_lines(s).skip(
                            closed_lines(s).len() as int,
                        ));
                    }
                    assert(self.partial@ =~= Seq::<u8>::empty());
                }
            }
            assert(self.state() == state_after(s0 + chunk@));
        }
        ChunkReport { lines, cap_crossed }
    }

    /// Ends the pipe: hands out what is left of a line without its end.
    pub fn finish(&mut self) -> (r: Option<String>)
        requires
            old(self).wf(),
        ensures
            final(self).source() == old(self).source(),
            old(self).state().partial.len() > 0 ==> (r matches Some(t) && t@ == line_text(
                old(self).state().partial,
            )) && final(self).state() == (PipeState {
                partial: Seq::empty(),
                lines: old(self).state().lines + 1,
                ..old(self).state()
            }),
            old(self).state().partial.len() == 0 ==> r is None && final(self).state() == old(
                self,
            ).state(),
    {
        proof {
            let s0 = choose|s: Seq<u8>| self.state() == #[trigger] state_after(s);
            lemma_line_count(captured(s0));
        }
        if self.partial.len() > 0 {
            let text = decode_line(&self.partial);
            self.partial = Vec::new();
            self.line_count = self.line_count + 1;
            assert(self.state().partial =~= Seq::<u8>::empty());
            Some(text)
        } else {
            None
        }
    }
}

proof fn lemma_lines_grow(s: Seq<u8>, t: Seq<u8>)
    ensures
        closed_lines(s).len() <= closed_lines(s + t).len(),
    decreases t.len(),
{
    if t.len() == 0 {
        assert(s + t =~= s);
    } else {
        assert((s + t).drop_last() =~= s + t.drop_last());
        lemma_lines_grow(s, t.drop_last());
    }
}

proof fn lemma_lines_prefix(s: Seq<u8>, t: Seq<u8>)
    ensures
        closed_lines(s).len() <= closed_lines(s + t).len(),
        closed_lines(s + t).take(closed_lines(s).len() as int) == closed_lines(s),
    decreases t.len(),
{
    let a = closed_lines(s);
    if t.len() == 0 {
        assert(s + t =~= s);
        assert(a.take(a.len() as int) =~= a);
    } else {
        assert((s + t).drop_last() =~= s + t.drop_last());
        lemma_lines_prefix(s, t.drop_last());
        let b = closed_lines(s + t.drop_last());
        let c = closed_lines(s + t);
        assert(c.take(a.len() as int) =~= b.take(a.len() as int));
    }
}

/// How the bytes of a pipe are cut into chunks makes no difference: after the bytes `s`, the
/// lines handed out for `a` and then for `b` are those handed out for both at once.
pub proof fn lines_do_not_depend_on_chunks(s: Seq<u8>, a: Seq<u8>, b: Seq<u8>)
    ensures
        state_after(s + a + b) == state_after(s + (a + b)),
        closed_lines(captured(s + a)).skip(closed_lines(captured(s)).len() as int) + closed_lines(
            captured(s + a + b),
        ).skip(closed_lines(captured(s + a)).len() as int) == closed_lines(
            captured(s + (a + b)),
        ).skip(closed_lines(captured(s)).len() as int),
{
    assert(s + a + b =~= s + (a + b));
    let x = captured(s);
    let y = captured(s + a);
    let z = captured(s + a + b);
    assert(y =~= x + y.skip(x.len() as int));
    assert(z =~= y + z.skip(y.len() as int));
    lemma_lines_prefix(x, y.skip(x.len() as int));
    lemma_lines_prefix(y, z.skip(y.len() as int));
    let n = closed_lines(x).len() as int;
    let m = closed_lines(y).len() as int;
    let lz = closed_lines(z);
    assert(closed_lines(y).skip(n) + lz.skip(m) =~= lz.skip(n)) by {
        assert forall|i: int| 0 <= i < lz.len() - n implies (closed_lines(y).skip(n) + lz.skip(
            m,
        ))[i] == lz.skip(n)[i] by {
            if i < m - n {
                assert(lz.take(m)[n + i] == lz[n + i]);
            }
        }
    }
}

/// A pipe never yields more lines than the cap has bytes, and none past it.
pub proof fn logged_lines_are_bounded(s: Seq<u8>, more: Seq<u8>)
    ensures
        state_after(s).lines <= MAX_CAPTURED_BYTES,
        s.len() >= MAX_CAPTURED_BYTES ==> closed_lines(captured(s + more)) == closed_lines(
            captured(s),
        ),
{
    lemma_line_count(captured(s));
    if s.len() >= MAX_CAPTURED_BYTES {
        assert(captured(s + more) =~= captured(s));
    }
}

/// A line that ends is logged whole, after all that were logged before it.
pub proof fn ended_line_is_logged(before: Seq<u8>, line: Seq<u8>)
    requires
        before.len() == 0 || before.last() == 10,
        forall|i: int| 0 <= i < line.len() ==> line[i] != 10,
    ensures
        closed_lines(before + line.push(10)) == closed_lines(before).push(line_text(line)),
        open_line(before + line) == line,
        open_line(before + line.push(10)).len() == 0,
{
    lemma_open_tail(before, line);
    let all = before + line.push(10);
    assert(all.drop_last() =~= before + line);
}

proof fn lemma_open_tail(before: Seq<u8>, line: Seq<u8>)
    requires
        before.len() == 0 || before.last() == 10,
        forall|i: int| 0 <= i < line.len() ==> line[i] != 10,
    ensures
        open_line(before + line) == line,
        closed_lines(before + line) == closed_lines(before),
    decreases line.len(),
{
    if line.len() == 0 {
        assert(before + line =~= before);
        assert(open_line(before) =~= line);
    } else {
        let p = line.drop_last();
        assert((before + line).drop_last() =~= before + p);
        assert((before + line).last() == line.last());
        assert(line[line.len() - 1] != 10);
        assert forall|i: int| 0 <= i < p.len() implies p[i] != 10 by {
            assert(p[i] == line[i]);
        }
        lemma_open_tail(before, p);
        assert(p.push(line.last()) =~= line);
    }
}

/// A line of up to 4096 bytes is logged as it is; of a longer one the first 4096 bytes are, with a
/// mark.
pub proof fn long_lines_are_cut(raw: Seq<u8>)
    ensures
        raw.len() <= 4096 ==> line_text(raw) == utf8_lossy(raw),
        raw.len() > 4096 ==> line_text(raw) == utf8_lossy(raw.take(4096)) + " … [truncated]"@,
{
}

/// The first mebibyte of a pipe is captured, and nothing past it.
pub proof fn first_mebibyte_is_captured(s: Seq<u8>)
    ensures
        s.len() <= 1024 * 1024 ==> captured(s) == s && !state_after(s).capped && state_after(
            s,
        ).partial == open_line(s),
        s.len() > 1024 * 1024 ==> captured(s) == s.take(1048576) && state_after(s).capped
            && state_after(s).partial.len() == 0,
        state_after(s).lines == closed_lines(captured(s)).len(),
{
}

} // verus!
