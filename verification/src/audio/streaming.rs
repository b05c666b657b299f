//! The byte buffer behind play-while-downloading.
//!
//! A download appends bytes, a decoder reads and seeks. Every byte is written to
//! a spill file before it is appended here, so memory holds only the tail of the
//! stream: what lies before it is read back from the file. A reader that runs
//! ahead of the download waits; what it waits for, and what it is told when
//! nothing more will come, is decided here.

use vstd::prelude::*;
use crate::text::{cat5, dec, dec_text, opt};

verus! {

/// The most bytes kept in memory.
pub const MAX_KEPT_BYTES: usize = 4 * 1024 * 1024;

/// The number of bytes that are left in memory when the limit was passed.
pub const TARGET_KEPT_BYTES: usize = 1024 * 1024;

/// The two marks of the window kept in memory.
#[derive(Clone, Copy, Debug)]
pub struct Window {
    /// Above this the window is cut.
    pub max: usize,
    /// What it is cut down to.
    pub target: usize,
}

/// What a buffer is, apart from how it is stored.
#[verifier::ext_equal]
pub struct StreamView {
    /// Every byte that was downloaded so far.
    pub bytes: Seq<u8>,
    /// How many of the first bytes are no longer in memory.
    pub base: nat,
    /// The length that the server announced.
    pub total: Option<u64>,
    /// Whether the download is over, in whatever way.
    pub finished: bool,
    /// Why the download failed.
    pub error: Option<Seq<char>>,
    /// Whether the download was called off.
    pub cancelled: bool,
    /// Whether the bytes also stand in a spill file.
    pub spill: bool,
    pub max: nat,
    pub target: nat,
}

impl StreamView {
    /// A buffer before its first byte.
    pub open spec fn fresh(total: Option<u64>, spill: bool, max: nat, target: nat) -> StreamView {
        StreamView {
            bytes: Seq::empty(),
            base: 0,
            total,
            finished: false,
            error: None,
            cancelled: false,
            spill,
            max,
            target,
        }
    }

    /// How many bytes are in memory.
    pub open spec fn held(self) -> nat {
        (self.bytes.len() - self.base) as nat
    }

    /// After `chunk` was appended. A cancelled buffer takes nothing more. With a
    /// spill file the window is cut as soon as it passes its limit.
    pub open spec fn pushed(self, chunk: Seq<u8>) -> StreamView {
        if chunk.len() == 0 || self.cancelled {
            self
        } else {
            let bytes = self.bytes + chunk;
            StreamView {
                bytes,
                base: if self.spill && bytes.len() - self.base > self.max {
                    (bytes.len() - self.target) as nat
                } else {
                    self.base
                },
                ..self
            }
        }
    }

    /// After the download ended, well or with `error`.
    pub open spec fn ended(self, error: Option<Seq<char>>) -> StreamView {
        StreamView { finished: true, error, ..self }
    }

    /// After the download was called off. A download that is over stays as it
    /// is. With a spill file the memory is given back at once.
    pub open spec fn called_off(self) -> StreamView {
        if self.finished {
            self
        } else {
            StreamView {
                cancelled: true,
                finished: true,
                base: if self.spill {
                    self.bytes.len()
                } else {
                    self.base
                },
                ..self
            }
        }
    }

    /// The whole track is there: the download ended without error and was not
    /// called off.
    pub open spec fn complete(self) -> bool {
        self.finished && self.error is None && !self.cancelled
    }

    /// What a reader that needs the first `target` bytes is told, where
    /// `timed_out` says that its last wait brought nothing.
    pub open spec fn availability(self, target: nat, timed_out: bool) -> AvailabilityView {
        if self.bytes.len() >= target {
            AvailabilityView::Ready
        } else if timed_out {
            AvailabilityView::Failed(
                "等待音频数据超时：想要 "@ + dec(target) + " 字节，只有 "@ + dec(self.bytes.len())
                    + " 字节"@,
            )
        } else if !self.finished {
            AvailabilityView::Wait
        } else {
            match self.error {
                Some(error) => AvailabilityView::Failed(error),
                None => AvailabilityView::End,
            }
        }
    }

    /// How many bytes a read of at most `len` bytes at `pos` gives.
    pub open spec fn readable(self, pos: nat, len: nat) -> nat {
        if self.bytes.len() <= pos {
            0
        } else if len <= self.bytes.len() - pos {
            len
        } else {
            (self.bytes.len() - pos) as nat
        }
    }
}

/// The view of [`Availability`].
pub enum AvailabilityView {
    Ready,
    Wait,
    End,
    Failed(Seq<char>),
}

/// Whether the bytes that a reader needs are there.
#[derive(Debug, PartialEq, Eq)]
pub enum Availability {
    /// They are; that many bytes can be read in all.
    Ready(u64),
    /// Not yet: wait for the next change and ask again.
    Wait,
    /// They never will be: the stream ends before.
    End,
    /// They cannot be had, for this reason.
    Failed(String),
}

impl Availability {
    pub open spec fn shows(self, v: AvailabilityView, flushed: nat) -> bool {
        match self {
            Availability::Ready(n) => v == AvailabilityView::Ready && n == flushed,
            Availability::Wait => v == AvailabilityView::Wait,
            Availability::End => v == AvailabilityView::End,
            Availability::Failed(reason) => v == AvailabilityView::Failed(reason@),
        }
    }
}

/// An audio buffer that grows while it is read.
pub struct StreamingBuffer {
    /// The bytes in memory; they start at `base`.
    data: Vec<u8>,
    base: u64,
    flushed: u64,
    total: Option<u64>,
    finished: bool,
    error: Option<String>,
    cancelled: bool,
    spill: bool,
    window: Window,
    /// Every byte of the stream, those that memory no longer holds too.
    stream: Ghost<Seq<u8>>,
}

impl View for StreamingBuffer {
    type V = StreamView;

    closed spec fn view(&self) -> StreamView {
        StreamView {
            bytes: self.stream@,
            base: self.base as nat,
            total: self.total,
            finished: self.finished,
            error: opt(self.error),
            cancelled: self.cancelled,
            spill: self.spill,
            max: self.window.max as nat,
            target: self.window.target as nat,
        }
    }
}

impl StreamingBuffer {
    /// Memory holds exactly the tail of the stream from `base` on, and no more
    /// than the window allows once there is a spill file.
    pub closed spec fn wf(&self) -> bool {
        &&& self.base <= self.flushed
        &&& self.flushed == self.stream@.len()
        &&& self.data@ == self.stream@.subrange(self.base as int, self.flushed as int)
        &&& self.window.target <= self.window.max
        &&& !self.spill ==> self.base == 0
        &&& self.spill ==> self.flushed - self.base <= self.window.max
        &&& self.cancelled ==> self.finished
        &&& self.error is Some ==> self.finished
    }

    /// A buffer without a spill file: every byte stays in memory.
    pub fn new(total: Option<u64>) -> (b: Self)
        ensures
            b.wf(),
            b@ == StreamView::fresh(
                total,
                false,
                MAX_KEPT_BYTES as nat,
                TARGET_KEPT_BYTES as nat,
            ),
    {
        Self::build(total, false, Window { max: MAX_KEPT_BYTES, target: TARGET_KEPT_BYTES })
    }

    /// A buffer whose bytes also stand in a spill file. Whoever appends writes
    /// them there first.
    pub fn with_spill(total: Option<u64>) -> (b: Self)
        ensures
            b.wf(),
            b@ == StreamView::fresh(total, true, MAX_KEPT_BYTES as nat, TARGET_KEPT_BYTES as nat),
    {
        Self::build(total, true, Window { max: MAX_KEPT_BYTES, target: TARGET_KEPT_BYTES })
    }

    /// A buffer with a spill file and a window of another size.
    pub fn with_window_for_test(total: Option<u64>, max: usize, target: usize) -> (b: Self)
        requires
            target <= max,
        ensures
            b.wf(),
            b@ == StreamView::fresh(total, true, max as nat, target as nat),
    {
        Self::build(total, true, Window { max, target })
    }

    fn build(total: Option<u64>, spill: bool, window: Window) -> (b: Self)
        requires
            window.target <= window.max,
        ensures
            b.wf(),
            b@ == StreamView::fresh(total, spill, window.max as nat, window.target as nat),
    {
        let data: Vec<u8> = Vec::new();
        assert(data@ =~= Seq::<u8>::empty().subrange(0, 0));
        StreamingBuffer {
            data,
            base: 0,
            flushed: 0,
            total,
            finished: false,
            error: None,
            cancelled: false,
            spill,
            window,
            stream: Ghost(Seq::empty()),
        }
    }

    /// How many bytes were downloaded. Cutting the window does not lower it.
    pub fn buffered_bytes(&self) -> (n: u64)
        requires
            self.wf(),
        ensures
            n == self@.bytes.len(),
    {
        self.flushed
    }

    /// How many bytes memory holds.
    pub fn held_bytes(&self) -> (n: usize)
        requires
            self.wf(),
        ensures
            n == self@.held(),
            self@.spill ==> n <= self@.max,
    {
        self.data.len()
    }

    /// Whether the download is over: done, failed or called off.
    pub fn is_finished(&self) -> (r: bool)
        ensures
            r == self@.finished,
    {
        self.finished
    }

    /// Whether the whole track is there.
    pub fn is_complete(&self) -> (r: bool)
        ensures
            r == self@.complete(),
    {
        self.finished && self.error.is_none() && !self.cancelled
    }

    /// Whether the download was called off.
    pub fn is_cancelled(&self) -> (r: bool)
        ensures
            r == self@.cancelled,
    {
        self.cancelled
    }

    /// Why the download failed; `None` while it runs and after a good end.
    pub fn error(&self) -> (r: Option<String>)
        ensures
            opt(r) == self@.error,
    {
        match &self.error {
            Some(error) => Some(error.clone()),
            None => None,
        }
    }

    /// Appends downloaded bytes.
    pub fn push(&mut self, chunk: &[u8])
        requires
            old(self).wf(),
            old(self)@.bytes.len() + chunk@.len() <= u64::MAX,
        ensures
            final(self).wf(),
            final(self)@ == old(self)@.pushed(chunk@),
    {
        let n: usize = chunk.len();
        if n == 0 || self.cancelled {
            return;
        }
        let ghost bytes = self.stream@ + chunk@;
        self.data.extend_from_slice(chunk);
        self.stream = Ghost(bytes);
        self.flushed = self.flushed + n as u64;
        proof {
            assert(self.data@ =~= old(self).data@ + chunk@);
            assert(self.data@ =~= bytes.subrange(self.base as int, self.flushed as int));
        }
        if self.spill && self.data.len() > self.window.max {
            let dropped: usize = self.data.len() - self.window.target;
            let tail = self.data.split_off(dropped);
            self.base = self.base + dropped as u64;
            self.data = tail;
            assert(self.data@ =~= bytes.subrange(self.base as int, self.flushed as int));
        }
    }

    /// Ends the download, well or with the reason of its failure.
    pub fn finish(&mut self, error: Option<String>)
        requires
            old(self).wf(),
        ensures
            final(self).wf(),
            final(self)@ == old(self)@.ended(opt(error)),
    {
        self.finished = true;
        self.error = error;
    }

    /// Calls the download off.
    pub fn cancel(&mut self)
        requires
            old(self).wf(),
        ensures
            final(self).wf(),
            final(self)@ == old(self)@.called_off(),
    {
        if self.finished {
            return;
        }
        self.cancelled = true;
        self.finished = true;
        if self.spill {
            self.base = self.flushed;
            self.data = Vec::new();
            assert(self.data@ =~= self.stream@.subrange(self.base as int, self.flushed as int));
        }
    }

    /// Whether the first `target` bytes are there. `timed_out` says that the
    /// last wait for them ran out.
    pub fn wait_available(&self, target: u64, timed_out: bool) -> (r: Availability)
        requires
            self.wf(),
        ensures
            r.shows(self@.availability(target as nat, timed_out), self@.bytes.len()),
    {
        if self.flushed >= target {
            return Availability::Ready(self.flushed);
        }
        if timed_out {
            let wanted = dec_text(target);
            let there = dec_text(self.flushed);
            return Availability::Failed(
                cat5(
                    "等待音频数据超时：想要 ",
                    wanted.as_str(),
                    " 字节，只有 ",
                    there.as_str(),
                    " 字节",
                ),
            );
        }
        if !self.finished {
            return Availability::Wait;
        }
        match &self.error {
            Some(error) => Availability::Failed(error.clone()),
            None => Availability::End,
        }
    }

    /// At most `len` bytes at `pos`, where memory holds the byte at `pos`.
    pub fn copy_from_window(&self, pos: u64, len: usize) -> (r: Option<Vec<u8>>)
        requires
            self.wf(),
        ensures
            match r {
                Some(out) => {
                    &&& self@.base <= pos < self@.bytes.len()
                    &&& out@ == self@.bytes.subrange(
                        pos as int,
                        pos + self@.readable(pos as nat, len as nat),
                    )
                },
                None => pos < self@.base || pos >= self@.bytes.len(),
            },
    {
        if pos < self.base || pos - self.base >= self.data.len() as u64 {
            return None;
        }
        let start: usize = (pos - self.base) as usize;
        let held: usize = self.data.len();
        let rest: usize = held - start;
        let count: usize = if len < rest {
            len
        } else {
            rest
        };
        let mut out: Vec<u8> = Vec::new();
        let mut i: usize = 0;
        while i < count
            invariant
                self.wf(),
                held == self.data@.len(),
                start <= held,
                i <= count <= held - start,
                out@ == self.data@.subrange(start as int, start + i),
            decreases count - i,
        {
            out.push(self.data[start + i]);
            i = i + 1;
            assert(out@ =~= self.data@.subrange(start as int, start + i));
        }
        assert(out@ =~= self@.bytes.subrange(pos as int, pos + count));
        Some(out)
    }
}

/// Where a seek goes.
#[derive(Clone, Copy, Debug)]
pub enum SeekTarget {
    Start(u64),
    End(i64),
    Current(i64),
}

/// What a read comes to.
#[derive(Debug, PartialEq, Eq)]
pub enum ReadStep {
    /// Wait for the next change of the buffer and ask again.
    Wait,
    /// These bytes; none means the end of the stream.
    Bytes(Vec<u8>),
    /// These bytes of the spill file; [`StreamReader::advance`] then takes how
    /// many the file gave.
    FromSpill { offset: u64, len: usize },
    /// The read fails for this reason.
    Failed(String),
}

/// What a seek comes to.
#[derive(Debug, PartialEq, Eq)]
pub enum SeekStep {
    Wait,
    Moved(u64),
    Failed(String),
}

/// `a` moved by `b`, kept within the numbers of 64 bits.
pub open spec fn moved(a: u64, b: i64) -> u64 {
    if a + b < 0 {
        0
    } else if a + b > u64::MAX {
        u64::MAX
    } else {
        (a + b) as u64
    }
}

fn saturating_add_signed(a: u64, b: i64) -> (r: u64)
    ensures
        r == moved(a, b),
{
    let sum: i128 = a as i128 + b as i128;
    if sum < 0 {
        0
    } else if sum > u64::MAX as i128 {
        u64::MAX
    } else {
        sum as u64
    }
}

/// The place that a seek asks for; `None` where it counts from an end that is
/// not known yet.
pub open spec fn seek_place(buffer: StreamView, pos: u64, to: SeekTarget) -> Option<u64> {
    match to {
        SeekTarget::Start(offset) => Some(offset),
        SeekTarget::Current(offset) => Some(moved(pos, offset)),
        SeekTarget::End(offset) => match buffer.total {
            Some(total) => Some(moved(total, offset)),
            None => if buffer.finished {
                Some(moved(buffer.bytes.len() as u64, offset))
            } else {
                None
            },
        },
    }
}

/// A reading position in a buffer. Each reader has its own.
#[derive(Debug)]
pub struct StreamReader {
    pub pos: u64,
}

impl StreamReader {
    pub fn new() -> (r: Self)
        ensures
            r.pos == 0,
    {
        StreamReader { pos: 0 }
    }

    /// Reads at most `len` bytes. `timed_out` says that the last wait ran out.
    ///
    /// What was downloaded is given even after the download failed: a failure is
    /// told only where nothing is left to read.
    pub fn read(&mut self, buffer: &StreamingBuffer, len: usize, timed_out: bool) -> (r: ReadStep)
        requires
            buffer.wf(),
            old(self).pos < u64::MAX,
        ensures
            match r {
                ReadStep::Wait => {
                    &&& len > 0
                    &&& buffer@.availability((old(self).pos + 1) as nat, timed_out)
                        == AvailabilityView::Wait
                    &&& final(self).pos == old(self).pos
                },
                ReadStep::Failed(reason) => {
                    &&& len > 0
                    &&& buffer@.availability((old(self).pos + 1) as nat, timed_out)
                        == AvailabilityView::Failed(reason@)
                    &&& final(self).pos == old(self).pos
                },
                ReadStep::Bytes(out) => {
                    &&& final(self).pos == old(self).pos + out@.len()
                    &&& if len == 0 || old(self).pos >= buffer@.bytes.len() {
                        &&& out@.len() == 0
                        &&& len == 0 || buffer@.availability(
                            (old(self).pos + 1) as nat,
                            timed_out,
                        ) == AvailabilityView::End
                    } else {
                        &&& buffer@.base <= old(self).pos
                        &&& out@ == buffer@.bytes.subrange(
                            old(self).pos as int,
                            old(self).pos + buffer@.readable(old(self).pos as nat, len as nat),
                        )
                    }
                },
                ReadStep::FromSpill { offset, len: count } => {
                    &&& len > 0
                    &&& buffer@.spill
                    &&& old(self).pos < buffer@.base
                    &&& offset == old(self).pos
                    &&& count == buffer@.readable(old(self).pos as nat, len as nat)
                    &&& final(self).pos == old(self).pos
                },
            },
    {
        if len == 0 {
            return ReadStep::Bytes(Vec::new());
        }
        let available: u64 = match buffer.wait_available(self.pos + 1, timed_out) {
            Availability::Wait => return ReadStep::Wait,
            Availability::Failed(reason) => return ReadStep::Failed(reason),
            Availability::End => return ReadStep::Bytes(Vec::new()),
            Availability::Ready(n) => n,
        };
        let rest: u64 = available - self.pos;
        let want: usize = if (len as u64) < rest {
            len
        } else {
            rest as usize
        };
        match buffer.copy_from_window(self.pos, want) {
            Some(out) => {
                self.pos = self.pos + out.len() as u64;
                ReadStep::Bytes(out)
            },
            None => ReadStep::FromSpill { offset: self.pos, len: want },
        }
    }

    /// Takes `count` bytes that the spill file gave.
    pub fn advance(&mut self, count: usize)
        requires
            old(self).pos + count <= u64::MAX,
        ensures
            final(self).pos == old(self).pos + count,
    {
        self.pos = self.pos + count as u64;
    }

    /// Moves to another place. Places that memory no longer holds are as good as
    /// others; only what was not downloaded yet is waited for.
    pub fn seek(&mut self, buffer: &StreamingBuffer, to: SeekTarget, timed_out: bool) -> (r:
        SeekStep)
        requires
            buffer.wf(),
        ensures
            ({
                let unknown_end = to is End && buffer@.total is None;
                match seek_place(buffer@, old(self).pos, to) {
                    None => r == SeekStep::Wait && final(self).pos == old(self).pos,
                    Some(target) => match buffer@.availability(
                        target as nat,
                        timed_out && !unknown_end,
                    ) {
                        AvailabilityView::Ready => r == SeekStep::Moved(target) && final(self).pos
                            == target,
                        AvailabilityView::Wait => r == SeekStep::Wait && final(self).pos == old(
                            self,
                        ).pos,
                        AvailabilityView::Failed(reason) => r matches SeekStep::Failed(text)
                            && text@ == reason && final(self).pos == old(self).pos,
                        AvailabilityView::End => r matches SeekStep::Failed(text) && text@
                            == "音频数据不足：需要 "@ + dec(target as nat) + " 字节，实际 "@ + dec(
                            buffer@.bytes.len(),
                        ) + " 字节"@ && final(self).pos == old(self).pos,
                    },
                }
            }),
    {
        let mut waited = timed_out;
        let target: u64 = match to {
            SeekTarget::Start(offset) => offset,
            SeekTarget::Current(offset) => saturating_add_signed(self.pos, offset),
            SeekTarget::End(offset) => match buffer.total {
                Some(total) => saturating_add_signed(total, offset),
                None => {
                    if !buffer.finished {
                        return SeekStep::Wait;
                    }
                    waited = false;
                    saturating_add_signed(buffer.flushed, offset)
                },
            },
        };
        match buffer.wait_available(target, waited) {
            Availability::Ready(_) => {
                self.pos = target;
                SeekStep::Moved(target)
            },
            Availability::Wait => SeekStep::Wait,
            Availability::Failed(reason) => SeekStep::Failed(reason),
            Availability::End => {
                let wanted = dec_text(target);
                let there = dec_text(buffer.flushed);
                SeekStep::Failed(
                    cat5(
                        "音频数据不足：需要 ",
                        wanted.as_str(),
                        " 字节，实际 ",
                        there.as_str(),
                        " 字节",
                    ),
                )
            },
        }
    }
}

/// What one positioned read of the spill file gave.
#[derive(Clone, Copy, Debug)]
pub enum SpillOutcome {
    /// That many bytes; none means the end of the file.
    Got(usize),
    /// The call was interrupted and can be made again.
    Interrupted,
    /// The call failed.
    Failed,
}

/// A read of `want` bytes of the spill file, in as many calls as it takes.
#[derive(Clone, Copy, Debug)]
pub struct SpillRead {
    pub offset: u64,
    pub want: usize,
    pub filled: usize,
    pub over: bool,
    pub failed: bool,
}

impl SpillRead {
    pub open spec fn wf(self) -> bool {
        self.filled <= self.want && self.offset + self.want <= u64::MAX
    }

    pub fn new(offset: u64, want: usize) -> (r: Self)
        requires
            offset + want <= u64::MAX,
        ensures
            r.wf(),
            r == (SpillRead { offset, want, filled: 0, over: want == 0, failed: false }),
    {
        SpillRead { offset, want, filled: 0, over: want == 0, failed: false }
    }

    /// Where the next call reads: the place in the file and the bytes to go.
    pub fn next(&self) -> (r: Option<(u64, usize)>)
        requires
            self.wf(),
        ensures
            r == (if self.over || self.failed {
                None
            } else {
                Some(((self.offset + self.filled) as u64, (self.want - self.filled) as usize))
            }),
    {
        if self.over || self.failed {
            None
        } else {
            Some((self.offset + self.filled as u64, self.want - self.filled))
        }
    }

    /// Takes the outcome of that call: the read goes on until all bytes are
    /// there or the file ends; an interrupted call is made again.
    pub fn took(&mut self, outcome: SpillOutcome)
        requires
            old(self).wf(),
            outcome matches SpillOutcome::Got(n) ==> n <= old(self).want - old(self).filled,
        ensures
            final(self).wf(),
            *final(self) == (match outcome {
                SpillOutcome::Got(n) => SpillRead {
                    filled: (old(self).filled + n) as usize,
                    over: n == 0 || old(self).filled + n == old(self).want,
                    ..*old(self)
                },
                SpillOutcome::Interrupted => *old(self),
                SpillOutcome::Failed => SpillRead { failed: true, ..*old(self) },
            }),
    {
        match outcome {
            SpillOutcome::Got(n) => {
                self.filled = self.filled + n;
                self.over = n == 0 || self.filled == self.want;
            },
            SpillOutcome::Interrupted => {},
            SpillOutcome::Failed => {
                self.failed = true;
            },
        }
    }
}

impl StreamView {
    /// What holds of every buffer: memory holds a tail of the stream, all of it without
    /// a spill file and no more than the window allows with one; and only a download
    /// that has ended was called off or has failed.
    pub open spec fn sound(self) -> bool {
        &&& self.base <= self.bytes.len() <= u64::MAX
        &&& self.target <= self.max
        &&& !self.spill ==> self.base == 0
        &&& self.spill ==> self.held() <= self.max
        &&& self.cancelled ==> self.finished
        &&& self.error is Some ==> self.finished
    }
}

/// A buffer is sound.
pub proof fn buffers_are_sound(buffer: &StreamingBuffer)
    requires
        buffer.wf(),
    ensures
        buffer@.sound(),
{
}

/// Whatever happens to a sound buffer, it stays sound.
pub proof fn buffers_stay_sound(buffer: StreamView, chunk: Seq<u8>, error: Option<Seq<char>>)
    requires
        buffer.sound(),
        buffer.bytes.len() + chunk.len() <= u64::MAX,
    ensures
        buffer.pushed(chunk).sound(),
        buffer.ended(error).sound(),
        buffer.called_off().sound(),
{
}

/// What a reader gets back is what was written: with a spill file that holds the
/// downloaded bytes, the bytes that a read takes from the file are the bytes of
/// the stream at the reading position, as those from memory are.
pub proof fn spilled_bytes_read_back(buffer: StreamView, file: Seq<u8>, pos: nat, len: nat)
    requires
        buffer.bytes.len() <= file.len(),
        file.take(buffer.bytes.len() as int) == buffer.bytes,
        pos <= buffer.bytes.len(),
    ensures
        file.subrange(pos as int, (pos + buffer.readable(pos, len)) as int)
            == buffer.bytes.subrange(pos as int, (pos + buffer.readable(pos, len)) as int),
{
    assert forall|i: int| pos <= i < pos + buffer.readable(pos, len) implies file[i]
        == buffer.bytes[i] by {
        assert(file.take(buffer.bytes.len() as int)[i] == file[i]);
    }
}

/// Nothing that was downloaded is ever lost: whatever happens to a buffer, its
/// bytes stay and only grow at the end.
pub proof fn downloaded_bytes_stay(
    buffer: StreamView,
    chunk: Seq<u8>,
    error: Option<Seq<char>>,
)
    ensures
        buffer.bytes.is_prefix_of(buffer.pushed(chunk).bytes),
        buffer.ended(error).bytes == buffer.bytes,
        buffer.called_off().bytes == buffer.bytes,
{
}

/// Memory is bounded: with a spill file, appending never leaves more in memory
/// than the window allows, however much is appended.
pub proof fn window_stays_bounded(buffer: StreamView, chunk: Seq<u8>)
    requires
        buffer.sound(),
        buffer.spill,
    ensures
        buffer.pushed(chunk).held() <= buffer.max,
        buffer.called_off().held() <= buffer.max,
        !buffer.finished ==> buffer.called_off().held() == 0,
{
}

/// A buffer that was called off takes nothing more.
pub proof fn push_after_cancel_changes_nothing(buffer: StreamView, chunk: Seq<u8>)
    requires
        !buffer.finished,
    ensures
        buffer.called_off().pushed(chunk) == buffer.called_off(),
{
}

/// Calling a running download off ends it cleanly for its readers: what was
/// downloaded can still be read, then comes the end of the stream. No reader is
/// left waiting, and no failure is told.
pub proof fn cancel_ends_cleanly(buffer: StreamView, target: nat)
    requires
        buffer.sound(),
        !buffer.finished,
    ensures
        buffer.called_off().cancelled,
        buffer.called_off().finished,
        !buffer.called_off().complete(),
        buffer.called_off().error is None,
        buffer.called_off().availability(target, false) == (if target <= buffer.bytes.len() {
            AvailabilityView::Ready
        } else {
            AvailabilityView::End
        }),
{
}

/// To call a download off that has ended changes nothing, so that to do it twice is to
/// do it once; and it never takes back what was downloaded.
pub proof fn cancelling_settles(buffer: StreamView)
    ensures
        buffer.finished ==> buffer.called_off() == buffer,
        buffer.called_off().called_off() == buffer.called_off(),
        buffer.called_off().bytes == buffer.bytes,
{
}

/// A failed download is told only where nothing is left to read: up to there the
/// bytes are given as if it had gone well.
pub proof fn failure_comes_after_the_bytes(buffer: StreamView, error: Seq<char>, target: nat)
    ensures
        buffer.ended(Some(error)).availability(target, false) == (if target <= buffer.bytes.len() {
            AvailabilityView::Ready
        } else {
            AvailabilityView::Failed(error)
        }),
        buffer.ended(Some(error)).finished,
        !buffer.ended(Some(error)).complete(),
{
}

/// A reader waits only while the download runs and its last wait did not run
/// out; more bytes can only end the wait.
pub proof fn waiting_is_for_running_downloads(
    buffer: StreamView,
    chunk: Seq<u8>,
    target: nat,
    timed_out: bool,
)
    requires
        buffer.availability(target, timed_out) == AvailabilityView::Wait,
    ensures
        !buffer.finished,
        !timed_out,
        buffer.bytes.len() < target,
        buffer.ended(None).availability(target, timed_out) == AvailabilityView::End,
        target <= buffer.bytes.len() + chunk.len() && !buffer.cancelled ==> buffer.pushed(
            chunk,
        ).availability(target, timed_out) == AvailabilityView::Ready,
{
}

/// What comes in is appended as it is, until the download is called off; how much is held
/// in memory is what the window allows: everything without a spill file, else the last
/// bytes, once there are too many.
pub proof fn what_comes_in_is_appended(buffer: StreamView, chunk: Seq<u8>)
    ensures
        !buffer.cancelled ==> buffer.pushed(chunk).bytes == buffer.bytes + chunk,
        buffer.cancelled ==> buffer.pushed(chunk) == buffer,
        !buffer.spill ==> buffer.pushed(chunk).base == buffer.base,
        buffer.spill && !buffer.cancelled && chunk.len() > 0 && buffer.sound() && buffer.held()
            + chunk.len() <= buffer.max ==> buffer.pushed(chunk).base == buffer.base,
        buffer.spill && !buffer.cancelled && chunk.len() > 0 && buffer.sound() && buffer.held()
            + chunk.len() > buffer.max ==> buffer.pushed(chunk).held() == buffer.target,
        buffer.pushed(chunk).finished == buffer.finished,
        buffer.pushed(chunk).error == buffer.error,
        buffer.pushed(chunk).total == buffer.total,
{
    assert(chunk.len() == 0 ==> buffer.bytes + chunk =~= buffer.bytes);
}

/// A read gives as much as is asked for and there, and nothing only at the end of what is
/// there.
pub proof fn reads_give_what_is_there(buffer: StreamView, pos: nat, len: nat)
    ensures
        pos + len <= buffer.bytes.len() ==> buffer.readable(pos, len) == len,
        pos <= buffer.bytes.len() < pos + len ==> buffer.readable(pos, len) == buffer.bytes.len()
            - pos,
        buffer.readable(pos, len) == 0 <==> len == 0 || pos >= buffer.bytes.len(),
{
}

/// Bytes that are there can be read at once, whatever became of the download; before its end
/// a reader waits for others, and behind it there are none.
pub proof fn readers_are_told_what_is_there(buffer: StreamView, target: nat)
    ensures
        target <= buffer.bytes.len() ==> buffer.availability(target, false)
            == AvailabilityView::Ready && buffer.availability(target, true)
            == AvailabilityView::Ready,
        target > buffer.bytes.len() && !buffer.finished ==> buffer.availability(target, false)
            == AvailabilityView::Wait && buffer.availability(target, true) is Failed,
        target > buffer.bytes.len() && buffer.complete() ==> buffer.availability(target, false)
            == AvailabilityView::End,
{
}

/// A download that ended well is complete, one that is running, failed or was called off is
/// not.
pub proof fn downloads_are_complete_at_their_end(buffer: StreamView, error: Seq<char>)
    requires
        !buffer.cancelled,
    ensures
        buffer.ended(None).complete(),
        !buffer.ended(Some(error)).complete(),
        buffer.ended(Some(error)).error == Some(error),
        !buffer.finished ==> !buffer.complete() && !buffer.called_off().complete(),
{
}

/// A new buffer is empty and running.
pub proof fn new_buffers_are_empty(total: Option<u64>, spill: bool, max: nat, target: nat)
    ensures
        ({
            let buffer = StreamView::fresh(total, spill, max, target);
            &&& buffer.bytes.len() == 0
            &&& buffer.held() == 0
            &&& buffer.total == total
            &&& !buffer.finished
            &&& !buffer.cancelled
            &&& buffer.error is None
        }),
{
}

/// A seek counts from where it says: from the start, from the place of the reader, or from
/// the end of the stream, which is known by its length or once the download is over.
pub proof fn seeks_count_from_where_they_say(buffer: StreamView, pos: u64, offset: i64)
    ensures
        forall|place: u64| #[trigger]
            seek_place(buffer, pos, SeekTarget::Start(place)) == Some(place),
        0 <= pos + offset <= u64::MAX ==> seek_place(buffer, pos, SeekTarget::Current(offset))
            == Some((pos + offset) as u64),
        buffer.total matches Some(total) ==> (0 <= total + offset <= u64::MAX ==> seek_place(
            buffer,
            pos,
            SeekTarget::End(offset),
        ) == Some((total + offset) as u64)),
        buffer.total is None && !buffer.finished ==> seek_place(
            buffer,
            pos,
            SeekTarget::End(offset),
        ) is None,
        buffer.total is None && buffer.finished && 0 <= buffer.bytes.len() + offset <= u64::MAX
            && buffer.bytes.len() <= u64::MAX ==> seek_place(buffer, pos, SeekTarget::End(offset))
            == Some((buffer.bytes.len() + offset) as u64),
{
}

} // verus!
