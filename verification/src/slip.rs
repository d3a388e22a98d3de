//! SLIP framing: an incremental decoder that turns a raw byte stream into
//! complete frames, and an encoder that frames a payload for the wire.
//!
//! Delimiters: END (0xC0) terminates a frame; ESC (0xDB) introduces an
//! escape; inside an escape, ESC_END stands for a literal END byte and
//! ESC_ESC for a literal ESC byte.
//!
//! An escape byte followed by anything else is a protocol violation. It is
//! scoped to the frame being accumulated: that frame is aborted and the
//! decoder returns to its normal state, so one corrupt frame never takes the
//! connection down. Exceeding the accumulator's capacity also aborts the
//! frame, but is reported as a buffer overflow for the caller to surface.

use vstd::prelude::*;

use crate::error::Error;

verus! {

/// Frame delimiter: terminates a frame.
pub const SLIP_END: u8 = 0xC0;

/// Escape introducer.
pub const SLIP_ESC: u8 = 0xDB;

/// Inside an escape: a literal END byte.
pub const SLIP_ESC_END: u8 = 0xDC;

/// Inside an escape: a literal ESC byte.
pub const SLIP_ESC_ESC: u8 = 0xDD;

/// Capacity of the frame accumulator, in bytes.
pub const COMMAND_BUFFER_SIZE: usize = 1024;

/// What a byte means to the SLIP state machine.
#[derive(Clone, Copy, Debug, PartialEq, Eq, Structural)]
pub enum SlipByte {
    End,
    Esc,
    EscEnd,
    EscEsc,
    Other,
}

impl SlipByte {
    pub open spec fn spec_from(byte: u8) -> SlipByte {
        if byte == SLIP_END {
            SlipByte::End
        } else if byte == SLIP_ESC {
            SlipByte::Esc
        } else if byte == SLIP_ESC_END {
            SlipByte::EscEnd
        } else if byte == SLIP_ESC_ESC {
            SlipByte::EscEsc
        } else {
            SlipByte::Other
        }
    }

    pub fn from(byte: u8) -> (r: SlipByte)
        ensures
            r == SlipByte::spec_from(byte),
    {
        match byte {
            0xC0 => SlipByte::End,
            0xDB => SlipByte::Esc,
            0xDC => SlipByte::EscEnd,
            0xDD => SlipByte::EscEsc,
            _ => SlipByte::Other,
        }
    }
}

/// A byte buffer of bounded capacity: the frame accumulator.
pub struct ByteBuffer {
    data: Vec<u8>,
}

impl View for ByteBuffer {
    type V = Seq<u8>;

    closed spec fn view(&self) -> Seq<u8> {
        self.data@
    }
}

impl ByteBuffer {
    pub fn new() -> (r: ByteBuffer)
        ensures
            r@ == Seq::<u8>::empty(),
    {
        ByteBuffer { data: Vec::new() }
    }

    pub fn clear(&mut self)
        ensures
            final(self)@ == Seq::<u8>::empty(),
    {
        self.data.clear();
    }

    /// Appends one byte; fails with a buffer overflow once the capacity is
    /// reached, leaving the contents unchanged.
    pub fn push(&mut self, byte: u8) -> (r: Result<(), Error>)
        ensures
            old(self)@.len() < COMMAND_BUFFER_SIZE ==> r is Ok && final(self)@ == old(self)@.push(
                byte,
            ),
            old(self)@.len() >= COMMAND_BUFFER_SIZE ==> (r matches Err(e) && e is BufferOverflow
                && final(self)@ == old(self)@),
    {
        if self.data.len() >= COMMAND_BUFFER_SIZE {
            return Err(Error::BufferOverflow);
        }
        self.data.push(byte);
        Ok(())
    }

    /// Moves the contents out, leaving the buffer empty.
    pub fn take(&mut self) -> (r: Vec<u8>)
        ensures
            r@ == old(self)@,
            final(self)@ == Seq::<u8>::empty(),
    {
        let mut out: Vec<u8> = Vec::new();
        core::mem::swap(&mut self.data, &mut out);
        out
    }

    pub fn as_slice(&self) -> (s: &[u8])
        ensures
            s@ == self@,
    {
        self.data.as_slice()
    }

    pub fn len(&self) -> (n: usize)
        ensures
            n == self@.len(),
    {
        self.data.len()
    }
}

/// The decoder's abstract state: the bytes accumulated for the frame in
/// progress, and whether the last byte seen was an escape introducer.
pub ghost struct FramerState {
    pub acc: Seq<u8>,
    pub escaped: bool,
}

impl FramerState {
    pub open spec fn initial() -> FramerState {
        FramerState { acc: Seq::empty(), escaped: false }
    }
}

/// What one byte did to the decoder.
pub ghost struct SlipStep {
    /// The state after the byte.
    pub st: FramerState,
    /// The complete frame the byte finished, if any.
    pub emit: Option<Seq<u8>>,
    /// The byte was an invalid escape; the frame in progress was aborted.
    pub bad_escape: bool,
    /// The accumulator was full; the frame in progress was aborted.
    pub overflow: bool,
}

/// The SLIP state machine, one byte at a time.
///
/// In the normal state, END emits the accumulated frame when it is non-empty
/// (empty frames between consecutive delimiters are skipped), ESC consumes
/// the byte and arms the escape, and every other byte is appended. In the
/// escaped state, ESC_END and ESC_ESC append the literal END or ESC byte;
/// anything else is a violation that aborts the frame.
pub open spec fn slip_step(st: FramerState, b: u8) -> SlipStep {
    if !st.escaped {
        if b == SLIP_END {
            if st.acc.len() == 0 {
                SlipStep { st, emit: None, bad_escape: false, overflow: false }
            } else {
                SlipStep {
                    st: FramerState::initial(),
                    emit: Some(st.acc),
                    bad_escape: false,
                    overflow: false,
                }
            }
        } else if b == SLIP_ESC {
            SlipStep {
                st: FramerState { acc: st.acc, escaped: true },
                emit: None,
                bad_escape: false,
                overflow: false,
            }
        } else {
            if st.acc.len() < COMMAND_BUFFER_SIZE {
                SlipStep {
                    st: FramerState { acc: st.acc.push(b), escaped: false },
                    emit: None,
                    bad_escape: false,
                    overflow: false,
                }
            } else {
                SlipStep {
                    st: FramerState::initial(),
                    emit: None,
                    bad_escape: false,
                    overflow: true,
                }
            }
        }
    } else {
        if b == SLIP_ESC_END || b == SLIP_ESC_ESC {
            let lit: u8 = if b == SLIP_ESC_END {
                SLIP_END
            } else {
                SLIP_ESC
            };
            if st.acc.len() < COMMAND_BUFFER_SIZE {
                SlipStep {
                    st: FramerState { acc: st.acc.push(lit), escaped: false },
                    emit: None,
                    bad_escape: false,
                    overflow: false,
                }
            } else {
                SlipStep {
                    st: FramerState::initial(),
                    emit: None,
                    bad_escape: false,
                    overflow: true,
                }
            }
        } else {
            SlipStep { st: FramerState::initial(), emit: None, bad_escape: true, overflow: false }
        }
    }
}

/// What a whole byte sequence did to the decoder: the frames completed, in
/// order, and the final state. Processing stops at the first overflow, and
/// the frames completed before it are dropped with the failed poll.
pub ghost struct SlipRun {
    pub st: FramerState,
    pub frames: Seq<Seq<u8>>,
    pub overflow: bool,
}

pub open spec fn slip_run(st: FramerState, input: Seq<u8>) -> SlipRun
    decreases input.len(),
{
    if input.len() == 0 {
        SlipRun { st, frames: Seq::empty(), overflow: false }
    } else {
        let step = slip_step(st, input[0]);
        if step.overflow {
            SlipRun { st: step.st, frames: Seq::empty(), overflow: true }
        } else {
            let rest = slip_run(step.st, input.drop_first());
            let head: Seq<Seq<u8>> = match step.emit {
                Some(f) => seq![f],
                None => Seq::empty(),
            };
            SlipRun { st: rest.st, frames: head + rest.frames, overflow: rest.overflow }
        }
    }
}

/// What feeding one byte produced.
pub enum FeedOutcome {
    /// Byte consumed; no frame finished yet.
    Pending,
    /// A complete, non-empty frame.
    Frame(Vec<u8>),
    /// Invalid escape sequence; the frame in progress was dropped.
    BadEscape,
    /// The frame in progress outgrew the accumulator and was dropped.
    Overflow,
}

/// The incremental SLIP decoder. Its escape state persists across chunks,
/// since a frame may span several reads.
pub struct SlipDecoder {
    buffer: ByteBuffer,
    escaped: bool,
}

impl View for SlipDecoder {
    type V = FramerState;

    closed spec fn view(&self) -> FramerState {
        FramerState { acc: self.buffer@, escaped: self.escaped }
    }
}

impl SlipDecoder {
    pub fn new() -> (r: SlipDecoder)
        ensures
            r@ == FramerState::initial(),
    {
        SlipDecoder { buffer: ByteBuffer::new(), escaped: false }
    }

    /// Drops any partial frame and disarms the escape state.
    pub fn reset(&mut self)
        ensures
            final(self)@ == FramerState::initial(),
    {
        self.buffer.clear();
        self.escaped = false;
    }

    /// Feeds one byte through the state machine.
    pub fn feed_byte(&mut self, b: u8) -> (out: FeedOutcome)
        ensures
            final(self)@ == slip_step(old(self)@, b).st,
            match out {
                FeedOutcome::Pending => slip_step(old(self)@, b).emit is None && !slip_step(
                    old(self)@,
                    b,
                ).bad_escape && !slip_step(old(self)@, b).overflow,
                FeedOutcome::Frame(f) => slip_step(old(self)@, b).emit == Some(f@),
                FeedOutcome::BadEscape => slip_step(old(self)@, b).bad_escape,
                FeedOutcome::Overflow => slip_step(old(self)@, b).overflow,
            },
    {
        if !self.escaped {
            match SlipByte::from(b) {
                SlipByte::End => {
                    if self.buffer.len() == 0 {
                        FeedOutcome::Pending
                    } else {
                        let frame = self.buffer.take();
                        FeedOutcome::Frame(frame)
                    }
                },
                SlipByte::Esc => {
                    self.escaped = true;
                    FeedOutcome::Pending
                },
                _ => {
                    match self.buffer.push(b) {
                        Ok(_) => FeedOutcome::Pending,
                        Err(_) => {
                            self.buffer.clear();
                            FeedOutcome::Overflow
                        },
                    }
                },
            }
        } else {
            match SlipByte::from(b) {
                SlipByte::EscEnd => {
                    self.escaped = false;
                    match self.buffer.push(SLIP_END) {
                        Ok(_) => FeedOutcome::Pending,
                        Err(_) => {
                            self.buffer.clear();
                            FeedOutcome::Overflow
                        },
                    }
                },
                SlipByte::EscEsc => {
                    self.escaped = false;
                    match self.buffer.push(SLIP_ESC) {
                        Ok(_) => FeedOutcome::Pending,
                        Err(_) => {
                            self.buffer.clear();
                            FeedOutcome::Overflow
                        },
                    }
                },
                _ => {
                    self.buffer.clear();
                    self.escaped = false;
                    FeedOutcome::BadEscape
                },
            }
        }
    }

    /// Feeds the first `n` bytes of a chunk, collecting the frames it
    /// completes in arrival order. Invalid escape sequences abort only the
    /// frame in progress; an overflow aborts the whole call.
    pub fn feed_chunk(&mut self, bytes: &[u8], n: usize) -> (r: Result<Vec<Vec<u8>>, Error>)
        requires
            n <= bytes@.len(),
        ensures
            final(self)@ == slip_run(old(self)@, bytes@.subrange(0, n as int)).st,
            match r {
                Ok(frames) => frames.deep_view() == slip_run(
                    old(self)@,
                    bytes@.subrange(0, n as int),
                ).frames && !slip_run(old(self)@, bytes@.subrange(0, n as int)).overflow,
                Err(e) => e is BufferOverflow && slip_run(
                    old(self)@,
                    bytes@.subrange(0, n as int),
                ).overflow,
            },
    {
        let ghost input = bytes@.subrange(0, n as int);
        let ghost whole = slip_run(old(self)@, input);
        let mut frames: Vec<Vec<u8>> = Vec::new();
        let mut i: usize = 0;
        proof {
            assert(input.subrange(0, n as int) =~= input);
            assert(frames.deep_view() =~= Seq::<Seq<u8>>::empty());
            assert(Seq::<Seq<u8>>::empty() + whole.frames =~= whole.frames);
        }
        while i < n
            invariant
                i <= n,
                n <= bytes@.len(),
                input == bytes@.subrange(0, n as int),
                whole == slip_run(old(self)@, input),
                whole.st == slip_run(self@, input.subrange(i as int, n as int)).st,
                whole.frames == frames.deep_view() + slip_run(
                    self@,
                    input.subrange(i as int, n as int),
                ).frames,
                whole.overflow == slip_run(self@, input.subrange(i as int, n as int)).overflow,
            decreases n - i,
        {
            let ghost pre = self@;
            let ghost suffix = input.subrange(i as int, n as int);
            let b = bytes[i];
            proof {
                assert(suffix[0] == b);
                assert(suffix.drop_first() =~= input.subrange(i + 1, n as int));
            }
            let ghost step = slip_step(pre, b);
            let ghost old_frames = frames.deep_view();
            let out = self.feed_byte(b);
            match out {
                FeedOutcome::Pending => {
                    proof {
                        lemma_run_unfold(pre, suffix);
                        assert(whole.frames =~= frames.deep_view() + slip_run(
                            self@,
                            suffix.drop_first(),
                        ).frames);
                    }
                },
                FeedOutcome::Frame(f) => {
                    let ghost fv = f@;
                    proof {
                        assert(f.deep_view() =~= fv);
                    }
                    frames.push(f);
                    proof {
                        lemma_run_unfold(pre, suffix);
                        assert(frames.deep_view() =~= old_frames.push(fv));
                        assert(whole.frames =~= frames.deep_view() + slip_run(
                            self@,
                            suffix.drop_first(),
                        ).frames);
                    }
                },
                FeedOutcome::BadEscape => {
                    proof {
                        lemma_run_unfold(pre, suffix);
                        assert(whole.frames =~= frames.deep_view() + slip_run(
                            self@,
                            suffix.drop_first(),
                        ).frames);
                    }
                },
                FeedOutcome::Overflow => {
                    proof {
                        lemma_run_unfold(pre, suffix);
                    }
                    return Err(Error::BufferOverflow);
                },
            }
            i = i + 1;
        }
        proof {
            assert(input.subrange(n as int, n as int) =~= Seq::<u8>::empty());
            assert(whole.frames =~= frames.deep_view());
        }
        Ok(frames)
    }
}

/// Escape expansion of one payload byte: END and ESC are replaced by their
/// two-byte escape sequences, every other byte stands for itself.
pub open spec fn slip_byte_escape(b: u8) -> Seq<u8> {
    if b == SLIP_END {
        seq![SLIP_ESC, SLIP_ESC_END]
    } else if b == SLIP_ESC {
        seq![SLIP_ESC, SLIP_ESC_ESC]
    } else {
        seq![b]
    }
}

/// The escaped form of a payload, without the closing delimiter.
pub open spec fn slip_body(data: Seq<u8>) -> Seq<u8>
    decreases data.len(),
{
    if data.len() == 0 {
        Seq::empty()
    } else {
        slip_byte_escape(data[0]) + slip_body(data.drop_first())
    }
}

/// A payload framed for the wire: its escaped form, closed by END.
pub open spec fn slip_encode_spec(data: Seq<u8>) -> Seq<u8> {
    slip_body(data) + seq![SLIP_END]
}

proof fn lemma_slip_body_snoc(data: Seq<u8>, b: u8)
    ensures
        slip_body(data.push(b)) == slip_body(data) + slip_byte_escape(b),
    decreases data.len(),
{
    let dp = data.push(b);
    assert(dp.len() == data.len() + 1);
    if data.len() == 0 {
        assert(dp[0] == b);
        assert(dp.drop_first() =~= Seq::<u8>::empty());
        assert(slip_body(dp.drop_first()) == Seq::<u8>::empty());
        assert(slip_body(data) == Seq::<u8>::empty());
        assert(slip_body(dp) =~= slip_body(data) + slip_byte_escape(b));
    } else {
        assert(dp[0] == data[0]);
        assert(dp.drop_first() =~= data.drop_first().push(b));
        lemma_slip_body_snoc(data.drop_first(), b);
        assert(slip_body(dp) == slip_byte_escape(data[0]) + slip_body(dp.drop_first()));
        assert(slip_body(data) == slip_byte_escape(data[0]) + slip_body(data.drop_first()));
        assert(slip_body(dp) =~= slip_body(data) + slip_byte_escape(b));
    }
}

/// Frames one payload for the wire.
pub fn slip_encode(data: &[u8]) -> (out: Vec<u8>)
    ensures
        out@ == slip_encode_spec(data@),
{
    let mut out: Vec<u8> = Vec::new();
    let mut i: usize = 0;
    proof {
        assert(data@.subrange(0, 0) =~= Seq::<u8>::empty());
    }
    while i < data.len()
        invariant
            i <= data@.len(),
            out@ == slip_body(data@.subrange(0, i as int)),
        decreases data@.len() - i,
    {
        let b = data[i];
        if b == SLIP_END {
            out.push(SLIP_ESC);
            out.push(SLIP_ESC_END);
        } else if b == SLIP_ESC {
            out.push(SLIP_ESC);
            out.push(SLIP_ESC_ESC);
        } else {
            out.push(b);
        }
        proof {
            assert(data@.subrange(0, i + 1) =~= data@.subrange(0, i as int).push(b));
            lemma_slip_body_snoc(data@.subrange(0, i as int), b);
            assert(out@ =~= slip_body(data@.subrange(0, i as int)) + slip_byte_escape(b));
        }
        i = i + 1;
    }
    proof {
        assert(data@.subrange(0, data@.len() as int) =~= data@);
    }
    out.push(SLIP_END);
    proof {
        assert(out@ =~= slip_encode_spec(data@));
    }
    out
}

/// Feeding a byte stream in two chunks is the same as feeding it whole:
/// the decoder's escape state and partial frame carry across the boundary,
/// so the frames that come out are the frames of the concatenation. When
/// the first chunk overflows, the run stops there either way.
pub proof fn lemma_run_chunks(st: FramerState, a: Seq<u8>, b: Seq<u8>)
    ensures
        slip_run(st, a).overflow ==> slip_run(st, a + b) == slip_run(st, a),
        !slip_run(st, a).overflow ==> {
            let first = slip_run(st, a);
            let second = slip_run(first.st, b);
            slip_run(st, a + b).st == second.st && slip_run(st, a + b).overflow == second.overflow
                && slip_run(st, a + b).frames == first.frames + second.frames
        },
    decreases a.len(),
{
    if a.len() == 0 {
        assert(a + b =~= b);
        assert(Seq::<Seq<u8>>::empty() + slip_run(st, b).frames =~= slip_run(st, b).frames);
    } else {
        let step = slip_step(st, a[0]);
        assert((a + b)[0] == a[0]);
        if step.overflow {
            assert(slip_run(st, a + b) == SlipRun {
                st: step.st,
                frames: Seq::<Seq<u8>>::empty(),
                overflow: true,
            });
        } else {
            assert((a + b).drop_first() =~= a.drop_first() + b);
            lemma_run_chunks(step.st, a.drop_first(), b);
            if !slip_run(st, a).overflow {
                let first = slip_run(st, a);
                let second = slip_run(first.st, b);
                match step.emit {
                    Some(f) => {
                        assert(slip_run(st, a + b).frames =~= first.frames + second.frames);
                    },
                    None => {
                        assert(slip_run(st, a + b).frames =~= first.frames + second.frames);
                    },
                }
            }
        }
    }
}

/// Running the decoder over the escaped form of a payload appends exactly
/// that payload to the accumulator: no frame completes, nothing overflows,
/// and the decoder ends unescaped.
proof fn lemma_body_run(st: FramerState, data: Seq<u8>)
    requires
        !st.escaped,
        st.acc.len() + data.len() <= COMMAND_BUFFER_SIZE,
    ensures
        slip_run(st, slip_body(data)) == (SlipRun {
            st: FramerState { acc: st.acc + data, escaped: false },
            frames: Seq::<Seq<u8>>::empty(),
            overflow: false,
        }),
    decreases data.len(),
{
    if data.len() == 0 {
        assert(st.acc + data =~= st.acc);
        assert(st == (FramerState { acc: st.acc, escaped: false }));
        assert(slip_body(data) == Seq::<u8>::empty());
        assert(slip_run(st, slip_body(data)) == (SlipRun {
            st,
            frames: Seq::<Seq<u8>>::empty(),
            overflow: false,
        }));
    } else {
        let b = data[0];
        let esc = slip_byte_escape(b);
        let mid = FramerState { acc: st.acc.push(b), escaped: false };
        // One or two steps over the escape expansion of the first byte.
        if b == SLIP_END || b == SLIP_ESC {
            assert(esc.len() == 2);
            let step1 = slip_step(st, esc[0]);
            assert(step1.st == (FramerState { acc: st.acc, escaped: true }));
            lemma_run_unfold(st, esc);
            let rest1 = esc.drop_first();
            assert(rest1[0] == esc[1]);
            assert(st.acc.len() < COMMAND_BUFFER_SIZE);
            let step2 = slip_step(step1.st, esc[1]);
            assert(step2.st == mid);
            lemma_run_unfold(step1.st, rest1);
            assert(rest1.drop_first() =~= Seq::<u8>::empty());
            assert(slip_run(step2.st, rest1.drop_first()) == (SlipRun {
                st: step2.st,
                frames: Seq::<Seq<u8>>::empty(),
                overflow: false,
            }));
            assert(slip_run(st, esc).st == mid);
            assert(slip_run(st, esc).frames =~= Seq::<Seq<u8>>::empty());
            assert(!slip_run(st, esc).overflow);
        } else {
            assert(esc =~= seq![b]);
            assert(esc[0] == b);
            assert(st.acc.len() < COMMAND_BUFFER_SIZE);
            let step1 = slip_step(st, b);
            assert(step1.st == mid);
            lemma_run_unfold(st, esc);
            assert(esc.drop_first() =~= Seq::<u8>::empty());
            assert(slip_run(step1.st, esc.drop_first()) == (SlipRun {
                st: step1.st,
                frames: Seq::<Seq<u8>>::empty(),
                overflow: false,
            }));
            assert(slip_run(st, esc).st == mid);
            assert(slip_run(st, esc).frames =~= Seq::<Seq<u8>>::empty());
            assert(!slip_run(st, esc).overflow);
        }
        lemma_body_run(mid, data.drop_first());
        lemma_run_chunks(st, esc, slip_body(data.drop_first()));
        assert(slip_body(data) == esc + slip_body(data.drop_first()));
        assert(mid.acc + data.drop_first() =~= st.acc + data);
        assert(slip_run(st, slip_body(data)).frames =~= Seq::<Seq<u8>>::empty());
    }
}

/// Round trip: framing a payload and feeding the framed bytes back through
/// the decoder reproduces exactly that payload as the one completed frame,
/// for every non-empty payload that fits the accumulator — including
/// payloads holding literal END and ESC bytes. The decoder ends back in its
/// initial state.
pub proof fn lemma_slip_round_trip(data: Seq<u8>)
    requires
        0 < data.len() <= COMMAND_BUFFER_SIZE,
    ensures
        slip_run(FramerState::initial(), slip_encode_spec(data)) == (SlipRun {
            st: FramerState::initial(),
            frames: seq![data],
            overflow: false,
        }),
{
    let init = FramerState::initial();
    lemma_body_run(init, data);
    let mid = FramerState { acc: init.acc + data, escaped: false };
    assert(mid.acc =~= data);
    lemma_run_chunks(init, slip_body(data), seq![SLIP_END]);
    let tail = seq![SLIP_END];
    assert(tail[0] == SLIP_END);
    let step = slip_step(mid, SLIP_END);
    assert(step.emit == Some(data));
    assert(step.st == init);
    lemma_run_unfold(mid, tail);
    assert(tail.drop_first() =~= Seq::<u8>::empty());
    assert(slip_run(step.st, tail.drop_first()) == (SlipRun {
        st: step.st,
        frames: Seq::<Seq<u8>>::empty(),
        overflow: false,
    }));
    assert(slip_run(mid, tail).frames =~= seq![data]);
    assert(slip_run(init, slip_encode_spec(data)).frames =~= seq![data]);
}

/// One unfolding of `slip_run` on a non-empty input, split into the first
/// step and the run on the rest.
pub proof fn lemma_run_unfold(st: FramerState, input: Seq<u8>)
    requires
        input.len() > 0,
    ensures
        slip_step(st, input[0]).overflow ==> slip_run(st, input) == (SlipRun {
            st: slip_step(st, input[0]).st,
            frames: Seq::<Seq<u8>>::empty(),
            overflow: true,
        }),
        !slip_step(st, input[0]).overflow ==> {
            let step = slip_step(st, input[0]);
            let rest = slip_run(step.st, input.drop_first());
            slip_run(st, input).st == rest.st && slip_run(st, input).overflow == rest.overflow
                && slip_run(st, input).frames == (match step.emit {
                Some(f) => seq![f] + rest.frames,
                None => rest.frames,
            })
        },
{
    let step = slip_step(st, input[0]);
    if !step.overflow {
        let rest = slip_run(step.st, input.drop_first());
        match step.emit {
            Some(f) => {
                assert(slip_run(st, input).frames =~= seq![f] + rest.frames);
            },
            None => {
                assert(slip_run(st, input).frames =~= rest.frames);
            },
        }
    }
}

} // verus!
