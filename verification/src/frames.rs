//! The frame stream: a video is a byte buffer of back-to-back frames of
//! `FRAME_SIZE` bytes each, played from the start and looped for ever.

use vstd::prelude::*;

verus! {

/// The size of one frame of the display, in bytes.
pub const FRAME_SIZE: usize = 256;

/// One frame of the display.
#[derive(Debug)]
pub struct DisplayFrame(pub [u8; 256]);

/// Plays the frames of a video buffer in order, starting over after the last
/// whole frame.
pub struct FrameCursor {
    buffer: Vec<u8>,
    offset: usize,
}

/// Where the frame served next starts, given the buffer's length and the
/// cursor's offset: the offset itself, or the start of the buffer once no
/// whole frame is left after the offset.
pub open spec fn serving_offset(len: nat, offset: nat) -> nat {
    if offset + (FRAME_SIZE as nat) > len {
        0
    } else {
        offset
    }
}

/// The offset of a fresh cursor over a buffer of length `len` after it has
/// served `k` frames.
pub open spec fn offset_after(len: nat, k: nat) -> nat
    decreases k,
{
    if k == 0 {
        0
    } else {
        serving_offset(len, offset_after(len, (k - 1) as nat)) + (FRAME_SIZE as nat)
    }
}

/// The frame of `buffer` that starts at `start`.
pub open spec fn frame_at(buffer: Seq<u8>, start: nat) -> Seq<u8> {
    buffer.subrange(start as int, start + (FRAME_SIZE as int))
}

/// The offset after `k >= 1` frames is one frame past whole frame number
/// `(k - 1) mod q`, where `q` is the number of whole frames in the buffer.
proof fn lemma_offset_after(len: nat, k: nat)
    requires
        len >= FRAME_SIZE,
    ensures
        k == 0 ==> offset_after(len, k) == 0,
        k > 0 ==> offset_after(len, k) == (((k - 1) as nat) % (len / 256) + 1) * 256,
    decreases k,
{
    let q = len / 256;
    assert(q * 256 <= len < (q + 1) * 256) by (nonlinear_arith)
        requires q == len / 256, len >= 256;
    if k > 0 {
        let k1 = (k - 1) as nat;
        lemma_offset_after(len, k1);
        if k1 == 0 {
            assert(0nat % q == 0) by (nonlinear_arith) requires q >= 1;
        } else {
            let r = ((k1 - 1) as nat) % q;
            assert(r < q) by (nonlinear_arith) requires q >= 1, r == ((k1 - 1) as nat) % q;
            lemma_mod_step(k1, q);
            if r + 1 == q {
                assert((r + 1) * 256 + 256 > len) by (nonlinear_arith)
                    requires r + 1 == q, len < (q + 1) * 256;
            } else {
                assert((r + 1) * 256 + 256 <= len) by (nonlinear_arith)
                    requires r + 1 < q, q * 256 <= len;
            }
        }
    }
}

/// Stepping a positive number by one moves its remainder by one, wrapping
/// from `q - 1` to `0`.
proof fn lemma_mod_step(k: nat, q: nat)
    requires
        k >= 1,
        q >= 1,
    ensures
        ((k - 1) as nat) % q + 1 == q ==> k % q == 0,
        ((k - 1) as nat) % q + 1 < q ==> k % q == ((k - 1) as nat) % q + 1,
{
    let k1 = (k - 1) as nat;
    vstd::arithmetic::div_mod::lemma_fundamental_div_mod(k1 as int, q as int);
    let d = k1 / q;
    let r = k1 % q;
    assert(0 <= r < q) by (nonlinear_arith) requires q >= 1, r == k1 % q;
    if r + 1 == q {
        assert(k == (d + 1) * q) by (nonlinear_arith)
            requires k1 == q * d + r, r + 1 == q, k == k1 + 1;
        vstd::arithmetic::div_mod::lemma_mod_multiples_basic((d + 1) as int, q as int);
    } else {
        assert(k == q * d + (r + 1)) by (nonlinear_arith)
            requires k1 == q * d + r, k == k1 + 1;
        vstd::arithmetic::div_mod::lemma_mod_multiples_vanish(d as int, (r + 1) as int, q as int);
        vstd::arithmetic::div_mod::lemma_small_mod((r + 1) as nat, q);
    }
}

/// A fresh cursor serves the whole frames of its buffer in order and starts
/// over after the last one: the frame it serves on its `k`-th call (counting
/// from zero) is whole frame number `k mod q`, where `q` is the number of
/// whole frames in the buffer.
pub proof fn lemma_frames_cycle(len: nat, k: nat)
    requires
        len >= FRAME_SIZE,
    ensures
        serving_offset(len, offset_after(len, k)) == (k % (len / 256)) * 256,
{
    let q = len / 256;
    assert(q * 256 <= len < (q + 1) * 256 && q >= 1) by (nonlinear_arith)
        requires q == len / 256, len >= 256;
    lemma_offset_after(len, k);
    if k == 0 {
        assert(0nat % q == 0) by (nonlinear_arith) requires q >= 1;
    } else {
        lemma_mod_step(k, q);
        let r = ((k - 1) as nat) % q;
        assert(r < q) by (nonlinear_arith) requires q >= 1, r == ((k - 1) as nat) % q;
        if r + 1 == q {
            assert((r + 1) * 256 + 256 > len) by (nonlinear_arith)
                requires r + 1 == q, len < (q + 1) * 256;
        } else {
            assert((r + 1) * 256 + 256 <= len) by (nonlinear_arith)
                requires r + 1 < q, q * 256 <= len;
        }
    }
}

/// The frame a fresh cursor serves on its `k`-th call (counting from zero)
/// holds, byte for byte, whole frame number `k mod q` of the buffer, where
/// `q` is the number of whole frames in it.
pub proof fn lemma_kth_frame(buffer: Seq<u8>, k: nat)
    requires
        buffer.len() >= FRAME_SIZE,
    ensures
        ({
            let start = serving_offset(buffer.len(), offset_after(buffer.len(), k));
            let first = (k % (buffer.len() / 256)) * 256;
            &&& first + FRAME_SIZE <= buffer.len()
            &&& frame_at(buffer, start).len() == FRAME_SIZE
            &&& forall|j: int|
                0 <= j < FRAME_SIZE ==> #[trigger] frame_at(buffer, start)[j] == buffer[first + j]
        }),
{
    let len = buffer.len();
    let q = len / 256;
    lemma_frames_cycle(len, k);
    let r = k % q;
    assert(q * 256 <= len && q >= 1) by (nonlinear_arith)
        requires q == len / 256, len >= 256;
    assert(r < q) by (nonlinear_arith) requires q >= 1, r == k % q;
    assert(r * 256 + 256 <= len) by (nonlinear_arith) requires r < q, q * 256 <= len;
}

impl FrameCursor {
    /// The video buffer being played.
    pub closed spec fn buffer_view(&self) -> Seq<u8> {
        self.buffer@
    }

    /// The offset of the next frame, before the wrap-around check.
    pub closed spec fn offset_view(&self) -> nat {
        self.offset as nat
    }

    #[verifier::type_invariant]
    spec fn offset_in_buffer(&self) -> bool {
        self.offset <= self.buffer@.len()
    }

    /// A cursor at the start of `buffer`.
    pub fn new(buffer: Vec<u8>) -> (cursor: Self)
        ensures
            cursor.buffer_view() == buffer@,
            cursor.offset_view() == 0,
    {
        FrameCursor { buffer, offset: 0 }
    }

    /// The length of the video buffer, in bytes.
    pub fn buffer_len(&self) -> (n: usize)
        ensures
            n == self.buffer_view().len(),
    {
        self.buffer.len()
    }

    /// Serves the next frame: the one at the offset, or the first one once
    /// no whole frame is left after the offset; the offset then moves past
    /// the frame served. A buffer shorter than one frame has no frame to
    /// serve, which `requires` leaves out.
    pub fn next_frame(&mut self) -> (frame: DisplayFrame)
        requires
            old(self).buffer_view().len() >= FRAME_SIZE,
        ensures
            final(self).buffer_view() == old(self).buffer_view(),
            frame.0@ == frame_at(
                old(self).buffer_view(),
                serving_offset(old(self).buffer_view().len(), old(self).offset_view()),
            ),
            final(self).offset_view() == serving_offset(
                old(self).buffer_view().len(),
                old(self).offset_view(),
            ) + FRAME_SIZE,
            frame.0@.len() == FRAME_SIZE,
            forall|j: int|
                0 <= j < FRAME_SIZE ==> #[trigger] frame.0@[j] == old(self).buffer_view()[serving_offset(
                    old(self).buffer_view().len(),
                    old(self).offset_view(),
                ) + j],
    {
        proof {
            use_type_invariant(&*self);
        }
        if self.offset > self.buffer.len() - FRAME_SIZE {
            self.offset = 0;
        }
        let start = self.offset;
        let mut bytes = [0u8; 256];
        let mut i: usize = 0;
        while i < FRAME_SIZE
            invariant
                i <= FRAME_SIZE,
                start + FRAME_SIZE <= self.buffer@.len(),
                self.buffer@.len() <= usize::MAX,
                bytes@.len() == FRAME_SIZE,
                forall|j: int| 0 <= j < i ==> bytes@[j] == self.buffer@[start + j],
            decreases FRAME_SIZE - i,
        {
            bytes[i] = self.buffer[start + i];
            i = i + 1;
        }
        self.offset = start + FRAME_SIZE;
        assert(bytes@ =~= frame_at(self.buffer@, start as nat));
        DisplayFrame(bytes)
    }
}

} // verus!
