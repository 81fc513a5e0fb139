//! Growable sample containers with explicit write cursors.
//!
//! A container owns a fixed number of slots (its channel size) and a cursor
//! that separates written samples from unwritten capacity. The mathematical
//! model of one channel is [`ChannelModel`]: the full slot contents as a
//! sequence together with the cursor. Every operation's contract is stated as
//! a transformation of that model.

use vstd::prelude::*;

pub mod mono;
pub mod stereo;
pub mod utils;

verus! {

/// Channel arity of a buffer.
#[derive(Debug, Clone, Copy, PartialEq, Eq)]
pub enum BufferLayout {
    Mono,
    Stereo,
}

/// Mathematical model of one channel: every slot's contents and the write
/// cursor. Slots at indices below `cursor` hold written samples; slots at or
/// beyond it are unconsumed capacity (this library keeps them zeroed).
#[verifier::ext_equal]
pub ghost struct ChannelModel {
    pub data: Seq<u32>,
    pub cursor: nat,
}

/// A sequence of `n` silent samples.
pub open spec fn zeros(n: nat) -> Seq<u32> {
    Seq::new(n, |i: int| 0u32)
}

impl ChannelModel {
    /// The cursor never passes the allocated channel size.
    pub open spec fn wf(self) -> bool {
        self.cursor <= self.data.len()
    }

    /// Number of allocated slots.
    pub open spec fn capacity(self) -> nat {
        self.data.len()
    }

    /// The written prefix.
    pub open spec fn written(self) -> Seq<u32> {
        self.data.take(self.cursor as int)
    }

    /// Slots still available for writing.
    pub open spec fn capacity_left(self) -> nat {
        (self.data.len() - self.cursor) as nat
    }

    /// How many of `unit` incoming samples would not fit.
    pub open spec fn overflow_on(self, unit: nat) -> nat {
        if unit <= self.capacity_left() {
            0
        } else {
            (unit - self.capacity_left()) as nat
        }
    }
}

/// The model after copying `s` at the cursor and advancing the cursor.
/// Meaningful when `s` fits in the capacity left.
pub open spec fn appended(m: ChannelModel, s: Seq<u32>) -> ChannelModel {
    ChannelModel {
        data: m.data.take(m.cursor as int) + s + m.data.skip(m.cursor + s.len() as int),
        cursor: m.cursor + s.len(),
    }
}

/// The model after filling every slot at or beyond the cursor with silence
/// and advancing the cursor to the end.
pub open spec fn padded(m: ChannelModel) -> ChannelModel {
    ChannelModel { data: m.written() + zeros(m.capacity_left()), cursor: m.capacity() }
}

/// The model after discarding all slack capacity beyond the cursor.
pub open spec fn trimmed(m: ChannelModel) -> ChannelModel {
    ChannelModel { data: m.written(), cursor: m.cursor }
}

/// The model after adding `n` silent slots at the end, cursor unchanged.
pub open spec fn grown(m: ChannelModel, n: nat) -> ChannelModel {
    ChannelModel { data: m.data + zeros(n), cursor: m.cursor }
}

/// How many slots `align_to(k)` adds: the distance to the next multiple of `k`.
pub open spec fn alignment_slack(m: ChannelModel, k: nat) -> nat {
    if m.capacity() % k == 0 {
        0
    } else {
        (k - m.capacity() % k) as nat
    }
}

/// The model after growing the capacity to the next multiple of `k`.
pub open spec fn aligned(m: ChannelModel, k: nat) -> ChannelModel {
    grown(m, alignment_slack(m, k))
}

/// The model after rewinding the cursor, contents untouched.
pub open spec fn rewound(m: ChannelModel) -> ChannelModel {
    ChannelModel { data: m.data, cursor: 0 }
}

/// The part of an incoming slice that fits in the capacity left of `m`.
pub open spec fn fitting_prefix(m: ChannelModel, s: Seq<u32>) -> Seq<u32> {
    s.take((s.len() - m.overflow_on(s.len())) as int)
}

/// The part of an incoming slice that does not fit in `m` and spills into the
/// overflow destination.
pub open spec fn overflow_suffix(m: ChannelModel, s: Seq<u32>) -> Seq<u32> {
    s.skip((s.len() - m.overflow_on(s.len())) as int)
}

/// What a normalized frame feeds into the left channel: channel 0.
pub open spec fn frame_left(f: Seq<Seq<u32>>) -> Seq<u32> {
    f[0]
}

/// What a normalized frame feeds into the right channel: channel 0 again for
/// a mono frame (duplication), channel 1 for a stereo frame.
pub open spec fn frame_right(f: Seq<Seq<u32>>) -> Seq<u32> {
    if f.len() == 1 {
        f[0]
    } else {
        f[1]
    }
}

/// Law: the capacity left is always exactly the capacity minus the cursor.
pub proof fn lemma_capacity_left_is_capacity_minus_cursor(m: ChannelModel)
    requires
        m.wf(),
    ensures
        m.capacity_left() == m.capacity() - m.cursor,
{
}

/// Law: an append that fits advances the cursor by exactly the input's
/// length, the written prefix grows by exactly the input, and neither the
/// capacity nor the slots beyond the written region change.
pub proof fn lemma_append_writes_exactly_the_input(m: ChannelModel, s: Seq<u32>)
    requires
        m.wf(),
        m.cursor + s.len() <= m.capacity(),
    ensures
        appended(m, s).wf(),
        appended(m, s).cursor == m.cursor + s.len(),
        appended(m, s).written() == m.written() + s,
        appended(m, s).capacity() == m.capacity(),
        appended(m, s).data.skip(m.cursor + s.len() as int) == m.data.skip(
            m.cursor + s.len() as int,
        ),
{
    assert(appended(m, s).written() =~= m.written() + s);
    assert(appended(m, s).data.skip(m.cursor + s.len() as int) =~= m.data.skip(
        m.cursor + s.len() as int,
    ));
}

/// Law: an overflow-aware append loses and duplicates nothing. The fitting
/// prefix and the overflowing suffix together account for every incoming
/// sample exactly once — concatenated they are the input — and there is
/// overflow precisely when the input exceeds the capacity left.
pub proof fn lemma_overflow_conservation(m: ChannelModel, s: Seq<u32>)
    requires
        m.wf(),
    ensures
        fitting_prefix(m, s).len() + overflow_suffix(m, s).len() == s.len(),
        fitting_prefix(m, s).len() == s.len() - m.overflow_on(s.len()),
        fitting_prefix(m, s) + overflow_suffix(m, s) == s,
        m.overflow_on(s.len()) == 0 <==> s.len() <= m.capacity_left(),
        fitting_prefix(m, s).len() <= m.capacity_left(),
{
    assert(fitting_prefix(m, s) + overflow_suffix(m, s) =~= s);
}

/// Law: padding with silence is idempotent, and every slot at or beyond the
/// pre-pad cursor is exactly the silent sample afterwards.
pub proof fn lemma_pad_silence_idempotent(m: ChannelModel)
    requires
        m.wf(),
    ensures
        padded(padded(m)) == padded(m),
        forall|i: int| m.cursor <= i < padded(m).data.len() ==> padded(m).data[i] == 0u32,
        padded(m).cursor == padded(m).capacity(),
        padded(m).data.take(m.cursor as int) == m.written(),
{
    assert(padded(padded(m)) =~= padded(m));
    assert(padded(m).data.take(m.cursor as int) =~= m.written());
}

/// Law: trimming and then aligning to `k` yields a capacity that is a
/// multiple of `k` and no smaller than the pre-trim cursor.
pub proof fn lemma_trim_then_align(m: ChannelModel, k: nat)
    requires
        m.wf(),
        k > 0,
    ensures
        aligned(trimmed(m), k).capacity() % k == 0,
        aligned(trimmed(m), k).capacity() >= m.cursor,
        aligned(trimmed(m), k).written() == m.written(),
{
    let t = trimmed(m);
    assert(t.capacity() == m.cursor);
    if t.capacity() % k == 0 {
    } else {
        assert((t.capacity() + (k - t.capacity() % k) as nat) % k == 0) by (nonlinear_arith)
            requires
                k > 0,
        ;
    }
    assert(aligned(t, k).written() =~= m.written());
}

} // verus!
