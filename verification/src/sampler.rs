//! Strided sampling of a camera frame.
//!
//! A frame is a flat buffer of bytes. Only every `step`-th byte is looked at:
//! the offsets `0, step, 2 * step, ..` below the frame's length. They are laid
//! out once, for the length of the first frame, and used for every frame after
//! it.

use vstd::prelude::*;
use vstd::arithmetic::div_mod::lemma_fundamental_div_mod;
use vstd::arithmetic::div_mod::lemma_fundamental_div_mod_converse;
use vstd::seq_lib::lemma_fold_left_permutation;
use crate::estimate::{is_byte_mean, lemma_mean_level_is_a_byte, mean_level, Estimate};

verus! {

/// How many multiples of `step` lie below `frame_len`: `frame_len / step`,
/// rounded up.
pub open spec fn stride_count(frame_len: nat, step: nat) -> nat {
    ((frame_len + step - 1) / (step as int)) as nat
}

/// The sampled offsets of a frame of `frame_len` bytes, in increasing order.
pub open spec fn stride_offsets(frame_len: nat, step: nat) -> Seq<usize> {
    Seq::new(stride_count(frame_len, step), |i: int| (i * step) as usize)
}

/// The bytes that `frame` holds at `offsets`, in the order of the offsets.
pub open spec fn sampled_bytes(frame: Seq<u8>, offsets: Seq<usize>) -> Seq<u8> {
    Seq::new(offsets.len(), |i: int| frame[offsets[i] as int])
}

/// The sum of a run of bytes.
pub open spec fn byte_sum(bytes: Seq<u8>) -> nat
    decreases bytes.len(),
{
    if bytes.len() == 0 {
        0
    } else {
        byte_sum(bytes.drop_last()) + bytes.last() as nat
    }
}

/// `stride_count` is the one number `k` with `(k - 1) * step < frame_len <= k * step`.
pub proof fn lemma_stride_count_bounds(frame_len: nat, step: nat)
    requires
        step > 0,
    ensures
        stride_count(frame_len, step) * step >= frame_len,
        frame_len > 0 ==> (stride_count(frame_len, step) - 1) * step < frame_len,
        frame_len == 0 ==> stride_count(frame_len, step) == 0,
{
    let x = frame_len + step - 1;
    let d = step as int;
    lemma_fundamental_div_mod(x, d);
    let q = x / d;
    let r = x % d;
    assert(0 <= r < d);
    assert(d * q == q * d) by (nonlinear_arith);
    assert((q - 1) * d == q * d - d) by (nonlinear_arith);
    if frame_len == 0 {
        lemma_fundamental_div_mod_converse(x, d, 0, x);
    }
    assert(q >= 0) by (nonlinear_arith)
        requires
            x >= 0,
            d > 0,
            x == d * q + r,
            0 <= r < d,
    ;
}

/// Any `k` with `(k - 1) * step < frame_len <= k * step` is the stride count.
proof fn lemma_stride_count_unique(frame_len: nat, step: nat, k: nat)
    requires
        step > 0,
        frame_len > 0,
        k >= 1,
        (k - 1) * step < frame_len <= k * step,
    ensures
        stride_count(frame_len, step) == k,
{
    let x = frame_len + step - 1;
    let r = x - k * step;
    assert(0 <= r < step) by (nonlinear_arith)
        requires
            r == frame_len + step - 1 - k * step,
            (k - 1) * step < frame_len <= k * step,
    ;
    lemma_fundamental_div_mod_converse(x, step as int, k as int, r);
}

/// The sampled offsets of a frame are the multiples of the stride below the
/// frame's length, one for each and in increasing order: there are
/// `frame_len / step` of them, rounded up; the first is `0` whenever the frame
/// is not empty; each is smaller than the frame's length; and a number is
/// among them exactly if it is such a multiple.
pub proof fn lemma_stride_offsets_shape(frame_len: usize, step: usize)
    requires
        step > 0,
    ensures
        stride_offsets(frame_len as nat, step as nat).len() == stride_count(
            frame_len as nat,
            step as nat,
        ),
        frame_len > 0 ==> stride_offsets(frame_len as nat, step as nat).len() > 0
            && stride_offsets(frame_len as nat, step as nat)[0] == 0,
        forall|i: int|
            0 <= i < stride_offsets(frame_len as nat, step as nat).len()
                ==> #[trigger] stride_offsets(frame_len as nat, step as nat)[i] == i * step,
        forall|i: int|
            0 <= i < stride_offsets(frame_len as nat, step as nat).len()
                ==> #[trigger] stride_offsets(frame_len as nat, step as nat)[i] < frame_len,
        forall|i: int, j: int|
            0 <= i < j < stride_offsets(frame_len as nat, step as nat).len()
                ==> #[trigger] stride_offsets(frame_len as nat, step as nat)[i]
                < #[trigger] stride_offsets(frame_len as nat, step as nat)[j],
        forall|x: usize|
            stride_offsets(frame_len as nat, step as nat).contains(x) <==> (x < frame_len && x
                % step == 0),
{
    let offsets = stride_offsets(frame_len as nat, step as nat);
    let count = stride_count(frame_len as nat, step as nat);
    lemma_stride_count_bounds(frame_len as nat, step as nat);
    assert forall|i: int| 0 <= i < offsets.len() implies #[trigger] offsets[i] == i * step
        && offsets[i] < frame_len by {
        assert(0 <= i * step <= (count - 1) * step) by (nonlinear_arith)
            requires
                0 <= i <= count - 1,
                step > 0,
        ;
    }
    assert forall|i: int, j: int| 0 <= i < j < offsets.len() implies #[trigger] offsets[i]
        < #[trigger] offsets[j] by {
        assert(offsets[i] == i * step);
        assert(offsets[j] == j * step);
        assert(i * step < j * step) by (nonlinear_arith)
            requires
                0 <= i < j,
                step > 0,
        ;
    }
    assert forall|x: usize| offsets.contains(x) <==> (x < frame_len && x % step == 0) by {
        if offsets.contains(x) {
            let i = choose|i: int| 0 <= i < offsets.len() && offsets[i] == x;
            assert(offsets[i] == i * step);
            lemma_fundamental_div_mod_converse(x as int, step as int, i, 0);
        }
        if x < frame_len && x % step == 0 {
            let i = x as int / step as int;
            lemma_fundamental_div_mod(x as int, step as int);
            assert(step * i == i * step) by (nonlinear_arith);
            assert(x == i * step);
            assert(0 <= i < count) by (nonlinear_arith)
                requires
                    x == i * step,
                    0 <= x < frame_len,
                    step > 0,
                    count * step >= frame_len,
                    frame_len > 0 ==> (count - 1) * step < frame_len,
            ;
            assert(offsets[i] == x);
        }
    }
    if frame_len > 0 {
        assert(count > 0);
        assert(offsets[0] == 0 * step);
    }
}

/// The byte offsets at which frames are sampled: the multiples of a stride
/// below the length of the frames. Laid out once and never changed.
pub struct SampleIndexSet {
    offsets: Vec<usize>,
    frame_len: usize,
    step: usize,
}

impl View for SampleIndexSet {
    type V = Seq<usize>;

    /// The offsets, in increasing order.
    closed spec fn view(&self) -> Seq<usize> {
        self.offsets@
    }
}

impl SampleIndexSet {
    #[verifier::type_invariant]
    spec fn well_formed(self) -> bool {
        &&& self.step > 0
        &&& self.offsets@ == stride_offsets(self.frame_len as nat, self.step as nat)
    }

    /// The length of the frames that the offsets were laid out for.
    pub closed spec fn spec_frame_len(&self) -> usize {
        self.frame_len
    }

    /// The stride between two offsets.
    pub closed spec fn spec_step(&self) -> usize {
        self.step
    }

    /// Lays out the offsets `0, step, 2 * step, ..` below `frame_len`.
    pub fn new(frame_len: usize, step: usize) -> (samples: SampleIndexSet)
        requires
            step > 0,
        ensures
            samples@ == stride_offsets(frame_len as nat, step as nat),
            samples.frame_len() == frame_len,
            samples.step() == step,
    {
        let mut offsets: Vec<usize> = Vec::new();
        if frame_len > 0 {
            let mut next: usize = 0;
            loop
                invariant_except_break
                    step > 0,
                    next < frame_len,
                    next == offsets@.len() * step,
                    forall|i: int| 0 <= i < offsets@.len() ==> offsets@[i] == i * step,
                ensures
                    offsets@.len() >= 1,
                    (offsets@.len() - 1) * step < frame_len <= offsets@.len() * step,
                    forall|i: int| 0 <= i < offsets@.len() ==> offsets@[i] == i * step,
                decreases frame_len - next,
            {
                let ghost taken = offsets@.len();
                offsets.push(next);
                assert((taken + 1) * step == taken * step + step) by (nonlinear_arith);
                if frame_len - next <= step {
                    break ;
                }
                next = next + step;
            }
            proof {
                lemma_stride_count_unique(frame_len as nat, step as nat, offsets@.len());
            }
        } else {
            proof {
                lemma_stride_count_bounds(frame_len as nat, step as nat);
            }
        }
        proof {
            lemma_stride_offsets_shape(frame_len, step);
            assert(offsets@ =~= stride_offsets(frame_len as nat, step as nat));
        }
        SampleIndexSet { offsets, frame_len, step }
    }

    /// The length of the frames that the offsets were laid out for.
    #[verifier::when_used_as_spec(spec_frame_len)]
    pub fn frame_len(&self) -> (frame_len: usize)
        ensures
            frame_len == self.spec_frame_len(),
    {
        self.frame_len
    }

    /// The stride between two offsets.
    #[verifier::when_used_as_spec(spec_step)]
    pub fn step(&self) -> (step: usize)
        ensures
            step == self.spec_step(),
            step > 0,
    {
        proof {
            use_type_invariant(self);
        }
        self.step
    }

    /// The number of offsets.
    pub fn len(&self) -> (count: usize)
        ensures
            count == self@.len(),
            count == stride_count(self.frame_len() as nat, self.step() as nat),
            self.step() > 0,
    {
        proof {
            use_type_invariant(self);
        }
        self.offsets.len()
    }

    /// The offsets, in increasing order.
    pub fn offsets(&self) -> (offsets: &Vec<usize>)
        ensures
            offsets@ == self@,
            self@ == stride_offsets(self.frame_len() as nat, self.step() as nat),
            self.step() > 0,
    {
        proof {
            use_type_invariant(self);
        }
        &self.offsets
    }
}

/// The sum of `n` bytes is at most `255 * n`.
pub proof fn lemma_byte_sum_bound(bytes: Seq<u8>)
    ensures
        byte_sum(bytes) <= 255 * bytes.len(),
    decreases bytes.len(),
{
    if bytes.len() > 0 {
        lemma_byte_sum_bound(bytes.drop_last());
    }
}

/// The sum is additive: the sum of two runs laid end to end is the sum of
/// their sums.
pub proof fn lemma_byte_sum_concat(front: Seq<u8>, back: Seq<u8>)
    ensures
        byte_sum(front + back) == byte_sum(front) + byte_sum(back),
    decreases back.len(),
{
    if back.len() == 0 {
        assert(front + back =~= front);
    } else {
        assert((front + back).drop_last() =~= front + back.drop_last());
        lemma_byte_sum_concat(front, back.drop_last());
    }
}

/// Changing one byte changes the sum by the difference of the two bytes.
pub proof fn lemma_byte_sum_update(bytes: Seq<u8>, index: int, value: u8)
    requires
        0 <= index < bytes.len(),
    ensures
        byte_sum(bytes.update(index, value)) == byte_sum(bytes) - bytes[index] + value,
    decreases bytes.len(),
{
    let changed = bytes.update(index, value);
    if index == bytes.len() - 1 {
        assert(changed.drop_last() =~= bytes.drop_last());
    } else {
        assert(changed.drop_last() =~= bytes.drop_last().update(index, value));
        lemma_byte_sum_update(bytes.drop_last(), index, value);
    }
}

/// The sum as a left fold, the form in which reordering is known not to
/// matter.
proof fn lemma_byte_sum_is_fold(bytes: Seq<u8>)
    ensures
        byte_sum(bytes) == bytes.fold_left(0nat, |total: nat, byte: u8| total + byte as nat),
    decreases bytes.len(),
{
    if bytes.len() > 0 {
        lemma_byte_sum_is_fold(bytes.drop_last());
    }
}

/// The sum does not depend on the order of the bytes: two runs that hold the
/// same bytes, each as often as the other, have the same sum.
pub proof fn lemma_byte_sum_permutation(first: Seq<u8>, second: Seq<u8>)
    requires
        first.to_multiset() == second.to_multiset(),
    ensures
        byte_sum(first) == byte_sum(second),
{
    let plus = |total: nat, byte: u8| total + byte as nat;
    lemma_byte_sum_is_fold(first);
    lemma_byte_sum_is_fold(second);
    lemma_fold_left_permutation(first, second, plus, 0nat);
}

/// Why a frame could not be sampled.
#[derive(Clone, Copy, Debug, PartialEq, Eq, Structural)]
pub enum SampleError {
    /// The frame is not as long as the frames that the offsets were laid out
    /// for.
    FrameLengthMismatch,
    /// The frame is empty: no byte is sampled, so there is no mean.
    EmptyFrame,
}

/// The raw brightness estimate of a frame, sampled at the offsets that were
/// laid out for frames of `frame_len` bytes: the mean of the sampled bytes,
/// unless the frame has another length or is empty.
pub open spec fn average_of(frame: Seq<u8>, offsets: Seq<usize>, frame_len: usize) -> Result<
    Estimate,
    SampleError,
> {
    if frame.len() != frame_len {
        Err(SampleError::FrameLengthMismatch)
    } else if frame.len() == 0 {
        Err(SampleError::EmptyFrame)
    } else {
        Ok(Estimate::spec_of(byte_sum(sampled_bytes(frame, offsets)), offsets.len()))
    }
}

/// The estimate of a frame is a mean of bytes: it lies between 0 and 255.
pub proof fn lemma_average_is_a_byte_mean(frame: Seq<u8>, offsets: Seq<usize>)
    requires
        offsets.len() > 0,
    ensures
        is_byte_mean(byte_sum(sampled_bytes(frame, offsets)), offsets.len()),
        0 <= mean_level(byte_sum(sampled_bytes(frame, offsets)), offsets.len()) <= 255,
{
    lemma_byte_sum_bound(sampled_bytes(frame, offsets));
    lemma_mean_level_is_a_byte(byte_sum(sampled_bytes(frame, offsets)), offsets.len());
}

/// The estimate looks at the sampled bytes only, and not at their order: two
/// frames whose sampled bytes are the same, each as often as the other, have
/// the same estimate.
pub proof fn lemma_average_is_order_independent(
    first: Seq<u8>,
    second: Seq<u8>,
    offsets: Seq<usize>,
    frame_len: usize,
)
    requires
        first.len() == second.len(),
        sampled_bytes(first, offsets).to_multiset() == sampled_bytes(second, offsets).to_multiset(),
    ensures
        average_of(first, offsets, frame_len) == average_of(second, offsets, frame_len),
{
    lemma_byte_sum_permutation(sampled_bytes(first, offsets), sampled_bytes(second, offsets));
}

/// The raw brightness estimate of a frame: the mean of its sampled bytes.
///
/// Fails if the frame's length is not the one that `samples` was laid out for,
/// or if the frame is empty.
pub fn calc_average(frame: &[u8], samples: &SampleIndexSet) -> (result: Result<
    Estimate,
    SampleError,
>)
    ensures
        result == average_of(frame@, samples@, samples.frame_len()),
        result matches Ok(estimate) ==> estimate.sum() == byte_sum(
            sampled_bytes(frame@, samples@),
        ) && estimate.count() == samples@.len(),
{
    if frame.len() != samples.frame_len() {
        return Err(SampleError::FrameLengthMismatch);
    }
    let offsets = samples.offsets();
    let count = offsets.len();
    proof {
        lemma_stride_offsets_shape(samples.frame_len(), samples.step());
    }
    if count == 0 {
        return Err(SampleError::EmptyFrame);
    }
    let ghost bytes = sampled_bytes(frame@, offsets@);
    let mut sum: u128 = 0;
    let mut i: usize = 0;
    while i < count
        invariant
            i <= count,
            count == offsets@.len(),
            bytes == sampled_bytes(frame@, offsets@),
            forall|k: int| 0 <= k < offsets@.len() ==> #[trigger] offsets@[k] < frame@.len(),
            sum == byte_sum(bytes.take(i as int)),
            sum <= 255 * i,
        decreases count - i,
    {
        let offset = offsets[i];
        proof {
            assert(bytes.take(i + 1).drop_last() =~= bytes.take(i as int));
            assert(bytes.take(i + 1).last() == frame@[offset as int]);
        }
        sum = sum + frame[offset] as u128;
        i = i + 1;
    }
    proof {
        assert(bytes.take(count as int) =~= bytes);
    }
    Ok(Estimate::of_bytes(sum, count))
}

} // verus!
