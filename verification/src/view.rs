//! Moving the caller's buffer views.
//!
//! An input view is a `&[u8]` that a step shortens from the front as bytes
//! are consumed. An output view is a `&mut [u8]` that a step shortens from
//! the front as bytes are written. The engine reports how many bytes it left
//! of each, so a view moves to its own last bytes, that many.

use vstd::prelude::*;

verus! {

/// The last `left` bytes of `bytes`: what remains of a view of which the
/// engine left that many.
pub open spec fn remainder(bytes: Seq<u8>, left: nat) -> Seq<u8>
    recommends
        left <= bytes.len(),
{
    bytes.skip(bytes.len() - left)
}

/// The bytes of `bytes` before its last `left`: what a step took from an
/// input view, or wrote to an output view.
pub open spec fn passed(bytes: Seq<u8>, left: nat) -> Seq<u8>
    recommends
        left <= bytes.len(),
{
    bytes.take(bytes.len() - left)
}

/// Moves an input view past what was consumed, so that `left` bytes remain.
pub fn advance_input(input: &mut &[u8], left: usize)
    requires
        left <= old(input)@.len(),
    ensures
        final(input)@ == remainder(old(input)@, left as nat),
{
    let len: usize = input.len();
    *input = vstd::slice::slice_subrange(*input, len - left, len);
}

/// Moves an output view past what was written, so that `left` bytes remain
/// to be filled.
///
/// The bytes before the new view stay as they are, whatever is written
/// through the view afterwards.
pub fn advance_output<'a>(output: &mut &'a mut [u8], left: usize)
    requires
        left <= old(output)@.len(),
    ensures
        final(output)@ == remainder(old(output)@, left as nat),
        final(*old(output))@ == passed(old(output)@, left as nat) + final(*final(output))@,
{
    let len: usize = output.len();
    let mut whole: &'a mut [u8] = &mut [];
    core::mem::swap(output, &mut whole);
    let (_, rest) = whole.split_at_mut(len - left);
    *output = rest;
}

/// Narrows an output view to its first `size` bytes: those that were written.
///
/// The bytes behind the new view stay as they are.
pub fn truncate_output<'a>(output: &mut &'a mut [u8], size: usize)
    requires
        size <= old(output)@.len(),
    ensures
        final(output)@ == old(output)@.take(size as int),
        final(*old(output))@ == final(*final(output))@ + old(output)@.skip(size as int),
{
    let mut whole: &'a mut [u8] = &mut [];
    core::mem::swap(output, &mut whole);
    let (written, _) = whole.split_at_mut(size);
    *output = written;
}

/// Between them, what a step passed and what remains are the view as it
/// was, and their lengths say how many bytes the step took: the view's
/// length less `left`, never less than nothing and never more than the view.
pub proof fn lemma_accounting(bytes: Seq<u8>, left: nat)
    requires
        left <= bytes.len(),
    ensures
        passed(bytes, left) + remainder(bytes, left) == bytes,
        remainder(bytes, left).len() == left,
        passed(bytes, left).len() == bytes.len() - left,
        0 <= bytes.len() - remainder(bytes, left).len() <= bytes.len(),
{
    assert(passed(bytes, left) + remainder(bytes, left) =~= bytes);
}

/// Two steps in a row move a view as one step does that leaves what the
/// second left: what the two passed, one after the other, is what the one
/// passes, so no byte is lost between steps and none is passed twice.
pub proof fn lemma_steps_compose(bytes: Seq<u8>, first: nat, second: nat)
    requires
        second <= first <= bytes.len(),
    ensures
        remainder(remainder(bytes, first), second) == remainder(bytes, second),
        passed(bytes, first) + passed(remainder(bytes, first), second) == passed(bytes, second),
{
    assert(remainder(remainder(bytes, first), second) =~= remainder(bytes, second));
    assert(passed(bytes, first) + passed(remainder(bytes, first), second) =~= passed(
        bytes,
        second,
    ));
}

} // verus!
