//! Taking the output that the engine holds back.
//!
//! A limit of `None` asks for all there is. The engine takes a limit as a
//! number, with 0 for no limit, so a limit of `Some(0)` cannot be handed to
//! it: it is answered here, with nothing.

use vstd::prelude::*;

verus! {

/// What to ask of the engine for a limit: `None` where nothing is to be
/// asked, else the number to hand over.
pub open spec fn request_of(size_limit: Option<usize>) -> Option<usize> {
    match size_limit {
        Some(n) => if n == 0 {
            None
        } else {
            Some(n)
        },
        None => Some(0),
    }
}

/// What a session hands out, given the bytes that the engine handed over:
/// nothing under a limit of zero, nothing where no byte came, else the bytes.
pub open spec fn drained(size_limit: Option<usize>, chunk: Seq<u8>) -> Option<Seq<u8>> {
    if size_limit == Some(0usize) || chunk.len() == 0 {
        None
    } else {
        Some(chunk)
    }
}

/// What to ask of the engine for a limit: `None` where the engine is not to
/// be called, else the limit to hand over, 0 for no limit.
pub fn take_request(size_limit: Option<usize>) -> (request: Option<usize>)
    ensures
        request == request_of(size_limit),
{
    match size_limit {
        Some(n) => if n == 0 {
            None
        } else {
            Some(n)
        },
        None => Some(0),
    }
}

/// What a session hands out, given the bytes that the engine handed over.
pub fn taken<'a>(size_limit: Option<usize>, chunk: &'a [u8]) -> (out: Option<&'a [u8]>)
    ensures
        out is Some <==> drained(size_limit, chunk@) is Some,
        out matches Some(bytes) ==> bytes == chunk,
{
    if take_request(size_limit).is_none() {
        None
    } else if chunk.len() == 0 {
        None
    } else {
        Some(chunk)
    }
}

/// A limit of zero is never handed to the engine, and every other limit
/// is: no limit as 0, a limit as itself.
pub proof fn lemma_request(size_limit: Option<usize>)
    ensures
        request_of(size_limit) is None <==> size_limit == Some(0usize),
        size_limit is None ==> request_of(size_limit) == Some(0usize),
        size_limit matches Some(n) ==> (n != 0 ==> request_of(size_limit) == Some(n)),
{
}

/// Once the engine hands over no byte, a session hands out nothing, under
/// every limit; and what a session hands out is never empty.
pub proof fn lemma_drained(size_limit: Option<usize>, chunk: Seq<u8>)
    ensures
        drained(size_limit, Seq::<u8>::empty()) is None,
        drained(size_limit, chunk) matches Some(bytes) ==> bytes == chunk && bytes.len() > 0,
{
}

} // verus!
