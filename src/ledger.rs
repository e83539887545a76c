//! Locating a block in the ledger's archives: which archived span holds a
//! given block height, and where in that span it sits.
use vstd::prelude::*;

verus! {

/// A run of consecutive archived blocks: `length` blocks from height `start`.
#[derive(Clone, Copy, Debug, PartialEq, Eq, Structural)]
pub struct ArchiveSpan {
    pub start: u64,
    pub length: u64,
}

/// The span holds the block at `height`.
pub open spec fn span_holds(span: ArchiveSpan, height: u64) -> bool {
    span.start <= height && height - span.start < span.length
}

/// `i` is the earliest span that holds `height`.
pub open spec fn is_first_holding(spans: Seq<ArchiveSpan>, height: u64, i: int) -> bool {
    &&& 0 <= i < spans.len()
    &&& span_holds(spans[i], height)
    &&& forall|j: int| 0 <= j < i ==> !span_holds(#[trigger] spans[j], height)
}

/// The earliest span that holds `height`, with the block's offset inside it;
/// `None` when no span holds it.
pub fn locate_archived_block(height: u64, spans: &Vec<ArchiveSpan>) -> (r: Option<(usize, u64)>)
    ensures
        r is None <==> forall|j: int| 0 <= j < spans@.len() ==> !span_holds(#[trigger] spans@[j], height),
        r matches Some((i, offset)) ==> is_first_holding(spans@, height, i as int) && offset == height
            - spans@[i as int].start,
{
    let mut i: usize = 0;
    while i < spans.len()
        invariant
            i <= spans@.len(),
            forall|j: int| 0 <= j < i ==> !span_holds(#[trigger] spans@[j], height),
        decreases spans@.len() - i,
    {
        let span = spans[i];
        if span.start <= height && height - span.start < span.length {
            return Some((i, height - span.start));
        }
        i += 1;
    }
    None
}

} // verus!
