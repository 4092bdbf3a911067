use vstd::prelude::*;

use crate::errors::LocateError;

verus! {

/// A half-open interval `[start, end)` of block heights over which the record
/// locator scans for unspent records.
#[derive(Clone, Copy, Debug, PartialEq, Eq, Structural)]
pub struct SearchRange {
    pub start: u32,
    pub end: u32,
}

impl SearchRange {
    /// Membership of a height in the half-open interval.
    pub open spec fn contains(self, h: u32) -> bool {
        self.start <= h < self.end
    }
}

/// Chooses the block range to scan. With a block hint `h`, the narrow window
/// `[h - 1, h + 1)` around the hinted block; with none, the full history
/// `[0, latest)`, for which the latest chain height is needed: the caller
/// fetches it beforehand, and `None` there means the fetch failed, which is
/// the one source of `NoLatestHeight`.
pub fn search_range(block_hint: Option<u32>, latest_height: Option<u32>) -> (r: Result<
    SearchRange,
    LocateError,
>)
    requires
        block_hint matches Some(h) ==> 1 <= h < u32::MAX,
    ensures
        block_hint matches Some(h) ==> (r matches Ok(sr) && sr.start == h - 1 && sr.end == h
            + 1),
        block_hint is None ==> (latest_height matches Some(l) ==> (r matches Ok(sr) && sr.start
            == 0 && sr.end == l)),
        block_hint is None && latest_height is None ==> r === Err(LocateError::NoLatestHeight),
        r is Err <==> block_hint is None && latest_height is None,
        block_hint matches Some(h) ==> (r matches Ok(sr) && (forall|x: u32|
            sr.contains(x) <==> h - 1 <= x && x < h + 1)),
        block_hint is None ==> (latest_height matches Some(l) ==> (r matches Ok(sr) && (forall|
            x: u32,
        | sr.contains(x) <==> x < l))),
{
    match block_hint {
        Some(h) => Ok(SearchRange { start: h - 1, end: h + 1 }),
        None => match latest_height {
            Some(l) => Ok(SearchRange { start: 0, end: l }),
            None => Err(LocateError::NoLatestHeight),
        },
    }
}

} // verus!
