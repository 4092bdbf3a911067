use vstd::prelude::*;

use crate::errors::LocateError;

verus! {

/// The two unspent records chosen for one recipient, labeled by role instead
/// of by position: `fee_record` covers the fee target, `amount_record` the
/// amount target. Each is consumed by the transfer that spends it.
#[derive(Debug)]
pub struct RecordPair<R> {
    pub fee_record: R,
    pub amount_record: R,
}

/// The target denominations to request from the ledger client, in the order
/// the rest of the locator assumes: the fee target first, then the amount
/// target. `select_records` interprets the answer under this same convention,
/// so the two must be used together.
pub fn requested_targets(fee: u64, amount: u64) -> (r: Vec<u64>)
    ensures
        r@ =~= seq![fee, amount],
{
    let mut r: Vec<u64> = Vec::new();
    r.push(fee);
    r.push(amount);
    r
}

/// Turns the ledger client's answer into the labeled pair.
///
/// The client is queried for the targets `[fee, amount]` in that order and
/// answers with records keyed by a client-side index; entry 0 holds the
/// candidate for the second requested target (the amount) and entry 1 the
/// candidate for the first (the fee). This function is the one place
/// where that positional convention is interpreted, so the rest of the crate
/// can speak of roles only. With fewer than two entries no pair can be formed
/// and the locator reports `InsufficientRecords`.
pub fn select_records<K, R>(found: Vec<(K, R)>) -> (r: Result<RecordPair<R>, LocateError>)
    ensures
        found@.len() >= 2 ==> (r matches Ok(pair) && pair.amount_record == found@[0].1
            && pair.fee_record == found@[1].1),
        found@.len() < 2 ==> r === Err(LocateError::InsufficientRecords),
        r is Ok <==> found@.len() >= 2,
        found@.len() >= 2 && found@[0].1 != found@[1].1 ==> (r matches Ok(pair)
            && pair.amount_record != pair.fee_record),
{
    let mut found = found;
    if found.len() < 2 {
        return Err(LocateError::InsufficientRecords);
    }
    let (_, amount_record) = found.remove(0);
    let (_, fee_record) = found.remove(0);
    Ok(RecordPair { fee_record, amount_record })
}

} // verus!
