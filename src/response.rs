//! Reduction of a remote update response to one timestamp.
//!
//! A feed that lists several images announces the latest of them, so that
//! a list out of order never hides an upgrade.
use vstd::prelude::*;

use crate::datetime::UpdateDatetime;

verus! {

/// The `response` field of an update feed: one timestamp or a list of them.
#[derive(Debug, Clone, PartialEq, Eq)]
pub enum UpdateResponse {
    Single(UpdateDatetime),
    List(Vec<UpdateDatetime>),
}

/// Why a response gave no timestamp.
#[derive(Debug, Clone, Copy, PartialEq, Eq, Structural)]
pub enum ResponseError {
    /// The response held an empty list.
    EmptyList,
}

/// `m` is the latest of the timestamps, and one of them.
pub open spec fn is_latest_of(m: UpdateDatetime, s: Seq<UpdateDatetime>) -> bool {
    &&& s.contains(m)
    &&& forall|i: int| 0 <= i < s.len() ==> (#[trigger] s[i]).epoch_spec() <= m.epoch_spec()
}

/// The latest of the timestamps; `None` for an empty list.
pub fn deserialize_max(items: &Vec<UpdateDatetime>) -> (r: Option<UpdateDatetime>)
    ensures
        r is None <==> items@.len() == 0,
        r matches Some(m) ==> is_latest_of(m, items@),
{
    if items.len() == 0 {
        return None;
    }
    let mut max: UpdateDatetime = items[0];
    let mut i: usize = 1;
    assert(items@.take(1)[0] == max);
    while i < items.len()
        invariant
            1 <= i <= items@.len(),
            is_latest_of(max, items@.take(i as int)),
        decreases items@.len() - i,
    {
        let value = items[i];
        let ghost prev = items@.take(i as int);
        if value.is_newer_than(&max) {
            max = value;
        }
        proof {
            let next = items@.take(i as int + 1);
            assert(next =~= prev.push(value));
            assert(next[i as int] == value);
            if max == value {
                assert(next.contains(max));
            } else {
                let k = choose|k: int| 0 <= k < prev.len() && prev[k] == max;
                assert(next[k] == max);
            }
        }
        i = i + 1;
    }
    assert(items@.take(items@.len() as int) == items@);
    Some(max)
}

/// The latest timestamp of a feed does not depend on the order in which the
/// feed lists its timestamps.
pub proof fn latest_is_order_independent(
    xs: Seq<UpdateDatetime>,
    ys: Seq<UpdateDatetime>,
    mx: UpdateDatetime,
    my: UpdateDatetime,
)
    requires
        xs.to_multiset() == ys.to_multiset(),
        is_latest_of(mx, xs),
        is_latest_of(my, ys),
    ensures
        mx == my,
{
    xs.to_multiset_ensures();
    ys.to_multiset_ensures();
    assert(xs.to_multiset().count(mx) > 0);
    assert(ys.to_multiset().count(my) > 0);
    assert(ys.contains(mx));
    assert(xs.contains(my));
    let i = choose|i: int| 0 <= i < ys.len() && ys[i] == mx;
    let j = choose|j: int| 0 <= j < xs.len() && xs[j] == my;
    assert(ys[i].epoch_spec() <= my.epoch_spec());
    assert(xs[j].epoch_spec() <= mx.epoch_spec());
    UpdateDatetime::lemma_epoch_determines(mx, my);
}

/// `r` is what the response announces: its single timestamp, the latest of
/// its list, or the error for an empty list.
pub open spec fn announces(response: UpdateResponse, r: Result<UpdateDatetime, ResponseError>) -> bool {
    match response {
        UpdateResponse::Single(d) => r == Ok::<UpdateDatetime, ResponseError>(d),
        UpdateResponse::List(items) => if items@.len() == 0 {
            r == Err::<UpdateDatetime, ResponseError>(ResponseError::EmptyList)
        } else {
            r matches Ok(m) && is_latest_of(m, items@)
        },
    }
}

/// A response announces one outcome only: reading the same response twice
/// gives the same timestamp, or the same error.
pub proof fn announcement_is_repeatable(
    response: UpdateResponse,
    first: Result<UpdateDatetime, ResponseError>,
    second: Result<UpdateDatetime, ResponseError>,
)
    requires
        announces(response, first),
        announces(response, second),
    ensures
        first == second,
{
    if let UpdateResponse::List(items) = response {
        if items@.len() > 0 {
            let mx = first->Ok_0;
            let my = second->Ok_0;
            latest_is_order_independent(items@, items@, mx, my);
        }
    }
}

/// The timestamp that a response announces: the single one, or the latest of
/// the list.
pub fn response_datetime(response: &UpdateResponse) -> (r: Result<UpdateDatetime, ResponseError>)
    ensures
        announces(*response, r),
{
    match response {
        UpdateResponse::Single(d) => Ok(*d),
        UpdateResponse::List(items) => match deserialize_max(items) {
            Some(m) => Ok(m),
            None => Err(ResponseError::EmptyList),
        },
    }
}

} // verus!
