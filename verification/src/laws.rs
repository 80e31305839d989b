//! Laws the store operations obey across calls, each proved from the
//! operation contracts alone.
//!
//! Every operation is one atomic step on the store, so any interleaving
//! of concurrent callers is some sequence of these steps; a law proved
//! of each step therefore holds under every interleaving.

use vstd::prelude::*;

use crate::error::{ErrorKind, ServiceError};
use crate::ids::{decimal_of, lemma_decimal_injective};
use crate::records::{BidModel, ReqModel, RequestStatus};
use crate::store::{
    bid_place_rejected, bid_placed, bid_selected, has_bid_pair, has_req, req_created,
    req_delete_rejected, req_deleted, req_index, req_updated, service_completed, store_wf,
    StoreModel,
};

verus! {

/// A record just created is found by its generated id: it stands in
/// the store, `Open`, with no bid selected, its fields matching the
/// payload and its id non-empty.
pub proof fn lemma_create_then_get_by_id(
    pre: StoreModel,
    post: StoreModel,
    rec: ReqModel,
    requestor: Seq<char>,
    data: Seq<char>,
)
    requires
        store_wf(pre),
        req_created(pre, post, rec, requestor, data),
    ensures
        has_req(post.requests, rec.id),
        post.requests[req_index(post.requests, rec.id)] == rec,
        rec.status == RequestStatus::Open,
        rec.selected_bid is None,
        rec.requestor == requestor,
        rec.request_data == data,
        rec.id.len() > 0,
{
    let n = pre.requests.len() as int;
    assert(post.requests[n] == rec);
    assert(has_req(post.requests, rec.id));
    let j = req_index(post.requests, rec.id);
    assert(0 <= j < post.requests.len() && post.requests[j].id == rec.id);
    if j != n {
        let k = choose|k: nat| k < pre.next_id && pre.requests[j].id == decimal_of(k);
        lemma_decimal_injective(k, pre.next_id);
    }
    crate::ids::lemma_decimal_nonempty(pre.next_id);
}

/// Selecting a bid can happen once: after one selection the request
/// stands `BidSelected` with exactly that bid recorded, and no second
/// selection on the same request can succeed, whatever bid it names.
pub proof fn lemma_select_bid_once(
    pre: StoreModel,
    mid: StoreModel,
    rec1: ReqModel,
    request_id: Seq<char>,
    b1: Seq<char>,
)
    requires
        store_wf(pre),
        bid_selected(pre, mid, rec1, request_id, b1),
    ensures
        has_req(mid.requests, request_id),
        mid.requests[req_index(mid.requests, request_id)].status == RequestStatus::BidSelected,
        mid.requests[req_index(mid.requests, request_id)].selected_bid == Some(b1),
        forall|post: StoreModel, rec2: ReqModel, b2: Seq<char>|
            !#[trigger] bid_selected(mid, post, rec2, request_id, b2),
{
    let i = req_index(pre.requests, request_id);
    assert(mid.requests[i] == rec1);
    assert(has_req(mid.requests, request_id));
    let j = req_index(mid.requests, request_id);
    assert(0 <= j < mid.requests.len() && mid.requests[j].id == request_id);
    if j != i {
        assert(mid.requests[j].id == pre.requests[j].id);
        assert(pre.requests[i].id == request_id);
        assert(pre.requests[j].id != pre.requests[i].id);
    }
    assert forall|post: StoreModel, rec2: ReqModel, b2: Seq<char>|
        !#[trigger] bid_selected(mid, post, rec2, request_id, b2) by {
        if bid_selected(mid, post, rec2, request_id, b2) {
            assert(mid.requests[req_index(mid.requests, request_id)].status
                == RequestStatus::Open);
        }
    }
}

/// A bidder bids on a request once: after one accepted bid the pair is
/// taken, no second bid by the same bidder on the same request can
/// succeed at any amount, and a store that refuses such a bid reports
/// exactly that it already exists, changing nothing.
pub proof fn lemma_place_bid_once(
    pre: StoreModel,
    mid: StoreModel,
    bid1: BidModel,
    request_id: Seq<char>,
    bidder: Seq<char>,
    amount: u64,
)
    requires
        store_wf(pre),
        bid_placed(pre, mid, bid1, request_id, bidder, amount),
    ensures
        has_bid_pair(mid.bids, request_id, bidder),
        forall|post: StoreModel, bid2: BidModel, a2: u64|
            !#[trigger] bid_placed(mid, post, bid2, request_id, bidder, a2),
        forall|post: StoreModel, e: ServiceError|
            #[trigger] bid_place_rejected(mid, post, e, request_id, bidder) ==> e.kind
                == ErrorKind::AlreadyExists && post == mid,
{
    let n = pre.bids.len() as int;
    assert(mid.bids[n] == bid1);
    assert(has_bid_pair(mid.bids, request_id, bidder));
    assert forall|post: StoreModel, bid2: BidModel, a2: u64|
        !#[trigger] bid_placed(mid, post, bid2, request_id, bidder, a2) by {
        if bid_placed(mid, post, bid2, request_id, bidder, a2) {
            assert(!has_bid_pair(mid.bids, request_id, bidder));
        }
    }
    assert forall|post: StoreModel, e: ServiceError|
        #[trigger] bid_place_rejected(mid, post, e, request_id, bidder) implies e.kind
        == ErrorKind::AlreadyExists && post == mid by {
        assert(has_req(mid.requests, request_id));
    }
}

/// Deleting an id no row carries fails, for every id: it cannot
/// succeed, and the refusal reports a failed precondition, changing
/// nothing.
pub proof fn lemma_delete_absent_fails(pre: StoreModel, request_id: Seq<char>)
    requires
        !has_req(pre.requests, request_id),
    ensures
        forall|post: StoreModel| !#[trigger] req_deleted(pre, post, request_id),
        forall|post: StoreModel, e: ServiceError|
            #[trigger] req_delete_rejected(pre, post, e, request_id) ==> e.kind
                == ErrorKind::FailedPrecondition && post == pre,
{
}

/// Selecting a bid never regresses any request's status: the chosen
/// request moves from `Open` up to `BidSelected` and every other row
/// keeps its place in the lifecycle order.
pub proof fn lemma_select_bid_monotonic(
    pre: StoreModel,
    post: StoreModel,
    rec: ReqModel,
    request_id: Seq<char>,
    bid_id: Seq<char>,
)
    requires
        bid_selected(pre, post, rec, request_id, bid_id),
    ensures
        post.requests.len() == pre.requests.len(),
        forall|i: int|
            0 <= i < pre.requests.len() ==> (#[trigger] pre.requests[i]).status.rank()
                <= post.requests[i].status.rank(),
{
}

/// Completing the work never regresses any request's status: the
/// request moves up to the terminal `Completed` and every other row
/// keeps its place in the lifecycle order.
pub proof fn lemma_complete_monotonic(
    pre: StoreModel,
    post: StoreModel,
    request_id: Seq<char>,
    user_id: Seq<char>,
)
    requires
        service_completed(pre, post, request_id, user_id),
    ensures
        post.requests.len() == pre.requests.len(),
        forall|i: int|
            0 <= i < pre.requests.len() ==> (#[trigger] pre.requests[i]).status.rank()
                <= post.requests[i].status.rank(),
{
}

/// A patch moves no request through the lifecycle: after an update
/// every row carries the status and selection it had, so the state
/// machine is reachable only through its two atomic transitions.
pub proof fn lemma_update_keeps_lifecycle(
    pre: StoreModel,
    post: StoreModel,
    rec: ReqModel,
    request_id: Seq<char>,
    patch_data: Option<Seq<char>>,
)
    requires
        req_updated(pre, post, rec, request_id, patch_data),
    ensures
        post.requests.len() == pre.requests.len(),
        forall|i: int|
            0 <= i < pre.requests.len() ==> (#[trigger] pre.requests[i]).status
                == post.requests[i].status && pre.requests[i].selected_bid
                == post.requests[i].selected_bid,
{
}

/// In every consistent store — and every operation leaves the store
/// consistent — a request carries at most one rating by a given
/// author, whatever sequence of calls built the store.
pub proof fn lemma_rating_unique(s: StoreModel, request_id: Seq<char>, author: Seq<char>)
    requires
        store_wf(s),
    ensures
        forall|i: int, j: int|
            0 <= i < j < s.ratings.len() && (#[trigger] s.ratings[i]).request_id == request_id
                && s.ratings[i].author == author ==> !((#[trigger] s.ratings[j]).request_id
                == request_id && s.ratings[j].author == author),
{
}

} // verus!
