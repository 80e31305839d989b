//! The data store and its atomic operations.
//!
//! Every operation that must be consistent across more than one check or
//! row — creating a request, selecting a bid, completing the work,
//! placing a bid or a rating with its uniqueness check, deleting after
//! an existence check — is one call on [`Store`], checked and applied in
//! one step, so no caller can interleave between a pre-check and the
//! mutation it guards.

use vstd::prelude::*;

use crate::error::{ErrorKind, ServiceError};
use crate::error::{ALREADY_EXISTS, INVALID_PAYLOAD, ITEM_DOESNT_EXIST, MISSING_ARGUMENT};
use crate::ids::{decimal_of, decimal_string, lemma_decimal_injective, lemma_decimal_nonempty};
use crate::records::{
    Bid, BidModel, Rating, RatingModel, RatingPatch, ReqModel, RequestPatch, RequestStatus,
    ServiceRequestRecord, UserModel, UserPatch, UserProfile,
};

verus! {

/// Model of the whole store: the four tables and the row counter that
/// ids are drawn from.
pub struct StoreModel {
    pub requests: Seq<ReqModel>,
    pub bids: Seq<BidModel>,
    pub ratings: Seq<RatingModel>,
    pub users: Seq<UserModel>,
    pub next_id: nat,
}

/// Whether `id` was drawn from the row counter while it was below
/// `bound`.
pub open spec fn id_allocated(id: Seq<char>, bound: nat) -> bool {
    exists|k: nat| k < bound && id == decimal_of(k)
}

/// Whether some request row carries `id`.
pub open spec fn has_req(rs: Seq<ReqModel>, id: Seq<char>) -> bool {
    exists|i: int| 0 <= i < rs.len() && rs[i].id == id
}

/// The index of the request row carrying `id`.
pub open spec fn req_index(rs: Seq<ReqModel>, id: Seq<char>) -> int {
    choose|i: int| 0 <= i < rs.len() && rs[i].id == id
}

/// Whether some bid row carries `id`.
pub open spec fn has_bid(bs: Seq<BidModel>, id: Seq<char>) -> bool {
    exists|i: int| 0 <= i < bs.len() && bs[i].id == id
}

/// The index of the bid row carrying `id`.
pub open spec fn bid_index(bs: Seq<BidModel>, id: Seq<char>) -> int {
    choose|i: int| 0 <= i < bs.len() && bs[i].id == id
}

/// Whether `bidder` already has a bid on `request_id`.
pub open spec fn has_bid_pair(bs: Seq<BidModel>, request_id: Seq<char>, bidder: Seq<char>) -> bool {
    exists|i: int| 0 <= i < bs.len() && bs[i].request_id == request_id && bs[i].bidder == bidder
}

/// Whether some rating row carries `id`.
pub open spec fn has_rating(rs: Seq<RatingModel>, id: Seq<char>) -> bool {
    exists|i: int| 0 <= i < rs.len() && rs[i].id == id
}

/// The index of the rating row carrying `id`.
pub open spec fn rating_index(rs: Seq<RatingModel>, id: Seq<char>) -> int {
    choose|i: int| 0 <= i < rs.len() && rs[i].id == id
}

/// Whether `author` already rated `request_id`.
pub open spec fn has_rating_pair(
    rs: Seq<RatingModel>,
    request_id: Seq<char>,
    author: Seq<char>,
) -> bool {
    exists|i: int| 0 <= i < rs.len() && rs[i].request_id == request_id && rs[i].author == author
}

/// Whether some profile row carries `user_id`.
pub open spec fn has_user(us: Seq<UserModel>, user_id: Seq<char>) -> bool {
    exists|i: int| 0 <= i < us.len() && us[i].user_id == user_id
}

/// The index of the profile row carrying `user_id`.
pub open spec fn user_index(us: Seq<UserModel>, user_id: Seq<char>) -> int {
    choose|i: int| 0 <= i < us.len() && us[i].user_id == user_id
}

/// An id allocated below one counter bound is allocated below any
/// larger one.
proof fn lemma_id_allocated_mono(id: Seq<char>, b1: nat, b2: nat)
    requires
        id_allocated(id, b1),
        b1 <= b2,
    ensures
        id_allocated(id, b2),
{
    let k = choose|k: nat| k < b1 && id == decimal_of(k);
    assert(k < b2 && id == decimal_of(k));
}

/// Consistency of a whole store:
/// ids are unique within each table and drawn from the row counter;
/// a bidder holds at most one bid per request; an author holds at most
/// one rating per request; a request is `Open` exactly as long as no
/// bid is selected for it; a bid's creation stamp is a past counter
/// value.
pub open spec fn store_wf(s: StoreModel) -> bool {
    &&& (forall|i: int, j: int|
        0 <= i < j < s.requests.len() ==> #[trigger] s.requests[i].id != #[trigger] s.requests[j].id)
    &&& (forall|i: int, j: int|
        0 <= i < j < s.bids.len() ==> #[trigger] s.bids[i].id != #[trigger] s.bids[j].id)
    &&& (forall|i: int, j: int|
        0 <= i < j < s.ratings.len() ==> #[trigger] s.ratings[i].id != #[trigger] s.ratings[j].id)
    &&& (forall|i: int, j: int|
        0 <= i < j < s.users.len() ==> #[trigger] s.users[i].user_id != #[trigger] s.users[j].user_id)
    &&& (forall|i: int, j: int|
        0 <= i < j < s.bids.len() ==> !((#[trigger] s.bids[i]).request_id == (
        #[trigger] s.bids[j]).request_id && s.bids[i].bidder == s.bids[j].bidder))
    &&& (forall|i: int, j: int|
        0 <= i < j < s.ratings.len() ==> !((#[trigger] s.ratings[i]).request_id == (
        #[trigger] s.ratings[j]).request_id && s.ratings[i].author == s.ratings[j].author))
    &&& (forall|i: int|
        0 <= i < s.requests.len() ==> (((#[trigger] s.requests[i]).status == RequestStatus::Open)
            <==> s.requests[i].selected_bid is None))
    &&& (forall|i: int|
        0 <= i < s.requests.len() ==> id_allocated(#[trigger] s.requests[i].id, s.next_id))
    &&& (forall|i: int| 0 <= i < s.bids.len() ==> id_allocated(#[trigger] s.bids[i].id, s.next_id))
    &&& (forall|i: int|
        0 <= i < s.ratings.len() ==> id_allocated(#[trigger] s.ratings[i].id, s.next_id))
    &&& (forall|i: int| 0 <= i < s.bids.len() ==> (#[trigger] s.bids[i].created) < s.next_id)
}

/// Whether `user` takes part in `req`: its requestor, or the bidder of
/// the bid selected for it.
pub open spec fn is_participant(s: StoreModel, req: ReqModel, user: Seq<char>) -> bool {
    ||| req.requestor == user
    ||| match req.selected_bid {
        Some(bid) => has_bid(s.bids, bid) && s.bids[bid_index(s.bids, bid)].bidder == user,
        None => false,
    }
}

/// Whether `user` may complete `request_id` now: the request exists,
/// work is under way on a selected bid, and `user` is a participant.
pub open spec fn completion_eligible(s: StoreModel, request_id: Seq<char>, user: Seq<char>) -> bool {
    &&& has_req(s.requests, request_id)
    &&& {
        let req = s.requests[req_index(s.requests, request_id)];
        &&& (req.status == RequestStatus::BidSelected || req.status == RequestStatus::InProgress)
        &&& is_participant(s, req, user)
    }
}

/// Refusal of an operation whose payload wrapper is absent or lacks a
/// required id: the uniform invalid-payload error, issued before any
/// store operation, so nothing changes.
pub open spec fn payload_rejected(pre: StoreModel, post: StoreModel, e: ServiceError) -> bool {
    &&& e.kind == ErrorKind::InvalidArgument
    &&& e.message@ == INVALID_PAYLOAD@
    &&& e.upstream is None
    &&& post == pre
}

/// Effect of the request-creation procedure: one new `Open` record,
/// its id drawn from the counter, everything else untouched.
pub open spec fn req_created(
    pre: StoreModel,
    post: StoreModel,
    rec: ReqModel,
    requestor: Seq<char>,
    data: Seq<char>,
) -> bool {
    &&& requestor.len() > 0
    &&& rec == (ReqModel {
        id: decimal_of(pre.next_id),
        requestor: requestor,
        request_data: data,
        status: RequestStatus::Open,
        selected_bid: None,
    })
    &&& rec.id.len() > 0
    &&& post == (StoreModel { requests: pre.requests.push(rec), next_id: pre.next_id + 1, ..pre })
}

/// Refusal of the request-creation procedure: only an empty requestor
/// is refused, and nothing changes.
pub open spec fn req_create_rejected(
    pre: StoreModel,
    post: StoreModel,
    e: ServiceError,
    requestor: Seq<char>,
) -> bool {
    &&& requestor.len() == 0
    &&& e.kind == ErrorKind::InvalidArgument
    &&& e.message@ == MISSING_ARGUMENT@
    &&& post == pre
}

/// Effect of the request-deletion procedure: the row carrying the id
/// is gone, everything else untouched.
pub open spec fn req_deleted(pre: StoreModel, post: StoreModel, request_id: Seq<char>) -> bool {
    &&& has_req(pre.requests, request_id)
    &&& post == (StoreModel {
        requests: pre.requests.remove(req_index(pre.requests, request_id)),
        ..pre
    })
}

/// Refusal of the request-deletion procedure: exactly the absent row,
/// and nothing changes.
pub open spec fn req_delete_rejected(
    pre: StoreModel,
    post: StoreModel,
    e: ServiceError,
    request_id: Seq<char>,
) -> bool {
    &&& !has_req(pre.requests, request_id)
    &&& e.kind == ErrorKind::FailedPrecondition
    &&& e.message@ == ITEM_DOESNT_EXIST@
    &&& post == pre
}

/// Effect of the bid-selection procedure: the request was `Open`, the
/// bid belongs to it, and in one step the status advanced and the
/// selection was recorded.
pub open spec fn bid_selected(
    pre: StoreModel,
    post: StoreModel,
    rec: ReqModel,
    request_id: Seq<char>,
    bid_id: Seq<char>,
) -> bool {
    let i = req_index(pre.requests, request_id);
    &&& has_req(pre.requests, request_id)
    &&& pre.requests[i].status == RequestStatus::Open
    &&& has_bid(pre.bids, bid_id)
    &&& pre.bids[bid_index(pre.bids, bid_id)].request_id == request_id
    &&& rec == (ReqModel {
        status: RequestStatus::BidSelected,
        selected_bid: Some(bid_id),
        ..pre.requests[i]
    })
    &&& post == (StoreModel { requests: pre.requests.update(i, rec), ..pre })
}

/// Refusal of the bid-selection procedure: an absent request or bid is
/// a failed precondition, a request no longer `Open` already has its
/// bid selected; nothing changes.
pub open spec fn bid_select_rejected(
    pre: StoreModel,
    post: StoreModel,
    e: ServiceError,
    request_id: Seq<char>,
    bid_id: Seq<char>,
) -> bool {
    &&& post == pre
    &&& e.upstream is None
    &&& (!has_req(pre.requests, request_id) ==> e.kind == ErrorKind::FailedPrecondition
        && e.message@ == ITEM_DOESNT_EXIST@)
    &&& (has_req(pre.requests, request_id) && pre.requests[req_index(
        pre.requests,
        request_id,
    )].status != RequestStatus::Open ==> e.kind == ErrorKind::AlreadyExists && e.message@
        == ALREADY_EXISTS@)
    &&& (has_req(pre.requests, request_id) && pre.requests[req_index(
        pre.requests,
        request_id,
    )].status == RequestStatus::Open ==> !(has_bid(pre.bids, bid_id) && pre.bids[bid_index(
        pre.bids,
        bid_id,
    )].request_id == request_id) && e.kind == ErrorKind::FailedPrecondition && e.message@
        == ITEM_DOESNT_EXIST@)
}

/// Effect of the completion procedure: an eligible participant moved
/// the request to `Completed` in one step.
pub open spec fn service_completed(
    pre: StoreModel,
    post: StoreModel,
    request_id: Seq<char>,
    user_id: Seq<char>,
) -> bool {
    let i = req_index(pre.requests, request_id);
    &&& completion_eligible(pre, request_id, user_id)
    &&& post == (StoreModel {
        requests: pre.requests.update(
            i,
            ReqModel { status: RequestStatus::Completed, ..pre.requests[i] },
        ),
        ..pre
    })
}

/// Refusal of the completion procedure: no eligible transition, and
/// nothing changes.
pub open spec fn complete_rejected(
    pre: StoreModel,
    post: StoreModel,
    e: ServiceError,
    request_id: Seq<char>,
    user_id: Seq<char>,
) -> bool {
    &&& !completion_eligible(pre, request_id, user_id)
    &&& e.kind == ErrorKind::FailedPrecondition
    &&& e.message@ == ITEM_DOESNT_EXIST@
    &&& post == pre
}

/// Effect of a request update: the opaque payload was replaced whole
/// when the patch carried one; the lifecycle fields are untouched.
pub open spec fn req_updated(
    pre: StoreModel,
    post: StoreModel,
    rec: ReqModel,
    request_id: Seq<char>,
    patch_data: Option<Seq<char>>,
) -> bool {
    let i = req_index(pre.requests, request_id);
    &&& has_req(pre.requests, request_id)
    &&& rec == (ReqModel {
        request_data: match patch_data {
            Some(d) => d,
            None => pre.requests[i].request_data,
        },
        ..pre.requests[i]
    })
    &&& post == (StoreModel { requests: pre.requests.update(i, rec), ..pre })
}

/// Refusal of a request update: exactly the absent row, and nothing
/// changes.
pub open spec fn req_update_rejected(
    pre: StoreModel,
    post: StoreModel,
    e: ServiceError,
    request_id: Seq<char>,
) -> bool {
    &&& !has_req(pre.requests, request_id)
    &&& e.kind == ErrorKind::NotFound
    &&& e.message@ == ITEM_DOESNT_EXIST@
    &&& post == pre
}

/// Effect of the bid-creation procedure: the request exists, the
/// bidder held no bid on it, and one new bid was inserted.
pub open spec fn bid_placed(
    pre: StoreModel,
    post: StoreModel,
    bid: BidModel,
    request_id: Seq<char>,
    bidder: Seq<char>,
    amount: u64,
) -> bool {
    &&& has_req(pre.requests, request_id)
    &&& !has_bid_pair(pre.bids, request_id, bidder)
    &&& bid == (BidModel {
        id: decimal_of(pre.next_id),
        request_id: request_id,
        bidder: bidder,
        amount: amount,
        created: pre.next_id as u64,
    })
    &&& bid.id.len() > 0
    &&& post == (StoreModel { bids: pre.bids.push(bid), next_id: pre.next_id + 1, ..pre })
}

/// Refusal of the bid-creation procedure: an absent request is a
/// failed precondition, a second bid by the same bidder on the same
/// request already exists; nothing changes.
pub open spec fn bid_place_rejected(
    pre: StoreModel,
    post: StoreModel,
    e: ServiceError,
    request_id: Seq<char>,
    bidder: Seq<char>,
) -> bool {
    &&& post == pre
    &&& e.upstream is None
    &&& (!has_req(pre.requests, request_id) || has_bid_pair(pre.bids, request_id, bidder))
    &&& (!has_req(pre.requests, request_id) ==> e.kind == ErrorKind::FailedPrecondition
        && e.message@ == ITEM_DOESNT_EXIST@)
    &&& (has_req(pre.requests, request_id) ==> e.kind == ErrorKind::AlreadyExists && e.message@
        == ALREADY_EXISTS@)
}

/// Effect of the bid-deletion procedure: the row carrying the id is
/// gone, everything else untouched.
pub open spec fn bid_deleted(pre: StoreModel, post: StoreModel, bid_id: Seq<char>) -> bool {
    &&& has_bid(pre.bids, bid_id)
    &&& post == (StoreModel { bids: pre.bids.remove(bid_index(pre.bids, bid_id)), ..pre })
}

/// Refusal of the bid-deletion procedure: exactly the absent row, and
/// nothing changes.
pub open spec fn bid_delete_rejected(
    pre: StoreModel,
    post: StoreModel,
    e: ServiceError,
    bid_id: Seq<char>,
) -> bool {
    &&& !has_bid(pre.bids, bid_id)
    &&& e.kind == ErrorKind::FailedPrecondition
    &&& e.message@ == ITEM_DOESNT_EXIST@
    &&& post == pre
}

/// Effect of the rating-creation procedure: the request exists, the
/// author had not rated it, and one new rating was inserted.
pub open spec fn rating_placed(
    pre: StoreModel,
    post: StoreModel,
    rating: RatingModel,
    request_id: Seq<char>,
    author: Seq<char>,
    recipient: Seq<char>,
    value: u32,
    comment: Seq<char>,
) -> bool {
    &&& has_req(pre.requests, request_id)
    &&& !has_rating_pair(pre.ratings, request_id, author)
    &&& rating == (RatingModel {
        id: decimal_of(pre.next_id),
        request_id: request_id,
        author: author,
        recipient: recipient,
        value: value,
        comment: comment,
    })
    &&& rating.id.len() > 0
    &&& post == (StoreModel { ratings: pre.ratings.push(rating), next_id: pre.next_id + 1, ..pre })
}

/// Refusal of the rating-creation procedure: an absent request is a
/// failed precondition, a second rating by the same author on the
/// same request already exists; nothing changes.
pub open spec fn rating_place_rejected(
    pre: StoreModel,
    post: StoreModel,
    e: ServiceError,
    request_id: Seq<char>,
    author: Seq<char>,
) -> bool {
    &&& post == pre
    &&& e.upstream is None
    &&& (!has_req(pre.requests, request_id) || has_rating_pair(pre.ratings, request_id, author))
    &&& (!has_req(pre.requests, request_id) ==> e.kind == ErrorKind::FailedPrecondition
        && e.message@ == ITEM_DOESNT_EXIST@)
    &&& (has_req(pre.requests, request_id) ==> e.kind == ErrorKind::AlreadyExists && e.message@
        == ALREADY_EXISTS@)
}

/// Effect of the rating-deletion procedure: the row carrying the id is
/// gone, everything else untouched.
pub open spec fn rating_deleted(pre: StoreModel, post: StoreModel, rating_id: Seq<char>) -> bool {
    &&& has_rating(pre.ratings, rating_id)
    &&& post == (StoreModel {
        ratings: pre.ratings.remove(rating_index(pre.ratings, rating_id)),
        ..pre
    })
}

/// Refusal of the rating-deletion procedure: exactly the absent row,
/// and nothing changes.
pub open spec fn rating_delete_rejected(
    pre: StoreModel,
    post: StoreModel,
    e: ServiceError,
    rating_id: Seq<char>,
) -> bool {
    &&& !has_rating(pre.ratings, rating_id)
    &&& e.kind == ErrorKind::FailedPrecondition
    &&& e.message@ == ITEM_DOESNT_EXIST@
    &&& post == pre
}

/// Effect of a rating update: the fields the patch carries are
/// replaced.
pub open spec fn rating_updated(
    pre: StoreModel,
    post: StoreModel,
    rating: RatingModel,
    rating_id: Seq<char>,
    patch_value: Option<u32>,
    patch_comment: Option<Seq<char>>,
) -> bool {
    let i = rating_index(pre.ratings, rating_id);
    &&& has_rating(pre.ratings, rating_id)
    &&& rating == (RatingModel {
        value: match patch_value {
            Some(v) => v,
            None => pre.ratings[i].value,
        },
        comment: match patch_comment {
            Some(c) => c,
            None => pre.ratings[i].comment,
        },
        ..pre.ratings[i]
    })
    &&& post == (StoreModel { ratings: pre.ratings.update(i, rating), ..pre })
}

/// Refusal of a rating update: exactly the absent row, and nothing
/// changes.
pub open spec fn rating_update_rejected(
    pre: StoreModel,
    post: StoreModel,
    e: ServiceError,
    rating_id: Seq<char>,
) -> bool {
    &&& !has_rating(pre.ratings, rating_id)
    &&& e.kind == ErrorKind::NotFound
    &&& e.message@ == ITEM_DOESNT_EXIST@
    &&& post == pre
}

/// Effect of a profile update: the profile document was replaced
/// whole when the patch carried one.
pub open spec fn user_updated(
    pre: StoreModel,
    post: StoreModel,
    user: UserModel,
    user_id: Seq<char>,
    patch_data: Option<Seq<char>>,
) -> bool {
    let i = user_index(pre.users, user_id);
    &&& has_user(pre.users, user_id)
    &&& user == (UserModel {
        profile_data: match patch_data {
            Some(d) => d,
            None => pre.users[i].profile_data,
        },
        ..pre.users[i]
    })
    &&& post == (StoreModel { users: pre.users.update(i, user), ..pre })
}

/// Refusal of a profile update: exactly the absent row, and nothing
/// changes.
pub open spec fn user_update_rejected(
    pre: StoreModel,
    post: StoreModel,
    e: ServiceError,
    user_id: Seq<char>,
) -> bool {
    &&& !has_user(pre.users, user_id)
    &&& e.kind == ErrorKind::NotFound
    &&& e.message@ == ITEM_DOESNT_EXIST@
    &&& post == pre
}

/// The column a request read filters on.
#[derive(Clone, Copy, PartialEq, Eq, Structural, Debug)]
pub enum RequestField {
    Id,
    Requestor,
}

/// The value of a request's column.
pub open spec fn req_field(m: ReqModel, f: RequestField) -> Seq<char> {
    match f {
        RequestField::Id => m.id,
        RequestField::Requestor => m.requestor,
    }
}

/// The predicate a request read filters with.
pub open spec fn req_matches(f: RequestField, filt: Seq<char>) -> spec_fn(ReqModel) -> bool {
    |m: ReqModel| req_field(m, f) == filt
}

/// The column a bid read filters on.
#[derive(Clone, Copy, PartialEq, Eq, Structural, Debug)]
pub enum BidField {
    Id,
    RequestId,
    Bidder,
}

/// The value of a bid's column.
pub open spec fn bid_field(m: BidModel, f: BidField) -> Seq<char> {
    match f {
        BidField::Id => m.id,
        BidField::RequestId => m.request_id,
        BidField::Bidder => m.bidder,
    }
}

/// The predicate a bid read filters with.
pub open spec fn bid_matches(f: BidField, filt: Seq<char>) -> spec_fn(BidModel) -> bool {
    |m: BidModel| bid_field(m, f) == filt
}

/// The column a rating read filters on.
#[derive(Clone, Copy, PartialEq, Eq, Structural, Debug)]
pub enum RatingField {
    Id,
    RequestId,
    Author,
    Recipient,
}

/// The value of a rating's column.
pub open spec fn rating_field(m: RatingModel, f: RatingField) -> Seq<char> {
    match f {
        RatingField::Id => m.id,
        RatingField::RequestId => m.request_id,
        RatingField::Author => m.author,
        RatingField::Recipient => m.recipient,
    }
}

/// The predicate a rating read filters with.
pub open spec fn rating_matches(f: RatingField, filt: Seq<char>) -> spec_fn(RatingModel) -> bool {
    |m: RatingModel| rating_field(m, f) == filt
}

/// The store: four tables and the row counter.
pub struct Store {
    requests: Vec<ServiceRequestRecord>,
    bids: Vec<Bid>,
    ratings: Vec<Rating>,
    users: Vec<UserProfile>,
    next_id: u64,
}

impl View for Store {
    type V = StoreModel;

    closed spec fn view(&self) -> StoreModel {
        StoreModel {
            requests: self.requests.deep_view(),
            bids: self.bids.deep_view(),
            ratings: self.ratings.deep_view(),
            users: self.users.deep_view(),
            next_id: self.next_id as nat,
        }
    }
}

impl Store {
    /// Consistency of this store.
    pub open spec fn wf(&self) -> bool {
        store_wf(self@)
    }

    /// Room for at least one more generated id.
    pub open spec fn can_allocate(&self) -> bool {
        self@.next_id < u64::MAX as nat
    }

    /// An empty store.
    pub fn new() -> (s: Store)
        ensures
            s.wf(),
            s@.requests == Seq::<ReqModel>::empty(),
            s@.bids == Seq::<BidModel>::empty(),
            s@.ratings == Seq::<RatingModel>::empty(),
            s@.users == Seq::<UserModel>::empty(),
            s@.next_id == 0,
    {
        let s = Store {
            requests: Vec::new(),
            bids: Vec::new(),
            ratings: Vec::new(),
            users: Vec::new(),
            next_id: 0,
        };
        proof {
            assert(s.requests.deep_view() =~= Seq::<ReqModel>::empty());
            assert(s.bids.deep_view() =~= Seq::<BidModel>::empty());
            assert(s.ratings.deep_view() =~= Seq::<RatingModel>::empty());
            assert(s.users.deep_view() =~= Seq::<UserModel>::empty());
        }
        s
    }

    /// Index of the request row carrying `id`, if one does.
    fn find_request(&self, id: &String) -> (r: Option<usize>)
        ensures
            match r {
                Some(i) => i < self@.requests.len() && self@.requests[i as int].id == id@,
                None => !has_req(self@.requests, id@),
            },
    {
        let n = self.requests.len();
        let mut j: usize = 0;
        while j < n
            invariant
                n == self@.requests.len(),
                j <= n,
                forall|k: int| 0 <= k < j ==> (#[trigger] self@.requests[k].id) != id@,
            decreases n - j,
        {
            if self.requests[j].id == *id {
                return Some(j);
            }
            j += 1;
        }
        None
    }

    /// Index of the bid row carrying `id`, if one does.
    fn find_bid(&self, id: &String) -> (r: Option<usize>)
        ensures
            match r {
                Some(i) => i < self@.bids.len() && self@.bids[i as int].id == id@,
                None => !has_bid(self@.bids, id@),
            },
    {
        let n = self.bids.len();
        let mut j: usize = 0;
        while j < n
            invariant
                n == self@.bids.len(),
                j <= n,
                forall|k: int| 0 <= k < j ==> (#[trigger] self@.bids[k].id) != id@,
            decreases n - j,
        {
            if self.bids[j].id == *id {
                return Some(j);
            }
            j += 1;
        }
        None
    }

    /// Index of the bid `bidder` holds on `request_id`, if any.
    fn find_bid_pair(&self, request_id: &String, bidder: &String) -> (r: Option<usize>)
        ensures
            match r {
                Some(i) => i < self@.bids.len() && self@.bids[i as int].request_id == request_id@
                    && self@.bids[i as int].bidder == bidder@,
                None => !has_bid_pair(self@.bids, request_id@, bidder@),
            },
    {
        let n = self.bids.len();
        let mut j: usize = 0;
        while j < n
            invariant
                n == self@.bids.len(),
                j <= n,
                forall|k: int|
                    0 <= k < j ==> !((#[trigger] self@.bids[k]).request_id == request_id@
                        && self@.bids[k].bidder == bidder@),
            decreases n - j,
        {
            if self.bids[j].request_id == *request_id && self.bids[j].bidder == *bidder {
                return Some(j);
            }
            j += 1;
        }
        None
    }

    /// Index of the rating row carrying `id`, if one does.
    fn find_rating(&self, id: &String) -> (r: Option<usize>)
        ensures
            match r {
                Some(i) => i < self@.ratings.len() && self@.ratings[i as int].id == id@,
                None => !has_rating(self@.ratings, id@),
            },
    {
        let n = self.ratings.len();
        let mut j: usize = 0;
        while j < n
            invariant
                n == self@.ratings.len(),
                j <= n,
                forall|k: int| 0 <= k < j ==> (#[trigger] self@.ratings[k].id) != id@,
            decreases n - j,
        {
            if self.ratings[j].id == *id {
                return Some(j);
            }
            j += 1;
        }
        None
    }

    /// Index of the rating `author` left on `request_id`, if any.
    fn find_rating_pair(&self, request_id: &String, author: &String) -> (r: Option<usize>)
        ensures
            match r {
                Some(i) => i < self@.ratings.len() && self@.ratings[i as int].request_id
                    == request_id@ && self@.ratings[i as int].author == author@,
                None => !has_rating_pair(self@.ratings, request_id@, author@),
            },
    {
        let n = self.ratings.len();
        let mut j: usize = 0;
        while j < n
            invariant
                n == self@.ratings.len(),
                j <= n,
                forall|k: int|
                    0 <= k < j ==> !((#[trigger] self@.ratings[k]).request_id == request_id@
                        && self@.ratings[k].author == author@),
            decreases n - j,
        {
            if self.ratings[j].request_id == *request_id && self.ratings[j].author == *author {
                return Some(j);
            }
            j += 1;
        }
        None
    }

    /// Index of the profile row carrying `user_id`, if one does.
    fn find_user(&self, user_id: &String) -> (r: Option<usize>)
        ensures
            match r {
                Some(i) => i < self@.users.len() && self@.users[i as int].user_id == user_id@,
                None => !has_user(self@.users, user_id@),
            },
    {
        let n = self.users.len();
        let mut j: usize = 0;
        while j < n
            invariant
                n == self@.users.len(),
                j <= n,
                forall|k: int| 0 <= k < j ==> (#[trigger] self@.users[k].user_id) != user_id@,
            decreases n - j,
        {
            if self.users[j].user_id == *user_id {
                return Some(j);
            }
            j += 1;
        }
        None
    }

    /// Draws a fresh id off the row counter.
    ///
    /// The id differs from every id `id_allocated` below the old counter
    /// value, which is how each creation keeps the uniqueness clauses of
    /// [`store_wf`].
    fn allocate_id(&mut self) -> (r: String)
        requires
            old(self).can_allocate(),
        ensures
            r@ == decimal_of(old(self)@.next_id),
            r@.len() > 0,
            final(self)@ == (StoreModel { next_id: old(self)@.next_id + 1, ..old(self)@ }),
            forall|id: Seq<char>| id_allocated(id, old(self)@.next_id) ==> id != r@,
            id_allocated(r@, final(self)@.next_id),
    {
        let id = decimal_string(self.next_id);
        self.next_id = self.next_id + 1;
        proof {
            lemma_decimal_nonempty(old(self)@.next_id);
            let fresh = decimal_of(old(self)@.next_id);
            assert forall|id_: Seq<char>|
                id_allocated(id_, old(self)@.next_id) implies id_ != fresh by {
                let k = choose|k: nat| k < old(self)@.next_id && id_ == decimal_of(k);
                if id_ == fresh {
                    lemma_decimal_injective(k, old(self)@.next_id);
                }
            }
            assert(id_allocated(fresh, final(self)@.next_id));
        }
        id
    }

    /// The atomic creation procedure for service requests: persists a
    /// new `Open` record and returns it, generated id included. An
    /// empty requestor is rejected before anything is written.
    pub fn create_request(&mut self, requestor: &String, request_data: &String) -> (r: Result<
        ServiceRequestRecord,
        ServiceError,
    >)
        requires
            old(self).wf(),
            old(self).can_allocate(),
        ensures
            final(self).wf(),
            match r {
                Ok(rec) => req_created(
                    old(self)@,
                    final(self)@,
                    rec@,
                    requestor@,
                    request_data@,
                ),
                Err(e) => req_create_rejected(old(self)@, final(self)@, e, requestor@),
            },
    {
        if requestor.as_str().is_empty() {
            return Err(ServiceError::new(ErrorKind::InvalidArgument, MISSING_ARGUMENT));
        }
        let id = self.allocate_id();
        let rec = ServiceRequestRecord {
            id: id.clone(),
            requestor: requestor.clone(),
            request_data: request_data.clone(),
            status: RequestStatus::Open,
            selected_bid: None,
        };
        self.requests.push(rec);
        let ghost pre = old(self)@;
        let ghost m = ReqModel {
            id: decimal_of(pre.next_id),
            requestor: requestor@,
            request_data: request_data@,
            status: RequestStatus::Open,
            selected_bid: None,
        };
        proof {
            assert(self.requests.deep_view() =~= pre.requests.push(m));
            let post = self@;
            assert forall|i: int| 0 <= i < post.requests.len() implies id_allocated(
                (#[trigger] post.requests[i].id),
                post.next_id,
            ) by {
                if i < pre.requests.len() {
                    lemma_id_allocated_mono(pre.requests[i].id, pre.next_id, post.next_id);
                }
            }
            assert forall|i: int| 0 <= i < post.bids.len() implies id_allocated(
                (#[trigger] post.bids[i].id),
                post.next_id,
            ) by {
                lemma_id_allocated_mono(pre.bids[i].id, pre.next_id, post.next_id);
            }
            assert forall|i: int| 0 <= i < post.ratings.len() implies id_allocated(
                (#[trigger] post.ratings[i].id),
                post.next_id,
            ) by {
                lemma_id_allocated_mono(pre.ratings[i].id, pre.next_id, post.next_id);
            }
        }
        Ok(
            ServiceRequestRecord {
                id,
                requestor: requestor.clone(),
                request_data: request_data.clone(),
                status: RequestStatus::Open,
                selected_bid: None,
            },
        )
    }

    /// The atomic deletion procedure for service requests: checks that
    /// the row exists and removes it in the same step, so no concurrent
    /// caller can pass the check after the row is gone.
    pub fn delete_request(&mut self, request_id: &String) -> (r: Result<(), ServiceError>)
        requires
            old(self).wf(),
        ensures
            final(self).wf(),
            match r {
                Ok(u) => req_deleted(old(self)@, final(self)@, request_id@),
                Err(e) => req_delete_rejected(old(self)@, final(self)@, e, request_id@),
            },
    {
        match self.find_request(request_id) {
            None => Err(ServiceError::new(ErrorKind::FailedPrecondition, ITEM_DOESNT_EXIST)),
            Some(i) => {
                proof {
                    lemma_found_is_req_index(self@.requests, request_id@, i as int);
                }
                let ghost pre = self@;
                self.requests.remove(i);
                proof {
                    pre.requests.remove_ensures(i as int);
                    assert(self.requests.deep_view() =~= pre.requests.remove(i as int));
                    assert(self@.bids == pre.bids);
                    assert(self@.ratings == pre.ratings);
                    assert(self@.users == pre.users);
                    assert(store_wf(self@));
                }
                Ok(())
            },
        }
    }

    /// The atomic bid-selection procedure: in one step it checks that
    /// the request exists and is still `Open`, that the bid exists and
    /// belongs to the request, then records the selection and advances
    /// the status. A request whose bid is already selected is refused,
    /// so a selection can never be overwritten.
    pub fn select_bid(&mut self, request_id: &String, bid_id: &String) -> (r: Result<
        ServiceRequestRecord,
        ServiceError,
    >)
        requires
            old(self).wf(),
        ensures
            final(self).wf(),
            match r {
                Ok(rec) => bid_selected(old(self)@, final(self)@, rec@, request_id@, bid_id@),
                Err(e) => bid_select_rejected(old(self)@, final(self)@, e, request_id@, bid_id@),
            },
    {
        let i = match self.find_request(request_id) {
            None => {
                return Err(ServiceError::new(ErrorKind::FailedPrecondition, ITEM_DOESNT_EXIST));
            },
            Some(i) => i,
        };
        proof {
            lemma_found_is_req_index(self@.requests, request_id@, i as int);
        }
        if !(self.requests[i].status == RequestStatus::Open) {
            return Err(ServiceError::new(ErrorKind::AlreadyExists, ALREADY_EXISTS));
        }
        let b = match self.find_bid(bid_id) {
            None => {
                return Err(ServiceError::new(ErrorKind::FailedPrecondition, ITEM_DOESNT_EXIST));
            },
            Some(b) => b,
        };
        proof {
            lemma_found_is_bid_index(self@.bids, bid_id@, b as int);
        }
        if !(self.bids[b].request_id == *request_id) {
            return Err(ServiceError::new(ErrorKind::FailedPrecondition, ITEM_DOESNT_EXIST));
        }
        let ghost pre = self@;
        let rec = ServiceRequestRecord {
            id: self.requests[i].id.clone(),
            requestor: self.requests[i].requestor.clone(),
            request_data: self.requests[i].request_data.clone(),
            status: RequestStatus::BidSelected,
            selected_bid: Some(bid_id.clone()),
        };
        self.requests[i].status = RequestStatus::BidSelected;
        self.requests[i].selected_bid = Some(bid_id.clone());
        proof {
            assert(self.requests.deep_view() =~= pre.requests.update(i as int, rec@));
            assert(self@.bids == pre.bids);
            assert(self@.ratings == pre.ratings);
            assert(self@.users == pre.users);
            assert(store_wf(self@));
        }
        Ok(rec)
    }

    /// The atomic completion procedure: moves the request to
    /// `Completed` when its bid is selected or work is in progress and
    /// the caller is a participant; in every other case nothing was
    /// eligible, which is surfaced as a failure, never as success.
    pub fn complete_service(&mut self, request_id: &String, user_id: &String) -> (r: Result<
        (),
        ServiceError,
    >)
        requires
            old(self).wf(),
        ensures
            final(self).wf(),
            match r {
                Ok(u) => service_completed(old(self)@, final(self)@, request_id@, user_id@),
                Err(e) => complete_rejected(old(self)@, final(self)@, e, request_id@, user_id@),
            },
    {
        let i = match self.find_request(request_id) {
            None => {
                return Err(ServiceError::new(ErrorKind::FailedPrecondition, ITEM_DOESNT_EXIST));
            },
            Some(i) => i,
        };
        proof {
            lemma_found_is_req_index(self@.requests, request_id@, i as int);
        }
        let eligible = match self.requests[i].status {
            RequestStatus::BidSelected => true,
            RequestStatus::InProgress => true,
            _ => false,
        };
        let participant = if self.requests[i].requestor == *user_id {
            true
        } else {
            match &self.requests[i].selected_bid {
                Some(bid) => {
                    match self.find_bid(bid) {
                        Some(b) => {
                            proof {
                                lemma_found_is_bid_index(self@.bids, self@.requests[
                                    i as int].selected_bid->Some_0, b as int);
                            }
                            self.bids[b].bidder == *user_id
                        },
                        None => false,
                    }
                },
                None => false,
            }
        };
        if !eligible || !participant {
            return Err(ServiceError::new(ErrorKind::FailedPrecondition, ITEM_DOESNT_EXIST));
        }
        let ghost pre = self@;
        self.requests[i].status = RequestStatus::Completed;
        proof {
            let m = ReqModel { status: RequestStatus::Completed, ..pre.requests[i as int] };
            assert(self.requests.deep_view() =~= pre.requests.update(i as int, m));
            assert(self@.bids == pre.bids);
            assert(self@.ratings == pre.ratings);
            assert(self@.users == pre.users);
            assert(store_wf(self@));
        }
        Ok(())
    }

    /// Replaces the request's opaque payload when the patch carries
    /// one. The structured document is submitted in full, so nothing
    /// inside it can be dropped silently; the lifecycle fields are not
    /// reachable from here.
    pub fn update_request(&mut self, request_id: &String, patch: &RequestPatch) -> (r: Result<
        ServiceRequestRecord,
        ServiceError,
    >)
        requires
            old(self).wf(),
        ensures
            final(self).wf(),
            match r {
                Ok(rec) => req_updated(
                    old(self)@,
                    final(self)@,
                    rec@,
                    request_id@,
                    patch.request_data.deep_view(),
                ),
                Err(e) => req_update_rejected(old(self)@, final(self)@, e, request_id@),
            },
    {
        let i = match self.find_request(request_id) {
            None => {
                return Err(ServiceError::new(ErrorKind::NotFound, ITEM_DOESNT_EXIST));
            },
            Some(i) => i,
        };
        proof {
            lemma_found_is_req_index(self@.requests, request_id@, i as int);
        }
        let ghost pre = self@;
        let data = match &patch.request_data {
            Some(d) => d.clone(),
            None => self.requests[i].request_data.clone(),
        };
        let rec = ServiceRequestRecord {
            id: self.requests[i].id.clone(),
            requestor: self.requests[i].requestor.clone(),
            request_data: data.clone(),
            status: self.requests[i].status,
            selected_bid: match &self.requests[i].selected_bid {
                Some(b) => Some(b.clone()),
                None => None,
            },
        };
        self.requests[i].request_data = data;
        proof {
            assert(self.requests.deep_view() =~= pre.requests.update(i as int, rec@));
            assert(self@.bids == pre.bids);
            assert(self@.ratings == pre.ratings);
            assert(self@.users == pre.users);
            assert(store_wf(self@));
        }
        Ok(rec)
    }

    /// The atomic bid-creation procedure: in one step it checks that
    /// the request exists and that the bidder holds no bid on it yet,
    /// then inserts the bid, so two concurrent callers cannot both
    /// pass the duplicate check.
    pub fn place_bid(&mut self, request_id: &String, bidder: &String, amount: u64) -> (r: Result<
        Bid,
        ServiceError,
    >)
        requires
            old(self).wf(),
            old(self).can_allocate(),
        ensures
            final(self).wf(),
            match r {
                Ok(bid) => bid_placed(
                    old(self)@,
                    final(self)@,
                    bid@,
                    request_id@,
                    bidder@,
                    amount,
                ),
                Err(e) => bid_place_rejected(old(self)@, final(self)@, e, request_id@, bidder@),
            },
    {
        if self.find_request(request_id).is_none() {
            return Err(ServiceError::new(ErrorKind::FailedPrecondition, ITEM_DOESNT_EXIST));
        }
        if self.find_bid_pair(request_id, bidder).is_some() {
            return Err(ServiceError::new(ErrorKind::AlreadyExists, ALREADY_EXISTS));
        }
        let created = self.next_id;
        let id = self.allocate_id();
        let bid = Bid {
            id: id.clone(),
            request_id: request_id.clone(),
            bidder: bidder.clone(),
            amount,
            created,
        };
        self.bids.push(bid);
        let ghost pre = old(self)@;
        let ghost m = BidModel {
            id: decimal_of(pre.next_id),
            request_id: request_id@,
            bidder: bidder@,
            amount: amount,
            created: pre.next_id as u64,
        };
        proof {
            assert(self.bids.deep_view() =~= pre.bids.push(m));
            let post = self@;
            assert forall|i: int| 0 <= i < post.requests.len() implies id_allocated(
                (#[trigger] post.requests[i].id),
                post.next_id,
            ) by {
                lemma_id_allocated_mono(pre.requests[i].id, pre.next_id, post.next_id);
            }
            assert forall|i: int| 0 <= i < post.bids.len() implies id_allocated(
                (#[trigger] post.bids[i].id),
                post.next_id,
            ) by {
                if i < pre.bids.len() {
                    lemma_id_allocated_mono(pre.bids[i].id, pre.next_id, post.next_id);
                }
            }
            assert forall|i: int| 0 <= i < post.ratings.len() implies id_allocated(
                (#[trigger] post.ratings[i].id),
                post.next_id,
            ) by {
                lemma_id_allocated_mono(pre.ratings[i].id, pre.next_id, post.next_id);
            }
        }
        Ok(Bid { id, request_id: request_id.clone(), bidder: bidder.clone(), amount, created })
    }

    /// The atomic bid-deletion procedure: existence check and removal
    /// in one step.
    pub fn delete_bid(&mut self, bid_id: &String) -> (r: Result<(), ServiceError>)
        requires
            old(self).wf(),
        ensures
            final(self).wf(),
            match r {
                Ok(u) => bid_deleted(old(self)@, final(self)@, bid_id@),
                Err(e) => bid_delete_rejected(old(self)@, final(self)@, e, bid_id@),
            },
    {
        match self.find_bid(bid_id) {
            None => Err(ServiceError::new(ErrorKind::FailedPrecondition, ITEM_DOESNT_EXIST)),
            Some(i) => {
                proof {
                    lemma_found_is_bid_index(self@.bids, bid_id@, i as int);
                }
                let ghost pre = self@;
                self.bids.remove(i);
                proof {
                    pre.bids.remove_ensures(i as int);
                    assert(self.bids.deep_view() =~= pre.bids.remove(i as int));
                    assert(self@.requests == pre.requests);
                    assert(self@.ratings == pre.ratings);
                    assert(self@.users == pre.users);
                    assert(store_wf(self@));
                }
                Ok(())
            },
        }
    }

    /// The atomic rating-creation procedure: the at-most-one-rating-per
    /// (request, author) invariant is checked at the point of insertion
    /// in the same step, never by a separate pre-check. A request takes
    /// one rating from each author; different authors may each rate it.
    pub fn place_rating(
        &mut self,
        request_id: &String,
        author: &String,
        recipient: &String,
        value: u32,
        comment: &String,
    ) -> (r: Result<Rating, ServiceError>)
        requires
            old(self).wf(),
            old(self).can_allocate(),
        ensures
            final(self).wf(),
            match r {
                Ok(rating) => rating_placed(
                    old(self)@,
                    final(self)@,
                    rating@,
                    request_id@,
                    author@,
                    recipient@,
                    value,
                    comment@,
                ),
                Err(e) => rating_place_rejected(old(self)@, final(self)@, e, request_id@, author@),
            },
    {
        if self.find_request(request_id).is_none() {
            return Err(ServiceError::new(ErrorKind::FailedPrecondition, ITEM_DOESNT_EXIST));
        }
        if self.find_rating_pair(request_id, author).is_some() {
            return Err(ServiceError::new(ErrorKind::AlreadyExists, ALREADY_EXISTS));
        }
        let id = self.allocate_id();
        let rating = Rating {
            id: id.clone(),
            request_id: request_id.clone(),
            author: author.clone(),
            recipient: recipient.clone(),
            value,
            comment: comment.clone(),
        };
        self.ratings.push(rating);
        let ghost pre = old(self)@;
        let ghost m = RatingModel {
            id: decimal_of(pre.next_id),
            request_id: request_id@,
            author: author@,
            recipient: recipient@,
            value: value,
            comment: comment@,
        };
        proof {
            assert(self.ratings.deep_view() =~= pre.ratings.push(m));
            let post = self@;
            assert forall|i: int| 0 <= i < post.requests.len() implies id_allocated(
                (#[trigger] post.requests[i].id),
                post.next_id,
            ) by {
                lemma_id_allocated_mono(pre.requests[i].id, pre.next_id, post.next_id);
            }
            assert forall|i: int| 0 <= i < post.bids.len() implies id_allocated(
                (#[trigger] post.bids[i].id),
                post.next_id,
            ) by {
                lemma_id_allocated_mono(pre.bids[i].id, pre.next_id, post.next_id);
            }
            assert forall|i: int| 0 <= i < post.ratings.len() implies id_allocated(
                (#[trigger] post.ratings[i].id),
                post.next_id,
            ) by {
                if i < pre.ratings.len() {
                    lemma_id_allocated_mono(pre.ratings[i].id, pre.next_id, post.next_id);
                }
            }
        }
        Ok(
            Rating {
                id,
                request_id: request_id.clone(),
                author: author.clone(),
                recipient: recipient.clone(),
                value,
                comment: comment.clone(),
            },
        )
    }

    /// The atomic rating-deletion procedure: existence check and
    /// removal in one step.
    pub fn delete_rating(&mut self, rating_id: &String) -> (r: Result<(), ServiceError>)
        requires
            old(self).wf(),
        ensures
            final(self).wf(),
            match r {
                Ok(u) => rating_deleted(old(self)@, final(self)@, rating_id@),
                Err(e) => rating_delete_rejected(old(self)@, final(self)@, e, rating_id@),
            },
    {
        match self.find_rating(rating_id) {
            None => Err(ServiceError::new(ErrorKind::FailedPrecondition, ITEM_DOESNT_EXIST)),
            Some(i) => {
                proof {
                    lemma_found_is_rating_index(self@.ratings, rating_id@, i as int);
                }
                let ghost pre = self@;
                self.ratings.remove(i);
                proof {
                    pre.ratings.remove_ensures(i as int);
                    assert(self.ratings.deep_view() =~= pre.ratings.remove(i as int));
                    assert(self@.requests == pre.requests);
                    assert(self@.bids == pre.bids);
                    assert(self@.users == pre.users);
                    assert(store_wf(self@));
                }
                Ok(())
            },
        }
    }

    /// Replaces the fields a rating patch carries.
    pub fn update_rating(&mut self, rating_id: &String, patch: &RatingPatch) -> (r: Result<
        Rating,
        ServiceError,
    >)
        requires
            old(self).wf(),
        ensures
            final(self).wf(),
            match r {
                Ok(rating) => rating_updated(
                    old(self)@,
                    final(self)@,
                    rating@,
                    rating_id@,
                    patch.value,
                    patch.comment.deep_view(),
                ),
                Err(e) => rating_update_rejected(old(self)@, final(self)@, e, rating_id@),
            },
    {
        let i = match self.find_rating(rating_id) {
            None => {
                return Err(ServiceError::new(ErrorKind::NotFound, ITEM_DOESNT_EXIST));
            },
            Some(i) => i,
        };
        proof {
            lemma_found_is_rating_index(self@.ratings, rating_id@, i as int);
        }
        let ghost pre = self@;
        let value = match patch.value {
            Some(v) => v,
            None => self.ratings[i].value,
        };
        let comment = match &patch.comment {
            Some(c) => c.clone(),
            None => self.ratings[i].comment.clone(),
        };
        let rating = Rating {
            id: self.ratings[i].id.clone(),
            request_id: self.ratings[i].request_id.clone(),
            author: self.ratings[i].author.clone(),
            recipient: self.ratings[i].recipient.clone(),
            value,
            comment: comment.clone(),
        };
        self.ratings[i].value = value;
        self.ratings[i].comment = comment;
        proof {
            assert(self.ratings.deep_view() =~= pre.ratings.update(i as int, rating@));
            assert(self@.requests == pre.requests);
            assert(self@.bids == pre.bids);
            assert(self@.users == pre.users);
            assert(store_wf(self@));
        }
        Ok(rating)
    }

    /// Adds a profile row, as the identity collaborator does when an
    /// account is provisioned. A taken user id is refused.
    pub fn add_user(&mut self, user: UserProfile) -> (r: Result<(), ServiceError>)
        requires
            old(self).wf(),
        ensures
            final(self).wf(),
            match r {
                Ok(u) => {
                    &&& !has_user(old(self)@.users, user@.user_id)
                    &&& final(self)@ == (StoreModel {
                        users: old(self)@.users.push(user@),
                        ..old(self)@
                    })
                },
                Err(e) => {
                    &&& has_user(old(self)@.users, user@.user_id)
                    &&& e.kind == ErrorKind::AlreadyExists
                    &&& e.message@ == ALREADY_EXISTS@
                    &&& final(self)@ == old(self)@
                },
            },
    {
        if self.find_user(&user.user_id).is_some() {
            return Err(ServiceError::new(ErrorKind::AlreadyExists, ALREADY_EXISTS));
        }
        let ghost pre = self@;
        let ghost m = user@;
        self.users.push(user);
        proof {
            assert(self.users.deep_view() =~= pre.users.push(m));
        }
        Ok(())
    }

    /// The profile row carrying `user_id`, if one does.
    pub fn get_user(&self, user_id: &String) -> (r: Option<UserProfile>)
        requires
            self.wf(),
        ensures
            match r {
                Some(user) => has_user(self@.users, user_id@) && user@ == self@.users[user_index(
                    self@.users,
                    user_id@,
                )],
                None => !has_user(self@.users, user_id@),
            },
    {
        match self.find_user(user_id) {
            None => None,
            Some(i) => {
                proof {
                    lemma_found_is_user_index(self@.users, user_id@, i as int);
                }
                Some(
                    UserProfile {
                        user_id: self.users[i].user_id.clone(),
                        profile_data: self.users[i].profile_data.clone(),
                    },
                )
            },
        }
    }

    /// Replaces the profile document when the patch carries one; the
    /// document is submitted in full, so nothing inside it can be
    /// dropped silently.
    pub fn update_user(&mut self, user_id: &String, patch: &UserPatch) -> (r: Result<
        UserProfile,
        ServiceError,
    >)
        requires
            old(self).wf(),
        ensures
            final(self).wf(),
            match r {
                Ok(user) => user_updated(
                    old(self)@,
                    final(self)@,
                    user@,
                    user_id@,
                    patch.profile_data.deep_view(),
                ),
                Err(e) => user_update_rejected(old(self)@, final(self)@, e, user_id@),
            },
    {
        let i = match self.find_user(user_id) {
            None => {
                return Err(ServiceError::new(ErrorKind::NotFound, ITEM_DOESNT_EXIST));
            },
            Some(i) => i,
        };
        proof {
            lemma_found_is_user_index(self@.users, user_id@, i as int);
        }
        let ghost pre = self@;
        let data = match &patch.profile_data {
            Some(d) => d.clone(),
            None => self.users[i].profile_data.clone(),
        };
        let user = UserProfile { user_id: self.users[i].user_id.clone(), profile_data: data.clone() };
        self.users[i].profile_data = data;
        proof {
            assert(self.users.deep_view() =~= pre.users.update(i as int, user@));
            assert(self@.requests == pre.requests);
            assert(self@.bids == pre.bids);
            assert(self@.ratings == pre.ratings);
            assert(store_wf(self@));
        }
        Ok(user)
    }

    /// The request row carrying `request_id`, if one does.
    pub fn get_request_by_id(&self, request_id: &String) -> (r: Option<ServiceRequestRecord>)
        requires
            self.wf(),
        ensures
            match r {
                Some(rec) => has_req(self@.requests, request_id@) && rec@ == self@.requests[
                    req_index(self@.requests, request_id@)],
                None => !has_req(self@.requests, request_id@),
            },
    {
        match self.find_request(request_id) {
            None => None,
            Some(i) => {
                proof {
                    lemma_found_is_req_index(self@.requests, request_id@, i as int);
                }
                Some(clone_request(&self.requests[i]))
            },
        }
    }

    /// The request rows whose `field` column equals `filter`, in store
    /// order.
    pub fn get_requests(&self, field: RequestField, filter: &String) -> (r: Vec<
        ServiceRequestRecord,
    >)
        ensures
            r.deep_view() == self@.requests.filter(req_matches(field, filter@)),
    {
        let ghost pred = req_matches(field, filter@);
        let mut out: Vec<ServiceRequestRecord> = Vec::new();
        proof {
            assert(out.deep_view() =~= Seq::<ReqModel>::empty());
            assert(self@.requests.take(0).filter(pred) =~= Seq::<ReqModel>::empty());
        }
        let n = self.requests.len();
        let mut j: usize = 0;
        while j < n
            invariant
                n == self@.requests.len(),
                j <= n,
                out.deep_view() == self@.requests.take(j as int).filter(pred),
                pred == req_matches(field, filter@),
            decreases n - j,
        {
            let ghost prev = out.deep_view();
            let hit = match field {
                RequestField::Id => self.requests[j].id == *filter,
                RequestField::Requestor => self.requests[j].requestor == *filter,
            };
            if hit {
                out.push(clone_request(&self.requests[j]));
            }
            proof {
                let rs = self@.requests;
                rs.lemma_take_succ_push(j as int);
                rs.take(j as int).lemma_filter_push(rs[j as int], pred);
                if hit {
                    assert(out.deep_view() =~= prev.push(rs[j as int]));
                }
            }
            j += 1;
        }
        proof {
            self@.requests.lemma_take_len();
        }
        out
    }

    /// The bid rows whose `field` column equals `filter`, in store
    /// order.
    pub fn get_bids(&self, field: BidField, filter: &String) -> (r: Vec<Bid>)
        ensures
            r.deep_view() == self@.bids.filter(bid_matches(field, filter@)),
    {
        let ghost pred = bid_matches(field, filter@);
        let mut out: Vec<Bid> = Vec::new();
        proof {
            assert(out.deep_view() =~= Seq::<BidModel>::empty());
            assert(self@.bids.take(0).filter(pred) =~= Seq::<BidModel>::empty());
        }
        let n = self.bids.len();
        let mut j: usize = 0;
        while j < n
            invariant
                n == self@.bids.len(),
                j <= n,
                out.deep_view() == self@.bids.take(j as int).filter(pred),
                pred == bid_matches(field, filter@),
            decreases n - j,
        {
            let ghost prev = out.deep_view();
            let hit = match field {
                BidField::Id => self.bids[j].id == *filter,
                BidField::RequestId => self.bids[j].request_id == *filter,
                BidField::Bidder => self.bids[j].bidder == *filter,
            };
            if hit {
                out.push(clone_bid(&self.bids[j]));
            }
            proof {
                let bs = self@.bids;
                bs.lemma_take_succ_push(j as int);
                bs.take(j as int).lemma_filter_push(bs[j as int], pred);
                if hit {
                    assert(out.deep_view() =~= prev.push(bs[j as int]));
                }
            }
            j += 1;
        }
        proof {
            self@.bids.lemma_take_len();
        }
        out
    }

    /// The rating rows whose `field` column equals `filter`, in store
    /// order.
    pub fn get_ratings(&self, field: RatingField, filter: &String) -> (r: Vec<Rating>)
        ensures
            r.deep_view() == self@.ratings.filter(rating_matches(field, filter@)),
    {
        let ghost pred = rating_matches(field, filter@);
        let mut out: Vec<Rating> = Vec::new();
        proof {
            assert(out.deep_view() =~= Seq::<RatingModel>::empty());
            assert(self@.ratings.take(0).filter(pred) =~= Seq::<RatingModel>::empty());
        }
        let n = self.ratings.len();
        let mut j: usize = 0;
        while j < n
            invariant
                n == self@.ratings.len(),
                j <= n,
                out.deep_view() == self@.ratings.take(j as int).filter(pred),
                pred == rating_matches(field, filter@),
            decreases n - j,
        {
            let ghost prev = out.deep_view();
            let hit = match field {
                RatingField::Id => self.ratings[j].id == *filter,
                RatingField::RequestId => self.ratings[j].request_id == *filter,
                RatingField::Author => self.ratings[j].author == *filter,
                RatingField::Recipient => self.ratings[j].recipient == *filter,
            };
            if hit {
                out.push(clone_rating(&self.ratings[j]));
            }
            proof {
                let rs = self@.ratings;
                rs.lemma_take_succ_push(j as int);
                rs.take(j as int).lemma_filter_push(rs[j as int], pred);
                if hit {
                    assert(out.deep_view() =~= prev.push(rs[j as int]));
                }
            }
            j += 1;
        }
        proof {
            self@.ratings.lemma_take_len();
        }
        out
    }
}

/// A copy of a request row, equal in the model.
fn clone_request(rec: &ServiceRequestRecord) -> (r: ServiceRequestRecord)
    ensures
        r@ == rec@,
{
    ServiceRequestRecord {
        id: rec.id.clone(),
        requestor: rec.requestor.clone(),
        request_data: rec.request_data.clone(),
        status: rec.status,
        selected_bid: match &rec.selected_bid {
            Some(b) => Some(b.clone()),
            None => None,
        },
    }
}

/// A copy of a bid row, equal in the model.
fn clone_bid(bid: &Bid) -> (r: Bid)
    ensures
        r@ == bid@,
{
    Bid {
        id: bid.id.clone(),
        request_id: bid.request_id.clone(),
        bidder: bid.bidder.clone(),
        amount: bid.amount,
        created: bid.created,
    }
}

/// A copy of a rating row, equal in the model.
fn clone_rating(rating: &Rating) -> (r: Rating)
    ensures
        r@ == rating@,
{
    Rating {
        id: rating.id.clone(),
        request_id: rating.request_id.clone(),
        author: rating.author.clone(),
        recipient: rating.recipient.clone(),
        value: rating.value,
        comment: rating.comment.clone(),
    }
}

/// In a store with unique user ids, any index whose row carries
/// `user_id` is the index `user_index` denotes.
proof fn lemma_found_is_user_index(us: Seq<UserModel>, user_id: Seq<char>, i: int)
    requires
        forall|k: int, l: int|
            0 <= k < l < us.len() ==> #[trigger] us[k].user_id != #[trigger] us[l].user_id,
        0 <= i < us.len(),
        us[i].user_id == user_id,
    ensures
        has_user(us, user_id),
        user_index(us, user_id) == i,
{
    assert(has_user(us, user_id));
    let j = user_index(us, user_id);
    assert(0 <= j < us.len() && us[j].user_id == user_id);
    if i < j {
        assert(us[i].user_id != us[j].user_id);
    } else if j < i {
        assert(us[j].user_id != us[i].user_id);
    }
}

/// In a store with unique rating ids, any index whose row carries `id`
/// is the index `rating_index` denotes.
proof fn lemma_found_is_rating_index(rs: Seq<RatingModel>, id: Seq<char>, i: int)
    requires
        forall|k: int, l: int| 0 <= k < l < rs.len() ==> #[trigger] rs[k].id != #[trigger] rs[l].id,
        0 <= i < rs.len(),
        rs[i].id == id,
    ensures
        has_rating(rs, id),
        rating_index(rs, id) == i,
{
    assert(has_rating(rs, id));
    let j = rating_index(rs, id);
    assert(0 <= j < rs.len() && rs[j].id == id);
    if i < j {
        assert(rs[i].id != rs[j].id);
    } else if j < i {
        assert(rs[j].id != rs[i].id);
    }
}

/// In a store with unique bid ids, any index whose row carries `id` is
/// the index `bid_index` denotes.
proof fn lemma_found_is_bid_index(bs: Seq<BidModel>, id: Seq<char>, i: int)
    requires
        forall|k: int, l: int| 0 <= k < l < bs.len() ==> #[trigger] bs[k].id != #[trigger] bs[l].id,
        0 <= i < bs.len(),
        bs[i].id == id,
    ensures
        has_bid(bs, id),
        bid_index(bs, id) == i,
{
    assert(has_bid(bs, id));
    let j = bid_index(bs, id);
    assert(0 <= j < bs.len() && bs[j].id == id);
    if i < j {
        assert(bs[i].id != bs[j].id);
    } else if j < i {
        assert(bs[j].id != bs[i].id);
    }
}

/// In a store with unique request ids, any index whose row carries `id`
/// is the index `req_index` denotes.
proof fn lemma_found_is_req_index(rs: Seq<ReqModel>, id: Seq<char>, i: int)
    requires
        forall|k: int, l: int| 0 <= k < l < rs.len() ==> #[trigger] rs[k].id != #[trigger] rs[l].id,
        0 <= i < rs.len(),
        rs[i].id == id,
    ensures
        has_req(rs, id),
        req_index(rs, id) == i,
{
    assert(has_req(rs, id));
    let j = req_index(rs, id);
    assert(0 <= j < rs.len() && rs[j].id == id);
    if i < j {
        assert(rs[i].id != rs[j].id);
    } else if j < i {
        assert(rs[j].id != rs[i].id);
    }
}

} // verus!
