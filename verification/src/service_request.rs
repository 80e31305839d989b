//! The service-request lifecycle component: it owns the request state
//! machine and routes every transition through one atomic store
//! operation.
//!
//! Each operation takes the optional payload wrapper the transport
//! delivers; an absent payload is uniformly rejected before the store
//! is touched. The store handle is injected per call: the component
//! itself holds no state, matching a transport layer where every call
//! may run concurrently with any other.

use vstd::prelude::*;

use crate::error::{ErrorKind, ServiceError, INVALID_PAYLOAD};
use crate::records::{Bid, Rating, RequestPatch, ServiceRequestRecord};
use crate::store::{
    bid_delete_rejected, bid_deleted, bid_place_rejected, bid_placed, bid_select_rejected,
    bid_selected, complete_rejected, payload_rejected, rating_matches, rating_place_rejected,
    rating_placed, req_create_rejected, req_created, req_delete_rejected, req_deleted, req_index,
    req_matches, req_update_rejected, req_updated, service_completed, has_req, RatingField,
    RequestField, Store,
};

verus! {

/// Payload of a creation call.
#[derive(Debug)]
pub struct CreatePayload {
    pub requestor: String,
    pub request_data: String,
}

/// Payload of an update call.
#[derive(Debug)]
pub struct UpdatePayload {
    pub request_id: String,
    pub update: RequestPatch,
}

/// Payload of a deletion call.
#[derive(Debug)]
pub struct DeletePayload {
    pub request_id: String,
}

/// Payload of a bid-selection call.
#[derive(Debug)]
pub struct SelectBidPayload {
    pub request_id: String,
    pub bid_id: String,
}

/// Payload of a completion call.
#[derive(Debug)]
pub struct CompleteServicePayload {
    pub request_id: String,
    pub user_id: String,
}

/// Payload of a filtered read.
#[derive(Debug)]
pub struct GetPayload {
    pub column: RequestField,
    pub filter: String,
}

/// Payload of a read by id.
#[derive(Debug)]
pub struct GetByIdPayload {
    pub request_id: String,
}

/// Payload of a read of a request's feedback.
#[derive(Debug)]
pub struct GetRatingPayload {
    pub request_id: String,
}

/// Payload of a bid-creation call.
#[derive(Debug)]
pub struct PlaceBidPayload {
    pub request_id: String,
    pub bidder: String,
    pub amount: u64,
}

/// Payload of a bid-deletion call.
#[derive(Debug)]
pub struct DeleteBidPayload {
    pub bid_id: String,
}

/// Payload of a rating-creation call.
#[derive(Debug)]
pub struct PlaceRatingPayload {
    pub request_id: String,
    pub author: String,
    pub recipient: String,
    pub value: u32,
    pub comment: String,
}

/// The lifecycle component. Stateless: the store handle comes with
/// each call.
pub struct ServiceRequestService {}

impl ServiceRequestService {
    /// A lifecycle component.
    pub fn new() -> (s: ServiceRequestService)
        ensures
            s == (ServiceRequestService {  }),
    {
        ServiceRequestService {  }
    }

    /// Creates a service request: one atomic creation procedure, and
    /// the stored record — generated id included — comes back.
    pub fn create(&self, store: &mut Store, payload: Option<CreatePayload>) -> (r: Result<
        ServiceRequestRecord,
        ServiceError,
    >)
        requires
            old(store).wf(),
            old(store).can_allocate(),
        ensures
            final(store).wf(),
            match payload {
                None => match r {
                    Ok(rec) => false,
                    Err(e) => payload_rejected(old(store)@, final(store)@, e),
                },
                Some(p) => match r {
                    Ok(rec) => req_created(
                        old(store)@,
                        final(store)@,
                        rec@,
                        p.requestor@,
                        p.request_data@,
                    ),
                    Err(e) => req_create_rejected(old(store)@, final(store)@, e, p.requestor@),
                },
            },
    {
        match payload {
            None => Err(ServiceError::new(ErrorKind::InvalidArgument, INVALID_PAYLOAD)),
            Some(p) => store.create_request(&p.requestor, &p.request_data),
        }
    }

    /// Applies a patch to a stored request. The id must be present and
    /// non-empty; the patch replaces the opaque payload whole.
    pub fn update(&self, store: &mut Store, payload: Option<UpdatePayload>) -> (r: Result<
        ServiceRequestRecord,
        ServiceError,
    >)
        requires
            old(store).wf(),
        ensures
            final(store).wf(),
            match payload {
                None => match r {
                    Ok(rec) => false,
                    Err(e) => payload_rejected(old(store)@, final(store)@, e),
                },
                Some(p) => match r {
                    Ok(rec) => p.request_id@.len() > 0 && req_updated(
                        old(store)@,
                        final(store)@,
                        rec@,
                        p.request_id@,
                        p.update.request_data.deep_view(),
                    ),
                    Err(e) => if p.request_id@.len() == 0 {
                        payload_rejected(old(store)@, final(store)@, e)
                    } else {
                        req_update_rejected(old(store)@, final(store)@, e, p.request_id@)
                    },
                },
            },
    {
        match payload {
            None => Err(ServiceError::new(ErrorKind::InvalidArgument, INVALID_PAYLOAD)),
            Some(p) => {
                if p.request_id.as_str().is_empty() {
                    return Err(ServiceError::new(ErrorKind::InvalidArgument, INVALID_PAYLOAD));
                }
                store.update_request(&p.request_id, &p.update)
            },
        }
    }

    /// Deletes a request; an absent row is a failed precondition, for
    /// every id.
    pub fn delete(&self, store: &mut Store, payload: Option<DeletePayload>) -> (r: Result<
        (),
        ServiceError,
    >)
        requires
            old(store).wf(),
        ensures
            final(store).wf(),
            match payload {
                None => match r {
                    Ok(u) => false,
                    Err(e) => payload_rejected(old(store)@, final(store)@, e),
                },
                Some(p) => match r {
                    Ok(u) => req_deleted(old(store)@, final(store)@, p.request_id@),
                    Err(e) => req_delete_rejected(old(store)@, final(store)@, e, p.request_id@),
                },
            },
    {
        match payload {
            None => Err(ServiceError::new(ErrorKind::InvalidArgument, INVALID_PAYLOAD)),
            Some(p) => store.delete_request(&p.request_id),
        }
    }

    /// Selects a bid for a request: one atomic procedure that verifies
    /// the bid belongs to the request, refuses a request whose bid is
    /// already selected, and otherwise records the selection and
    /// advances the status in one step.
    pub fn select_bid(&self, store: &mut Store, payload: Option<SelectBidPayload>) -> (r: Result<
        ServiceRequestRecord,
        ServiceError,
    >)
        requires
            old(store).wf(),
        ensures
            final(store).wf(),
            match payload {
                None => match r {
                    Ok(rec) => false,
                    Err(e) => payload_rejected(old(store)@, final(store)@, e),
                },
                Some(p) => match r {
                    Ok(rec) => p.request_id@.len() > 0 && bid_selected(
                        old(store)@,
                        final(store)@,
                        rec@,
                        p.request_id@,
                        p.bid_id@,
                    ),
                    Err(e) => if p.request_id@.len() == 0 {
                        payload_rejected(old(store)@, final(store)@, e)
                    } else {
                        bid_select_rejected(old(store)@, final(store)@, e, p.request_id@, p.bid_id@)
                    },
                },
            },
    {
        match payload {
            None => Err(ServiceError::new(ErrorKind::InvalidArgument, INVALID_PAYLOAD)),
            Some(p) => {
                if p.request_id.as_str().is_empty() {
                    return Err(ServiceError::new(ErrorKind::InvalidArgument, INVALID_PAYLOAD));
                }
                store.select_bid(&p.request_id, &p.bid_id)
            },
        }
    }

    /// Completes the work on a request: an atomic transition to
    /// `Completed`, open only to a participant while a selected bid is
    /// being worked; anything else is surfaced as failure.
    pub fn complete_service(
        &self,
        store: &mut Store,
        payload: Option<CompleteServicePayload>,
    ) -> (r: Result<(), ServiceError>)
        requires
            old(store).wf(),
        ensures
            final(store).wf(),
            match payload {
                None => match r {
                    Ok(u) => false,
                    Err(e) => payload_rejected(old(store)@, final(store)@, e),
                },
                Some(p) => match r {
                    Ok(u) => service_completed(
                        old(store)@,
                        final(store)@,
                        p.request_id@,
                        p.user_id@,
                    ),
                    Err(e) => complete_rejected(
                        old(store)@,
                        final(store)@,
                        e,
                        p.request_id@,
                        p.user_id@,
                    ),
                },
            },
    {
        match payload {
            None => Err(ServiceError::new(ErrorKind::InvalidArgument, INVALID_PAYLOAD)),
            Some(p) => store.complete_service(&p.request_id, &p.user_id),
        }
    }

    /// Filtered read of requests: the rows whose column equals the
    /// filter, in store order, with no side effect.
    pub fn get(&self, store: &Store, payload: Option<GetPayload>) -> (r: Result<
        Vec<ServiceRequestRecord>,
        ServiceError,
    >)
        ensures
            match payload {
                None => match r {
                    Ok(v) => false,
                    Err(e) => payload_rejected(store@, store@, e),
                },
                Some(p) => match r {
                    Ok(v) => v.deep_view() == store@.requests.filter(
                        req_matches(p.column, p.filter@),
                    ),
                    Err(e) => false,
                },
            },
    {
        match payload {
            None => Err(ServiceError::new(ErrorKind::InvalidArgument, INVALID_PAYLOAD)),
            Some(p) => Ok(store.get_requests(p.column, &p.filter)),
        }
    }

    /// Read of one request by id, with no side effect; an id no row
    /// carries yields an empty result, not an error.
    pub fn get_by_id(&self, store: &Store, payload: Option<GetByIdPayload>) -> (r: Result<
        Option<ServiceRequestRecord>,
        ServiceError,
    >)
        requires
            store.wf(),
        ensures
            match payload {
                None => match r {
                    Ok(v) => false,
                    Err(e) => payload_rejected(store@, store@, e),
                },
                Some(p) => match r {
                    Ok(v) => match v {
                        Some(rec) => has_req(store@.requests, p.request_id@) && rec@
                            == store@.requests[req_index(store@.requests, p.request_id@)],
                        None => !has_req(store@.requests, p.request_id@),
                    },
                    Err(e) => false,
                },
            },
    {
        match payload {
            None => Err(ServiceError::new(ErrorKind::InvalidArgument, INVALID_PAYLOAD)),
            Some(p) => Ok(store.get_request_by_id(&p.request_id)),
        }
    }

    /// The feedback rows tied to a request, in store order. A request
    /// takes one rating per author, so several rows may come back, one
    /// each from requestor and worker.
    pub fn get_rating(&self, store: &Store, payload: Option<GetRatingPayload>) -> (r: Result<
        Vec<Rating>,
        ServiceError,
    >)
        ensures
            match payload {
                None => match r {
                    Ok(v) => false,
                    Err(e) => payload_rejected(store@, store@, e),
                },
                Some(p) => match r {
                    Ok(v) => p.request_id@.len() > 0 && v.deep_view() == store@.ratings.filter(
                        rating_matches(RatingField::RequestId, p.request_id@),
                    ),
                    Err(e) => p.request_id@.len() == 0 && payload_rejected(store@, store@, e),
                },
            },
    {
        match payload {
            None => Err(ServiceError::new(ErrorKind::InvalidArgument, INVALID_PAYLOAD)),
            Some(p) => {
                if p.request_id.as_str().is_empty() {
                    return Err(ServiceError::new(ErrorKind::InvalidArgument, INVALID_PAYLOAD));
                }
                Ok(store.get_ratings(RatingField::RequestId, &p.request_id))
            },
        }
    }

    /// Places a bid on a request: one atomic procedure holding the
    /// duplicate check — at most one bid per bidder and request — and
    /// the insertion.
    pub fn place_bid(&self, store: &mut Store, payload: Option<PlaceBidPayload>) -> (r: Result<
        Bid,
        ServiceError,
    >)
        requires
            old(store).wf(),
            old(store).can_allocate(),
        ensures
            final(store).wf(),
            match payload {
                None => match r {
                    Ok(bid) => false,
                    Err(e) => payload_rejected(old(store)@, final(store)@, e),
                },
                Some(p) => match r {
                    Ok(bid) => bid_placed(
                        old(store)@,
                        final(store)@,
                        bid@,
                        p.request_id@,
                        p.bidder@,
                        p.amount,
                    ),
                    Err(e) => bid_place_rejected(
                        old(store)@,
                        final(store)@,
                        e,
                        p.request_id@,
                        p.bidder@,
                    ),
                },
            },
    {
        match payload {
            None => Err(ServiceError::new(ErrorKind::InvalidArgument, INVALID_PAYLOAD)),
            Some(p) => store.place_bid(&p.request_id, &p.bidder, p.amount),
        }
    }

    /// Withdraws a bid; an absent row is a failed precondition.
    pub fn delete_bid(&self, store: &mut Store, payload: Option<DeleteBidPayload>) -> (r: Result<
        (),
        ServiceError,
    >)
        requires
            old(store).wf(),
        ensures
            final(store).wf(),
            match payload {
                None => match r {
                    Ok(u) => false,
                    Err(e) => payload_rejected(old(store)@, final(store)@, e),
                },
                Some(p) => match r {
                    Ok(u) => bid_deleted(old(store)@, final(store)@, p.bid_id@),
                    Err(e) => bid_delete_rejected(old(store)@, final(store)@, e, p.bid_id@),
                },
            },
    {
        match payload {
            None => Err(ServiceError::new(ErrorKind::InvalidArgument, INVALID_PAYLOAD)),
            Some(p) => store.delete_bid(&p.bid_id),
        }
    }

    /// Leaves feedback on a request: one atomic procedure holding the
    /// at-most-one-rating-per-author check and the insertion.
    pub fn place_rating(
        &self,
        store: &mut Store,
        payload: Option<PlaceRatingPayload>,
    ) -> (r: Result<Rating, ServiceError>)
        requires
            old(store).wf(),
            old(store).can_allocate(),
        ensures
            final(store).wf(),
            match payload {
                None => match r {
                    Ok(rating) => false,
                    Err(e) => payload_rejected(old(store)@, final(store)@, e),
                },
                Some(p) => match r {
                    Ok(rating) => rating_placed(
                        old(store)@,
                        final(store)@,
                        rating@,
                        p.request_id@,
                        p.author@,
                        p.recipient@,
                        p.value,
                        p.comment@,
                    ),
                    Err(e) => rating_place_rejected(
                        old(store)@,
                        final(store)@,
                        e,
                        p.request_id@,
                        p.author@,
                    ),
                },
            },
    {
        match payload {
            None => Err(ServiceError::new(ErrorKind::InvalidArgument, INVALID_PAYLOAD)),
            Some(p) => store.place_rating(
                &p.request_id,
                &p.author,
                &p.recipient,
                p.value,
                &p.comment,
            ),
        }
    }
}

} // verus!
