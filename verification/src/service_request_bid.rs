//! The bid ledger component: bid creation, withdrawal and filtered
//! query, each tied to a request.
//!
//! An absent payload wrapper is uniformly rejected before the store is
//! touched; the store handle is injected per call.

use vstd::prelude::*;

use crate::error::{ErrorKind, ServiceError, INVALID_PAYLOAD};
use crate::records::Bid;
use crate::store::{
    bid_delete_rejected, bid_deleted, bid_matches, bid_place_rejected, bid_placed,
    payload_rejected, BidField, Store,
};

verus! {

/// Payload of a bid-creation call.
#[derive(Debug)]
pub struct CreatePayload {
    pub request_id: String,
    pub user_id: String,
    pub amount: u64,
}

/// Payload of a bid-deletion call.
#[derive(Debug)]
pub struct DeletePayload {
    pub bid_id: String,
}

/// Payload of a filtered read.
#[derive(Debug)]
pub struct GetPayload {
    pub column: BidField,
    pub filter: String,
}

/// The bid ledger. Stateless: the store handle comes with each call.
pub struct ServiceRequestBidService {}

impl ServiceRequestBidService {
    /// A bid ledger.
    pub fn new() -> (s: ServiceRequestBidService)
        ensures
            s == (ServiceRequestBidService {  }),
    {
        ServiceRequestBidService {  }
    }

    /// Creates a bid: one atomic procedure holding the duplicate check
    /// — at most one bid per bidder and request — and the insertion.
    pub fn create(&self, store: &mut Store, payload: Option<CreatePayload>) -> (r: Result<
        Bid,
        ServiceError,
    >)
        requires
            old(store).wf(),
            old(store).can_allocate(),
        ensures
            final(store).wf(),
            match payload {
                None => match r {
                    Ok(bid) => false,
                    Err(e) => payload_rejected(old(store)@, final(store)@, e),
                },
                Some(p) => match r {
                    Ok(bid) => bid_placed(
                        old(store)@,
                        final(store)@,
                        bid@,
                        p.request_id@,
                        p.user_id@,
                        p.amount,
                    ),
                    Err(e) => bid_place_rejected(
                        old(store)@,
                        final(store)@,
                        e,
                        p.request_id@,
                        p.user_id@,
                    ),
                },
            },
    {
        match payload {
            None => Err(ServiceError::new(ErrorKind::InvalidArgument, INVALID_PAYLOAD)),
            Some(p) => store.place_bid(&p.request_id, &p.user_id, p.amount),
        }
    }

    /// Withdraws a bid; an absent row is a failed precondition.
    pub fn delete(&self, store: &mut Store, payload: Option<DeletePayload>) -> (r: Result<
        (),
        ServiceError,
    >)
        requires
            old(store).wf(),
        ensures
            final(store).wf(),
            match payload {
                None => match r {
                    Ok(u) => false,
                    Err(e) => payload_rejected(old(store)@, final(store)@, e),
                },
                Some(p) => match r {
                    Ok(u) => bid_deleted(old(store)@, final(store)@, p.bid_id@),
                    Err(e) => bid_delete_rejected(old(store)@, final(store)@, e, p.bid_id@),
                },
            },
    {
        match payload {
            None => Err(ServiceError::new(ErrorKind::InvalidArgument, INVALID_PAYLOAD)),
            Some(p) => store.delete_bid(&p.bid_id),
        }
    }

    /// Filtered read of bids: the rows whose column equals the filter,
    /// in store order, with no side effect.
    pub fn get(&self, store: &Store, payload: Option<GetPayload>) -> (r: Result<
        Vec<Bid>,
        ServiceError,
    >)
        ensures
            match payload {
                None => match r {
                    Ok(v) => false,
                    Err(e) => payload_rejected(store@, store@, e),
                },
                Some(p) => match r {
                    Ok(v) => v.deep_view() == store@.bids.filter(bid_matches(p.column, p.filter@)),
                    Err(e) => false,
                },
            },
    {
        match payload {
            None => Err(ServiceError::new(ErrorKind::InvalidArgument, INVALID_PAYLOAD)),
            Some(p) => Ok(store.get_bids(p.column, &p.filter)),
        }
    }
}

} // verus!
