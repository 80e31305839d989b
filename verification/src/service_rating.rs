//! The rating ledger component: post-completion feedback creation,
//! query, update and deletion.
//!
//! An absent payload wrapper is uniformly rejected before the store is
//! touched; the store handle is injected per call.

use vstd::prelude::*;

use crate::error::{ErrorKind, ServiceError, INVALID_PAYLOAD};
use crate::records::{Rating, RatingPatch};
use crate::store::{
    payload_rejected, rating_delete_rejected, rating_deleted, rating_matches,
    rating_place_rejected, rating_placed, rating_update_rejected, rating_updated, RatingField,
    Store,
};

verus! {

/// Payload of a rating-creation call. The author is the signed-in
/// user leaving the feedback.
#[derive(Debug)]
pub struct CreatePayload {
    pub request_id: String,
    pub user_id: String,
    pub recipient: String,
    pub value: u32,
    pub comment: String,
}

/// Payload of a filtered read.
#[derive(Debug)]
pub struct GetPayload {
    pub column: RatingField,
    pub filter: String,
}

/// Payload of a rating-deletion call.
#[derive(Debug)]
pub struct DeletePayload {
    pub rating_id: String,
}

/// Payload of a rating update.
#[derive(Debug)]
pub struct UpdatePayload {
    pub rating_id: String,
    pub body: RatingPatch,
}

/// The rating ledger. Stateless: the store handle comes with each
/// call.
pub struct ServiceRatingService {}

impl ServiceRatingService {
    /// A rating ledger.
    pub fn new() -> (s: ServiceRatingService)
        ensures
            s == (ServiceRatingService {  }),
    {
        ServiceRatingService {  }
    }

    /// Creates a rating: one atomic procedure holding the
    /// at-most-one-rating-per-author check and the insertion.
    pub fn create(&self, store: &mut Store, payload: Option<CreatePayload>) -> (r: Result<
        Rating,
        ServiceError,
    >)
        requires
            old(store).wf(),
            old(store).can_allocate(),
        ensures
            final(store).wf(),
            match payload {
                None => match r {
                    Ok(rating) => false,
                    Err(e) => payload_rejected(old(store)@, final(store)@, e),
                },
                Some(p) => match r {
                    Ok(rating) => rating_placed(
                        old(store)@,
                        final(store)@,
                        rating@,
                        p.request_id@,
                        p.user_id@,
                        p.recipient@,
                        p.value,
                        p.comment@,
                    ),
                    Err(e) => rating_place_rejected(
                        old(store)@,
                        final(store)@,
                        e,
                        p.request_id@,
                        p.user_id@,
                    ),
                },
            },
    {
        match payload {
            None => Err(ServiceError::new(ErrorKind::InvalidArgument, INVALID_PAYLOAD)),
            Some(p) => store.place_rating(
                &p.request_id,
                &p.user_id,
                &p.recipient,
                p.value,
                &p.comment,
            ),
        }
    }

    /// Filtered read of ratings: the rows whose column equals the
    /// filter, in store order, with no side effect.
    pub fn get(&self, store: &Store, payload: Option<GetPayload>) -> (r: Result<
        Vec<Rating>,
        ServiceError,
    >)
        ensures
            match payload {
                None => match r {
                    Ok(v) => false,
                    Err(e) => payload_rejected(store@, store@, e),
                },
                Some(p) => match r {
                    Ok(v) => v.deep_view() == store@.ratings.filter(
                        rating_matches(p.column, p.filter@),
                    ),
                    Err(e) => false,
                },
            },
    {
        match payload {
            None => Err(ServiceError::new(ErrorKind::InvalidArgument, INVALID_PAYLOAD)),
            Some(p) => Ok(store.get_ratings(p.column, &p.filter)),
        }
    }

    /// Deletes a rating; an absent row is a failed precondition.
    pub fn delete(&self, store: &mut Store, payload: Option<DeletePayload>) -> (r: Result<
        (),
        ServiceError,
    >)
        requires
            old(store).wf(),
        ensures
            final(store).wf(),
            match payload {
                None => match r {
                    Ok(u) => false,
                    Err(e) => payload_rejected(old(store)@, final(store)@, e),
                },
                Some(p) => match r {
                    Ok(u) => rating_deleted(old(store)@, final(store)@, p.rating_id@),
                    Err(e) => rating_delete_rejected(old(store)@, final(store)@, e, p.rating_id@),
                },
            },
    {
        match payload {
            None => Err(ServiceError::new(ErrorKind::InvalidArgument, INVALID_PAYLOAD)),
            Some(p) => store.delete_rating(&p.rating_id),
        }
    }

    /// Applies a patch to a stored rating.
    pub fn update(&self, store: &mut Store, payload: Option<UpdatePayload>) -> (r: Result<
        Rating,
        ServiceError,
    >)
        requires
            old(store).wf(),
        ensures
            final(store).wf(),
            match payload {
                None => match r {
                    Ok(rating) => false,
                    Err(e) => payload_rejected(old(store)@, final(store)@, e),
                },
                Some(p) => match r {
                    Ok(rating) => rating_updated(
                        old(store)@,
                        final(store)@,
                        rating@,
                        p.rating_id@,
                        p.body.value,
                        p.body.comment.deep_view(),
                    ),
                    Err(e) => rating_update_rejected(old(store)@, final(store)@, e, p.rating_id@),
                },
            },
    {
        match payload {
            None => Err(ServiceError::new(ErrorKind::InvalidArgument, INVALID_PAYLOAD)),
            Some(p) => store.update_rating(&p.rating_id, &p.body),
        }
    }
}

} // verus!
