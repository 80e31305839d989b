//! The account directory component: profile reads and updates, and the
//! aggregate rating lookup for a user.
//!
//! An absent payload wrapper, or an empty user id where one is
//! required, is uniformly rejected before the store is touched.

use vstd::prelude::*;

use crate::error::{ErrorKind, ServiceError, INVALID_PAYLOAD, ITEM_DOESNT_EXIST};
use crate::records::{Rating, UserPatch, UserProfile};
use crate::store::{
    has_user, payload_rejected, rating_matches, user_index, user_update_rejected, user_updated,
    RatingField, Store,
};

verus! {

/// Payload of a profile read.
#[derive(Debug)]
pub struct GetPayload {
    pub user_id: String,
}

/// Payload of a profile update.
#[derive(Debug)]
pub struct UpdatePayload {
    pub user_id: String,
    pub update: UserPatch,
}

/// Payload of the aggregate rating read.
#[derive(Debug)]
pub struct GetRatingPayload {
    pub user_id: String,
}

/// The account directory. Stateless: the store handle comes with each
/// call.
pub struct UserService {}

impl UserService {
    /// An account directory.
    pub fn new() -> (s: UserService)
        ensures
            s == (UserService {  }),
    {
        UserService {  }
    }

    /// Reads one profile by id. The id must be present and non-empty;
    /// a row the store does not hold is reported as not found.
    pub fn get(&self, store: &Store, payload: Option<GetPayload>) -> (r: Result<
        UserProfile,
        ServiceError,
    >)
        requires
            store.wf(),
        ensures
            match payload {
                None => match r {
                    Ok(user) => false,
                    Err(e) => payload_rejected(store@, store@, e),
                },
                Some(p) => if p.user_id@.len() == 0 {
                    match r {
                        Ok(user) => false,
                        Err(e) => payload_rejected(store@, store@, e),
                    }
                } else {
                    match r {
                        Ok(user) => has_user(store@.users, p.user_id@) && user@ == store@.users[
                            user_index(store@.users, p.user_id@)],
                        Err(e) => {
                            &&& !has_user(store@.users, p.user_id@)
                            &&& e.kind == ErrorKind::NotFound
                            &&& e.message@ == ITEM_DOESNT_EXIST@
                        },
                    }
                },
            },
    {
        match payload {
            None => Err(ServiceError::new(ErrorKind::InvalidArgument, INVALID_PAYLOAD)),
            Some(p) => {
                if p.user_id.as_str().is_empty() {
                    return Err(ServiceError::new(ErrorKind::InvalidArgument, INVALID_PAYLOAD));
                }
                match store.get_user(&p.user_id) {
                    Some(user) => Ok(user),
                    None => Err(ServiceError::new(ErrorKind::NotFound, ITEM_DOESNT_EXIST)),
                }
            },
        }
    }

    /// Applies a patch to a stored profile. The id must be present and
    /// non-empty; the patch replaces the profile document whole.
    pub fn update(&self, store: &mut Store, payload: Option<UpdatePayload>) -> (r: Result<
        UserProfile,
        ServiceError,
    >)
        requires
            old(store).wf(),
        ensures
            final(store).wf(),
            match payload {
                None => match r {
                    Ok(user) => false,
                    Err(e) => payload_rejected(old(store)@, final(store)@, e),
                },
                Some(p) => match r {
                    Ok(user) => p.user_id@.len() > 0 && user_updated(
                        old(store)@,
                        final(store)@,
                        user@,
                        p.user_id@,
                        p.update.profile_data.deep_view(),
                    ),
                    Err(e) => if p.user_id@.len() == 0 {
                        payload_rejected(old(store)@, final(store)@, e)
                    } else {
                        user_update_rejected(old(store)@, final(store)@, e, p.user_id@)
                    },
                },
            },
    {
        match payload {
            None => Err(ServiceError::new(ErrorKind::InvalidArgument, INVALID_PAYLOAD)),
            Some(p) => {
                if p.user_id.as_str().is_empty() {
                    return Err(ServiceError::new(ErrorKind::InvalidArgument, INVALID_PAYLOAD));
                }
                store.update_user(&p.user_id, &p.update)
            },
        }
    }

    /// The ratings naming the user as recipient, in store order, with
    /// no side effect.
    pub fn get_rating(&self, store: &Store, payload: Option<GetRatingPayload>) -> (r: Result<
        Vec<Rating>,
        ServiceError,
    >)
        ensures
            match payload {
                None => match r {
                    Ok(v) => false,
                    Err(e) => payload_rejected(store@, store@, e),
                },
                Some(p) => match r {
                    Ok(v) => v.deep_view() == store@.ratings.filter(
                        rating_matches(RatingField::Recipient, p.user_id@),
                    ),
                    Err(e) => false,
                },
            },
    {
        match payload {
            None => Err(ServiceError::new(ErrorKind::InvalidArgument, INVALID_PAYLOAD)),
            Some(p) => Ok(store.get_ratings(RatingField::Recipient, &p.user_id)),
        }
    }
}

} // verus!
