//! The rows the marketplace keeps, and their mathematical models.
//!
//! Each exec row type has a model struct whose string fields are
//! character sequences; contracts are stated over the models.

use vstd::prelude::*;

verus! {

/// Lifecycle state of a service request. Transitions are monotonic in
/// the order `Open`, `BidSelected`, `InProgress`, `Completed`; each
/// transition is performed by exactly one atomic store operation and
/// nothing leaves `Completed`.
#[derive(Clone, Copy, PartialEq, Eq, Structural, Debug)]
pub enum RequestStatus {
    Open,
    BidSelected,
    InProgress,
    Completed,
}

impl RequestStatus {
    /// Position of a status in the lifecycle order.
    pub open spec fn rank(self) -> int {
        match self {
            RequestStatus::Open => 0,
            RequestStatus::BidSelected => 1,
            RequestStatus::InProgress => 2,
            RequestStatus::Completed => 3,
        }
    }
}

/// A posted service request.
///
/// `request_data` is the opaque structured payload the requestor
/// submitted; this layer never looks inside it, and an update replaces
/// it whole, so a partial nested patch cannot silently drop keys.
#[derive(Clone, Debug)]
pub struct ServiceRequestRecord {
    pub id: String,
    pub requestor: String,
    pub request_data: String,
    pub status: RequestStatus,
    pub selected_bid: Option<String>,
}

/// Model of a [`ServiceRequestRecord`].
pub struct ReqModel {
    pub id: Seq<char>,
    pub requestor: Seq<char>,
    pub request_data: Seq<char>,
    pub status: RequestStatus,
    pub selected_bid: Option<Seq<char>>,
}

impl View for ServiceRequestRecord {
    type V = ReqModel;

    open spec fn view(&self) -> ReqModel {
        ReqModel {
            id: self.id@,
            requestor: self.requestor@,
            request_data: self.request_data@,
            status: self.status,
            selected_bid: match self.selected_bid {
                Some(b) => Some(b@),
                None => None,
            },
        }
    }
}

impl DeepView for ServiceRequestRecord {
    type V = ReqModel;

    open spec fn deep_view(&self) -> ReqModel {
        self@
    }
}

/// A bid a user placed on a request. `created` is the value the store's
/// row counter had when the bid was inserted, so later bids carry
/// strictly larger values.
#[derive(Clone, Debug)]
pub struct Bid {
    pub id: String,
    pub request_id: String,
    pub bidder: String,
    pub amount: u64,
    pub created: u64,
}

/// Model of a [`Bid`].
pub struct BidModel {
    pub id: Seq<char>,
    pub request_id: Seq<char>,
    pub bidder: Seq<char>,
    pub amount: u64,
    pub created: u64,
}

impl View for Bid {
    type V = BidModel;

    open spec fn view(&self) -> BidModel {
        BidModel {
            id: self.id@,
            request_id: self.request_id@,
            bidder: self.bidder@,
            amount: self.amount,
            created: self.created,
        }
    }
}

impl DeepView for Bid {
    type V = BidModel;

    open spec fn deep_view(&self) -> BidModel {
        self@
    }
}

/// Post-completion feedback one participant left for another. A request
/// carries at most one rating per author; several authors may each rate
/// the same request.
#[derive(Clone, Debug)]
pub struct Rating {
    pub id: String,
    pub request_id: String,
    pub author: String,
    pub recipient: String,
    pub value: u32,
    pub comment: String,
}

/// Model of a [`Rating`].
pub struct RatingModel {
    pub id: Seq<char>,
    pub request_id: Seq<char>,
    pub author: Seq<char>,
    pub recipient: Seq<char>,
    pub value: u32,
    pub comment: Seq<char>,
}

impl View for Rating {
    type V = RatingModel;

    open spec fn view(&self) -> RatingModel {
        RatingModel {
            id: self.id@,
            request_id: self.request_id@,
            author: self.author@,
            recipient: self.recipient@,
            value: self.value,
            comment: self.comment@,
        }
    }
}

impl DeepView for Rating {
    type V = RatingModel;

    open spec fn deep_view(&self) -> RatingModel {
        self@
    }
}

/// A user profile row. `profile_data` is the opaque profile document;
/// as with request payloads, an update replaces it whole.
#[derive(Clone, Debug)]
pub struct UserProfile {
    pub user_id: String,
    pub profile_data: String,
}

/// Model of a [`UserProfile`].
pub struct UserModel {
    pub user_id: Seq<char>,
    pub profile_data: Seq<char>,
}

impl View for UserProfile {
    type V = UserModel;

    open spec fn view(&self) -> UserModel {
        UserModel { user_id: self.user_id@, profile_data: self.profile_data@ }
    }
}

impl DeepView for UserProfile {
    type V = UserModel;

    open spec fn deep_view(&self) -> UserModel {
        self@
    }
}

/// Patch for a service request. Only the opaque payload can be
/// replaced, and only whole: the lifecycle fields move through the
/// atomic store operations alone, never through a patch.
#[derive(Debug)]
pub struct RequestPatch {
    pub request_data: Option<String>,
}

/// Patch for a user profile; the profile document is replaced whole.
#[derive(Debug)]
pub struct UserPatch {
    pub profile_data: Option<String>,
}

/// Patch for a rating; each field is replaced independently.
#[derive(Debug)]
pub struct RatingPatch {
    pub value: Option<u32>,
    pub comment: Option<String>,
}

} // verus!
