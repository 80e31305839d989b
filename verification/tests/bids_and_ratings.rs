//! The bid and rating ledgers: duplicate checks, filtered reads,
//! updates and deletions.

use timebank::error::ErrorKind;
use timebank::records::RatingPatch;
use timebank::service_request::{CreatePayload, PlaceBidPayload, ServiceRequestService};
use timebank::service_request::{GetRatingPayload, PlaceRatingPayload};
use timebank::service_rating::ServiceRatingService;
use timebank::service_request_bid::ServiceRequestBidService;
use timebank::store::{BidField, RatingField, Store};

fn new_request(store: &mut Store, requestor: &str) -> String {
    ServiceRequestService::new()
        .create(
            store,
            Some(CreatePayload { requestor: requestor.to_owned(), request_data: "d".to_owned() }),
        )
        .expect("creation should succeed")
        .id
}

#[test]
fn second_bid_by_same_bidder_already_exists() {
    let mut store = Store::new();
    let req = new_request(&mut store, "u1");
    let svc = ServiceRequestService::new();
    svc.place_bid(
        &mut store,
        Some(PlaceBidPayload { request_id: req.clone(), bidder: "u2".to_owned(), amount: 10 }),
    )
    .expect("first bid should land");
    let err = svc
        .place_bid(
            &mut store,
            Some(PlaceBidPayload { request_id: req.clone(), bidder: "u2".to_owned(), amount: 15 }),
        )
        .unwrap_err();
    assert_eq!(err.kind, ErrorKind::AlreadyExists);
    assert_eq!(err.message, "ITEM ALREADY EXISTS");

    let bids = ServiceRequestBidService::new()
        .get(
            &store,
            Some(timebank::service_request_bid::GetPayload {
                column: BidField::RequestId,
                filter: req,
            }),
        )
        .expect("read should succeed");
    assert_eq!(bids.len(), 1);
    assert_eq!(bids[0].bidder, "u2");
    assert_eq!(bids[0].amount, 10);
}

#[test]
fn bid_on_absent_request_is_failed_precondition() {
    let mut store = Store::new();
    let err = ServiceRequestBidService::new()
        .create(
            &mut store,
            Some(timebank::service_request_bid::CreatePayload {
                request_id: "42".to_owned(),
                user_id: "u2".to_owned(),
                amount: 3,
            }),
        )
        .unwrap_err();
    assert_eq!(err.kind, ErrorKind::FailedPrecondition);
}

#[test]
fn different_bidders_may_bid_on_one_request() {
    let mut store = Store::new();
    let req = new_request(&mut store, "u1");
    let bid_svc = ServiceRequestBidService::new();
    bid_svc
        .create(
            &mut store,
            Some(timebank::service_request_bid::CreatePayload {
                request_id: req.clone(),
                user_id: "u2".to_owned(),
                amount: 3,
            }),
        )
        .unwrap();
    bid_svc
        .create(
            &mut store,
            Some(timebank::service_request_bid::CreatePayload {
                request_id: req.clone(),
                user_id: "u3".to_owned(),
                amount: 4,
            }),
        )
        .unwrap();
    let bids = bid_svc
        .get(
            &store,
            Some(timebank::service_request_bid::GetPayload {
                column: BidField::RequestId,
                filter: req,
            }),
        )
        .unwrap();
    assert_eq!(bids.len(), 2);
    assert!(bids[0].created < bids[1].created);
}

#[test]
fn withdrawn_bid_leaves_the_ledger() {
    let mut store = Store::new();
    let req = new_request(&mut store, "u1");
    let bid_svc = ServiceRequestBidService::new();
    let bid = bid_svc
        .create(
            &mut store,
            Some(timebank::service_request_bid::CreatePayload {
                request_id: req.clone(),
                user_id: "u2".to_owned(),
                amount: 3,
            }),
        )
        .unwrap();
    bid_svc
        .delete(
            &mut store,
            Some(timebank::service_request_bid::DeletePayload { bid_id: bid.id }),
        )
        .unwrap();
    let bids = bid_svc
        .get(
            &store,
            Some(timebank::service_request_bid::GetPayload {
                column: BidField::RequestId,
                filter: req,
            }),
        )
        .unwrap();
    assert!(bids.is_empty());
}

#[test]
fn second_rating_by_same_author_already_exists() {
    let mut store = Store::new();
    let req = new_request(&mut store, "u1");
    let rating_svc = ServiceRatingService::new();
    rating_svc
        .create(
            &mut store,
            Some(timebank::service_rating::CreatePayload {
                request_id: req.clone(),
                user_id: "u1".to_owned(),
                recipient: "u2".to_owned(),
                value: 5,
                comment: "great".to_owned(),
            }),
        )
        .expect("first rating should land");
    let err = rating_svc
        .create(
            &mut store,
            Some(timebank::service_rating::CreatePayload {
                request_id: req.clone(),
                user_id: "u1".to_owned(),
                recipient: "u2".to_owned(),
                value: 1,
                comment: "changed my mind".to_owned(),
            }),
        )
        .unwrap_err();
    assert_eq!(err.kind, ErrorKind::AlreadyExists);
    let rows = rating_svc
        .get(
            &store,
            Some(timebank::service_rating::GetPayload {
                column: RatingField::RequestId,
                filter: req,
            }),
        )
        .unwrap();
    assert_eq!(rows.len(), 1);
    assert_eq!(rows[0].value, 5);
}

#[test]
fn each_participant_may_rate_the_same_request() {
    let mut store = Store::new();
    let req = new_request(&mut store, "u1");
    let svc = ServiceRequestService::new();
    svc.place_rating(
        &mut store,
        Some(PlaceRatingPayload {
            request_id: req.clone(),
            author: "u1".to_owned(),
            recipient: "u2".to_owned(),
            value: 5,
            comment: "fast".to_owned(),
        }),
    )
    .unwrap();
    svc.place_rating(
        &mut store,
        Some(PlaceRatingPayload {
            request_id: req.clone(),
            author: "u2".to_owned(),
            recipient: "u1".to_owned(),
            value: 4,
            comment: "paid on time".to_owned(),
        }),
    )
    .unwrap();
    let rows = svc
        .get_rating(&store, Some(GetRatingPayload { request_id: req }))
        .unwrap();
    assert_eq!(rows.len(), 2);
    assert_eq!(rows[0].author, "u1");
    assert_eq!(rows[1].author, "u2");
}

#[test]
fn rating_on_absent_request_is_failed_precondition() {
    let mut store = Store::new();
    let err = ServiceRatingService::new()
        .create(
            &mut store,
            Some(timebank::service_rating::CreatePayload {
                request_id: "42".to_owned(),
                user_id: "u1".to_owned(),
                recipient: "u2".to_owned(),
                value: 5,
                comment: String::new(),
            }),
        )
        .unwrap_err();
    assert_eq!(err.kind, ErrorKind::FailedPrecondition);
}

#[test]
fn rating_update_patches_value_and_keeps_the_rest() {
    let mut store = Store::new();
    let req = new_request(&mut store, "u1");
    let rating_svc = ServiceRatingService::new();
    let rating = rating_svc
        .create(
            &mut store,
            Some(timebank::service_rating::CreatePayload {
                request_id: req,
                user_id: "u1".to_owned(),
                recipient: "u2".to_owned(),
                value: 3,
                comment: "fine".to_owned(),
            }),
        )
        .unwrap();
    let updated = rating_svc
        .update(
            &mut store,
            Some(timebank::service_rating::UpdatePayload {
                rating_id: rating.id,
                body: RatingPatch { value: Some(4), comment: None },
            }),
        )
        .unwrap();
    assert_eq!(updated.value, 4);
    assert_eq!(updated.comment, "fine");
    assert_eq!(updated.recipient, "u2");
}

#[test]
fn rating_update_absent_is_not_found() {
    let mut store = Store::new();
    let err = ServiceRatingService::new()
        .update(
            &mut store,
            Some(timebank::service_rating::UpdatePayload {
                rating_id: "9".to_owned(),
                body: RatingPatch { value: None, comment: None },
            }),
        )
        .unwrap_err();
    assert_eq!(err.kind, ErrorKind::NotFound);
}

#[test]
fn rating_delete_absent_is_failed_precondition() {
    let mut store = Store::new();
    let err = ServiceRatingService::new()
        .delete(
            &mut store,
            Some(timebank::service_rating::DeletePayload { rating_id: "9".to_owned() }),
        )
        .unwrap_err();
    assert_eq!(err.kind, ErrorKind::FailedPrecondition);
}

#[test]
fn rating_delete_removes_the_row() {
    let mut store = Store::new();
    let req = new_request(&mut store, "u1");
    let rating_svc = ServiceRatingService::new();
    let rating = rating_svc
        .create(
            &mut store,
            Some(timebank::service_rating::CreatePayload {
                request_id: req.clone(),
                user_id: "u1".to_owned(),
                recipient: "u2".to_owned(),
                value: 3,
                comment: String::new(),
            }),
        )
        .unwrap();
    rating_svc
        .delete(
            &mut store,
            Some(timebank::service_rating::DeletePayload { rating_id: rating.id }),
        )
        .unwrap();
    let rows = rating_svc
        .get(
            &store,
            Some(timebank::service_rating::GetPayload {
                column: RatingField::RequestId,
                filter: req,
            }),
        )
        .unwrap();
    assert!(rows.is_empty());
}
