//! The request lifecycle: creation, reads, bid selection, completion,
//! deletion.

use timebank::error::ErrorKind;
use timebank::records::{RequestPatch, RequestStatus};
use timebank::service_request::{
    CompleteServicePayload, CreatePayload, DeleteBidPayload, DeletePayload, GetByIdPayload,
    GetPayload, PlaceBidPayload, SelectBidPayload, ServiceRequestService, UpdatePayload,
};
use timebank::store::{RequestField, Store};

fn svc() -> ServiceRequestService {
    ServiceRequestService::new()
}

fn create_request(store: &mut Store, requestor: &str, data: &str) -> String {
    let rec = svc()
        .create(
            store,
            Some(CreatePayload {
                requestor: requestor.to_owned(),
                request_data: data.to_owned(),
            }),
        )
        .expect("creation should succeed");
    rec.id
}

#[test]
fn create_then_get_by_id_returns_open_record() {
    let mut store = Store::new();
    let rec = svc()
        .create(
            &mut store,
            Some(CreatePayload {
                requestor: "u1".to_owned(),
                request_data: "{\"title\":\"wash car\"}".to_owned(),
            }),
        )
        .expect("creation should succeed");
    assert!(!rec.id.is_empty());
    assert_eq!(rec.status, RequestStatus::Open);
    assert_eq!(rec.requestor, "u1");
    assert_eq!(rec.request_data, "{\"title\":\"wash car\"}");
    assert!(rec.selected_bid.is_none());

    let found = svc()
        .get_by_id(&store, Some(GetByIdPayload { request_id: rec.id.clone() }))
        .expect("read should succeed")
        .expect("the record should be found");
    assert_eq!(found.id, rec.id);
    assert_eq!(found.status, RequestStatus::Open);
    assert_eq!(found.requestor, "u1");
    assert_eq!(found.request_data, "{\"title\":\"wash car\"}");
}

#[test]
fn create_without_payload_is_invalid_argument() {
    let mut store = Store::new();
    let err = svc().create(&mut store, None).unwrap_err();
    assert_eq!(err.kind, ErrorKind::InvalidArgument);
    assert_eq!(err.message, "INVALID PAYLOAD");
}

#[test]
fn create_with_empty_requestor_is_invalid_argument() {
    let mut store = Store::new();
    let err = svc()
        .create(
            &mut store,
            Some(CreatePayload { requestor: String::new(), request_data: "d".to_owned() }),
        )
        .unwrap_err();
    assert_eq!(err.kind, ErrorKind::InvalidArgument);
    assert_eq!(err.message, "EXPECTED ARGUMENT MISSING");
}

#[test]
fn generated_ids_differ() {
    let mut store = Store::new();
    let a = create_request(&mut store, "u1", "a");
    let b = create_request(&mut store, "u1", "b");
    assert_ne!(a, b);
}

#[test]
fn delete_nonexistent_is_failed_precondition() {
    let mut store = Store::new();
    let err = svc()
        .delete(&mut store, Some(DeletePayload { request_id: "12345".to_owned() }))
        .unwrap_err();
    assert_eq!(err.kind, ErrorKind::FailedPrecondition);
    assert_eq!(err.message, "ITEM DOESN'T EXIST");
}

#[test]
fn delete_removes_the_record() {
    let mut store = Store::new();
    let id = create_request(&mut store, "u1", "d");
    svc().delete(&mut store, Some(DeletePayload { request_id: id.clone() })).expect(
        "deletion should succeed",
    );
    let found = svc()
        .get_by_id(&store, Some(GetByIdPayload { request_id: id }))
        .expect("read should succeed");
    assert!(found.is_none());
}

#[test]
fn update_replaces_payload_whole() {
    let mut store = Store::new();
    let id = create_request(&mut store, "u1", "{\"title\":\"wash car\",\"price\":3}");
    let updated = svc()
        .update(
            &mut store,
            Some(UpdatePayload {
                request_id: id.clone(),
                update: RequestPatch {
                    request_data: Some("{\"title\":\"wash car and bike\"}".to_owned()),
                },
            }),
        )
        .expect("update should succeed");
    assert_eq!(updated.request_data, "{\"title\":\"wash car and bike\"}");
    assert_eq!(updated.status, RequestStatus::Open);
    let found = svc()
        .get_by_id(&store, Some(GetByIdPayload { request_id: id }))
        .unwrap()
        .unwrap();
    assert_eq!(found.request_data, "{\"title\":\"wash car and bike\"}");
}

#[test]
fn update_with_empty_id_is_invalid_argument() {
    let mut store = Store::new();
    let err = svc()
        .update(
            &mut store,
            Some(UpdatePayload {
                request_id: String::new(),
                update: RequestPatch { request_data: None },
            }),
        )
        .unwrap_err();
    assert_eq!(err.kind, ErrorKind::InvalidArgument);
    assert_eq!(err.message, "INVALID PAYLOAD");
}

#[test]
fn select_bid_advances_status_and_records_selection() {
    let mut store = Store::new();
    let req = create_request(&mut store, "u1", "d");
    let bid = svc()
        .place_bid(
            &mut store,
            Some(PlaceBidPayload { request_id: req.clone(), bidder: "u2".to_owned(), amount: 10 }),
        )
        .expect("bid should be placed");
    let rec = svc()
        .select_bid(
            &mut store,
            Some(SelectBidPayload { request_id: req.clone(), bid_id: bid.id.clone() }),
        )
        .expect("selection should succeed");
    assert_eq!(rec.status, RequestStatus::BidSelected);
    assert_eq!(rec.selected_bid.as_deref(), Some(bid.id.as_str()));
}

#[test]
fn select_bid_twice_fails_and_selection_stays() {
    let mut store = Store::new();
    let req = create_request(&mut store, "u1", "d");
    let bid_of_u2 = svc()
        .place_bid(
            &mut store,
            Some(PlaceBidPayload { request_id: req.clone(), bidder: "u2".to_owned(), amount: 10 }),
        )
        .unwrap();
    let bid_of_u3 = svc()
        .place_bid(
            &mut store,
            Some(PlaceBidPayload { request_id: req.clone(), bidder: "u3".to_owned(), amount: 12 }),
        )
        .unwrap();
    svc()
        .select_bid(
            &mut store,
            Some(SelectBidPayload { request_id: req.clone(), bid_id: bid_of_u2.id.clone() }),
        )
        .expect("first selection should succeed");
    let err = svc()
        .select_bid(
            &mut store,
            Some(SelectBidPayload { request_id: req.clone(), bid_id: bid_of_u3.id.clone() }),
        )
        .unwrap_err();
    assert_eq!(err.kind, ErrorKind::AlreadyExists);
    let rec = svc()
        .get_by_id(&store, Some(GetByIdPayload { request_id: req }))
        .unwrap()
        .unwrap();
    assert_eq!(rec.status, RequestStatus::BidSelected);
    assert_eq!(rec.selected_bid.as_deref(), Some(bid_of_u2.id.as_str()));
}

#[test]
fn select_bid_of_another_request_is_failed_precondition() {
    let mut store = Store::new();
    let req_a = create_request(&mut store, "u1", "a");
    let req_b = create_request(&mut store, "u1", "b");
    let bid_on_b = svc()
        .place_bid(
            &mut store,
            Some(PlaceBidPayload { request_id: req_b, bidder: "u2".to_owned(), amount: 5 }),
        )
        .unwrap();
    let err = svc()
        .select_bid(&mut store, Some(SelectBidPayload { request_id: req_a, bid_id: bid_on_b.id }))
        .unwrap_err();
    assert_eq!(err.kind, ErrorKind::FailedPrecondition);
}

#[test]
fn complete_service_by_worker_reaches_completed() {
    let mut store = Store::new();
    let req = create_request(&mut store, "u1", "d");
    let bid = svc()
        .place_bid(
            &mut store,
            Some(PlaceBidPayload { request_id: req.clone(), bidder: "u2".to_owned(), amount: 10 }),
        )
        .unwrap();
    svc()
        .select_bid(&mut store, Some(SelectBidPayload { request_id: req.clone(), bid_id: bid.id }))
        .unwrap();
    svc()
        .complete_service(
            &mut store,
            Some(CompleteServicePayload { request_id: req.clone(), user_id: "u2".to_owned() }),
        )
        .expect("the selected bidder may complete");
    let rec = svc()
        .get_by_id(&store, Some(GetByIdPayload { request_id: req }))
        .unwrap()
        .unwrap();
    assert_eq!(rec.status, RequestStatus::Completed);
}

#[test]
fn complete_service_by_stranger_is_failed_precondition() {
    let mut store = Store::new();
    let req = create_request(&mut store, "u1", "d");
    let bid = svc()
        .place_bid(
            &mut store,
            Some(PlaceBidPayload { request_id: req.clone(), bidder: "u2".to_owned(), amount: 10 }),
        )
        .unwrap();
    svc()
        .select_bid(&mut store, Some(SelectBidPayload { request_id: req.clone(), bid_id: bid.id }))
        .unwrap();
    let err = svc()
        .complete_service(
            &mut store,
            Some(CompleteServicePayload { request_id: req, user_id: "u9".to_owned() }),
        )
        .unwrap_err();
    assert_eq!(err.kind, ErrorKind::FailedPrecondition);
}

#[test]
fn complete_service_while_open_is_failed_precondition() {
    let mut store = Store::new();
    let req = create_request(&mut store, "u1", "d");
    let err = svc()
        .complete_service(
            &mut store,
            Some(CompleteServicePayload { request_id: req, user_id: "u1".to_owned() }),
        )
        .unwrap_err();
    assert_eq!(err.kind, ErrorKind::FailedPrecondition);
}

#[test]
fn complete_service_twice_is_failed_precondition() {
    let mut store = Store::new();
    let req = create_request(&mut store, "u1", "d");
    let bid = svc()
        .place_bid(
            &mut store,
            Some(PlaceBidPayload { request_id: req.clone(), bidder: "u2".to_owned(), amount: 10 }),
        )
        .unwrap();
    svc()
        .select_bid(&mut store, Some(SelectBidPayload { request_id: req.clone(), bid_id: bid.id }))
        .unwrap();
    svc()
        .complete_service(
            &mut store,
            Some(CompleteServicePayload { request_id: req.clone(), user_id: "u1".to_owned() }),
        )
        .unwrap();
    let err = svc()
        .complete_service(
            &mut store,
            Some(CompleteServicePayload { request_id: req, user_id: "u1".to_owned() }),
        )
        .unwrap_err();
    assert_eq!(err.kind, ErrorKind::FailedPrecondition);
}

#[test]
fn get_filters_by_requestor() {
    let mut store = Store::new();
    let a = create_request(&mut store, "u1", "a");
    let _b = create_request(&mut store, "u2", "b");
    let c = create_request(&mut store, "u1", "c");
    let rows = svc()
        .get(
            &store,
            Some(GetPayload { column: RequestField::Requestor, filter: "u1".to_owned() }),
        )
        .expect("read should succeed");
    assert_eq!(rows.len(), 2);
    assert_eq!(rows[0].id, a);
    assert_eq!(rows[1].id, c);
}

#[test]
fn select_bid_with_empty_request_id_is_invalid_argument() {
    let mut store = Store::new();
    let err = svc()
        .select_bid(
            &mut store,
            Some(SelectBidPayload { request_id: String::new(), bid_id: "1".to_owned() }),
        )
        .unwrap_err();
    assert_eq!(err.kind, ErrorKind::InvalidArgument);
    assert_eq!(err.message, "INVALID PAYLOAD");
}

#[test]
fn get_without_payload_is_invalid_argument() {
    let store = Store::new();
    let err = svc().get(&store, None).unwrap_err();
    assert_eq!(err.kind, ErrorKind::InvalidArgument);
}

#[test]
fn get_rating_with_empty_request_id_is_invalid_argument() {
    let store = Store::new();
    let err = svc()
        .get_rating(
            &store,
            Some(timebank::service_request::GetRatingPayload { request_id: String::new() }),
        )
        .unwrap_err();
    assert_eq!(err.kind, ErrorKind::InvalidArgument);
}

#[test]
fn delete_bid_absent_is_failed_precondition() {
    let mut store = Store::new();
    let err = svc()
        .delete_bid(&mut store, Some(DeleteBidPayload { bid_id: "7".to_owned() }))
        .unwrap_err();
    assert_eq!(err.kind, ErrorKind::FailedPrecondition);
}

#[test]
fn deleted_bid_cannot_be_selected() {
    let mut store = Store::new();
    let req = create_request(&mut store, "u1", "d");
    let bid = svc()
        .place_bid(
            &mut store,
            Some(PlaceBidPayload { request_id: req.clone(), bidder: "u2".to_owned(), amount: 10 }),
        )
        .unwrap();
    svc().delete_bid(&mut store, Some(DeleteBidPayload { bid_id: bid.id.clone() })).unwrap();
    let err = svc()
        .select_bid(&mut store, Some(SelectBidPayload { request_id: req, bid_id: bid.id }))
        .unwrap_err();
    assert_eq!(err.kind, ErrorKind::FailedPrecondition);
}
