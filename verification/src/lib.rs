//! Core of a peer-to-peer task marketplace: the service-request lifecycle
//! state machine, the bid and rating ledgers, the account directory, the
//! auth gateway's decision logic, and the classification of data-store
//! failures into typed errors.
//!
//! The remote data store is reached through a narrow facade; every
//! operation that must be atomic across more than one record is modelled
//! here as a single verified transition on [`store::Store`], so a caller
//! can route it either to a store-side procedure or to this in-process
//! model without changing the contract.


pub mod account;
pub mod auth;
pub mod error;
pub mod ids;
pub mod laws;
pub mod records;
pub mod service_rating;
pub mod service_request;
pub mod service_request_bid;
pub mod store;
