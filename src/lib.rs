//! Aggregates upcoming live-event listings from venue websites into one
//! normalized record format.
pub mod date;
pub mod event;
pub mod adapter;
pub mod extract;
pub mod fanout;
pub mod registry;
pub mod request;
