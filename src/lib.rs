//! A ride-hailing record service: ordered stores of riders, drivers and
//! rides, with field-keyed search, per-field updates, replace-by-identity,
//! and the ride-request workflow that pairs a rider with the first active
//! driver.
//!
//! Every record kind renders each of its fields as text (`Record`), and the
//! generic `RecordStore` answers searches by comparing that text. Contracts
//! are stated over the records' views and the spec functions of `store`;
//! `laws` proves the properties that relate several operations.
pub mod driver;
pub mod laws;
pub mod ledger;
pub mod rating;
pub mod record;
pub mod ride;
pub mod rider;
pub mod service;
pub mod status;
pub mod store;
pub mod text;
