//! Delivery of private parcels between agents: the data model, the
//! validation rules and the decision logic of the delivery zome.

pub mod seqs;
pub mod errors;
pub mod hash;
pub mod types;
pub mod entries;
pub mod state;
pub mod queries;
pub mod chunks;
pub mod validation;
pub mod protocol;
pub mod inbox;
pub mod parcel;
pub mod links;
pub mod zome_api;
pub mod signals;

