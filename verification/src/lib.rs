use vstd::prelude::*;

pub mod fl_slice;
pub mod fleece;
pub mod fleece_error;
pub mod error;
pub mod document;
pub mod conflict;
pub mod transaction;
pub mod index;
pub mod value;
pub mod fleece_encoder;
pub mod fleece_dict;
pub mod fleece_ser;
pub mod fleece_de;
pub mod fleece_nesting;
pub mod fleece_roundtrip;
pub mod text;
pub mod socket;
pub mod ws_request;
pub mod replicator;
pub mod database;
pub mod query;
pub mod log_reroute;

verus! {
} // verus!
