//! The asset service's REST logic: id checks, record building and merging,
//! and the decisions taken between the calls to the storage service.

pub mod error;
pub mod flows;
pub mod handlers;
pub mod ids;
pub mod records;
pub mod timestamp;
