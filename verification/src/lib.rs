//! Normalization core of a privacy-friendly web-analytics backend.
//!
//! Client reports are turned into canonical entities whose identifiers are
//! computed from their attributes by a streaming 64-bit hash, so that equal
//! entities collapse to one row without any lookup.

pub mod agent;
pub mod api;
pub mod clock;
pub mod error;
pub mod hash;
pub mod identity;
pub mod link;
pub mod page;
pub mod record;
pub mod referrer;
pub mod table;
pub mod text;
pub mod utm;
pub mod visitor;

pub use crate::error::Error;
pub use crate::page::Page;
pub use crate::record::Event;
pub use crate::record::Visit;
pub use crate::referrer::Referrer;
pub use crate::utm::UtmParam;
pub use crate::visitor::Visitor;
