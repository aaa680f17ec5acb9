//! Page validation and asset discovery for load tests against the Umami demo site.

pub mod attribute;
pub mod catalog;
pub mod page;
pub mod pick;
pub mod text;
pub mod visit;
