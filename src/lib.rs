//! Discovery of IP cameras on a local network and the decisions of a rate-limited
//! frame stream from one of them: which targets to probe and what to report, which
//! ports make camera candidates, when to fetch, how long to back off, and how captured
//! frames are checked, stored and saved.
use vstd::prelude::*;

pub mod decimal;
pub mod service;
pub mod scan;
pub mod frame;
pub mod codec;
pub mod error;
pub mod stream;
pub mod capture;

pub use error::AppError;
pub use scan::ScanProgress;
pub use service::get_service_hint;
pub use stream::StreamState;

verus! {

} // verus!
