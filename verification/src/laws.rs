//! What holds of the library as a whole: laws that relate several operations.

pub mod operations;
pub mod pipes;
pub mod readiness;
pub mod rounds;
pub mod timing;
