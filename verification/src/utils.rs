//! Helpers of the first, pairwise signing service.

pub mod check_timestamp;
