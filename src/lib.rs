//! Sums the net build duration of a CI build and its snapshot dependencies.
//!
//! The library holds everything that decides: the endpoints asked for, the
//! request each one takes, which identifiers a resolver response yields, which
//! statistic a build reports, and the run that adds them up. Performing the
//! HTTP requests and decoding their JSON bodies is left to the caller.
pub mod endpoint;
pub mod model;
pub mod driver;
