//! Value-function learning rules for sequential decision processes.
//!
//! Every rule is written once, over an abstract [`scalar::Scalar`], and its
//! contract states the exact arithmetic expression that each weight, trace
//! entry or statistic holds after a transition or a batch.
pub mod control;
pub mod domains;
pub mod fa;
pub mod features;
pub mod learner;
pub mod linalg;
pub mod linear;
pub mod memory;
pub mod policies;
pub mod prediction;
pub mod scalar;
pub mod tabular;
pub mod traces;
