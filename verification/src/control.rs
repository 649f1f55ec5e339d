//! Learners that estimate action values and so improve a policy.
pub mod cacla;
pub mod expected_sarsa;
pub mod offpac;
pub mod pal;
pub mod q_lambda;
pub mod q_sigma;
pub mod qac;
pub mod reinforce;
pub mod sarsa_lambda;
pub mod tdac;
pub mod to_q_lambda;
pub mod to_sarsa_lambda;
