//! Connectivity check against a list of IP targets: the decisions of a
//! single run, from the parameters of each ICMP probe to the lines it
//! reports and the exit status of the process.

pub mod probe;
pub mod checker;
