//! The two operations of the service, each as a machine that the transport
//! drives: it performs what the machine asks and reports what came back.

pub mod dto;
pub mod sign_in;
pub mod sign_up;
