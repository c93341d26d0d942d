//! Host functions for keyboard and mouse automation scripts: the marshalling of
//! script values into key, button and direction names, the shared argument list,
//! and the decisions behind each host call.

pub mod bridge;
pub mod marshal;
pub mod state;
