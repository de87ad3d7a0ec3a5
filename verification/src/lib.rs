//! Exchange authority for swapping an old token for a new one at a
//! configurable rate, with custody of both pools.

pub mod accounts;
pub mod address;
pub mod error;
pub mod instructions;
pub mod laws;
pub mod state;
pub mod token;
