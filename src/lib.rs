//! GPU compute job engine: buffer packing, host-side memory pool, resource
//! binding plans, command encoding plans and completion tracking.

pub mod def;
pub mod layout;
pub mod memory;
pub mod binding;
pub mod encoder;
pub mod tracker;
pub mod timing;
pub mod states;
pub mod job;
pub mod utils;
