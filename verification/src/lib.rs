//! Bridges accelerator temperature readings into a fixed-layout chassis
//! sensor table: slot assignment, record encoding, the restart-durable
//! update counter and the bridge's life cycle.

pub mod bridge;
pub mod device;
pub mod record;
pub mod slot;
pub mod state;
pub mod text;
