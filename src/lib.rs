//! A bounded, shared cache of expensive resources: admission control, the idle
//! queue, validation bookkeeping and the validation-throttling decorators.

pub mod duration;
pub mod plugin;
pub mod pool_core;
pub mod pool_laws;
pub mod state;
pub mod time;
pub mod time_connection;

pub use duration::AtomicDuration;
pub use pool_core::PoolCore;
pub use state::State;
pub use time_connection::TimeConnection;
