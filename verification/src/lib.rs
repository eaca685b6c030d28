//! A bounded, process-local cache ("reserve") in front of a slower upstream
//! store, with the rules of its janitor, its shutdown sequence and its
//! reaction to upstream change events.

pub mod feed;
pub mod fetch;
pub mod janitor;
pub mod reserve;
pub mod shutdown;

pub use crate::feed::{ChangeAction, Reaction};
pub use crate::fetch::Fetchable;
pub use crate::janitor::{JanitorAction, JanitorEvent, JanitorState};
pub use crate::reserve::CacheReserve;
pub use crate::shutdown::{ShutdownAction, ShutdownProgress};
