//! Non-blocking forwarding of captured log events to a remote log viewer.
//!
//! An event is read into plain values (`capture`), mapped to the message of
//! the viewer's protocol (`message`, `severity`, `platform`) and handed to the
//! sink (`layer`). The sink consults the connection tracker (`tracker`) and
//! either offers the message to the bounded delivery channel (`channel`),
//! drops it, or tells its caller to start the one connection attempt. Nothing
//! here waits, and nothing here fails once the sink is made (`error`).

pub mod capture;
pub mod channel;
pub mod error;
pub mod layer;
pub mod message;
pub mod platform;
pub mod severity;
pub mod tracker;

pub use crate::error::LayerError;
pub use crate::layer::AnalogyLayer;
