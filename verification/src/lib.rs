//! Protocol engine for a wireless headset accessory: frame codec for the
//! vendor's accessory-control wire format, the cached session state with its
//! decode quirks, a bounded multi-subscriber event bus, and the connection
//! supervisor's state machine. All I/O (the L2CAP transport, the system tray,
//! media-player control) lives outside this crate; the engine works on plain
//! byte buffers and values.

pub mod bus;
pub mod codec;
pub mod session;
pub mod state;

pub use codec::ANC;
