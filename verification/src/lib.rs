//! A safe binding layer over a native library that offers a serial-port
//! monitor and a global keyboard middleware through opaque handles.
//!
//! The native library is reached through a function table, the trait
//! [`NativeLibrary`]. Nothing is assumed of what it returns. A contract of this
//! crate that depends on a native answer says so with `call_ensures`: there is
//! an answer that the native entry point gave to these very arguments, and the
//! result is what that answer decodes to. What this layer decides on its own
//! (a null handle, a count below one, text that cannot cross the boundary) is
//! stated without the native library, and the preconditions of the function
//! table show that no such value ever reaches it.
//!
//! - [`error`]: native result codes and the error kinds they stand for.
//! - [`native`]: the handle, the function table, and how native answers read.
//! - [`serial`]: the port resource.
//! - [`callbacks`]: the callback slot and the entry points that read it.
//! - [`keyboard`]: the input resource.
//! - [`orchestration`]: the two resources in force and the host's operations.
//! - [`sync`]: what is taken on trust of the standard library's lock.

pub mod callbacks;
pub mod error;
pub mod keyboard;
pub mod native;
pub mod orchestration;
pub mod serial;
pub mod sync;

pub use callbacks::{CallbackBridge, CallbackSlot, FnReceive, FnSend, ReceiveCallback, SendCallback};
pub use error::{decode_status, simon_error_t, SimonError};
pub use keyboard::KeyboardMiddleware;
pub use native::{decode_connected, decode_success, is_encodable, Handle, NativeLibrary};
pub use orchestration::{AppState, ConnectReport};
pub use serial::SerialMonitor;
