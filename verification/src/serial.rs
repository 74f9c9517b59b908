//! The port resource: one serial monitor of the native library, owned through
//! its handle.

use crate::error::{decode_status, status_result, SimonError};
use crate::native::{
    connected_flag, decode_connected, decode_success, encodable, is_encodable, release_port,
    success_flag, Handle, NativeLibrary,
};
use vstd::prelude::*;

verus! {

/// A serial monitor of the native library.
///
/// The monitor owns its handle. Once the handle is null the monitor is dead:
/// every operation fails locally and the native library is not called again.
pub struct SerialMonitor<N: NativeLibrary> {
    lib: N,
    handle: Handle,
}

impl<N: NativeLibrary> SerialMonitor<N> {
    /// The library that the monitor calls into.
    pub closed spec fn library(&self) -> N {
        self.lib
    }

    /// The handle that the monitor owns.
    pub closed spec fn handle(&self) -> Handle {
        self.handle
    }

    /// The monitor owns no native resource.
    pub open spec fn is_null(&self) -> bool {
        self.handle().is_null()
    }

    /// What `new` returns where the native library answered `created`.
    pub open spec fn creation(lib: N, created: Handle, r: Result<Self, SimonError>) -> bool {
        if created.is_null() {
            r matches Err(e) && e == SimonError::NullHandle
        } else {
            r matches Ok(monitor) && monitor.library() == lib && monitor.handle() == created
        }
    }

    /// What an operation without parameters returns where the native library,
    /// if it is asked, answers `code`.
    pub open spec fn status_outcome(&self, code: int) -> Result<(), SimonError> {
        if self.is_null() {
            Err(SimonError::NullHandle)
        } else {
            status_result(code)
        }
    }

    /// What `send_command` returns where the native library, if it is asked,
    /// answers `code`.
    pub open spec fn command_outcome(&self, command: &str, code: int) -> Result<(), SimonError> {
        if !encodable(command) {
            Err(SimonError::InvalidParameter)
        } else {
            self.status_outcome(code)
        }
    }

    /// What `send_simon_game_length` returns where the native library, if it is
    /// asked, answers `code`.
    pub open spec fn length_outcome(&self, length: int, code: int) -> Result<(), SimonError> {
        if length <= 0 {
            Err(SimonError::InvalidParameter)
        } else {
            self.status_outcome(code)
        }
    }

    /// What `verify_simon_game_success` returns where the native library, if it
    /// is asked, answers `raw`.
    pub open spec fn verify_outcome(&self, raw: int) -> bool {
        !self.is_null() && success_flag(raw)
    }

    /// What `is_connected` returns where the native library, if it is asked,
    /// answers `raw`.
    pub open spec fn connected_outcome(&self, raw: int) -> bool {
        !self.is_null() && connected_flag(raw)
    }

    /// Creates a monitor for the port named `port`. Fails with `NullHandle`
    /// where the native library creates nothing, and where the name has a zero
    /// byte in it: such a name never reaches the native library.
    pub fn new(lib: N, port: &str) -> (r: Result<Self, SimonError>)
        ensures
            !encodable(port) ==> (r matches Err(e) && e == SimonError::NullHandle),
            encodable(port) ==> exists|created: Handle|
                call_ensures(N::sm_create, (&lib, port), created) && Self::creation(lib, created, r),
    {
        if !is_encodable(port) {
            return Err(SimonError::NullHandle);
        }
        let handle = lib.sm_create(port);
        let r = if handle.is_null() {
            Err(SimonError::NullHandle)
        } else {
            Ok(SerialMonitor { lib, handle })
        };
        assert(Self::creation(lib, handle, r));
        r
    }

    /// Opens the connection. The native library is asked only through a live
    /// handle, and its answer is handed on as it is.
    pub fn connect(&self) -> (r: Result<(), SimonError>)
        ensures
            exists|code: i32|
                (!self.is_null() ==> call_ensures(
                    N::sm_connect,
                    (&self.library(), self.handle()),
                    code,
                )) && r == self.status_outcome(code as int),
    {
        if self.handle.is_null() {
            assert(Err::<(), SimonError>(SimonError::NullHandle) == self.status_outcome(0i32 as int));
            return Err(SimonError::NullHandle);
        }
        let code: i32 = self.lib.sm_connect(self.handle);
        let r = decode_status(code);
        assert(r == self.status_outcome(code as int));
        r
    }

    /// Closes the connection.
    pub fn disconnect(&self) -> (r: Result<(), SimonError>)
        ensures
            exists|code: i32|
                (!self.is_null() ==> call_ensures(
                    N::sm_disconnect,
                    (&self.library(), self.handle()),
                    code,
                )) && r == self.status_outcome(code as int),
    {
        if self.handle.is_null() {
            assert(Err::<(), SimonError>(SimonError::NullHandle) == self.status_outcome(0i32 as int));
            return Err(SimonError::NullHandle);
        }
        let code: i32 = self.lib.sm_disconnect(self.handle);
        let r = decode_status(code);
        assert(r == self.status_outcome(code as int));
        r
    }

    /// Sends a line of text to the device. Text with a zero byte in it is
    /// refused before the handle is looked at.
    pub fn send_command(&self, command: &str) -> (r: Result<(), SimonError>)
        ensures
            exists|code: i32|
                (encodable(command) && !self.is_null() ==> call_ensures(
                    N::sm_send_command,
                    (&self.library(), self.handle(), command),
                    code,
                )) && r == self.command_outcome(command, code as int),
    {
        if !is_encodable(command) {
            assert(Err::<(), SimonError>(SimonError::InvalidParameter) == self.command_outcome(
                command,
                0i32 as int,
            ));
            return Err(SimonError::InvalidParameter);
        }
        if self.handle.is_null() {
            assert(Err::<(), SimonError>(SimonError::NullHandle) == self.command_outcome(
                command,
                0i32 as int,
            ));
            return Err(SimonError::NullHandle);
        }
        let code: i32 = self.lib.sm_send_command(self.handle, command);
        let r = decode_status(code);
        assert(r == self.command_outcome(command, code as int));
        r
    }

    /// Tells the device how long the next pattern is. A length below one is
    /// refused before the handle is looked at.
    pub fn send_simon_game_length(&self, length: i32) -> (r: Result<(), SimonError>)
        ensures
            exists|code: i32|
                (length > 0 && !self.is_null() ==> call_ensures(
                    N::sm_send_simon_game_length,
                    (&self.library(), self.handle(), length),
                    code,
                )) && r == self.length_outcome(length as int, code as int),
    {
        if length <= 0 {
            assert(Err::<(), SimonError>(SimonError::InvalidParameter) == self.length_outcome(
                length as int,
                0i32 as int,
            ));
            return Err(SimonError::InvalidParameter);
        }
        if self.handle.is_null() {
            assert(Err::<(), SimonError>(SimonError::NullHandle) == self.length_outcome(
                length as int,
                0i32 as int,
            ));
            return Err(SimonError::NullHandle);
        }
        let code: i32 = self.lib.sm_send_simon_game_length(self.handle, length);
        let r = decode_status(code);
        assert(r == self.length_outcome(length as int, code as int));
        r
    }

    /// Asks whether the pattern was completed, waiting up to `timeout_ms`.
    /// The answer is the native library's own for this very call: nothing is
    /// kept from one call to the next.
    pub fn verify_simon_game_success(&self, timeout_ms: i32) -> (r: bool)
        ensures
            exists|raw: i32|
                (!self.is_null() ==> call_ensures(
                    N::sm_verify_simon_game_success,
                    (&self.library(), self.handle(), timeout_ms),
                    raw,
                )) && r == self.verify_outcome(raw as int),
    {
        if self.handle.is_null() {
            assert(false == self.verify_outcome(0i32 as int));
            return false;
        }
        let raw: i32 = self.lib.sm_verify_simon_game_success(self.handle, timeout_ms);
        let r = decode_success(raw);
        assert(r == self.verify_outcome(raw as int));
        r
    }

    /// Asks whether the connection is open.
    pub fn is_connected(&self) -> (r: bool)
        ensures
            exists|raw: i32|
                (!self.is_null() ==> call_ensures(
                    N::sm_is_connected,
                    (&self.library(), self.handle()),
                    raw,
                )) && r == self.connected_outcome(raw as int),
    {
        if self.handle.is_null() {
            assert(false == self.connected_outcome(0i32 as int));
            return false;
        }
        let raw: i32 = self.lib.sm_is_connected(self.handle);
        let r = decode_connected(raw);
        assert(r == self.connected_outcome(raw as int));
        r
    }

    /// Releases the native resource and forgets the handle. On a dead monitor
    /// this does nothing, so the native resource is released at most once.
    pub fn destroy(&mut self)
        ensures
            final(self).is_null(),
            final(self).library() == old(self).library(),
            !old(self).is_null() ==> call_ensures(
                N::sm_destroy,
                (&old(self).library(), old(self).handle()),
                (),
            ),
        opens_invariants none
        no_unwind
    {
        if !self.handle.is_null() {
            release_port(&self.lib, self.handle);
            self.handle = Handle::null();
        }
    }
}

impl<N: NativeLibrary> Drop for SerialMonitor<N> {
    /// Releases the native resource when the owner lets go: what `destroy`
    /// does, so a monitor that was destroyed by hand is not released again.
    fn drop(&mut self)
        ensures
            final(self).is_null(),
            final(self).library() == old(self).library(),
            !old(self).is_null() ==> call_ensures(
                N::sm_destroy,
                (&old(self).library(), old(self).handle()),
                (),
            ),
        opens_invariants none
        no_unwind
    {
        self.destroy();
    }
}

/// A pattern length below one is refused with `InvalidParameter`, on a live
/// monitor and on a dead one, whatever the native library would have answered.
pub proof fn nonpositive_length_is_refused<N: NativeLibrary>(
    monitor: SerialMonitor<N>,
    length: int,
    code: int,
)
    requires
        length <= 0,
    ensures
        monitor.length_outcome(length, code) == Err::<(), SimonError>(SimonError::InvalidParameter),
{
}

/// Where the native library reports the connection as closed, `is_connected`
/// is false, and a send to which it answers with a failure fails with that
/// failure: `ConnectionFailed` where that is its answer. On a dead monitor both
/// hold without the native library.
pub proof fn closed_port_refuses_sends<N: NativeLibrary>(
    monitor: SerialMonitor<N>,
    command: &str,
    length: int,
    code: int,
)
    requires
        code != 0 || monitor.is_null(),
    ensures
        !monitor.connected_outcome(0),
        monitor.command_outcome(command, code) is Err,
        monitor.length_outcome(length, code) is Err,
        !monitor.is_null() && encodable(command) && code == -2 ==> monitor.command_outcome(
            command,
            code,
        ) == Err::<(), SimonError>(SimonError::ConnectionFailed),
        !monitor.is_null() && length > 0 && code == -2 ==> monitor.length_outcome(length, code)
            == Err::<(), SimonError>(SimonError::ConnectionFailed),
{
}

/// On a dead monitor every operation that gets valid parameters fails with
/// `NullHandle`, and both questions are answered with no, whatever the native
/// library would have answered.
pub proof fn dead_monitor_fails_locally<N: NativeLibrary>(
    monitor: SerialMonitor<N>,
    command: &str,
    length: int,
    code: int,
    raw: int,
)
    requires
        monitor.is_null(),
    ensures
        monitor.status_outcome(code) == Err::<(), SimonError>(SimonError::NullHandle),
        encodable(command) ==> monitor.command_outcome(command, code) == Err::<(), SimonError>(
            SimonError::NullHandle,
        ),
        length > 0 ==> monitor.length_outcome(length, code) == Err::<(), SimonError>(
            SimonError::NullHandle,
        ),
        !monitor.verify_outcome(raw),
        !monitor.connected_outcome(raw),
{
}

/// On a live monitor the answer of `verify_simon_game_success` is the native
/// flag of that call and nothing else: yes for a positive flag, no for zero or
/// a negative one, so a flag that changes between two calls changes the answer.
pub proof fn verify_follows_flag<N: NativeLibrary>(monitor: SerialMonitor<N>, raw: int)
    requires
        !monitor.is_null(),
    ensures
        monitor.verify_outcome(raw) == (raw > 0),
        monitor.verify_outcome(1) && !monitor.verify_outcome(0),
{
}

} // verus!
