//! The input resource: one keyboard middleware of the native library, owned
//! through its handle, together with the callback bridge that it arms.

use crate::callbacks::{CallbackBridge, ReceiveCallback, SendCallback};
use crate::error::{decode_status, status_result, SimonError};
use crate::native::{release_input, take_hook_down, Handle, NativeLibrary};
use vstd::prelude::*;

verus! {

/// A keyboard middleware of the native library.
///
/// The middleware owns its handle. Once the handle is null the middleware is
/// dead: every operation fails locally and the native library is not called
/// again.
#[verifier::reject_recursive_types(S)]
#[verifier::reject_recursive_types(R)]
pub struct KeyboardMiddleware<N: NativeLibrary, S: SendCallback, R: ReceiveCallback> {
    lib: N,
    handle: Handle,
    bridge: CallbackBridge<S, R>,
}

impl<N: NativeLibrary, S: SendCallback, R: ReceiveCallback> KeyboardMiddleware<N, S, R> {
    /// The library that the middleware calls into.
    pub closed spec fn library(&self) -> N {
        self.lib
    }

    /// The handle that the middleware owns.
    pub closed spec fn handle(&self) -> Handle {
        self.handle
    }

    /// The bridge whose slot the middleware fills and clears.
    pub closed spec fn bridge(&self) -> CallbackBridge<S, R> {
        self.bridge
    }

    /// The middleware owns no native resource.
    pub open spec fn is_null(&self) -> bool {
        self.handle().is_null()
    }

    /// What `new` returns where the native library answered `created`.
    pub open spec fn creation(
        lib: N,
        bridge: CallbackBridge<S, R>,
        created: Handle,
        r: Result<Self, SimonError>,
    ) -> bool {
        if created.is_null() {
            r matches Err(e) && e == SimonError::NullHandle
        } else {
            r matches Ok(middleware) && middleware.library() == lib && middleware.bridge()
                == bridge && middleware.handle() == created
        }
    }

    /// What an operation without parameters returns where the native library,
    /// if it is asked, answers `code`.
    pub open spec fn status_outcome(&self, code: int) -> Result<(), SimonError> {
        if self.is_null() {
            Err(SimonError::NullHandle)
        } else {
            status_result(code)
        }
    }

    /// What `register_key` returns where the native library, if it is asked,
    /// answers `code`.
    pub open spec fn key_outcome(&self, target_count: int, code: int) -> Result<(), SimonError> {
        if target_count <= 0 {
            Err(SimonError::InvalidParameter)
        } else {
            self.status_outcome(code)
        }
    }

    /// What `register_callbacks` returns where the pair went into the slot or
    /// not, and the native library, if it is asked, answers `code`. A dead
    /// middleware fails before the slot is touched.
    pub open spec fn arming_outcome(&self, installed: bool, code: int) -> Result<(), SimonError> {
        if self.is_null() {
            Err(SimonError::NullHandle)
        } else if !installed {
            Err(SimonError::Unknown)
        } else {
            status_result(code)
        }
    }

    /// What `cleanup` returns where the native library, if it is asked,
    /// answers `code`, and the slot was cleared after it or not.
    pub open spec fn cleanup_outcome(&self, code: int, cleared: bool) -> Result<(), SimonError> {
        if self.is_null() || code != 0 {
            self.status_outcome(code)
        } else if cleared {
            Ok(())
        } else {
            Err(SimonError::Unknown)
        }
    }

    /// Creates a middleware that arms the callbacks of `bridge`.
    pub fn new(lib: N, bridge: CallbackBridge<S, R>) -> (r: Result<Self, SimonError>)
        ensures
            exists|created: Handle|
                call_ensures(N::km_create, (&lib,), created) && Self::creation(
                    lib,
                    bridge,
                    created,
                    r,
                ),
    {
        let handle = lib.km_create();
        let r = if handle.is_null() {
            Err(SimonError::NullHandle)
        } else {
            Ok(KeyboardMiddleware { lib, handle, bridge })
        };
        assert(Self::creation(lib, bridge, handle, r));
        r
    }

    /// Sets the keyboard hook up.
    pub fn initialize(&self) -> (r: Result<(), SimonError>)
        ensures
            exists|code: i32|
                (!self.is_null() ==> call_ensures(
                    N::km_initialize,
                    (&self.library(), self.handle()),
                    code,
                )) && r == self.status_outcome(code as int),
    {
        if self.handle.is_null() {
            assert(Err::<(), SimonError>(SimonError::NullHandle) == self.status_outcome(0i32 as int));
            return Err(SimonError::NullHandle);
        }
        let code: i32 = self.lib.km_initialize(self.handle);
        let r = decode_status(code);
        assert(r == self.status_outcome(code as int));
        r
    }

    /// Registers a key and the number of presses that triggers it. A count
    /// below one is refused before the handle is looked at.
    pub fn register_key(&self, key_code: i32, target_count: i32) -> (r: Result<(), SimonError>)
        ensures
            exists|code: i32|
                (target_count > 0 && !self.is_null() ==> call_ensures(
                    N::km_register_key,
                    (&self.library(), self.handle(), key_code, target_count),
                    code,
                )) && r == self.key_outcome(target_count as int, code as int),
    {
        if target_count <= 0 {
            assert(Err::<(), SimonError>(SimonError::InvalidParameter) == self.key_outcome(
                target_count as int,
                0i32 as int,
            ));
            return Err(SimonError::InvalidParameter);
        }
        if self.handle.is_null() {
            assert(Err::<(), SimonError>(SimonError::NullHandle) == self.key_outcome(
                target_count as int,
                0i32 as int,
            ));
            return Err(SimonError::NullHandle);
        }
        let code: i32 = self.lib.km_register_key(self.handle, key_code, target_count);
        let r = decode_status(code);
        assert(r == self.key_outcome(target_count as int, code as int));
        r
    }

    /// Puts a new pair of callbacks in force and then has the native library
    /// arm its entry points. A dead middleware fails with `NullHandle` and
    /// leaves the slot alone. Otherwise the pair goes into the slot first, and
    /// stays there if arming fails; where it cannot go in, the native library
    /// is not asked.
    pub fn register_callbacks(&self, send_callback: S, receive_callback: R) -> (r: Result<
        (),
        SimonError,
    >)
        ensures
            exists|installed: bool, code: i32|
                (installed && !self.is_null() ==> call_ensures(
                    N::km_register_callbacks,
                    (&self.library(), self.handle()),
                    code,
                )) && r == self.arming_outcome(installed, code as int),
    {
        if self.handle.is_null() {
            assert(Err::<(), SimonError>(SimonError::NullHandle) == self.arming_outcome(
                false,
                0i32 as int,
            ));
            return Err(SimonError::NullHandle);
        }
        let installed = self.bridge.install(send_callback, receive_callback);
        self.arm(installed)
    }

    /// The second step of a registration: given how the installation of the
    /// pair went, has the native library arm its entry points. Where the pair
    /// did not go into the slot this fails with `Unknown` and the native
    /// library is not asked.
    pub fn arm(&self, installed: Result<(), SimonError>) -> (r: Result<(), SimonError>)
        ensures
            exists|ok: bool, code: i32|
                ok == (installed is Ok) && (ok && !self.is_null() ==> call_ensures(
                    N::km_register_callbacks,
                    (&self.library(), self.handle()),
                    code,
                )) && r == self.arming_outcome(ok, code as int),
    {
        if self.handle.is_null() {
            assert(Err::<(), SimonError>(SimonError::NullHandle) == self.arming_outcome(
                installed is Ok,
                0i32 as int,
            ));
            return Err(SimonError::NullHandle);
        }
        match installed {
            Ok(()) => {
                let code: i32 = self.lib.km_register_callbacks(self.handle);
                let r = decode_status(code);
                assert(r == self.arming_outcome(true, code as int));
                r
            },
            Err(_) => {
                assert(Err::<(), SimonError>(SimonError::Unknown) == self.arming_outcome(
                    false,
                    0i32 as int,
                ));
                Err(SimonError::Unknown)
            },
        }
    }

    /// Takes the keyboard hook down and settles the slot by the native
    /// library's answer: cleared once it has reported success, left as it is
    /// otherwise.
    pub fn cleanup(&self) -> (r: Result<(), SimonError>)
        ensures
            exists|code: i32, cleared: bool|
                (!self.is_null() ==> call_ensures(
                    N::km_cleanup,
                    (&self.library(), self.handle()),
                    code,
                )) && r == self.cleanup_outcome(code as int, cleared),
    {
        if self.handle.is_null() {
            assert(Err::<(), SimonError>(SimonError::NullHandle) == self.cleanup_outcome(
                0i32 as int,
                false,
            ));
            return Err(SimonError::NullHandle);
        }
        let code: i32 = take_hook_down(&self.lib, self.handle);
        let status = decode_status(code);
        let r = self.bridge.settle(status);
        assert(r == self.cleanup_outcome(code as int, r is Ok));
        r
    }

    /// Takes the hook down as far as it goes, releases the native resource and
    /// forgets the handle. On a dead middleware this does nothing, so the
    /// native resource is released at most once.
    ///
    /// The hook is taken down as `cleanup` does it, with one difference: the
    /// slot is settled only where its lock is free, since a resource that is
    /// let go of must not wait. The outcome of the cleanup is dropped.
    pub fn destroy(&mut self)
        ensures
            final(self).is_null(),
            final(self).library() == old(self).library(),
            final(self).bridge() == old(self).bridge(),
            !old(self).is_null() ==> exists|code: i32|
                call_ensures(N::km_cleanup, (&old(self).library(), old(self).handle()), code),
            !old(self).is_null() ==> call_ensures(
                N::km_destroy,
                (&old(self).library(), old(self).handle()),
                (),
            ),
        opens_invariants none
        no_unwind
    {
        if !self.handle.is_null() {
            let code: i32 = take_hook_down(&self.lib, self.handle);
            let _ = self.bridge.settle_if_free(decode_status(code));
            release_input(&self.lib, self.handle);
            self.handle = Handle::null();
        }
    }
}

impl<N: NativeLibrary, S: SendCallback, R: ReceiveCallback> Drop for KeyboardMiddleware<N, S, R> {
    /// Takes the hook down and releases the native resource when the owner
    /// lets go: what `destroy` does, so a middleware that was destroyed by hand
    /// is not released again.
    fn drop(&mut self)
        ensures
            final(self).is_null(),
            final(self).library() == old(self).library(),
            final(self).bridge() == old(self).bridge(),
            !old(self).is_null() ==> exists|code: i32|
                call_ensures(N::km_cleanup, (&old(self).library(), old(self).handle()), code),
            !old(self).is_null() ==> call_ensures(
                N::km_destroy,
                (&old(self).library(), old(self).handle()),
                (),
            ),
        opens_invariants none
        no_unwind
    {
        self.destroy();
    }
}

/// A target count below one is refused with `InvalidParameter`, on a live
/// middleware and on a dead one, whatever the native library would have
/// answered.
pub proof fn nonpositive_count_is_refused<N: NativeLibrary, S: SendCallback, R: ReceiveCallback>(
    middleware: KeyboardMiddleware<N, S, R>,
    target_count: int,
    code: int,
)
    requires
        target_count <= 0,
    ensures
        middleware.key_outcome(target_count, code) == Err::<(), SimonError>(
            SimonError::InvalidParameter,
        ),
{
}

/// On a dead middleware every operation that gets valid parameters fails with
/// `NullHandle`, whatever the native library would have answered and whatever
/// the state of the slot's lock.
pub proof fn dead_middleware_fails_locally<
    N: NativeLibrary,
    S: SendCallback,
    R: ReceiveCallback,
>(
    middleware: KeyboardMiddleware<N, S, R>,
    target_count: int,
    code: int,
    installed: bool,
    cleared: bool,
)
    requires
        middleware.is_null(),
    ensures
        middleware.status_outcome(code) == Err::<(), SimonError>(SimonError::NullHandle),
        target_count > 0 ==> middleware.key_outcome(target_count, code) == Err::<(), SimonError>(
            SimonError::NullHandle,
        ),
        middleware.arming_outcome(installed, code) == Err::<(), SimonError>(
            SimonError::NullHandle,
        ),
        middleware.cleanup_outcome(code, cleared) == Err::<(), SimonError>(SimonError::NullHandle),
{
}

/// A cleanup that the native library refuses fails with the native library's
/// error, whether or not the slot could have been cleared.
pub proof fn failed_cleanup_keeps_its_error<
    N: NativeLibrary,
    S: SendCallback,
    R: ReceiveCallback,
>(middleware: KeyboardMiddleware<N, S, R>, code: int, cleared: bool)
    requires
        !middleware.is_null(),
        code != 0,
    ensures
        middleware.cleanup_outcome(code, cleared) == status_result(code),
        middleware.cleanup_outcome(code, cleared) is Err,
{
}

} // verus!
