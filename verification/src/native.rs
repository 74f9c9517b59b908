//! The boundary to the native library: the opaque handle, the text that can
//! cross the boundary, and the function table itself.

use vstd::prelude::*;
use vstd::string::*;

verus! {

/// An opaque reference to a native resource. Its value means nothing to this
/// layer but for one case: zero is the null handle, which refers to nothing.
#[derive(Debug, Clone, Copy, PartialEq, Eq, Structural)]
pub struct Handle {
    pub raw: usize,
}

impl Handle {
    pub open spec fn spec_is_null(self) -> bool {
        self.raw == 0
    }

    pub fn null() -> (h: Handle)
        ensures
            h.raw == 0,
        opens_invariants none
        no_unwind
    {
        Handle { raw: 0 }
    }

    pub fn from_raw(raw: usize) -> (h: Handle)
        ensures
            h.raw == raw,
    {
        Handle { raw }
    }

    pub fn raw(self) -> (raw: usize)
        ensures
            raw == self.raw,
    {
        self.raw
    }

    #[verifier::when_used_as_spec(spec_is_null)]
    pub fn is_null(self) -> (null: bool)
        ensures
            null == self.spec_is_null(),
        opens_invariants none
        no_unwind
    {
        self.raw == 0
    }
}

/// Text can be handed to the native library as a NUL-terminated string exactly
/// when none of its bytes is zero.
pub open spec fn encodable(text: &str) -> bool {
    forall|i: int| 0 <= i < text.spec_bytes().len() ==> text.spec_bytes()[i] != 0u8
}

pub fn is_encodable(text: &str) -> (ok: bool)
    ensures
        ok == encodable(text),
{
    let bytes = text.as_bytes();
    let mut i: usize = 0;
    while i < bytes.len()
        invariant
            bytes@ == text.spec_bytes(),
            i <= bytes@.len(),
            forall|j: int| 0 <= j < i ==> bytes@[j] != 0u8,
        decreases bytes@.len() - i,
    {
        if bytes[i] == 0 {
            return false;
        }
        i += 1;
    }
    true
}

/// What the native answer to "is the connection open" means: anything but
/// zero is yes.
pub open spec fn connected_flag(raw: int) -> bool {
    raw != 0
}

/// What the native answer to "was the pattern completed" means: a positive
/// answer is yes, zero and every negative answer is no.
pub open spec fn success_flag(raw: int) -> bool {
    raw > 0
}

/// Reads the native answer to "is the connection open".
pub fn decode_connected(raw: i32) -> (open: bool)
    ensures
        open == connected_flag(raw as int),
{
    raw != 0
}

/// Reads the native answer to "was the pattern completed".
pub fn decode_success(raw: i32) -> (success: bool)
    ensures
        success == success_flag(raw as int),
{
    raw > 0
}

/// The native library's function table.
///
/// A value of an implementing type stands for the loaded library. Every method
/// is one native entry point; status codes and flags come back as the integers
/// that the native side returned, untouched. Nothing is promised of what a call
/// returns. The preconditions are what this layer guarantees of every call that
/// it makes: it never passes a null handle, a count below one, or text with a
/// zero byte in it.
///
/// One thing is asked of an implementor and not proved here: `sm_destroy`,
/// `km_cleanup` and `km_destroy` return and do not unwind. They run when a
/// resource is dropped, where nothing could catch a panic. A native entry
/// point cannot unwind into its caller; a stand-in written in Rust must not
/// panic in these three.
pub trait NativeLibrary {
    /// Creates a serial monitor for the named port. A null handle reports failure.
    fn sm_create(&self, port_name: &str) -> Handle
        requires
            encodable(port_name),
    ;

    fn sm_destroy(&self, handle: Handle)
        requires
            !handle.is_null(),
    ;

    fn sm_connect(&self, handle: Handle) -> i32
        requires
            !handle.is_null(),
    ;

    fn sm_disconnect(&self, handle: Handle) -> i32
        requires
            !handle.is_null(),
    ;

    fn sm_send_command(&self, handle: Handle, command: &str) -> i32
        requires
            !handle.is_null(),
            encodable(command),
    ;

    fn sm_send_simon_game_length(&self, handle: Handle, length: i32) -> i32
        requires
            !handle.is_null(),
            length > 0,
    ;

    /// Waits up to `timeout_ms` for the pattern to be completed.
    fn sm_verify_simon_game_success(&self, handle: Handle, timeout_ms: i32) -> i32
        requires
            !handle.is_null(),
    ;

    fn sm_is_connected(&self, handle: Handle) -> i32
        requires
            !handle.is_null(),
    ;

    /// Creates a keyboard middleware. A null handle reports failure.
    fn km_create(&self) -> Handle;

    fn km_destroy(&self, handle: Handle)
        requires
            !handle.is_null(),
    ;

    fn km_initialize(&self, handle: Handle) -> i32
        requires
            !handle.is_null(),
    ;

    fn km_register_key(&self, handle: Handle, key_code: i32, target_count: i32) -> i32
        requires
            !handle.is_null(),
            target_count > 0,
    ;

    fn km_cleanup(&self, handle: Handle) -> i32
        requires
            !handle.is_null(),
    ;

    /// Arms the two trampoline entry points for this middleware.
    fn km_register_callbacks(&self, handle: Handle) -> i32
        requires
            !handle.is_null(),
    ;
}

/// `NativeLibrary::sm_destroy`, for a resource that is let go of. The call is
/// the function table's own; what is taken on trust is that it does not unwind.
#[verifier::external_body]
pub(crate) fn release_port<N: NativeLibrary>(lib: &N, handle: Handle) -> (done: ())
    requires
        !handle.is_null(),
    ensures
        call_ensures(N::sm_destroy, (lib, handle), done),
    opens_invariants none
    no_unwind
{
    lib.sm_destroy(handle)
}

/// `NativeLibrary::km_cleanup`, with its status code as it came. The call is
/// the function table's own; what is taken on trust is that it does not unwind.
#[verifier::external_body]
pub(crate) fn take_hook_down<N: NativeLibrary>(lib: &N, handle: Handle) -> (code: i32)
    requires
        !handle.is_null(),
    ensures
        call_ensures(N::km_cleanup, (lib, handle), code),
    opens_invariants none
    no_unwind
{
    lib.km_cleanup(handle)
}

/// `NativeLibrary::km_destroy`, for a resource that is let go of. The call is
/// the function table's own; what is taken on trust is that it does not unwind.
#[verifier::external_body]
pub(crate) fn release_input<N: NativeLibrary>(lib: &N, handle: Handle) -> (done: ())
    requires
        !handle.is_null(),
    ensures
        call_ensures(N::km_destroy, (lib, handle), done),
    opens_invariants none
    no_unwind
{
    lib.km_destroy(handle)
}

} // verus!
