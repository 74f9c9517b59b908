//! The orchestration layer: the port resource and the input resource in
//! force, each behind its own lock, and the operations that the host asks for.
//!
//! Locks are taken in one order only: the port resource before the input
//! resource, and the callback slot last.
//!
//! What lies under a lock can change whenever the lock is free, so no contract
//! names it. A result that comes from the resource under a lock is stated as
//! the result of some resource of that kind, for what the native library
//! answered to it (`port_reports`, `port_verifies`, `port_commands`,
//! `port_retires`, `input_registers`, `input_retires`, `input_cleans_up`,
//! `input_arms`). A result that comes from a resource made in the call is
//! stated for the native answers to its creation (`port_connection`,
//! `input_initialization`).

use crate::callbacks::{CallbackBridge, ReceiveCallback, SendCallback};
use crate::error::{simon_error_t, status_result, SimonError};
use crate::keyboard::KeyboardMiddleware;
use crate::native::{encodable, Handle, NativeLibrary};
use crate::serial::SerialMonitor;
use crate::sync::{arc_share, guard_mut, guard_ref, mutex_lock, mutex_new};
use std::sync::Arc;
use std::sync::Mutex;
use vstd::prelude::*;

verus! {

/// How long the receive callback waits for the pattern, in milliseconds.
pub const CALLBACK_TIMEOUT_MS: i32 = 5000;

/// A port resource that the orchestration layer and the callbacks share.
pub type SharedMonitor<N> = Arc<Mutex<SerialMonitor<N>>>;

/// An input resource as the orchestration layer holds it.
pub type SharedMiddleware<N> = Arc<Mutex<KeyboardMiddleware<N, PortSender<N>, PortVerifier<N>>>>;

/// The text for a lock that could not be taken.
pub open spec fn lock_failed_text() -> Seq<char> {
    "Lock failed"@
}

/// The text for an operation that needs a port resource where none is in force.
pub open spec fn port_missing_text() -> Seq<char> {
    "Serial monitor not initialized"@
}

/// The text for an operation that needs an input resource where none is in
/// force.
pub open spec fn input_missing_text() -> Seq<char> {
    "Keyboard middleware not initialized"@
}

/// The text for a failure: what was attempted, then the error's name.
pub open spec fn failure_text(prefix: Seq<char>, error: SimonError) -> Seq<char> {
    prefix + error.spec_name()
}

/// What the host is told of a status: the failure's text in place of the error.
pub open spec fn reply(prefix: Seq<char>, r: Result<(), SimonError>, text: Result<(), String>) -> bool {
    match r {
        Ok(()) => text is Ok,
        Err(error) => text matches Err(t) && t@ == failure_text(prefix, error),
    }
}

/// The text for a failure, as the host is to read it.
pub fn describe_failure(prefix: &str, error: SimonError) -> (text: String)
    ensures
        text@ == failure_text(prefix@, error),
{
    let mut text = String::from_str(prefix);
    text.append(error.name());
    text
}

/// Turns an operation's result into what the host is told.
pub fn reply_to_host(prefix: &str, r: Result<(), SimonError>) -> (text: Result<(), String>)
    ensures
        reply(prefix@, r, text),
{
    match r {
        Ok(()) => Ok(()),
        Err(error) => Err(describe_failure(prefix, error)),
    }
}

/// The send callback that the orchestration layer installs: it forwards the
/// pattern length to the port resource.
#[verifier::reject_recursive_types(N)]
pub struct PortSender<N: NativeLibrary + Send + 'static> {
    monitor: SharedMonitor<N>,
}

impl<N: NativeLibrary + Send + 'static> PortSender<N> {
    /// The port resource that the lengths are forwarded to.
    pub closed spec fn target(&self) -> SharedMonitor<N> {
        self.monitor
    }
}

impl<N: NativeLibrary + Send + 'static> SendCallback for PortSender<N> {
    /// Takes the port resource's lock and sends the length. A lock that cannot
    /// be taken and a failed send both pass in silence: the native caller has
    /// no way to hear of them.
    fn send(&self, count: i32) {
        match mutex_lock(&self.monitor) {
            Some(guard) => {
                let _ = guard_ref(&guard).send_simon_game_length(count);
            },
            None => {},
        }
    }
}

/// The receive callback that the orchestration layer installs: it asks the
/// port resource whether the pattern was completed.
#[verifier::reject_recursive_types(N)]
pub struct PortVerifier<N: NativeLibrary + Send + 'static> {
    monitor: SharedMonitor<N>,
}

impl<N: NativeLibrary + Send + 'static> PortVerifier<N> {
    /// The port resource that is asked.
    pub closed spec fn target(&self) -> SharedMonitor<N> {
        self.monitor
    }
}

/// Builds the pair of callbacks that drives `monitor`: both hold one more
/// reference to that very port resource.
pub fn forwarders<N: NativeLibrary + Send + 'static>(monitor: &SharedMonitor<N>) -> (pair: (
    PortSender<N>,
    PortVerifier<N>,
))
    ensures
        pair.0.target() == *monitor,
        pair.1.target() == *monitor,
{
    (PortSender { monitor: arc_share(monitor) }, PortVerifier { monitor: arc_share(monitor) })
}

impl<N: NativeLibrary + Send + 'static> ReceiveCallback for PortVerifier<N> {
    /// Takes the port resource's lock and asks, waiting up to
    /// `CALLBACK_TIMEOUT_MS`. A lock that cannot be taken counts as no.
    fn receive(&self) -> (answer: bool)
        ensures
            !answer || port_verifies::<N>(CALLBACK_TIMEOUT_MS, answer),
    {
        match mutex_lock(&self.monitor) {
            Some(guard) => {
                let monitor = guard_ref(&guard);
                let answer = monitor.verify_simon_game_success(CALLBACK_TIMEOUT_MS);
                proof {
                    lemma_port_verifies(*monitor, CALLBACK_TIMEOUT_MS, answer);
                }
                answer
            },
            None => false,
        }
    }
}

/// The text that confirms a new port connection.
pub open spec fn connected_text() -> Seq<char> {
    "Serial monitor connected successfully"@
}

/// The text for a port resource that reports no connection after a connect
/// that succeeded.
pub open spec fn not_live_text() -> Seq<char> {
    "Serial monitor created but connection failed"@
}

/// The text that confirms a new input middleware.
pub open spec fn initialized_text() -> Seq<char> {
    "Keyboard middleware initialized successfully"@
}

/// The error's name as a text of its own.
pub fn describe(error: SimonError) -> (text: String)
    ensures
        text@ == error.spec_name(),
{
    String::from_str(error.name())
}

/// What establishing a port resource gives where the native library answers
/// `created` to the creation, `code` to the connect and `raw` to the question
/// whether the connection is open, each as far as it is asked.
pub open spec fn port_established<N: NativeLibrary>(
    lib: N,
    port_name: &str,
    created: Handle,
    code: int,
    raw: int,
    r: Result<SerialMonitor<N>, String>,
) -> bool {
    if !encodable(port_name) || created.is_null() {
        r matches Err(text) && text@ == SimonError::NullHandle.spec_name()
    } else if code != 0 {
        r matches Err(text) && status_result(code) matches Err(error) && text@ == failure_text(
            "Failed to connect: "@,
            error,
        ) && call_ensures(N::sm_destroy, (&lib, created), ())
    } else if raw == 0 {
        r matches Err(text) && text@ == not_live_text() && call_ensures(
            N::sm_destroy,
            (&lib, created),
            (),
        )
    } else {
        r matches Ok(monitor) && monitor.library() == lib && monitor.handle() == created
    }
}

/// Creates a port resource, connects it and checks that the native library
/// reports the connection as open. A resource that fails one of the two later
/// steps is released again before the failure is reported.
pub fn establish_port<N: NativeLibrary>(lib: N, port_name: &str) -> (r: Result<
    SerialMonitor<N>,
    String,
>)
    ensures
        exists|created: Handle, code: i32, raw: i32|
            {
                &&& encodable(port_name) ==> call_ensures(N::sm_create, (&lib, port_name), created)
                &&& encodable(port_name) && !created.is_null() ==> call_ensures(
                    N::sm_connect,
                    (&lib, created),
                    code,
                )
                &&& encodable(port_name) && !created.is_null() && code == 0 ==> call_ensures(
                    N::sm_is_connected,
                    (&lib, created),
                    raw,
                )
                &&& port_established(lib, port_name, created, code as int, raw as int, r)
            },
{
    let made = SerialMonitor::new(lib, port_name);
    let ghost created: Handle = if encodable(port_name) {
        choose|created: Handle|
            call_ensures(N::sm_create, (&lib, port_name), created) && SerialMonitor::creation(
                lib,
                created,
                made,
            )
    } else {
        arbitrary()
    };
    let mut monitor = match made {
        Ok(monitor) => monitor,
        Err(error) => {
            let r = Err(describe(error));
            assert(port_established(lib, port_name, created, 0, 0, r));
            return r;
        },
    };
    let connected = monitor.connect();
    let ghost code: i32 = choose|code: i32|
        call_ensures(N::sm_connect, (&lib, created), code) && connected == monitor.status_outcome(
            code as int,
        );
    match connected {
        Ok(()) => {},
        Err(error) => {
            monitor.destroy();
            let r = Err(describe_failure("Failed to connect: ", error));
            assert(port_established(lib, port_name, created, code as int, 0, r));
            return r;
        },
    }
    let live = monitor.is_connected();
    let ghost raw: i32 = choose|raw: i32|
        call_ensures(N::sm_is_connected, (&lib, created), raw) && live == monitor.connected_outcome(
            raw as int,
        );
    if !live {
        monitor.destroy();
        let r = Err(String::from_str("Serial monitor created but connection failed"));
        assert(port_established(lib, port_name, created, code as int, raw as int, r));
        return r;
    }
    let r = Ok(monitor);
    assert(port_established(lib, port_name, created, code as int, raw as int, r));
    r
}

/// What `connect_port` tells: whether the resource that was in force could be
/// retired, and how the new connection went.
pub struct ConnectReport {
    /// The error, if the connection that was open could not be closed. It
    /// does not stand in the way of the new connection.
    pub retire_failure: Option<SimonError>,
    /// The confirmation, or the text of what went wrong with the new connection.
    pub outcome: Result<String, String>,
}

/// Retires a port resource: asks whether its connection is open, and closes
/// it if it is. Returns the error where closing fails. A resource that reports
/// no open connection is not asked to close it.
pub fn retire_monitor<N: NativeLibrary>(monitor: &SerialMonitor<N>) -> (failure: Option<SimonError>)
    ensures
        exists|raw: i32, code: i32| port_retirement(*monitor, raw, code, failure),
{
    let open = monitor.is_connected();
    let ghost raw: i32 = choose|raw: i32|
        (!monitor.is_null() ==> call_ensures(
            N::sm_is_connected,
            (&monitor.library(), monitor.handle()),
            raw,
        )) && open == monitor.connected_outcome(raw as int);
    if open {
        let closed = monitor.disconnect();
        let ghost code: i32 = choose|code: i32|
            (!monitor.is_null() ==> call_ensures(
                N::sm_disconnect,
                (&monitor.library(), monitor.handle()),
                code,
            )) && closed == monitor.status_outcome(code as int);
        let failure = match closed {
            Ok(()) => None,
            Err(error) => Some(error),
        };
        assert(port_retirement(*monitor, raw, code, failure));
        failure
    } else {
        assert(port_retirement(*monitor, raw, 0i32, None));
        None
    }
}

/// Retires the port resource in force, if there is one, under its lock.
/// Returns the error where that fails; a lock that cannot be taken is `Unknown`.
pub fn retire_port<N: NativeLibrary>(current: &Option<SharedMonitor<N>>) -> (failure: Option<
    SimonError,
>)
    ensures
        current is None ==> failure is None,
        current is Some ==> failure == Some(SimonError::Unknown) || port_retires::<N>(failure),
{
    match current {
        None => None,
        Some(shared) => match mutex_lock(shared) {
            None => Some(SimonError::Unknown),
            Some(guard) => {
                let monitor = guard_ref(&guard);
                let failure = retire_monitor(monitor);
                proof {
                    let (raw, code): (i32, i32) = choose|raw: i32, code: i32|
                        port_retirement(*monitor, raw, code, failure);
                    assert(port_retirement(*monitor, raw, code, failure));
                }
                failure
            },
        },
    }
}

/// The texts with which a new port connection can fail.
pub open spec fn connect_failure_text(text: Seq<char>) -> bool {
    ||| text == SimonError::NullHandle.spec_name()
    ||| text == not_live_text()
    ||| exists|error: SimonError| text == failure_text("Failed to connect: "@, error)
}

/// Establishes a port connection: retires the resource in force as far as
/// that goes, then creates, connects and checks a new one, and puts it in
/// force. Where the new connection fails, the resource in force stays.
pub fn connect_port<N: NativeLibrary>(
    current: &mut Option<SharedMonitor<N>>,
    lib: N,
    port_name: &str,
) -> (report: ConnectReport)
    ensures
        *old(current) is None ==> report.retire_failure is None,
        *old(current) is Some ==> report.retire_failure == Some(SimonError::Unknown)
            || port_retires::<N>(report.retire_failure),
        exists|created: Handle, code: i32, raw: i32|
            port_connection(lib, port_name, created, code, raw, report.outcome),
        report.outcome matches Ok(text) ==> text@ == connected_text() && *final(current) is Some,
        report.outcome matches Err(text) ==> connect_failure_text(text@) && *final(current) == *old(
            current,
        ),
        !encodable(port_name) ==> (report.outcome matches Err(text) && text@
            == SimonError::NullHandle.spec_name()),
{
    let retire_failure = retire_port(&*current);
    let established = establish_port(lib, port_name);
    let ghost snapshot = established;
    let outcome = match established {
        Ok(monitor) => {
            *current = Some(Arc::new(mutex_new(monitor)));
            Ok(String::from_str("Serial monitor connected successfully"))
        },
        Err(text) => Err(text),
    };
    proof {
        lemma_port_connection(lib, port_name, snapshot, outcome);
    }
    ConnectReport { retire_failure, outcome }
}

/// Asks the port resource in force whether its connection is open, and hands
/// its answer on. Without a resource the answer is no.
pub fn query_port<N: NativeLibrary>(current: &Option<SharedMonitor<N>>) -> (r: Result<bool, String>)
    ensures
        current is None ==> (r matches Ok(open) && !open),
        r matches Err(text) ==> text@ == lock_failed_text(),
        current is Some ==> (r matches Ok(open) ==> port_reports::<N>(open)),
{
    match current {
        None => Ok(false),
        Some(shared) => match mutex_lock(shared) {
            None => Err(String::from_str("Lock failed")),
            Some(guard) => {
                let monitor = guard_ref(&guard);
                let open = monitor.is_connected();
                proof {
                    lemma_port_reports(*monitor, open);
                }
                Ok(open)
            },
        },
    }
}

/// Sends a command through the port resource in force.
pub fn command_port<N: NativeLibrary>(current: &Option<SharedMonitor<N>>, command: &str) -> (r:
    Result<(), String>)
    ensures
        current is None ==> (r matches Err(text) && text@ == port_missing_text()),
        current is Some ==> (r matches Err(text) && text@ == lock_failed_text())
            || port_commands::<N>(command, r),
        current is Some && !encodable(command) ==> (r matches Err(text) && (text@
            == lock_failed_text() || text@ == SimonError::InvalidParameter.spec_name())),
        r matches Err(text) ==> {
            ||| text@ == port_missing_text()
            ||| text@ == lock_failed_text()
            ||| exists|error: SimonError| text@ == error.spec_name()
        },
{
    match current {
        None => Err(String::from_str("Serial monitor not initialized")),
        Some(shared) => match mutex_lock(shared) {
            None => Err(String::from_str("Lock failed")),
            Some(guard) => {
                let monitor = guard_ref(&guard);
                let sent = monitor.send_command(command);
                let r = match sent {
                    Ok(()) => Ok(()),
                    Err(error) => Err(describe(error)),
                };
                proof {
                    lemma_port_commands(*monitor, command, sent, r);
                }
                r
            },
        },
    }
}

/// Asks the port resource in force whether the pattern was completed within
/// `timeout_ms`, and hands its answer on.
pub fn verify_port<N: NativeLibrary>(current: &Option<SharedMonitor<N>>, timeout_ms: i32) -> (r:
    Result<bool, String>)
    ensures
        current is None ==> (r matches Err(text) && text@ == port_missing_text()),
        r matches Err(text) ==> text@ == port_missing_text() || text@ == lock_failed_text(),
        r matches Ok(success) ==> port_verifies::<N>(timeout_ms, success),
{
    match current {
        None => Err(String::from_str("Serial monitor not initialized")),
        Some(shared) => match mutex_lock(shared) {
            None => Err(String::from_str("Lock failed")),
            Some(guard) => {
                let monitor = guard_ref(&guard);
                let success = monitor.verify_simon_game_success(timeout_ms);
                proof {
                    lemma_port_verifies(*monitor, timeout_ms, success);
                }
                Ok(success)
            },
        },
    }
}

/// What establishing an input resource gives where the native library
/// answers `created` to the creation and, if it is asked, `code` to the
/// initialisation.
pub open spec fn input_established<N: NativeLibrary + Send + 'static>(
    lib: N,
    bridge: CallbackBridge<PortSender<N>, PortVerifier<N>>,
    created: Handle,
    code: int,
    r: Result<KeyboardMiddleware<N, PortSender<N>, PortVerifier<N>>, String>,
) -> bool {
    if created.is_null() {
        r matches Err(text) && text@ == SimonError::NullHandle.spec_name()
    } else if code != 0 {
        r matches Err(text) && status_result(code) matches Err(error) && text@ == failure_text(
            "Failed to initialize: "@,
            error,
        ) && input_released(lib, created)
    } else {
        r matches Ok(middleware) && middleware.library() == lib && middleware.bridge() == bridge
            && middleware.handle() == created
    }
}

/// The input resource that `lib` created as `created` was let go of: its hook
/// was taken down as far as that went, and the native resource released.
pub open spec fn input_released<N: NativeLibrary>(lib: N, created: Handle) -> bool {
    &&& exists|cleanup: i32| call_ensures(N::km_cleanup, (&lib, created), cleanup)
    &&& call_ensures(N::km_destroy, (&lib, created), ())
}

/// Creates an input resource on `bridge` and initialises it. A resource that
/// cannot be initialised is released again before the failure is reported.
pub fn establish_input<N: NativeLibrary + Send + 'static>(
    lib: N,
    bridge: CallbackBridge<PortSender<N>, PortVerifier<N>>,
) -> (r: Result<KeyboardMiddleware<N, PortSender<N>, PortVerifier<N>>, String>)
    ensures
        exists|created: Handle, code: i32|
            {
                &&& call_ensures(N::km_create, (&lib,), created)
                &&& !created.is_null() ==> call_ensures(N::km_initialize, (&lib, created), code)
                &&& input_established(lib, bridge, created, code as int, r)
            },
{
    let made = KeyboardMiddleware::new(lib, bridge);
    let ghost created: Handle = choose|created: Handle|
        call_ensures(N::km_create, (&lib,), created) && KeyboardMiddleware::creation(
            lib,
            bridge,
            created,
            made,
        );
    let mut middleware = match made {
        Ok(middleware) => middleware,
        Err(error) => {
            let r = Err(describe(error));
            assert(input_established(lib, bridge, created, 0, r));
            return r;
        },
    };
    let initialized = middleware.initialize();
    let ghost code: i32 = choose|code: i32|
        call_ensures(N::km_initialize, (&lib, created), code) && initialized
            == middleware.status_outcome(code as int);
    match initialized {
        Ok(()) => {},
        Err(error) => {
            middleware.destroy();
            let r = Err(describe_failure("Failed to initialize: ", error));
            assert(input_released(lib, created));
            assert(input_established(lib, bridge, created, code as int, r));
            return r;
        },
    }
    let r = Ok(middleware);
    assert(input_established(lib, bridge, created, code as int, r));
    r
}

/// Takes the hook of the input resource in force down, as far as that goes.
/// Returns the error where it fails; a lock that cannot be taken is `Unknown`.
pub fn retire_input<N: NativeLibrary + Send + 'static>(
    current: &Option<SharedMiddleware<N>>,
) -> (failure: Option<SimonError>)
    ensures
        current is None ==> failure is None,
        current is Some ==> failure == Some(SimonError::Unknown) || input_retires::<N>(failure),
{
    match current {
        None => None,
        Some(shared) => match mutex_lock(shared) {
            None => Some(SimonError::Unknown),
            Some(guard) => {
                let middleware = guard_ref(&guard);
                let cleaned = middleware.cleanup();
                proof {
                    lemma_input_cleanup(*middleware, cleaned);
                }
                match cleaned {
                    Ok(()) => None,
                    Err(error) => Some(error),
                }
            },
        },
    }
}

/// The texts with which a new input middleware can fail.
pub open spec fn initialize_failure_text(text: Seq<char>) -> bool {
    ||| text == SimonError::NullHandle.spec_name()
    ||| exists|error: SimonError| text == failure_text("Failed to initialize: "@, error)
}

/// Establishes the input middleware: retires the resource in force as far as
/// that goes, then creates and initialises a new one on `bridge`, and puts it
/// in force. Where that fails, the resource in force stays.
pub fn initialize_input<N: NativeLibrary + Send + 'static>(
    current: &mut Option<SharedMiddleware<N>>,
    lib: N,
    bridge: CallbackBridge<PortSender<N>, PortVerifier<N>>,
) -> (r: Result<String, String>)
    ensures
        exists|created: Handle, code: i32| input_initialization(lib, created, code, r),
        r matches Ok(text) ==> text@ == initialized_text() && *final(current) is Some,
        r matches Err(text) ==> initialize_failure_text(text@) && *final(current) == *old(current),
{
    let _ = retire_input(&*current);
    let established = establish_input(lib, bridge);
    let ghost snapshot = established;
    let r = match established {
        Ok(middleware) => {
            *current = Some(Arc::new(mutex_new(middleware)));
            Ok(String::from_str("Keyboard middleware initialized successfully"))
        },
        Err(text) => Err(text),
    };
    proof {
        lemma_input_initialization(lib, bridge, snapshot, r);
    }
    r
}

/// Registers a key with the input resource in force.
pub fn register_input_key<N: NativeLibrary + Send + 'static>(
    current: &Option<SharedMiddleware<N>>,
    key_code: i32,
    target_count: i32,
) -> (r: Result<(), String>)
    ensures
        current is None ==> (r matches Err(text) && text@ == input_missing_text()),
        current is Some ==> (r matches Err(text) && text@ == lock_failed_text())
            || input_registers::<N>(key_code, target_count, r),
        current is Some && target_count <= 0 ==> (r matches Err(text) && (text@
            == lock_failed_text() || text@ == failure_text(
            "Failed to register key: "@,
            SimonError::InvalidParameter,
        ))),
        r matches Err(text) ==> {
            ||| text@ == input_missing_text()
            ||| text@ == lock_failed_text()
            ||| exists|error: SimonError| text@ == failure_text("Failed to register key: "@, error)
        },
{
    match current {
        None => Err(String::from_str("Keyboard middleware not initialized")),
        Some(shared) => match mutex_lock(shared) {
            None => Err(String::from_str("Lock failed")),
            Some(guard) => {
                let middleware = guard_ref(&guard);
                let registered = middleware.register_key(key_code, target_count);
                let r = reply_to_host("Failed to register key: ", registered);
                proof {
                    lemma_input_registers(*middleware, key_code, target_count, registered, r);
                }
                r
            },
        },
    }
}

/// Wires the callbacks: has the input resource in force call into the port
/// resource in force. Both must be there; the port resource is looked for
/// first.
pub fn wire_callbacks<N: NativeLibrary + Send + 'static>(
    port: &Option<SharedMonitor<N>>,
    input: &Option<SharedMiddleware<N>>,
) -> (r: Result<(), String>)
    ensures
        port is None ==> (r matches Err(text) && text@ == port_missing_text()),
        port is Some && input is None ==> (r matches Err(text) && text@ == input_missing_text()),
        port is Some && input is Some ==> (r matches Err(text) && text@ == lock_failed_text())
            || input_arms::<N>(r),
        r matches Err(text) ==> {
            ||| text@ == port_missing_text()
            ||| text@ == input_missing_text()
            ||| text@ == lock_failed_text()
            ||| exists|error: SimonError|
                text@ == failure_text("Failed to register callbacks: "@, error)
        },
{
    let monitor = match port {
        None => {
            return Err(String::from_str("Serial monitor not initialized"));
        },
        Some(shared) => shared,
    };
    let middleware = match input {
        None => {
            return Err(String::from_str("Keyboard middleware not initialized"));
        },
        Some(shared) => shared,
    };
    match mutex_lock(middleware) {
        None => Err(String::from_str("Lock failed")),
        Some(guard) => {
            let (sender, verifier) = forwarders(monitor);
            let target = guard_ref(&guard);
            let armed = target.register_callbacks(sender, verifier);
            let r = reply_to_host("Failed to register callbacks: ", armed);
            proof {
                lemma_input_arms(*target, armed, r);
            }
            r
        },
    }
}

/// Takes the hook of the input resource in force down. Without a resource
/// there is nothing to do.
pub fn cleanup_input<N: NativeLibrary + Send + 'static>(
    current: &Option<SharedMiddleware<N>>,
) -> (r: Result<(), String>)
    ensures
        current is None ==> r is Ok,
        current is Some ==> (r matches Err(text) && text@ == lock_failed_text())
            || input_cleans_up::<N>(r),
        r matches Err(text) ==> {
            ||| text@ == lock_failed_text()
            ||| exists|error: SimonError| text@ == failure_text("Failed to cleanup: "@, error)
        },
{
    match current {
        None => Ok(()),
        Some(shared) => match mutex_lock(shared) {
            None => Err(String::from_str("Lock failed")),
            Some(guard) => {
                let middleware = guard_ref(&guard);
                let cleaned = middleware.cleanup();
                let r = reply_to_host("Failed to cleanup: ", cleaned);
                proof {
                    lemma_input_cleanup(*middleware, cleaned);
                }
                r
            },
        },
    }
}

/// The orchestration state: the port resource and the input resource in
/// force, each behind a lock of its own, and the bridge that the input
/// resources arm.
#[verifier::reject_recursive_types(N)]
pub struct AppState<N: NativeLibrary + Clone + Send + 'static> {
    lib: N,
    bridge: CallbackBridge<PortSender<N>, PortVerifier<N>>,
    serial_monitor: Mutex<Option<SharedMonitor<N>>>,
    keyboard_middleware: Mutex<Option<SharedMiddleware<N>>>,
}

impl<N: NativeLibrary + Clone + Send + 'static> AppState<N> {
    /// The library that new resources are created through.
    pub closed spec fn library(&self) -> N {
        self.lib
    }

    /// The bridge that the input resources of this state arm.
    pub closed spec fn slot_bridge(&self) -> CallbackBridge<PortSender<N>, PortVerifier<N>> {
        self.bridge
    }

    /// A state with no resource in force and an empty callback slot, which
    /// creates its resources through `lib`.
    pub fn new(lib: N) -> (state: Self)
        ensures
            state.library() == lib,
    {
        AppState {
            lib,
            bridge: CallbackBridge::new(),
            serial_monitor: mutex_new(None),
            keyboard_middleware: mutex_new(None),
        }
    }

    /// The bridge whose entry points the native library is to call: one more
    /// reference to the slot that the input resources of this state fill.
    pub fn bridge(&self) -> (bridge: CallbackBridge<PortSender<N>, PortVerifier<N>>)
        ensures
            bridge == self.slot_bridge(),
    {
        self.bridge.share()
    }

    /// Establishes the port connection under the port lock.
    pub fn connect_serial(&self, port_name: &str) -> (report: ConnectReport)
        ensures
            ({
                ||| report.outcome matches Err(text) && text@ == lock_failed_text()
                ||| exists|lib: N, created: Handle, code: i32, raw: i32|
                    cloned(self.library(), lib) && port_connection(
                        lib,
                        port_name,
                        created,
                        code,
                        raw,
                        report.outcome,
                    )
            }),
            report.retire_failure is None || report.retire_failure == Some(SimonError::Unknown)
                || port_retires::<N>(report.retire_failure),
            report.outcome matches Ok(text) ==> text@ == connected_text(),
            report.outcome matches Err(text) ==> text@ == lock_failed_text()
                || connect_failure_text(text@),
            !encodable(port_name) ==> report.outcome is Err,
    {
        match mutex_lock(&self.serial_monitor) {
            None => ConnectReport {
                retire_failure: None,
                outcome: Err(String::from_str("Lock failed")),
            },
            Some(mut guard) => connect_port(guard_mut(&mut guard), self.lib.clone(), port_name),
        }
    }

    /// Asks under the port lock whether the connection is open. The answer is
    /// yes only where a port resource said so.
    pub fn is_connected(&self) -> (r: Result<bool, String>)
        ensures
            r matches Err(text) ==> text@ == lock_failed_text(),
            r matches Ok(open) ==> !open || port_reports::<N>(open),
    {
        match mutex_lock(&self.serial_monitor) {
            None => Err(String::from_str("Lock failed")),
            Some(guard) => query_port(guard_ref(&guard)),
        }
    }

    /// Sends a command under the port lock.
    pub fn send_command(&self, command: &str) -> (r: Result<(), String>)
        ensures
            ({
                ||| r matches Err(text) && (text@ == port_missing_text() || text@
                    == lock_failed_text())
                ||| port_commands::<N>(command, r)
            }),
            !encodable(command) ==> r is Err,
            r matches Err(text) ==> {
                ||| text@ == port_missing_text()
                ||| text@ == lock_failed_text()
                ||| exists|error: SimonError| text@ == error.spec_name()
            },
    {
        match mutex_lock(&self.serial_monitor) {
            None => Err(String::from_str("Lock failed")),
            Some(guard) => command_port(guard_ref(&guard), command),
        }
    }

    /// Asks under the port lock whether the pattern was completed within
    /// `timeout_ms`. An answer is that of a port resource for this timeout.
    pub fn verify_simon_game_success(&self, timeout_ms: i32) -> (r: Result<bool, String>)
        ensures
            r matches Err(text) ==> text@ == port_missing_text() || text@ == lock_failed_text(),
            r matches Ok(success) ==> port_verifies::<N>(timeout_ms, success),
    {
        match mutex_lock(&self.serial_monitor) {
            None => Err(String::from_str("Lock failed")),
            Some(guard) => verify_port(guard_ref(&guard), timeout_ms),
        }
    }

    /// Establishes the input middleware under the input lock.
    pub fn initialize_keyboard_middleware(&self) -> (r: Result<String, String>)
        ensures
            ({
                ||| r matches Err(text) && text@ == lock_failed_text()
                ||| exists|lib: N, created: Handle, code: i32|
                    cloned(self.library(), lib) && input_initialization(lib, created, code, r)
            }),
            r matches Ok(text) ==> text@ == initialized_text(),
            r matches Err(text) ==> text@ == lock_failed_text() || initialize_failure_text(text@),
    {
        match mutex_lock(&self.keyboard_middleware) {
            None => Err(String::from_str("Lock failed")),
            Some(mut guard) => initialize_input(
                guard_mut(&mut guard),
                self.lib.clone(),
                self.bridge.share(),
            ),
        }
    }

    /// Registers a key under the input lock.
    pub fn register_key(&self, key_code: i32, target_count: i32) -> (r: Result<(), String>)
        ensures
            ({
                ||| r matches Err(text) && (text@ == input_missing_text() || text@
                    == lock_failed_text())
                ||| input_registers::<N>(key_code, target_count, r)
            }),
            target_count <= 0 ==> r is Err,
            r matches Err(text) ==> {
                ||| text@ == input_missing_text()
                ||| text@ == lock_failed_text()
                ||| exists|error: SimonError|
                    text@ == failure_text("Failed to register key: "@, error)
            },
    {
        match mutex_lock(&self.keyboard_middleware) {
            None => Err(String::from_str("Lock failed")),
            Some(guard) => register_input_key(guard_ref(&guard), key_code, target_count),
        }
    }

    /// Wires the callbacks under both locks, the port lock first. Succeeds only
    /// where an input resource took the pair and the native library armed it.
    pub fn register_keyboard_callbacks(&self) -> (r: Result<(), String>)
        ensures
            ({
                ||| r matches Err(text) && (text@ == port_missing_text() || text@
                    == input_missing_text() || text@ == lock_failed_text())
                ||| input_arms::<N>(r)
            }),
            r matches Err(text) ==> {
                ||| text@ == port_missing_text()
                ||| text@ == input_missing_text()
                ||| text@ == lock_failed_text()
                ||| exists|error: SimonError|
                    text@ == failure_text("Failed to register callbacks: "@, error)
            },
    {
        let port_guard = match mutex_lock(&self.serial_monitor) {
            None => {
                return Err(String::from_str("Lock failed"));
            },
            Some(guard) => guard,
        };
        let input_guard = match mutex_lock(&self.keyboard_middleware) {
            None => {
                return Err(String::from_str("Lock failed"));
            },
            Some(guard) => guard,
        };
        wire_callbacks(guard_ref(&port_guard), guard_ref(&input_guard))
    }

    /// Takes the hook down under the input lock. A failure that is not the
    /// lock's is that of an input resource's cleanup.
    pub fn cleanup_keyboard_middleware(&self) -> (r: Result<(), String>)
        ensures
            r matches Err(text) ==> text@ == lock_failed_text() || input_cleans_up::<N>(r),
            r matches Err(text) ==> {
                ||| text@ == lock_failed_text()
                ||| exists|error: SimonError| text@ == failure_text("Failed to cleanup: "@, error)
            },
    {
        match mutex_lock(&self.keyboard_middleware) {
            None => Err(String::from_str("Lock failed")),
            Some(guard) => cleanup_input(guard_ref(&guard)),
        }
    }
}

/// The error in a result, if it holds one.
pub open spec fn failure_of(r: Result<(), SimonError>) -> Option<SimonError> {
    match r {
        Ok(()) => None,
        Err(error) => Some(error),
    }
}

/// `open` is what `monitor` answers to the question whether its connection is
/// open, where the native library, if it is asked, answers `raw`.
pub open spec fn port_report<N: NativeLibrary>(monitor: SerialMonitor<N>, raw: i32, open: bool) -> bool {
    &&& !monitor.is_null() ==> call_ensures(
        N::sm_is_connected,
        (&monitor.library(), monitor.handle()),
        raw,
    )
    &&& open == monitor.connected_outcome(raw as int)
}

/// `open` is the answer of a port resource to the question whether its
/// connection is open: no for a dead one, else what the native library said.
pub open spec fn port_reports<N: NativeLibrary>(open: bool) -> bool {
    exists|monitor: SerialMonitor<N>, raw: i32| port_report(monitor, raw, open)
}

/// `success` is what `monitor` answers to the question whether the pattern
/// was completed within `timeout_ms`, where the native library, if it is
/// asked, answers `raw`.
pub open spec fn port_verification<N: NativeLibrary>(
    monitor: SerialMonitor<N>,
    timeout_ms: i32,
    raw: i32,
    success: bool,
) -> bool {
    &&& !monitor.is_null() ==> call_ensures(
        N::sm_verify_simon_game_success,
        (&monitor.library(), monitor.handle(), timeout_ms),
        raw,
    )
    &&& success == monitor.verify_outcome(raw as int)
}

/// `success` is the answer of a port resource to the question whether the
/// pattern was completed within `timeout_ms`: no for a dead one, else what the
/// native library said when it was asked with that timeout.
pub open spec fn port_verifies<N: NativeLibrary>(timeout_ms: i32, success: bool) -> bool {
    exists|monitor: SerialMonitor<N>, raw: i32| port_verification(monitor, timeout_ms, raw, success)
}

/// `failure` is what retiring `monitor` gives where the native library
/// answers `raw` to the question whether the connection is open and, if the
/// connection is open, `code` to the disconnect.
pub open spec fn port_retirement<N: NativeLibrary>(
    monitor: SerialMonitor<N>,
    raw: i32,
    code: i32,
    failure: Option<SimonError>,
) -> bool {
    &&& !monitor.is_null() ==> call_ensures(
        N::sm_is_connected,
        (&monitor.library(), monitor.handle()),
        raw,
    )
    &&& monitor.connected_outcome(raw as int) ==> call_ensures(
        N::sm_disconnect,
        (&monitor.library(), monitor.handle()),
        code,
    )
    &&& failure == if monitor.connected_outcome(raw as int) {
        failure_of(monitor.status_outcome(code as int))
    } else {
        None
    }
}

/// `failure` is what retiring a port resource gives: nothing where it has no
/// connection open, else the error, if any, of the native disconnect.
pub open spec fn port_retires<N: NativeLibrary>(failure: Option<SimonError>) -> bool {
    exists|monitor: SerialMonitor<N>, raw: i32, code: i32|
        port_retirement(monitor, raw, code, failure)
}

/// `cleaned` is what the cleanup of `middleware` gives where the native
/// library, if it is asked, answers `code`, and the slot was cleared or not.
pub open spec fn input_cleanup<N: NativeLibrary + Send + 'static>(
    middleware: KeyboardMiddleware<N, PortSender<N>, PortVerifier<N>>,
    code: i32,
    cleared: bool,
    cleaned: Result<(), SimonError>,
) -> bool {
    &&& !middleware.is_null() ==> call_ensures(
        N::km_cleanup,
        (&middleware.library(), middleware.handle()),
        code,
    )
    &&& cleaned == middleware.cleanup_outcome(code as int, cleared)
}

/// `failure` is the error, if any, of the cleanup of an input resource.
pub open spec fn input_retires<N: NativeLibrary + Send + 'static>(
    failure: Option<SimonError>,
) -> bool {
    exists|
        middleware: KeyboardMiddleware<N, PortSender<N>, PortVerifier<N>>,
        code: i32,
        cleared: bool,
        cleaned: Result<(), SimonError>,
    |
        input_cleanup(middleware, code, cleared, cleaned) && failure == failure_of(cleaned)
}

/// `r` is what the host is told of the cleanup of an input resource.
pub open spec fn input_cleans_up<N: NativeLibrary + Send + 'static>(r: Result<(), String>) -> bool {
    exists|
        middleware: KeyboardMiddleware<N, PortSender<N>, PortVerifier<N>>,
        code: i32,
        cleared: bool,
        cleaned: Result<(), SimonError>,
    |
        input_cleanup(middleware, code, cleared, cleaned) && reply(
            "Failed to cleanup: "@,
            cleaned,
            r,
        )
}

/// `armed` is what `middleware` gives for a registration of callbacks where
/// the pair went into the slot or not and the native library, if it is asked,
/// answers `code`.
pub open spec fn input_arming<N: NativeLibrary + Send + 'static>(
    middleware: KeyboardMiddleware<N, PortSender<N>, PortVerifier<N>>,
    installed: bool,
    code: i32,
    armed: Result<(), SimonError>,
) -> bool {
    &&& installed && !middleware.is_null() ==> call_ensures(
        N::km_register_callbacks,
        (&middleware.library(), middleware.handle()),
        code,
    )
    &&& armed == middleware.arming_outcome(installed, code as int)
}

/// `r` is what the host is told of a registration of callbacks with an input
/// resource: success only where the pair went into the slot and the native
/// library armed a live middleware.
pub open spec fn input_arms<N: NativeLibrary + Send + 'static>(r: Result<(), String>) -> bool {
    exists|
        middleware: KeyboardMiddleware<N, PortSender<N>, PortVerifier<N>>,
        installed: bool,
        code: i32,
        armed: Result<(), SimonError>,
    |
        input_arming(middleware, installed, code, armed) && reply(
            "Failed to register callbacks: "@,
            armed,
            r,
        )
}

proof fn lemma_port_reports<N: NativeLibrary>(monitor: SerialMonitor<N>, open: bool)
    requires
        exists|raw: i32|
            (!monitor.is_null() ==> call_ensures(
                N::sm_is_connected,
                (&monitor.library(), monitor.handle()),
                raw,
            )) && open == monitor.connected_outcome(raw as int),
    ensures
        port_reports::<N>(open),
{
    let raw: i32 = choose|raw: i32|
        (!monitor.is_null() ==> call_ensures(
            N::sm_is_connected,
            (&monitor.library(), monitor.handle()),
            raw,
        )) && open == monitor.connected_outcome(raw as int);
    assert(port_report(monitor, raw, open));
}

proof fn lemma_port_verifies<N: NativeLibrary>(
    monitor: SerialMonitor<N>,
    timeout_ms: i32,
    success: bool,
)
    requires
        exists|raw: i32|
            (!monitor.is_null() ==> call_ensures(
                N::sm_verify_simon_game_success,
                (&monitor.library(), monitor.handle(), timeout_ms),
                raw,
            )) && success == monitor.verify_outcome(raw as int),
    ensures
        port_verifies::<N>(timeout_ms, success),
{
    let raw: i32 = choose|raw: i32|
        (!monitor.is_null() ==> call_ensures(
            N::sm_verify_simon_game_success,
            (&monitor.library(), monitor.handle(), timeout_ms),
            raw,
        )) && success == monitor.verify_outcome(raw as int);
    assert(port_verification(monitor, timeout_ms, raw, success));
}

proof fn lemma_input_cleanup<N: NativeLibrary + Send + 'static>(
    middleware: KeyboardMiddleware<N, PortSender<N>, PortVerifier<N>>,
    cleaned: Result<(), SimonError>,
)
    requires
        exists|code: i32, cleared: bool|
            (!middleware.is_null() ==> call_ensures(
                N::km_cleanup,
                (&middleware.library(), middleware.handle()),
                code,
            )) && cleaned == middleware.cleanup_outcome(code as int, cleared),
    ensures
        exists|code: i32, cleared: bool| input_cleanup(middleware, code, cleared, cleaned),
{
    let (code, cleared): (i32, bool) = choose|code: i32, cleared: bool|
        (!middleware.is_null() ==> call_ensures(
            N::km_cleanup,
            (&middleware.library(), middleware.handle()),
            code,
        )) && cleaned == middleware.cleanup_outcome(code as int, cleared);
    assert(input_cleanup(middleware, code, cleared, cleaned));
}

proof fn lemma_input_arms<N: NativeLibrary + Send + 'static>(
    middleware: KeyboardMiddleware<N, PortSender<N>, PortVerifier<N>>,
    armed: Result<(), SimonError>,
    r: Result<(), String>,
)
    requires
        exists|installed: bool, code: i32|
            (installed && !middleware.is_null() ==> call_ensures(
                N::km_register_callbacks,
                (&middleware.library(), middleware.handle()),
                code,
            )) && armed == middleware.arming_outcome(installed, code as int),
        reply("Failed to register callbacks: "@, armed, r),
    ensures
        input_arms::<N>(r),
{
    let (installed, code): (bool, i32) = choose|installed: bool, code: i32|
        (installed && !middleware.is_null() ==> call_ensures(
            N::km_register_callbacks,
            (&middleware.library(), middleware.handle()),
            code,
        )) && armed == middleware.arming_outcome(installed, code as int);
    assert(input_arming(middleware, installed, code, armed));
}

/// The texts in a host result.
pub open spec fn texts(r: Result<String, String>) -> Result<Seq<char>, Seq<char>> {
    match r {
        Ok(text) => Ok(text@),
        Err(text) => Err(text@),
    }
}

/// The error that a failing status code stands for.
pub open spec fn status_error(code: int) -> SimonError {
    SimonError::spec_from(simon_error_t::spec_from_code(code))
}

/// What the host is told of a new port connection where the native library
/// answers `created` to the creation, `code` to the connect and `raw` to the
/// question whether the connection is open, each as far as it is asked.
pub open spec fn connect_outcome(port_name: &str, created: Handle, code: int, raw: int) -> Result<
    Seq<char>,
    Seq<char>,
> {
    if !encodable(port_name) || created.is_null() {
        Err(SimonError::NullHandle.spec_name())
    } else if code != 0 {
        Err(failure_text("Failed to connect: "@, status_error(code)))
    } else if raw == 0 {
        Err(not_live_text())
    } else {
        Ok(connected_text())
    }
}

/// `outcome` is what the host is told of a new port connection made through
/// `lib`, for the answers `created`, `code` and `raw` that the native library
/// gave to the creation, the connect and the question whether the connection
/// is open. A resource that was created and then failed was released.
pub open spec fn port_connection<N: NativeLibrary>(
    lib: N,
    port_name: &str,
    created: Handle,
    code: i32,
    raw: i32,
    outcome: Result<String, String>,
) -> bool {
    &&& encodable(port_name) ==> call_ensures(N::sm_create, (&lib, port_name), created)
    &&& encodable(port_name) && !created.is_null() ==> call_ensures(
        N::sm_connect,
        (&lib, created),
        code,
    )
    &&& encodable(port_name) && !created.is_null() && code == 0 ==> call_ensures(
        N::sm_is_connected,
        (&lib, created),
        raw,
    )
    &&& encodable(port_name) && !created.is_null() && (code != 0 || raw == 0) ==> call_ensures(
        N::sm_destroy,
        (&lib, created),
        (),
    )
    &&& texts(outcome) == connect_outcome(port_name, created, code as int, raw as int)
}

/// What the host is told of a new input middleware where the native library
/// answers `created` to the creation and, if it is asked, `code` to the
/// initialisation.
pub open spec fn initialize_outcome(created: Handle, code: int) -> Result<Seq<char>, Seq<char>> {
    if created.is_null() {
        Err(SimonError::NullHandle.spec_name())
    } else if code != 0 {
        Err(failure_text("Failed to initialize: "@, status_error(code)))
    } else {
        Ok(initialized_text())
    }
}

/// `r` is what the host is told of a new input middleware made through `lib`,
/// for the answers `created` and `code` that the native library gave to the
/// creation and the initialisation. A resource that was created and could not
/// be initialised was released.
pub open spec fn input_initialization<N: NativeLibrary>(
    lib: N,
    created: Handle,
    code: i32,
    r: Result<String, String>,
) -> bool {
    &&& call_ensures(N::km_create, (&lib,), created)
    &&& !created.is_null() ==> call_ensures(N::km_initialize, (&lib, created), code)
    &&& !created.is_null() && code != 0 ==> input_released(lib, created)
    &&& texts(r) == initialize_outcome(created, code as int)
}

/// `sent` is what `monitor` gives for `command` where the native library, if
/// it is asked, answers `code`.
pub open spec fn port_command<N: NativeLibrary>(
    monitor: SerialMonitor<N>,
    command: &str,
    code: i32,
    sent: Result<(), SimonError>,
) -> bool {
    &&& encodable(command) && !monitor.is_null() ==> call_ensures(
        N::sm_send_command,
        (&monitor.library(), monitor.handle(), command),
        code,
    )
    &&& sent == monitor.command_outcome(command, code as int)
}

/// What the host is told of a command: on failure the error's name alone.
pub open spec fn command_reply(sent: Result<(), SimonError>, r: Result<(), String>) -> bool {
    match sent {
        Ok(()) => r is Ok,
        Err(error) => r matches Err(text) && text@ == error.spec_name(),
    }
}

/// `r` is what the host is told of sending `command` through a port resource.
pub open spec fn port_commands<N: NativeLibrary>(command: &str, r: Result<(), String>) -> bool {
    exists|monitor: SerialMonitor<N>, code: i32, sent: Result<(), SimonError>|
        port_command(monitor, command, code, sent) && command_reply(sent, r)
}

/// `registered` is what `middleware` gives for the key and count where the
/// native library, if it is asked, answers `code`.
pub open spec fn input_registration<N: NativeLibrary + Send + 'static>(
    middleware: KeyboardMiddleware<N, PortSender<N>, PortVerifier<N>>,
    key_code: i32,
    target_count: i32,
    code: i32,
    registered: Result<(), SimonError>,
) -> bool {
    &&& target_count > 0 && !middleware.is_null() ==> call_ensures(
        N::km_register_key,
        (&middleware.library(), middleware.handle(), key_code, target_count),
        code,
    )
    &&& registered == middleware.key_outcome(target_count as int, code as int)
}

/// `r` is what the host is told of registering the key and count with an
/// input resource.
pub open spec fn input_registers<N: NativeLibrary + Send + 'static>(
    key_code: i32,
    target_count: i32,
    r: Result<(), String>,
) -> bool {
    exists|
        middleware: KeyboardMiddleware<N, PortSender<N>, PortVerifier<N>>,
        code: i32,
        registered: Result<(), SimonError>,
    |
        input_registration(middleware, key_code, target_count, code, registered) && reply(
            "Failed to register key: "@,
            registered,
            r,
        )
}

proof fn lemma_port_connection<N: NativeLibrary>(
    lib: N,
    port_name: &str,
    established: Result<SerialMonitor<N>, String>,
    outcome: Result<String, String>,
)
    requires
        exists|created: Handle, code: i32, raw: i32|
            {
                &&& encodable(port_name) ==> call_ensures(N::sm_create, (&lib, port_name), created)
                &&& encodable(port_name) && !created.is_null() ==> call_ensures(
                    N::sm_connect,
                    (&lib, created),
                    code,
                )
                &&& encodable(port_name) && !created.is_null() && code == 0 ==> call_ensures(
                    N::sm_is_connected,
                    (&lib, created),
                    raw,
                )
                &&& port_established(lib, port_name, created, code as int, raw as int, established)
            },
        match established {
            Ok(_) => outcome matches Ok(text) && text@ == connected_text(),
            Err(text) => outcome matches Err(told) && told@ == text@,
        },
    ensures
        exists|created: Handle, code: i32, raw: i32|
            port_connection(lib, port_name, created, code, raw, outcome),
{
    let (created, code, raw): (Handle, i32, i32) = choose|created: Handle, code: i32, raw: i32|
        {
            &&& encodable(port_name) ==> call_ensures(N::sm_create, (&lib, port_name), created)
            &&& encodable(port_name) && !created.is_null() ==> call_ensures(
                N::sm_connect,
                (&lib, created),
                code,
            )
            &&& encodable(port_name) && !created.is_null() && code == 0 ==> call_ensures(
                N::sm_is_connected,
                (&lib, created),
                raw,
            )
            &&& port_established(lib, port_name, created, code as int, raw as int, established)
        };
    assert(port_connection(lib, port_name, created, code, raw, outcome));
}

proof fn lemma_input_initialization<N: NativeLibrary + Send + 'static>(
    lib: N,
    bridge: CallbackBridge<PortSender<N>, PortVerifier<N>>,
    established: Result<KeyboardMiddleware<N, PortSender<N>, PortVerifier<N>>, String>,
    r: Result<String, String>,
)
    requires
        exists|created: Handle, code: i32|
            {
                &&& call_ensures(N::km_create, (&lib,), created)
                &&& !created.is_null() ==> call_ensures(N::km_initialize, (&lib, created), code)
                &&& input_established(lib, bridge, created, code as int, established)
            },
        match established {
            Ok(_) => r matches Ok(text) && text@ == initialized_text(),
            Err(text) => r matches Err(told) && told@ == text@,
        },
    ensures
        exists|created: Handle, code: i32| input_initialization(lib, created, code, r),
{
    let (created, code): (Handle, i32) = choose|created: Handle, code: i32|
        {
            &&& call_ensures(N::km_create, (&lib,), created)
            &&& !created.is_null() ==> call_ensures(N::km_initialize, (&lib, created), code)
            &&& input_established(lib, bridge, created, code as int, established)
        };
    assert(input_initialization(lib, created, code, r));
}

proof fn lemma_port_commands<N: NativeLibrary>(
    monitor: SerialMonitor<N>,
    command: &str,
    sent: Result<(), SimonError>,
    r: Result<(), String>,
)
    requires
        exists|code: i32|
            (encodable(command) && !monitor.is_null() ==> call_ensures(
                N::sm_send_command,
                (&monitor.library(), monitor.handle(), command),
                code,
            )) && sent == monitor.command_outcome(command, code as int),
        command_reply(sent, r),
    ensures
        port_commands::<N>(command, r),
{
    let code: i32 = choose|code: i32|
        (encodable(command) && !monitor.is_null() ==> call_ensures(
            N::sm_send_command,
            (&monitor.library(), monitor.handle(), command),
            code,
        )) && sent == monitor.command_outcome(command, code as int);
    assert(port_command(monitor, command, code, sent));
}

proof fn lemma_input_registers<N: NativeLibrary + Send + 'static>(
    middleware: KeyboardMiddleware<N, PortSender<N>, PortVerifier<N>>,
    key_code: i32,
    target_count: i32,
    registered: Result<(), SimonError>,
    r: Result<(), String>,
)
    requires
        exists|code: i32|
            (target_count > 0 && !middleware.is_null() ==> call_ensures(
                N::km_register_key,
                (&middleware.library(), middleware.handle(), key_code, target_count),
                code,
            )) && registered == middleware.key_outcome(target_count as int, code as int),
        reply("Failed to register key: "@, registered, r),
    ensures
        input_registers::<N>(key_code, target_count, r),
{
    let code: i32 = choose|code: i32|
        (target_count > 0 && !middleware.is_null() ==> call_ensures(
            N::km_register_key,
            (&middleware.library(), middleware.handle(), key_code, target_count),
            code,
        )) && registered == middleware.key_outcome(target_count as int, code as int);
    assert(input_registration(middleware, key_code, target_count, code, registered));
}

} // verus!
