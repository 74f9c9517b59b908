use simon_game::{
    simon_error_t, CallbackBridge, FnReceive, FnSend, Handle, KeyboardMiddleware, NativeLibrary,
    SerialMonitor, SimonError,
};
use std::collections::HashMap;
use std::sync::atomic::{AtomicBool, AtomicI32, Ordering};
use std::sync::{Arc, Mutex};

struct MockState {
    serial_connected: bool,
    simon_game_success: bool,
    registered_keys: HashMap<i32, i32>,
    last_simon_length: i32,
    callbacks_registered: bool,
    native_calls: usize,
    destroyed: usize,
    cleanup_code: i32,
}

/// A stand-in for the native library that keeps its state in memory.
#[derive(Clone)]
struct MockLibrary {
    state: Arc<Mutex<MockState>>,
}

impl MockLibrary {
    fn new() -> Self {
        MockLibrary {
            state: Arc::new(Mutex::new(MockState {
                serial_connected: false,
                simon_game_success: true,
                registered_keys: HashMap::new(),
                last_simon_length: 0,
                callbacks_registered: false,
                native_calls: 0,
                destroyed: 0,
                cleanup_code: 0,
            })),
        }
    }

    fn set_simon_game_success(&self, success: bool) {
        self.state.lock().unwrap().simon_game_success = success;
    }

    fn set_cleanup_code(&self, code: i32) {
        self.state.lock().unwrap().cleanup_code = code;
    }

    fn native_calls(&self) -> usize {
        self.state.lock().unwrap().native_calls
    }

    fn destroyed(&self) -> usize {
        self.state.lock().unwrap().destroyed
    }

    fn last_simon_length(&self) -> i32 {
        self.state.lock().unwrap().last_simon_length
    }

    fn registered_key(&self, key_code: i32) -> Option<i32> {
        self.state.lock().unwrap().registered_keys.get(&key_code).copied()
    }

    fn callbacks_registered(&self) -> bool {
        self.state.lock().unwrap().callbacks_registered
    }
}

impl NativeLibrary for MockLibrary {
    fn sm_create(&self, _port_name: &str) -> Handle {
        self.state.lock().unwrap().native_calls += 1;
        Handle::from_raw(1)
    }

    fn sm_destroy(&self, _handle: Handle) {
        let mut state = self.state.lock().unwrap();
        state.native_calls += 1;
        state.destroyed += 1;
    }

    fn sm_connect(&self, handle: Handle) -> i32 {
        let mut state = self.state.lock().unwrap();
        state.native_calls += 1;
        if handle.is_null() {
            return simon_error_t::SIMON_ERROR_NULL_HANDLE.code();
        }
        state.serial_connected = true;
        simon_error_t::SIMON_SUCCESS.code()
    }

    fn sm_disconnect(&self, handle: Handle) -> i32 {
        let mut state = self.state.lock().unwrap();
        state.native_calls += 1;
        if handle.is_null() {
            return simon_error_t::SIMON_ERROR_NULL_HANDLE.code();
        }
        state.serial_connected = false;
        simon_error_t::SIMON_SUCCESS.code()
    }

    fn sm_send_command(&self, handle: Handle, _command: &str) -> i32 {
        let mut state = self.state.lock().unwrap();
        state.native_calls += 1;
        if handle.is_null() {
            return simon_error_t::SIMON_ERROR_NULL_HANDLE.code();
        }
        if !state.serial_connected {
            return simon_error_t::SIMON_ERROR_CONNECTION_FAILED.code();
        }
        simon_error_t::SIMON_SUCCESS.code()
    }

    fn sm_send_simon_game_length(&self, handle: Handle, length: i32) -> i32 {
        let mut state = self.state.lock().unwrap();
        state.native_calls += 1;
        if handle.is_null() {
            return simon_error_t::SIMON_ERROR_NULL_HANDLE.code();
        }
        if !state.serial_connected {
            return simon_error_t::SIMON_ERROR_CONNECTION_FAILED.code();
        }
        if length <= 0 {
            return simon_error_t::SIMON_ERROR_INVALID_PARAMETER.code();
        }
        state.last_simon_length = length;
        simon_error_t::SIMON_SUCCESS.code()
    }

    fn sm_verify_simon_game_success(&self, handle: Handle, _timeout_ms: i32) -> i32 {
        let mut state = self.state.lock().unwrap();
        state.native_calls += 1;
        if handle.is_null() || !state.serial_connected {
            return 0;
        }
        if state.simon_game_success {
            1
        } else {
            0
        }
    }

    fn sm_is_connected(&self, handle: Handle) -> i32 {
        let mut state = self.state.lock().unwrap();
        state.native_calls += 1;
        if handle.is_null() {
            return 0;
        }
        if state.serial_connected {
            1
        } else {
            0
        }
    }

    fn km_create(&self) -> Handle {
        self.state.lock().unwrap().native_calls += 1;
        Handle::from_raw(2)
    }

    fn km_destroy(&self, _handle: Handle) {
        let mut state = self.state.lock().unwrap();
        state.native_calls += 1;
        state.destroyed += 1;
    }

    fn km_initialize(&self, handle: Handle) -> i32 {
        self.state.lock().unwrap().native_calls += 1;
        if handle.is_null() {
            return simon_error_t::SIMON_ERROR_NULL_HANDLE.code();
        }
        simon_error_t::SIMON_SUCCESS.code()
    }

    fn km_register_key(&self, handle: Handle, key_code: i32, target_count: i32) -> i32 {
        let mut state = self.state.lock().unwrap();
        state.native_calls += 1;
        if handle.is_null() {
            return simon_error_t::SIMON_ERROR_NULL_HANDLE.code();
        }
        if target_count <= 0 {
            return simon_error_t::SIMON_ERROR_INVALID_PARAMETER.code();
        }
        state.registered_keys.insert(key_code, target_count);
        simon_error_t::SIMON_SUCCESS.code()
    }

    fn km_cleanup(&self, handle: Handle) -> i32 {
        let mut state = self.state.lock().unwrap();
        state.native_calls += 1;
        if handle.is_null() {
            return simon_error_t::SIMON_ERROR_NULL_HANDLE.code();
        }
        if state.cleanup_code != 0 {
            return state.cleanup_code;
        }
        state.registered_keys.clear();
        state.callbacks_registered = false;
        simon_error_t::SIMON_SUCCESS.code()
    }

    fn km_register_callbacks(&self, handle: Handle) -> i32 {
        let mut state = self.state.lock().unwrap();
        state.native_calls += 1;
        if handle.is_null() {
            return simon_error_t::SIMON_ERROR_NULL_HANDLE.code();
        }
        state.callbacks_registered = true;
        simon_error_t::SIMON_SUCCESS.code()
    }
}

type BoxedSend = FnSend<Box<dyn Fn(i32) + Send>>;
type BoxedReceive = FnReceive<Box<dyn Fn() -> bool + Send>>;
type Middleware = KeyboardMiddleware<MockLibrary, BoxedSend, BoxedReceive>;

fn boxed_send(f: impl Fn(i32) + Send + 'static) -> BoxedSend {
    FnSend::new(Box::new(f))
}

fn boxed_receive(g: impl Fn() -> bool + Send + 'static) -> BoxedReceive {
    FnReceive::new(Box::new(g))
}

fn setup() -> MockLibrary {
    MockLibrary::new()
}

#[test]
fn test_serial_monitor_creation() {
    let mock = setup();

    let monitor = SerialMonitor::new(mock.clone(), "COM6");
    assert!(monitor.is_ok());

    let monitor = monitor.unwrap();
    assert!(!monitor.is_connected());
}

#[test]
fn test_serial_monitor_connect_disconnect() {
    let mock = setup();

    let monitor = SerialMonitor::new(mock.clone(), "COM6").unwrap();

    let result = monitor.connect();
    assert!(result.is_ok());
    assert!(monitor.is_connected());

    let result = monitor.disconnect();
    assert!(result.is_ok());
    assert!(!monitor.is_connected());
}

#[test]
fn test_send_simon_game_length() {
    let mock = setup();

    let monitor = SerialMonitor::new(mock.clone(), "COM6").unwrap();
    let _ = monitor.connect();

    let result = monitor.send_simon_game_length(5);
    assert!(result.is_ok());

    let result = monitor.send_simon_game_length(0);
    assert!(result.is_err());
    match result {
        Err(SimonError::InvalidParameter) => {}
        _ => panic!("Expected InvalidParameter error"),
    }

    let _ = monitor.disconnect();
    let result = monitor.send_simon_game_length(5);
    assert!(result.is_err());
}

#[test]
fn test_verify_simon_game_success() {
    let mock = setup();

    let monitor = SerialMonitor::new(mock.clone(), "COM6").unwrap();
    let _ = monitor.connect();

    mock.set_simon_game_success(true);
    assert!(monitor.verify_simon_game_success(1000));

    mock.set_simon_game_success(false);
    assert!(!monitor.verify_simon_game_success(1000));
}

#[test]
fn test_keyboard_middleware_initialize() {
    let mock = setup();

    let middleware = Middleware::new(mock.clone(), CallbackBridge::new());
    assert!(middleware.is_ok());

    let middleware = middleware.unwrap();
    let result = middleware.initialize();
    assert!(result.is_ok());
}

#[test]
fn test_register_key() {
    let mock = setup();

    let middleware = Middleware::new(mock.clone(), CallbackBridge::new()).unwrap();
    let _ = middleware.initialize();

    let result = middleware.register_key('W' as i32, 5);
    assert!(result.is_ok());

    let result = middleware.register_key('A' as i32, 0);
    assert!(result.is_err());
    match result {
        Err(SimonError::InvalidParameter) => {}
        _ => panic!("Expected InvalidParameter error"),
    }
}

#[test]
fn test_register_callbacks() {
    let mock = setup();

    let middleware = KeyboardMiddleware::new(mock.clone(), CallbackBridge::new()).unwrap();
    let _ = middleware.initialize();

    let send_called = Arc::new(AtomicBool::new(false));
    let receive_called = Arc::new(AtomicBool::new(false));

    let send_called_clone = send_called.clone();
    let receive_called_clone = receive_called.clone();

    let result = middleware.register_callbacks(
        FnSend::new(move |_| {
            send_called_clone.store(true, Ordering::SeqCst);
        }),
        FnReceive::new(move || {
            receive_called_clone.store(true, Ordering::SeqCst);
            true
        }),
    );

    assert!(result.is_ok());
}

#[test]
fn test_cleanup() {
    let mock = setup();

    let middleware = Middleware::new(mock.clone(), CallbackBridge::new()).unwrap();
    let _ = middleware.initialize();
    let _ = middleware.register_key('W' as i32, 5);

    let result = middleware.cleanup();
    assert!(result.is_ok());
}

#[test]
fn test_error_handling() {
    let mut monitor = SerialMonitor::new(setup(), "COM6").unwrap();
    monitor.destroy();

    let connect_result = monitor.connect();
    assert!(matches!(connect_result, Err(SimonError::NullHandle)));

    let send_result = monitor.send_simon_game_length(5);
    assert!(matches!(send_result, Err(SimonError::NullHandle)));
    assert!(!monitor.is_connected());
}

#[test]
fn test_real_serial_connection() {
    let port = String::from("COM6");
    println!("Testing with COM port: {}", port);

    let monitor = SerialMonitor::new(setup(), &port).expect("Failed to create SerialMonitor");

    match monitor.connect() {
        Ok(_) => {
            println!("Successfully connected to hardware");
            assert!(monitor.is_connected());

            let result = monitor.send_command("PING");
            assert!(result.is_ok());
            let _ = monitor.disconnect();
            assert!(!monitor.is_connected());
        }
        Err(err) => {
            println!("Hardware not available: {:?}", err);
            assert!(true);
        }
    }
}

#[test]
fn test_real_simon_game() {
    let monitor = SerialMonitor::new(setup(), "COM6").expect("Failed to create SerialMonitor");
    if let Err(err) = monitor.connect() {
        println!("Hardware not available: {:?}", err);
        return;
    }

    let result = monitor.send_simon_game_length(3);
    assert!(result.is_ok());
    println!("Simon game pattern sent with length 3");
    println!("Please complete the pattern on the hardware...");
    let success = monitor.verify_simon_game_success(20000);
    println!("Pattern completion result: {}", success);
    let _ = monitor.disconnect();
}

#[test]
fn test_keyboard_middleware_with_hardware() {
    let mock = setup();
    let monitor = Arc::new(Mutex::new(
        SerialMonitor::new(mock.clone(), "COM6").expect("Failed to create SerialMonitor"),
    ));
    if let Err(err) = monitor.lock().unwrap().connect() {
        println!("Hardware not available: {:?}", err);
        return;
    }
    let bridge = CallbackBridge::new();
    let middleware = KeyboardMiddleware::new(mock.clone(), bridge.share())
        .expect("Failed to create KeyboardMiddleware");
    let _ = middleware.initialize();
    let _ = middleware.register_key('W' as i32, 3);
    let monitor_clone = monitor.clone();
    let result = middleware.register_callbacks(
        FnSend::new(move |length| {
            println!("Sending Simon game pattern with length: {}", length);
            let _ = monitor_clone.lock().unwrap().send_simon_game_length(length);
        }),
        FnReceive::new(move || {
            println!("Verifying pattern completion...");
            monitor.lock().unwrap().verify_simon_game_success(10000)
        }),
    );
    assert!(result.is_ok());
    println!("Keyboard middleware registered successfully");
    println!("Press 'W' key to test (requires admin privileges)");

    bridge.send_trampoline(3);
    assert_eq!(mock.last_simon_length(), 3);
    assert_eq!(bridge.receive_trampoline(), 1);

    let _ = middleware.cleanup();
}

#[test]
fn nonpositive_length_never_reaches_the_native_library() {
    let mock = setup();
    let monitor = SerialMonitor::new(mock.clone(), "COM6").unwrap();

    for connected in [false, true] {
        if connected {
            monitor.connect().unwrap();
        }
        let before = mock.native_calls();
        for length in [0, -1, -5000, i32::MIN] {
            assert_eq!(monitor.send_simon_game_length(length), Err(SimonError::InvalidParameter));
        }
        assert_eq!(mock.native_calls(), before);
    }
    assert_eq!(mock.last_simon_length(), 0);
}

#[test]
fn nonpositive_target_count_never_reaches_the_native_library() {
    let mock = setup();
    let middleware = Middleware::new(mock.clone(), CallbackBridge::new()).unwrap();
    middleware.initialize().unwrap();

    let before = mock.native_calls();
    for target_count in [0, -1, i32::MIN] {
        assert_eq!(middleware.register_key(65, target_count), Err(SimonError::InvalidParameter));
    }
    assert_eq!(mock.native_calls(), before);
    assert_eq!(mock.registered_key(65), None);

    assert_eq!(middleware.register_key(87, 5), Ok(()));
    assert_eq!(middleware.register_key(87, 9), Ok(()));
    assert_eq!(mock.registered_key(87), Some(9));
}

#[test]
fn sends_fail_after_disconnect() {
    let monitor = SerialMonitor::new(setup(), "COM6").unwrap();
    monitor.connect().unwrap();
    assert_eq!(monitor.send_command("PING"), Ok(()));

    monitor.disconnect().unwrap();
    assert!(!monitor.is_connected());
    assert_eq!(monitor.send_command("PING"), Err(SimonError::ConnectionFailed));
    assert_eq!(monitor.send_simon_game_length(5), Err(SimonError::ConnectionFailed));
}

#[test]
fn dead_monitor_fails_locally() {
    let mock = setup();
    let mut monitor = SerialMonitor::new(mock.clone(), "COM6").unwrap();
    monitor.connect().unwrap();
    monitor.destroy();

    let before = mock.native_calls();
    assert_eq!(monitor.connect(), Err(SimonError::NullHandle));
    assert_eq!(monitor.disconnect(), Err(SimonError::NullHandle));
    assert_eq!(monitor.send_command("PING"), Err(SimonError::NullHandle));
    assert_eq!(monitor.send_simon_game_length(5), Err(SimonError::NullHandle));
    assert!(!monitor.verify_simon_game_success(10));
    assert!(!monitor.is_connected());
    assert_eq!(mock.native_calls(), before);

    assert_eq!(monitor.send_simon_game_length(0), Err(SimonError::InvalidParameter));
    assert_eq!(monitor.send_command("PI\0NG"), Err(SimonError::InvalidParameter));
}

#[test]
fn dead_middleware_fails_locally() {
    let mock = setup();
    let mut middleware = Middleware::new(mock.clone(), CallbackBridge::new()).unwrap();
    middleware.destroy();

    let before = mock.native_calls();
    assert_eq!(middleware.initialize(), Err(SimonError::NullHandle));
    assert_eq!(middleware.register_key(87, 5), Err(SimonError::NullHandle));
    assert_eq!(middleware.cleanup(), Err(SimonError::NullHandle));
    assert_eq!(
        middleware.register_callbacks(boxed_send(|_| {}), boxed_receive(|| true)),
        Err(SimonError::NullHandle)
    );
    assert_eq!(mock.native_calls(), before);
    assert_eq!(middleware.register_key(87, 0), Err(SimonError::InvalidParameter));
}

#[test]
fn native_resource_is_released_once() {
    let mock = setup();
    {
        let mut monitor = SerialMonitor::new(mock.clone(), "COM6").unwrap();
        monitor.destroy();
        assert_eq!(mock.destroyed(), 1);
        monitor.destroy();
        assert_eq!(mock.destroyed(), 1);
    }
    assert_eq!(mock.destroyed(), 1);
    {
        let _monitor = SerialMonitor::new(mock.clone(), "COM6").unwrap();
    }
    assert_eq!(mock.destroyed(), 2);
    {
        let _middleware = Middleware::new(mock.clone(), CallbackBridge::new()).unwrap();
    }
    assert_eq!(mock.destroyed(), 3);
}

#[test]
fn unencodable_text_is_refused_before_the_native_call() {
    let mock = setup();
    assert!(matches!(SerialMonitor::new(mock.clone(), "CO\0M6"), Err(SimonError::NullHandle)));
    assert_eq!(mock.native_calls(), 0);

    let monitor = SerialMonitor::new(mock.clone(), "COM6").unwrap();
    monitor.connect().unwrap();
    let before = mock.native_calls();
    assert_eq!(monitor.send_command("a\0b"), Err(SimonError::InvalidParameter));
    assert_eq!(mock.native_calls(), before);
    assert_eq!(monitor.send_command(""), Ok(()));
}

#[test]
fn verify_follows_the_native_flag_on_every_call() {
    let mock = setup();
    let monitor = SerialMonitor::new(mock.clone(), "COM6").unwrap();
    monitor.connect().unwrap();
    for round in 0..6 {
        let flag = round % 2 == 0;
        mock.set_simon_game_success(flag);
        assert_eq!(monitor.verify_simon_game_success(1000), flag);
    }
}

#[test]
fn second_registration_replaces_the_first() {
    let mock = setup();
    let bridge = CallbackBridge::new();
    let middleware = Middleware::new(mock.clone(), bridge.share()).unwrap();
    middleware.initialize().unwrap();

    let first = Arc::new(AtomicI32::new(0));
    let second = Arc::new(AtomicI32::new(0));
    let first_asked = Arc::new(AtomicBool::new(false));

    let first_clone = first.clone();
    let first_asked_clone = first_asked.clone();
    middleware
        .register_callbacks(
            boxed_send(move |count| first_clone.store(count, Ordering::SeqCst)),
            boxed_receive(move || {
                first_asked_clone.store(true, Ordering::SeqCst);
                true
            }),
        )
        .unwrap();
    let second_clone = second.clone();
    middleware
        .register_callbacks(
            boxed_send(move |count| second_clone.store(count, Ordering::SeqCst)),
            boxed_receive(|| false),
        )
        .unwrap();
    assert!(mock.callbacks_registered());

    bridge.send_trampoline(7);
    assert_eq!(bridge.receive_trampoline(), 0);
    assert_eq!(first.load(Ordering::SeqCst), 0);
    assert_eq!(second.load(Ordering::SeqCst), 7);
    assert!(!first_asked.load(Ordering::SeqCst));
}

#[test]
fn cleanup_clears_the_slot_only_on_success() {
    let mock = setup();
    let bridge = CallbackBridge::new();
    let middleware = Middleware::new(mock.clone(), bridge.share()).unwrap();
    middleware.initialize().unwrap();
    middleware.register_callbacks(boxed_send(|_| {}), boxed_receive(|| true)).unwrap();
    assert_eq!(bridge.receive_trampoline(), 1);

    mock.set_cleanup_code(simon_error_t::SIMON_ERROR_HOOK_FAILED.code());
    assert_eq!(middleware.cleanup(), Err(SimonError::HookFailed));
    assert_eq!(bridge.receive_trampoline(), 1);

    mock.set_cleanup_code(0);
    assert_eq!(middleware.cleanup(), Ok(()));
    assert_eq!(bridge.receive_trampoline(), 0);
    bridge.send_trampoline(3);
}

#[test]
fn dead_middleware_leaves_the_slot_alone() {
    let mock = setup();
    let bridge = CallbackBridge::new();
    let live = Middleware::new(mock.clone(), bridge.share()).unwrap();
    let mut dead = Middleware::new(mock.clone(), bridge.share()).unwrap();

    let seen = Arc::new(AtomicI32::new(0));
    let seen_clone = seen.clone();
    live.register_callbacks(
        boxed_send(move |count| seen_clone.store(count, Ordering::SeqCst)),
        boxed_receive(|| true),
    )
    .unwrap();

    mock.set_cleanup_code(simon_error_t::SIMON_ERROR_HOOK_FAILED.code());
    dead.destroy();
    mock.set_cleanup_code(0);
    assert_eq!(bridge.receive_trampoline(), 1);

    let before = mock.native_calls();
    assert_eq!(
        dead.register_callbacks(boxed_send(|_| {}), boxed_receive(|| false)),
        Err(SimonError::NullHandle)
    );
    assert_eq!(mock.native_calls(), before);
    bridge.send_trampoline(6);
    assert_eq!(seen.load(Ordering::SeqCst), 6);
    assert_eq!(bridge.receive_trampoline(), 1);
}

#[test]
fn arming_follows_the_installation() {
    let mock = setup();
    let mut middleware = Middleware::new(mock.clone(), CallbackBridge::new()).unwrap();

    let before = mock.native_calls();
    assert_eq!(middleware.arm(Err(SimonError::Unknown)), Err(SimonError::Unknown));
    assert_eq!(middleware.arm(Err(SimonError::Timeout)), Err(SimonError::Unknown));
    assert_eq!(mock.native_calls(), before);
    assert!(!mock.callbacks_registered());

    assert_eq!(middleware.arm(Ok(())), Ok(()));
    assert_eq!(mock.native_calls(), before + 1);
    assert!(mock.callbacks_registered());

    middleware.destroy();
    assert_eq!(middleware.arm(Ok(())), Err(SimonError::NullHandle));
    assert_eq!(middleware.arm(Err(SimonError::Unknown)), Err(SimonError::NullHandle));
}

