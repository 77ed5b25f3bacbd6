use std::cell::RefCell;
use std::rc::Rc;

use glfw_bridge::adapter::{done_value, key_value, no_args, should_close_value};
use glfw_bridge::bridge::Bridge;
use glfw_bridge::error::BridgeError;
use glfw_bridge::keys::KeyAction;
use glfw_bridge::value::Value;

const KEY_A: i64 = 65;
const MAIN_THREAD: u64 = 11;
const OTHER_THREAD: u64 = 12;

#[derive(Debug, Default)]
struct WindowState {
    close_requested: bool,
    down: Vec<i32>,
    frames: u32,
    width: u32,
    height: u32,
    title: String,
}

#[derive(Debug)]
struct FakeWindow {
    state: Rc<RefCell<WindowState>>,
}

#[derive(Debug, Default)]
struct FakeBackend {
    windows: Vec<Rc<RefCell<WindowState>>>,
    pending_presses: Vec<(usize, i32)>,
    refuse_windows: bool,
    polls: u32,
}

impl FakeBackend {
    fn make_window(&mut self, width: u32, height: u32, title: &str) -> Option<FakeWindow> {
        if self.refuse_windows {
            return None;
        }
        let state = Rc::new(RefCell::new(WindowState {
            width,
            height,
            title: title.to_string(),
            ..WindowState::default()
        }));
        self.windows.push(state.clone());
        Some(FakeWindow { state })
    }

    fn poll(&mut self) {
        self.polls += 1;
        for (index, key) in self.pending_presses.drain(..) {
            self.windows[index].borrow_mut().down.push(key);
        }
    }
}

impl FakeWindow {
    fn key(&self, key: i32) -> KeyAction {
        if self.state.borrow().down.contains(&key) {
            KeyAction::Press
        } else {
            KeyAction::Release
        }
    }
}

type TestBridge = Bridge<FakeBackend, FakeWindow>;

fn started() -> TestBridge {
    let mut bridge = TestBridge::new();
    assert_eq!(bridge.init(Some(FakeBackend::default()), MAIN_THREAD), Ok(Value::Boolean(true)));
    bridge
}

fn size_args(width: i64, height: i64, title: &str) -> Vec<Value> {
    vec![Value::Integer(width), Value::Integer(height), Value::Text(title.to_string())]
}

fn create(bridge: &mut TestBridge, width: i64, height: i64, title: &str) -> Result<Value, BridgeError> {
    let request = bridge.plan_create_window(&size_args(width, height, title))?;
    let made = bridge.context_mut()?.make_window(request.width, request.height, &request.title);
    bridge.create_window(made)
}

fn should_close(bridge: &TestBridge, args: &Vec<Value>) -> Result<Value, BridgeError> {
    let found = bridge.should_close_window(args)?;
    Ok(should_close_value(found.map(|w| w.state.borrow().close_requested)))
}

fn swap_buffers(bridge: &mut TestBridge, args: &Vec<Value>) -> Result<Value, BridgeError> {
    if let Some(window) = bridge.swap_buffers_window(args)? {
        window.state.borrow_mut().frames += 1;
    }
    Ok(done_value())
}

fn get_key(bridge: &TestBridge, args: &Vec<Value>) -> Result<Value, BridgeError> {
    let found = bridge.get_key_query(args)?;
    Ok(key_value(found.map(|(w, key)| w.key(key))))
}

fn poll_events(bridge: &mut TestBridge) -> Result<Value, BridgeError> {
    bridge.poll_events_context(&vec![])?.poll();
    Ok(done_value())
}

#[test]
fn scenario_two_windows_and_close_queries() {
    let mut bridge = started();
    assert_eq!(create(&mut bridge, 800, 600, "Test"), Ok(Value::Integer(1)));
    assert_eq!(create(&mut bridge, 320, 240, "Test2"), Ok(Value::Integer(2)));
    assert_eq!(should_close(&bridge, &vec![Value::Integer(1)]), Ok(Value::Boolean(false)));
    assert_eq!(should_close(&bridge, &vec![Value::Integer(99)]), Ok(Value::Boolean(true)));
}

#[test]
fn scenario_key_is_seen_after_press_and_poll() {
    let mut bridge = started();
    assert_eq!(create(&mut bridge, 800, 600, "Test"), Ok(Value::Integer(1)));
    let query = vec![Value::Integer(1), Value::Integer(KEY_A)];
    assert_eq!(get_key(&bridge, &query), Ok(Value::Boolean(false)));
    bridge.context_mut().unwrap().pending_presses.push((0, 65));
    assert_eq!(get_key(&bridge, &query), Ok(Value::Boolean(false)));
    assert_eq!(poll_events(&mut bridge), Ok(Value::Null));
    assert_eq!(get_key(&bridge, &query), Ok(Value::Boolean(true)));
}

#[test]
fn request_carries_size_and_title_to_the_backend() {
    let mut bridge = started();
    let request = bridge.plan_create_window(&size_args(800, 600, "Test")).unwrap();
    assert_eq!(request.width, 800);
    assert_eq!(request.height, 600);
    assert_eq!(request.title, "Test");
    create(&mut bridge, 800, 600, "Test").unwrap();
    let window = bridge.should_close_window(&vec![Value::Integer(1)]).unwrap().unwrap();
    assert_eq!(window.state.borrow().width, 800);
    assert_eq!(window.state.borrow().height, 600);
    assert_eq!(window.state.borrow().title, "Test");
}

#[test]
fn handles_count_up_from_one() {
    let mut bridge = started();
    let mut last = 0;
    for expected in 1..=20i64 {
        let handle = create(&mut bridge, 10, 10, "w").unwrap();
        assert_eq!(handle, Value::Integer(expected));
        assert!(expected > last);
        last = expected;
    }
    assert_eq!(bridge.window_count(), 20);
}

#[test]
fn creations_add_up() {
    let mut bridge = started();
    for _ in 0..3 {
        create(&mut bridge, 10, 10, "before").unwrap();
    }
    let start = bridge.window_count();
    let n = 7;
    let mut seen = Vec::new();
    for _ in 0..n {
        let handle = create(&mut bridge, 10, 10, "w").unwrap().as_int().unwrap();
        assert!(!seen.contains(&handle));
        seen.push(handle);
    }
    assert_eq!(bridge.window_count(), start + n);
    assert_eq!(create(&mut bridge, 10, 10, "next"), Ok(Value::Integer((start + n) as i64 + 1)));
}

#[test]
fn unknown_handle_counts_as_closed() {
    let mut bridge = started();
    create(&mut bridge, 10, 10, "w").unwrap();
    for handle in [0i64, 2, 99, -1, i64::MIN, i64::MAX] {
        assert_eq!(should_close(&bridge, &vec![Value::Integer(handle)]), Ok(Value::Boolean(true)));
    }
}

#[test]
fn close_flag_of_a_window_is_reported() {
    let mut bridge = started();
    create(&mut bridge, 10, 10, "w").unwrap();
    bridge.context().unwrap().windows[0].borrow_mut().close_requested = true;
    assert_eq!(should_close(&bridge, &vec![Value::Integer(1)]), Ok(Value::Boolean(true)));
}

#[test]
fn unknown_handle_swap_and_key_do_not_fail() {
    let mut bridge = started();
    create(&mut bridge, 10, 10, "w").unwrap();
    assert_eq!(swap_buffers(&mut bridge, &vec![Value::Integer(7)]), Ok(Value::Null));
    assert_eq!(bridge.context().unwrap().windows[0].borrow().frames, 0);
    assert_eq!(get_key(&bridge, &vec![Value::Integer(7), Value::Integer(KEY_A)]), Ok(Value::Boolean(false)));
    assert_eq!(get_key(&bridge, &vec![Value::Integer(7), Value::Integer(-5)]), Ok(Value::Boolean(false)));
    assert_eq!(get_key(&bridge, &vec![Value::Integer(0), Value::Integer(100000)]), Ok(Value::Boolean(false)));
}

#[test]
fn swap_reaches_the_window_of_the_handle_only() {
    let mut bridge = started();
    create(&mut bridge, 10, 10, "a").unwrap();
    create(&mut bridge, 10, 10, "b").unwrap();
    assert_eq!(swap_buffers(&mut bridge, &vec![Value::Integer(2)]), Ok(Value::Null));
    assert_eq!(swap_buffers(&mut bridge, &vec![Value::Integer(2)]), Ok(Value::Null));
    let backend = bridge.context().unwrap();
    assert_eq!(backend.windows[0].borrow().frames, 0);
    assert_eq!(backend.windows[1].borrow().frames, 2);
    assert_eq!(bridge.window_count(), 2);
}

#[test]
fn operations_before_init_fail_as_not_initialized() {
    let mut bridge = TestBridge::new();
    assert!(!bridge.is_started());
    let handle = vec![Value::Integer(1)];
    let key = vec![Value::Integer(1), Value::Integer(KEY_A)];
    assert_eq!(create(&mut bridge, 800, 600, "Test"), Err(BridgeError::NotInitialized));
    assert_eq!(should_close(&bridge, &handle), Err(BridgeError::NotInitialized));
    assert_eq!(swap_buffers(&mut bridge, &handle), Err(BridgeError::NotInitialized));
    assert_eq!(get_key(&bridge, &key), Err(BridgeError::NotInitialized));
    assert_eq!(poll_events(&mut bridge), Err(BridgeError::NotInitialized));
    assert_eq!(bridge.context().err(), Some(BridgeError::NotInitialized));
    assert_eq!(bridge.create_window(None).err(), Some(BridgeError::NotInitialized));
    assert_eq!(should_close(&bridge, &vec![]), Err(BridgeError::NotInitialized));
    assert_eq!(get_key(&bridge, &vec![Value::Null]), Err(BridgeError::NotInitialized));
    assert_eq!(bridge.plan_create_window(&vec![]).err(), Some(BridgeError::NotInitialized));
    assert_eq!(bridge.window_count(), 0);
}

#[test]
fn failed_start_is_a_backend_init_error_and_changes_nothing() {
    let mut bridge = TestBridge::new();
    assert_eq!(bridge.init(None, MAIN_THREAD), Err(BridgeError::BackendInit));
    assert!(!bridge.is_started());
    let mut bridge = started();
    create(&mut bridge, 10, 10, "w").unwrap();
    assert_eq!(bridge.init(None, MAIN_THREAD), Err(BridgeError::BackendInit));
    assert!(bridge.is_started());
    assert_eq!(bridge.window_count(), 1);
    assert_eq!(create(&mut bridge, 10, 10, "w"), Ok(Value::Integer(2)));
}

#[test]
fn second_init_discards_windows_and_keeps_their_handles_spent() {
    let mut bridge = started();
    assert_eq!(create(&mut bridge, 10, 10, "a"), Ok(Value::Integer(1)));
    assert_eq!(create(&mut bridge, 10, 10, "b"), Ok(Value::Integer(2)));
    assert_eq!(bridge.init(Some(FakeBackend::default()), MAIN_THREAD), Ok(Value::Boolean(true)));
    assert_eq!(bridge.window_count(), 0);
    assert_eq!(should_close(&bridge, &vec![Value::Integer(1)]), Ok(Value::Boolean(true)));
    assert_eq!(should_close(&bridge, &vec![Value::Integer(2)]), Ok(Value::Boolean(true)));
    assert_eq!(create(&mut bridge, 10, 10, "c"), Ok(Value::Integer(3)));
    assert_eq!(bridge.window_count(), 1);
    assert_eq!(should_close(&bridge, &vec![Value::Integer(3)]), Ok(Value::Boolean(false)));
    assert_eq!(should_close(&bridge, &vec![Value::Integer(1)]), Ok(Value::Boolean(true)));
    assert_eq!(should_close(&bridge, &vec![Value::Integer(2)]), Ok(Value::Boolean(true)));
    assert_eq!(should_close(&bridge, &vec![Value::Integer(4)]), Ok(Value::Boolean(true)));
    assert_eq!(swap_buffers(&mut bridge, &vec![Value::Integer(1)]), Ok(Value::Null));
    assert_eq!(bridge.context().unwrap().windows[0].borrow().frames, 0);
    assert_eq!(swap_buffers(&mut bridge, &vec![Value::Integer(3)]), Ok(Value::Null));
    assert_eq!(bridge.context().unwrap().windows[0].borrow().frames, 1);
    assert_eq!(get_key(&bridge, &vec![Value::Integer(2), Value::Integer(KEY_A)]), Ok(Value::Boolean(false)));
    let found = bridge.should_close_window(&vec![Value::Integer(3)]).unwrap().unwrap();
    assert_eq!(found.state.borrow().title, "c");
}

#[test]
fn handles_never_repeat_over_restarts() {
    let mut bridge = TestBridge::new();
    let mut last = 0;
    for round in 0..5 {
        assert_eq!(bridge.init(Some(FakeBackend::default()), MAIN_THREAD), Ok(Value::Boolean(true)));
        for _ in 0..=round {
            let handle = create(&mut bridge, 10, 10, "w").unwrap().as_int().unwrap();
            assert_eq!(handle, last + 1);
            last = handle;
        }
        assert_eq!(bridge.init(None, MAIN_THREAD), Err(BridgeError::BackendInit));
    }
    assert_eq!(last, 15);
    assert_eq!(bridge.window_count(), 5);
}

#[test]
fn operations_without_arguments_refuse_arguments() {
    let mut bridge = TestBridge::new();
    let extra = vec![Value::Integer(1)];
    assert_eq!(bridge.poll_events_context(&extra).err(), Some(BridgeError::NotInitialized));
    assert_eq!(bridge.get_time_context(&extra).err(), Some(BridgeError::NotInitialized));
    assert_eq!(bridge.get_time_context(&vec![]).err(), Some(BridgeError::NotInitialized));
    assert_eq!(no_args(&extra), Err(BridgeError::Argument));
    assert_eq!(no_args(&vec![Value::Null]), Err(BridgeError::Argument));
    assert_eq!(no_args(&vec![]), Ok(()));
    let mut bridge = started();
    assert_eq!(bridge.poll_events_context(&extra).err(), Some(BridgeError::Argument));
    assert_eq!(bridge.context().unwrap().polls, 0);
    assert_eq!(bridge.get_time_context(&extra).err(), Some(BridgeError::Argument));
    assert!(bridge.get_time_context(&vec![]).is_ok());
    bridge.poll_events_context(&vec![]).unwrap().poll();
    assert_eq!(bridge.context().unwrap().polls, 1);
}

#[test]
fn refused_window_leaves_the_registry_alone() {
    let mut bridge = started();
    create(&mut bridge, 10, 10, "a").unwrap();
    bridge.context_mut().unwrap().refuse_windows = true;
    assert_eq!(create(&mut bridge, 10, 10, "b"), Err(BridgeError::WindowCreation));
    assert_eq!(bridge.window_count(), 1);
    bridge.context_mut().unwrap().refuse_windows = false;
    assert_eq!(create(&mut bridge, 10, 10, "c"), Ok(Value::Integer(2)));
}

#[test]
fn window_without_size_is_refused_before_the_backend() {
    let mut bridge = started();
    for (width, height) in [(0i64, 600i64), (800, 0), (-1, 600), (800, -600), (0, 0), (i64::MIN, 1)] {
        assert_eq!(create(&mut bridge, width, height, "w"), Err(BridgeError::WindowCreation));
    }
    assert_eq!(create(&mut bridge, 2147483648, 1, "w"), Err(BridgeError::WindowCreation));
    assert_eq!(create(&mut bridge, 1, 4294967296 + 600, "w"), Err(BridgeError::WindowCreation));
    assert!(bridge.context().unwrap().windows.is_empty());
    assert_eq!(bridge.window_count(), 0);
    assert_eq!(create(&mut bridge, 1, 1, "w"), Ok(Value::Integer(1)));
    assert_eq!(create(&mut bridge, 2147483647, 2147483647, "w"), Ok(Value::Integer(2)));
}

#[test]
fn wrong_arguments_are_argument_errors() {
    let mut bridge = started();
    create(&mut bridge, 10, 10, "a").unwrap();
    let text = Value::Text("1".to_string());
    assert_eq!(bridge.plan_create_window(&vec![]).err(), Some(BridgeError::Argument));
    assert_eq!(
        bridge.plan_create_window(&vec![Value::Integer(1), Value::Integer(1)]).err(),
        Some(BridgeError::Argument)
    );
    assert_eq!(
        bridge.plan_create_window(&vec![Value::Integer(1), Value::Integer(1), Value::Integer(1)]).err(),
        Some(BridgeError::Argument)
    );
    assert_eq!(
        bridge.plan_create_window(&vec![text.clone(), Value::Integer(0), text.clone()]).err(),
        Some(BridgeError::Argument)
    );
    assert_eq!(should_close(&bridge, &vec![]), Err(BridgeError::Argument));
    assert_eq!(should_close(&bridge, &vec![text.clone()]), Err(BridgeError::Argument));
    assert_eq!(should_close(&bridge, &vec![Value::Integer(1), Value::Integer(1)]), Err(BridgeError::Argument));
    assert_eq!(swap_buffers(&mut bridge, &vec![Value::Null]), Err(BridgeError::Argument));
    assert_eq!(swap_buffers(&mut bridge, &vec![Value::Float(0)]), Err(BridgeError::Argument));
    assert_eq!(get_key(&bridge, &vec![Value::Integer(1)]), Err(BridgeError::Argument));
    assert_eq!(get_key(&bridge, &vec![Value::Integer(1), Value::Boolean(true)]), Err(BridgeError::Argument));
    assert_eq!(get_key(&bridge, &vec![text, Value::Integer(KEY_A)]), Err(BridgeError::Argument));
}

#[test]
fn key_code_outside_the_table_is_an_argument_error_on_a_window() {
    let mut bridge = started();
    create(&mut bridge, 10, 10, "a").unwrap();
    for code in [-1i64, 0, 31, 58, 349, 4294967296 + 65, i64::MAX] {
        assert_eq!(
            get_key(&bridge, &vec![Value::Integer(1), Value::Integer(code)]),
            Err(BridgeError::Argument)
        );
    }
    let found = bridge.get_key_query(&vec![Value::Integer(1), Value::Integer(348)]).unwrap();
    assert_eq!(found.map(|(_, key)| key), Some(348));
}

#[test]
fn only_the_caller_that_started_the_backend_is_admitted() {
    let mut bridge = TestBridge::new();
    assert!(bridge.admits(MAIN_THREAD));
    assert!(bridge.admits(OTHER_THREAD));
    assert_eq!(bridge.init(None, OTHER_THREAD), Err(BridgeError::BackendInit));
    assert!(bridge.admits(MAIN_THREAD));
    assert_eq!(bridge.init(Some(FakeBackend::default()), MAIN_THREAD), Ok(Value::Boolean(true)));
    assert!(bridge.admits(MAIN_THREAD));
    assert!(!bridge.admits(OTHER_THREAD));
    create(&mut bridge, 10, 10, "w").unwrap();
    poll_events(&mut bridge).unwrap();
    swap_buffers(&mut bridge, &vec![Value::Integer(1)]).unwrap();
    assert!(bridge.admits(MAIN_THREAD));
    assert!(!bridge.admits(OTHER_THREAD));
    assert_eq!(bridge.init(Some(FakeBackend::default()), OTHER_THREAD), Ok(Value::Boolean(true)));
    assert!(bridge.admits(OTHER_THREAD));
    assert!(!bridge.admits(MAIN_THREAD));
}

#[test]
fn a_caller_on_another_thread_is_refused() {
    let mut bridge = TestBridge::new();
    assert_eq!(bridge.enter(MAIN_THREAD), Ok(()));
    assert_eq!(bridge.enter(OTHER_THREAD), Ok(()));
    assert_eq!(bridge.init(Some(FakeBackend::default()), MAIN_THREAD), Ok(Value::Boolean(true)));
    assert_eq!(bridge.enter(MAIN_THREAD), Ok(()));
    assert_eq!(bridge.enter(OTHER_THREAD), Err(BridgeError::WrongThread));
    assert_eq!(bridge.enter(0), Err(BridgeError::WrongThread));
}
