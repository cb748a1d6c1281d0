use inference_server::ServerError;
use inference_server::lifecycle::InferenceServerState;

#[test]
fn start_succeeds_once() {
    let mut state: InferenceServerState<u32> = InferenceServerState::new();
    assert!(!state.running());
    assert_eq!(state.start(Ok(7)), Ok(()));
    assert!(state.running());
}

#[test]
fn second_start_fails_already_running() {
    let mut state: InferenceServerState<u32> = InferenceServerState::new();
    assert_eq!(state.start(Ok(7)), Ok(()));
    assert_eq!(state.start(Ok(8)), Err(ServerError::AlreadyRunning));
    assert!(state.running());
}

#[test]
fn bind_failure_leaves_server_stopped() {
    let mut state: InferenceServerState<u32> = InferenceServerState::new();
    let r = state.start(Err("address in use".to_string()));
    assert_eq!(r, Err(ServerError::BindFailed("address in use".to_string())));
    assert!(!state.running());
    assert_eq!(state.start(Ok(9)), Ok(()));
    assert!(state.running());
}

#[test]
fn stop_returns_the_stored_handle() {
    let mut state: InferenceServerState<u32> = InferenceServerState::new();
    assert_eq!(state.start(Ok(42)), Ok(()));
    assert_eq!(state.stop(), Ok(42));
    assert!(!state.running());
}

#[test]
fn stop_twice_second_fails_not_running() {
    let mut state: InferenceServerState<u32> = InferenceServerState::new();
    assert_eq!(state.start(Ok(1)), Ok(()));
    assert_eq!(state.stop(), Ok(1));
    assert_eq!(state.stop(), Err(ServerError::NotRunning));
}

#[test]
fn stop_without_start_fails_not_running() {
    let mut state: InferenceServerState<String> = InferenceServerState::default();
    assert_eq!(state.stop(), Err(ServerError::NotRunning));
}

#[test]
fn start_stop_start_cycles() {
    let mut state: InferenceServerState<u32> = InferenceServerState::new();
    assert_eq!(state.start(Ok(1)), Ok(()));
    assert_eq!(state.stop(), Ok(1));
    assert_eq!(state.start(Ok(2)), Ok(()));
    assert_eq!(state.stop(), Ok(2));
    assert_eq!(state.stop(), Err(ServerError::NotRunning));
}
