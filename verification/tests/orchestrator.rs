use nyxx::modules::io_controller::{EventType, Key};
use nyxx::modules::macro_engine::TimedEvent;
use nyxx::orchestrator::{AppState, Orchestrator, OrchestratorError, TaskAction};

fn create_orchestrator_for_test() -> Orchestrator {
    Orchestrator::new()
}

#[test]
fn test_initial_state_is_idle() {
    let orchestrator = create_orchestrator_for_test();
    assert_eq!(orchestrator.state, AppState::IDLE);
}

#[test]
fn test_start_listening_from_idle() {
    let mut orchestrator = create_orchestrator_for_test();
    assert!(orchestrator.start_listening().is_ok());
    assert_eq!(orchestrator.state, AppState::LISTENING);
}

#[test]
fn test_fail_start_listening_from_executing() {
    let mut orchestrator = create_orchestrator_for_test();
    orchestrator.state = AppState::EXECUTING;
    assert!(orchestrator.start_listening().is_err());
}

#[test]
fn test_start_recording_from_idle() {
    let mut orchestrator = create_orchestrator_for_test();
    assert!(orchestrator.start_recording().is_ok());
    assert_eq!(orchestrator.state, AppState::RECORDING);
}

#[test]
fn test_start_executing_from_idle() {
    let mut orchestrator = create_orchestrator_for_test();
    let task = "test task".to_string();
    assert!(orchestrator.start_executing(task.clone()).is_ok());
    assert_eq!(orchestrator.state, AppState::EXECUTING);
    assert_eq!(orchestrator.session_context, Some(task));
}

#[test]
fn test_stop_returns_to_idle() {
    let mut orchestrator = create_orchestrator_for_test();
    orchestrator.state = AppState::EXECUTING;
    orchestrator.session_context = Some("a task".to_string());

    assert!(orchestrator.stop().is_ok());
    assert_eq!(orchestrator.state, AppState::IDLE);
    assert!(orchestrator.session_context.is_none());
}

#[test]
fn test_cognitive_loop_flow() {
    let mut orchestrator = create_orchestrator_for_test();
    let task = "a trivial plan".to_string();

    let mut step: u64 = 0;
    let result = loop {
        match orchestrator.execute_task_step(step, &task) {
            Ok(TaskAction::Progress { .. }) => step += 1,
            Ok(TaskAction::Done(r)) => break Ok(r),
            Err(e) => break Err(e),
        }
    };

    assert!(result.is_ok());
    let task_result = result.unwrap();
    assert!(task_result.success);
    assert_eq!(orchestrator.state, AppState::IDLE);
}

#[test]
fn task_steps_report_progress() {
    let mut o = Orchestrator::new();
    let task = "t".to_string();
    let messages: Vec<(String, u64)> = (0..4)
        .map(|i| match o.execute_task_step(i, &task) {
            Ok(TaskAction::Progress { message, pause_millis }) => (message, pause_millis),
            _ => panic!("expected progress"),
        })
        .collect();
    assert_eq!(messages[0], ("Generating plan...".to_string(), 1000));
    assert_eq!(messages[1], ("Executing step 1 of 3...".to_string(), 500));
    assert_eq!(messages[3], ("Executing step 3 of 3...".to_string(), 500));
    assert_eq!(o.state, AppState::EXECUTING);
    match o.execute_task_step(4, &task) {
        Ok(TaskAction::Done(r)) => assert_eq!(r.message, "Task completed successfully!"),
        _ => panic!("expected done"),
    }
}

#[test]
fn task_refused_while_recording() {
    let mut o = Orchestrator::new();
    o.start_recording().unwrap();
    match o.execute_task_step(0, &"x".to_string()) {
        Err(e) => assert_eq!(
            e.message(),
            "Invalid state transition: Cannot go from RECORDING to EXECUTING"
        ),
        _ => panic!("expected refusal"),
    }
    assert_eq!(o.state, AppState::RECORDING);
}

#[test]
fn transitions_refused_outside_their_states() {
    let mut o = Orchestrator::new();
    assert!(o.stop_recording("m".to_string()).is_err());
    o.start_listening().unwrap();
    assert!(o.start_recording().is_err());
    assert!(o.start_executing("t".to_string()).is_ok());
    match o.start_listening() {
        Err(OrchestratorError::InvalidStateTransition { from, to }) => {
            assert_eq!(from, AppState::EXECUTING);
            assert_eq!(to, AppState::LISTENING);
        }
        _ => panic!("expected refusal"),
    }
    o.stop().unwrap();
    assert_eq!(o.state, AppState::IDLE);
    assert!(o.session_context.is_none());
}

#[test]
fn error_messages() {
    assert_eq!(
        OrchestratorError::FileSystemError("disk".to_string()).message(),
        "File system error: disk"
    );
    assert_eq!(
        OrchestratorError::EventError("gone".to_string()).message(),
        "Tauri event emission failed: gone"
    );
    assert_eq!(
        OrchestratorError::CognitionError("x".to_string()).message(),
        "Cognition module failed: x"
    );
    assert_eq!(
        OrchestratorError::ToolingError("y".to_string()).message(),
        "Tooling module failed: y"
    );
}

#[test]
fn events_ignored_unless_recording() {
    let mut o = Orchestrator::new();
    o.handle_event(EventType::KeyPress(Key::KeyA), 10);
    assert!(o.recording_buffer.is_empty());
}

#[test]
fn recording_times_and_auto_repeat() {
    let mut o = Orchestrator::new();
    o.start_recording().unwrap();
    o.handle_event(EventType::KeyPress(Key::KeyA), 1_000);
    o.handle_event(EventType::KeyPress(Key::KeyA), 1_500);
    o.handle_event(EventType::KeyRelease(Key::KeyA), 3_000);
    o.handle_event(EventType::KeyRelease(Key::KeyA), 3_100);
    o.handle_event(EventType::MouseMove { x_bits: 1, y_bits: 2 }, 2_000);
    assert_eq!(
        o.recording_buffer,
        vec![
            TimedEvent { event_type: EventType::KeyPress(Key::KeyA), time_since_previous: 0 },
            TimedEvent { event_type: EventType::KeyRelease(Key::KeyA), time_since_previous: 2_000 },
            TimedEvent { event_type: EventType::KeyRelease(Key::KeyA), time_since_previous: 100 },
            TimedEvent {
                event_type: EventType::MouseMove { x_bits: 1, y_bits: 2 },
                time_since_previous: 0
            },
        ]
    );
    o.start_recording().unwrap_err();
}

fn ev(e: EventType, t: u64) -> TimedEvent {
    TimedEvent { event_type: e, time_since_previous: t }
}

#[test]
fn missed_win_press_is_moved_to_front() {
    let mut o = Orchestrator::new();
    o.start_recording().unwrap();
    o.recording_buffer = vec![
        ev(EventType::KeyPress(Key::KeyN), 0),
        ev(EventType::KeyRelease(Key::KeyN), 10),
        ev(EventType::KeyPress(Key::MetaLeft), 20),
        ev(EventType::KeyRelease(Key::MetaLeft), 30),
        ev(EventType::KeyPress(Key::Return), 40),
    ];
    let m = o.stop_recording("notepad".to_string()).unwrap();
    assert_eq!(m.name, "notepad");
    assert_eq!(
        m.events,
        vec![
            ev(EventType::KeyPress(Key::MetaLeft), 0),
            ev(EventType::KeyRelease(Key::MetaLeft), 80_000_000),
            ev(EventType::KeyPress(Key::KeyN), 300_000_000),
            ev(EventType::KeyRelease(Key::KeyN), 10),
            ev(EventType::KeyPress(Key::Return), 40),
        ]
    );
    assert_eq!(o.recording_buffer, m.events);
    assert_eq!(o.state, AppState::RECORDING);
    o.finish_saved_recording(Ok(())).unwrap();
    assert_eq!(o.state, AppState::IDLE);
    assert_eq!(o.session_context, None);
    assert_eq!(o.recording_buffer, m.events);
}

#[test]
fn failed_save_keeps_recording() {
    let mut o = Orchestrator::new();
    o.start_recording().unwrap();
    o.stop_recording("m".to_string()).unwrap();
    let err = o
        .finish_saved_recording(Err(OrchestratorError::FileSystemError("disk full".to_string())))
        .unwrap_err();
    assert_eq!(err.message(), "File system error: disk full");
    assert_eq!(o.state, AppState::RECORDING);
}

#[test]
fn recording_starting_with_modifier_is_kept() {
    let mut o = Orchestrator::new();
    o.start_recording().unwrap();
    let events = vec![
        ev(EventType::KeyPress(Key::ShiftLeft), 0),
        ev(EventType::KeyPress(Key::MetaLeft), 20),
        ev(EventType::KeyRelease(Key::MetaLeft), 30),
    ];
    o.recording_buffer = events.clone();
    assert_eq!(o.stop_recording("m".to_string()).unwrap().events, events);
}

#[test]
fn release_before_press_is_kept() {
    let mut o = Orchestrator::new();
    o.start_recording().unwrap();
    let events = vec![
        ev(EventType::KeyPress(Key::KeyA), 0),
        ev(EventType::KeyRelease(Key::MetaLeft), 20),
        ev(EventType::KeyPress(Key::MetaLeft), 30),
    ];
    o.recording_buffer = events.clone();
    assert_eq!(o.stop_recording("m".to_string()).unwrap().events, events);
}
