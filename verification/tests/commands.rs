use desk_notes::hotkey::{
    on_shortcut, on_toggle, Command, Key, KeyState, Modifiers, Shortcut, Visibility, Window,
    WindowAction,
};
use desk_notes::{
    greet, load_notes, load_tasks, save_notes, save_tasks, Document, Effect, IoStage, LoadPhase,
    LoadStep, MemoryDir, Outcome, SaveStep, StoreError, TasksPayload,
};
use serde_json::Value;

fn numbers() -> Value {
    Value::Array(vec![Value::from(1), Value::from(2), Value::from(3)])
}

#[test]
fn load_before_any_save_is_the_empty_list() {
    let mut dir = MemoryDir::new();
    assert_eq!(dir.load(load_notes()).unwrap(), "[]");
    assert_eq!(dir.load(load_tasks()).unwrap(), "[]");
}

#[test]
fn notes_round_trip() {
    let mut dir = MemoryDir::new();
    let text = serde_json::to_string(&numbers()).unwrap();
    assert_eq!(dir.load(load_notes()).unwrap(), "[]");
    dir.save(save_notes(text.clone())).unwrap();
    assert_eq!(dir.load(load_notes()).unwrap(), text);
}

#[test]
fn notes_are_stored_verbatim() {
    let mut dir = MemoryDir::new();
    let text = String::from("  { \"a\" : [ 1 , 2 ] }\n not even json \u{1F600}");
    dir.save(save_notes(text.clone())).unwrap();
    assert_eq!(dir.load(load_notes()).unwrap(), text);
    dir.save(save_notes(String::new())).unwrap();
    assert_eq!(dir.load(load_notes()).unwrap(), "");
}

#[test]
fn saving_twice_is_saving_once() {
    let mut once = MemoryDir::new();
    once.save(save_notes(String::from("[\"a\"]"))).unwrap();
    let mut twice = MemoryDir::new();
    twice.save(save_notes(String::from("[\"a\"]"))).unwrap();
    twice.save(save_notes(String::from("[\"a\"]"))).unwrap();
    assert_eq!(once.load(load_notes()).unwrap(), twice.load(load_notes()).unwrap());
    assert_eq!(twice.load(load_notes()).unwrap(), "[\"a\"]");
    assert_eq!(twice.load(load_tasks()).unwrap(), "[]");
}

#[test]
fn a_save_replaces_the_whole_file() {
    let mut dir = MemoryDir::new();
    dir.save(save_notes(String::from("a long first version"))).unwrap();
    dir.save(save_notes(String::from("short"))).unwrap();
    assert_eq!(dir.load(load_notes()).unwrap(), "short");
}

#[test]
fn tasks_envelope_is_stripped() {
    let mut dir = MemoryDir::new();
    dir.save(save_tasks(TasksPayload { tasks: numbers() })).unwrap();
    assert_eq!(dir.load(load_tasks()).unwrap(), "[1,2,3]");
    assert_eq!(dir.load(load_notes()).unwrap(), "[]");
}

#[test]
fn tasks_are_encoded_compactly() {
    let value: Value = serde_json::from_str("{ \"b\": [true, null], \"a\": \"x\" }").unwrap();
    let mut job = save_tasks(TasksPayload { tasks: value });
    job = match job.step(Outcome::Done) {
        SaveStep::Continue(next) => next,
        SaveStep::Finish(_) => panic!("ended early"),
    };
    job = match job.step(Outcome::Done) {
        SaveStep::Continue(next) => next,
        SaveStep::Finish(_) => panic!("ended early"),
    };
    match job.pending() {
        Effect::WriteFile { doc, content } => {
            assert_eq!(doc, Document::Tasks);
            assert_eq!(content, "{\"a\":\"x\",\"b\":[true,null]}");
        }
        other => panic!("unexpected effect {:?}", other),
    }
}

#[test]
fn notes_and_tasks_do_not_mix() {
    let mut dir = MemoryDir::new();
    dir.save(save_notes(String::from("[\"n\"]"))).unwrap();
    dir.save(save_tasks(TasksPayload { tasks: numbers() })).unwrap();
    assert_eq!(dir.load(load_notes()).unwrap(), "[\"n\"]");
    assert_eq!(dir.load(load_tasks()).unwrap(), "[1,2,3]");
}

#[test]
fn file_names_and_labels() {
    assert_eq!(Document::Notes.file_name(), "notes.json");
    assert_eq!(Document::Tasks.file_name(), "tasks.json");
    assert_eq!(Document::Notes.label(), "notes");
    assert_eq!(Document::Tasks.label(), "tasks");
}

#[test]
fn a_save_asks_for_directory_then_creation_then_write() {
    let job = save_notes(String::from("hello"));
    assert!(matches!(job.pending(), Effect::ResolveDataDir));
    let job = match job.step(Outcome::Done) {
        SaveStep::Continue(next) => next,
        SaveStep::Finish(_) => panic!("ended early"),
    };
    assert!(matches!(job.pending(), Effect::CreateDataDir));
    let job = match job.step(Outcome::Done) {
        SaveStep::Continue(next) => next,
        SaveStep::Finish(_) => panic!("ended early"),
    };
    match job.pending() {
        Effect::WriteFile { doc, content } => {
            assert_eq!(doc, Document::Notes);
            assert_eq!(content, "hello");
        }
        other => panic!("unexpected effect {:?}", other),
    }
    assert!(matches!(job.step(Outcome::Done), SaveStep::Finish(Ok(()))));
}

#[test]
fn a_save_reports_each_failure() {
    match save_notes(String::from("x")).step(Outcome::Failed(String::from("no home"))) {
        SaveStep::Finish(Err(e)) => {
            assert!(matches!(e, StoreError::DirectoryResolution { .. }));
            assert_eq!(e.message(), "Failed to get app data directory: no home");
        }
        _ => panic!("expected a failure"),
    }
    let job = match save_notes(String::from("x")).step(Outcome::Done) {
        SaveStep::Continue(next) => next,
        SaveStep::Finish(_) => panic!("ended early"),
    };
    match job.step(Outcome::Failed(String::from("read-only"))) {
        SaveStep::Finish(Err(e)) => {
            assert!(matches!(e, StoreError::Io { stage: IoStage::CreateDir, .. }));
            assert_eq!(e.message(), "Failed to create app directory: read-only");
        }
        _ => panic!("expected a failure"),
    }
    let mut job = save_tasks(TasksPayload { tasks: numbers() });
    for _ in 0..2 {
        job = match job.step(Outcome::Done) {
            SaveStep::Continue(next) => next,
            SaveStep::Finish(_) => panic!("ended early"),
        };
    }
    match job.step(Outcome::Failed(String::from("disk full"))) {
        SaveStep::Finish(Err(e)) => {
            assert!(matches!(e, StoreError::Io { stage: IoStage::Write(Document::Tasks), .. }));
            assert_eq!(e.message(), "Failed to save tasks: disk full");
        }
        _ => panic!("expected a failure"),
    }
}

#[test]
fn a_failed_encoding_ends_the_save() {
    match desk_notes::SaveJob::after_encoding(Document::Tasks, Err(String::from("bad key"))) {
        SaveStep::Finish(Err(e)) => {
            assert!(matches!(e, StoreError::Serialization { .. }));
            assert_eq!(e.message(), "Failed to serialize tasks: bad key");
        }
        _ => panic!("expected a failure"),
    }
    match desk_notes::SaveJob::after_encoding(Document::Tasks, Ok(String::from("[]"))) {
        SaveStep::Continue(job) => match job.pending() {
            Effect::WriteFile { doc, content } => {
                assert_eq!(doc, Document::Tasks);
                assert_eq!(content, "[]");
            }
            other => panic!("unexpected effect {:?}", other),
        },
        SaveStep::Finish(_) => panic!("ended early"),
    }
}

#[test]
fn a_load_probes_before_it_reads() {
    let job = load_tasks();
    assert_eq!(job.doc, Document::Tasks);
    assert_eq!(job.phase, LoadPhase::Resolving);
    assert!(matches!(job.pending(), Effect::ResolveDataDir));
    let job = match job.step(Outcome::Done) {
        LoadStep::Continue(next) => next,
        LoadStep::Finish(_) => panic!("ended early"),
    };
    assert!(matches!(job.pending(), Effect::ProbeFile { doc: Document::Tasks }));
    let job = match job.step(Outcome::Done) {
        LoadStep::Continue(next) => next,
        LoadStep::Finish(_) => panic!("ended early"),
    };
    assert!(matches!(job.pending(), Effect::ReadFile { doc: Document::Tasks }));
    match job.step(Outcome::Text(String::from("[4]"))) {
        LoadStep::Finish(Ok(text)) => assert_eq!(text, "[4]"),
        _ => panic!("expected the text"),
    }
}

#[test]
fn a_load_reports_each_failure() {
    match load_notes().step(Outcome::Failed(String::from("no home"))) {
        LoadStep::Finish(Err(e)) => {
            assert_eq!(e.message(), "Failed to get app data directory: no home");
        }
        _ => panic!("expected a failure"),
    }
    let job = desk_notes::LoadJob { doc: Document::Notes, phase: LoadPhase::Reading };
    match job.step(Outcome::Failed(String::from("denied"))) {
        LoadStep::Finish(Err(e)) => {
            assert!(matches!(e, StoreError::Io { stage: IoStage::Read(Document::Notes), .. }));
            assert_eq!(e.message(), "Failed to load notes: denied");
        }
        _ => panic!("expected a failure"),
    }
    let job = desk_notes::LoadJob { doc: Document::Tasks, phase: LoadPhase::Probing };
    match job.step(Outcome::Absent) {
        LoadStep::Finish(Ok(text)) => assert_eq!(text, "[]"),
        _ => panic!("expected the empty list"),
    }
}

#[test]
fn an_outcome_that_answers_nothing_is_left_aside() {
    let job = load_notes();
    match job.step(Outcome::Absent) {
        LoadStep::Continue(next) => assert_eq!(next, job),
        LoadStep::Finish(_) => panic!("ended early"),
    }
    match job.step(Outcome::Text(String::from("x"))) {
        LoadStep::Continue(next) => assert_eq!(next, job),
        LoadStep::Finish(_) => panic!("ended early"),
    }
    match save_notes(String::from("x")).step(Outcome::Text(String::from("y"))) {
        SaveStep::Continue(next) => assert!(matches!(next.pending(), Effect::ResolveDataDir)),
        SaveStep::Finish(_) => panic!("ended early"),
    }
}

#[test]
fn the_memory_directory_answers_each_effect() {
    let mut dir = MemoryDir::new();
    assert!(matches!(dir.perform(Effect::ResolveDataDir), Outcome::Done));
    assert!(matches!(dir.perform(Effect::ProbeFile { doc: Document::Notes }), Outcome::Absent));
    match dir.perform(Effect::WriteFile { doc: Document::Notes, content: "a" }) {
        Outcome::Failed(reason) => assert_eq!(reason, "the data directory does not exist"),
        other => panic!("unexpected outcome {:?}", other),
    }
    match dir.perform(Effect::ReadFile { doc: Document::Notes }) {
        Outcome::Failed(reason) => assert_eq!(reason, "the file does not exist"),
        other => panic!("unexpected outcome {:?}", other),
    }
    assert!(matches!(dir.perform(Effect::CreateDataDir), Outcome::Done));
    assert!(matches!(
        dir.perform(Effect::WriteFile { doc: Document::Notes, content: "a" }),
        Outcome::Done
    ));
    assert!(matches!(dir.perform(Effect::ProbeFile { doc: Document::Notes }), Outcome::Done));
    assert!(matches!(dir.perform(Effect::ProbeFile { doc: Document::Tasks }), Outcome::Absent));
    match dir.perform(Effect::ReadFile { doc: Document::Notes }) {
        Outcome::Text(text) => assert_eq!(text, "a"),
        other => panic!("unexpected outcome {:?}", other),
    }
}

#[test]
fn toggle_hides_a_visible_window() {
    let window = Window { visible: true, focused: true };
    let action = on_toggle(Some(window.visibility())).unwrap();
    assert_eq!(action, WindowAction::Hide);
    assert_eq!(window.apply(action), Window { visible: false, focused: false });
}

#[test]
fn toggle_shows_and_focuses_a_hidden_window() {
    let window = Window { visible: false, focused: false };
    let action = on_toggle(Some(window.visibility())).unwrap();
    assert_eq!(action, WindowAction::ShowAndFocus);
    assert_eq!(window.apply(action), Window { visible: true, focused: true });
}

#[test]
fn toggle_shows_a_window_of_unknown_visibility() {
    assert_eq!(on_toggle(Some(Visibility::Unknown)), Some(WindowAction::ShowAndFocus));
    assert_eq!(on_toggle(None), None);
}

#[test]
fn hotkeys_are_accepted_with_control_and_with_meta() {
    for modifiers in [Modifiers::control(), Modifiers::meta()] {
        let toggle = Shortcut::new(modifiers, Key::M);
        let quit = Shortcut::new(modifiers, Key::Q);
        assert!(toggle.is_toggle() && !toggle.is_quit());
        assert!(quit.is_quit() && !quit.is_toggle());
        assert_eq!(on_shortcut(&toggle, KeyState::Pressed), Some(Command::ToggleWindow));
        assert_eq!(on_shortcut(&quit, KeyState::Pressed), Some(Command::Exit { code: 0 }));
        assert_eq!(on_shortcut(&toggle, KeyState::Released), None);
        assert_eq!(on_shortcut(&quit, KeyState::Released), None);
    }
}

#[test]
fn other_combinations_ask_for_nothing() {
    let bare = Shortcut::new(Modifiers::none(), Key::M);
    let both = Shortcut::new(
        Modifiers { shift: false, control: true, alt: false, meta: true },
        Key::M,
    );
    let shifted = Shortcut::new(
        Modifiers { shift: true, control: true, alt: false, meta: false },
        Key::Q,
    );
    let other = Shortcut::new(Modifiers::control(), Key::Other);
    for shortcut in [bare, both, shifted, other] {
        assert_eq!(on_shortcut(&shortcut, KeyState::Pressed), None);
    }
    assert!(other.matches(Modifiers::control(), Key::Other));
    assert!(!other.matches(Modifiers::meta(), Key::Other));
}

#[test]
fn hotkey_constants() {
    assert_eq!(desk_notes::hotkey::TOGGLE_ACCELERATOR, "CmdOrCtrl+M");
    assert_eq!(desk_notes::hotkey::QUIT_ACCELERATOR, "CmdOrCtrl+Q");
    assert_eq!(desk_notes::hotkey::MAIN_WINDOW, "main");
    assert_eq!(desk_notes::hotkey::EXIT_SUCCESS, 0);
}

#[test]
fn greeting_holds_the_name() {
    assert_eq!(greet("Ada"), "Hello, Ada! You've been greeted from Rust!");
    assert_eq!(greet(""), "Hello, ! You've been greeted from Rust!");
}
