use bar_utilities::projector::{desktop_line_after_close, Action, Command, Event, EventKind, Projector};

#[test]
fn dispatch_recognises_the_five_tokens() {
    assert_eq!(Command::from_token("work"), Command::Work);
    assert_eq!(Command::from_token("window"), Command::Window);
    assert_eq!(Command::from_token("bat"), Command::Battery);
    assert_eq!(Command::from_token("open_windows"), Command::OpenWindows);
    assert_eq!(Command::from_token("mem"), Command::Memory);
}

#[test]
fn dispatch_unknown_token_does_nothing() {
    assert_eq!(Command::from_token("foo"), Command::Nothing);
    assert_eq!(Command::from_token(""), Command::Nothing);
    assert_eq!(Command::from_token("Work"), Command::Nothing);
    let mut p = Projector::from_token("foo");
    assert_eq!(p.start(), Action::Nothing);
    assert!(!p.listening);
    assert!(p.command.subscriptions().is_empty());
    assert_eq!(p.handle(&Event::WindowOpened), Action::Nothing);
}

#[test]
fn one_shot_commands_do_not_listen() {
    let mut bat = Projector::new(Command::Battery);
    assert_eq!(bat.start(), Action::ShowBattery);
    assert!(!bat.listening);
    let mut mem = Projector::new(Command::Memory);
    assert_eq!(mem.start(), Action::ShowMemory);
    assert!(!mem.listening);
}

#[test]
fn work_prints_on_start_then_each_change() {
    let mut p = Projector::from_token("work");
    assert_eq!(p.command.subscriptions(), vec![EventKind::WorkspaceChanged]);
    assert_eq!(p.start(), Action::ShowActiveWorkspace);
    assert!(p.listening);
    assert_eq!(p.handle(&Event::WorkspaceChanged("3".to_string())), Action::Emit("3".to_string()));
    assert_eq!(p.handle(&Event::WindowOpened), Action::Nothing);
}

#[test]
fn events_before_start_do_nothing() {
    let p = Projector::new(Command::Work);
    assert_eq!(p.handle(&Event::WorkspaceChanged("3".to_string())), Action::Nothing);
}

#[test]
fn start_happens_once() {
    let mut p = Projector::new(Command::OpenWindows);
    assert_eq!(p.start(), Action::ShowOpenWindows);
    assert_eq!(p.start(), Action::Nothing);
    assert!(p.listening);
}

#[test]
fn window_prints_class_or_desktop() {
    let mut p = Projector::new(Command::Window);
    assert_eq!(p.start(), Action::Nothing);
    assert!(p.listening);
    assert_eq!(
        p.handle(&Event::ActiveWindowChanged(Some("firefox".to_string()))),
        Action::Emit("firefox".to_string())
    );
    assert_eq!(p.handle(&Event::ActiveWindowChanged(None)), Action::Emit("Desktop".to_string()));
    assert_eq!(p.handle(&Event::WindowClosed), Action::ShowDesktopIfNoWindow);
    assert_eq!(p.handle(&Event::WorkspaceChanged("2".to_string())), Action::Nothing);
}

#[test]
fn desktop_only_when_no_window_is_left() {
    assert_eq!(desktop_line_after_close(false), Some("Desktop".to_string()));
    assert_eq!(desktop_line_after_close(true), None);
}

#[test]
fn open_windows_refreshes_on_each_of_nine_kinds() {
    let mut p = Projector::new(Command::OpenWindows);
    assert_eq!(p.command.subscriptions().len(), 9);
    p.start();
    let events = vec![
        Event::WorkspaceAdded,
        Event::WorkspaceChanged("4".to_string()),
        Event::WorkspaceDestroyed,
        Event::WindowOpened,
        Event::WindowClosed,
        Event::WindowMoved,
        Event::WindowTitleChanged,
        Event::ActiveMonitorChanged,
        Event::ActiveWindowChanged(None),
    ];
    let kinds = p.command.subscriptions();
    for (e, k) in events.iter().zip(kinds.iter()) {
        assert_eq!(e.kind(), *k);
        assert_eq!(p.handle(e), Action::ShowOpenWindows);
    }
}
