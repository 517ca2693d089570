use server_events::dispatch::{Command, Dispatcher, LoopEvent, Phase, WindowSlot};
use server_events::state::Mutation;
use server_events::tray_icon::TrayIcon;

fn tray() -> TrayIcon {
    TrayIcon::new(vec!["3".to_string(), "4".to_string(), "5".to_string(), "6".to_string(), "7".to_string()]).unwrap()
}

fn menu(id: &str) -> LoopEvent {
    LoopEvent::Menu(id.to_string())
}

fn running() -> Dispatcher {
    let mut d = Dispatcher::new();
    assert_eq!(d.handle(LoopEvent::Init), vec![Command::BootstrapTray]);
    assert_eq!(d.handle(LoopEvent::TrayReady(tray())), vec![]);
    d
}

#[test]
fn init_starts_bootstrap_once() {
    let mut d = Dispatcher::new();
    assert_eq!(d.phase(), Phase::Uninitialized);
    assert_eq!(d.handle(LoopEvent::Init), vec![Command::BootstrapTray]);
    assert_eq!(d.phase(), Phase::Running);
    assert_eq!(d.handle(LoopEvent::Init), vec![]);
    assert!(!d.has_tray());
}

#[test]
fn open_creates_one_window_then_focuses() {
    let mut d = running();
    assert_eq!(d.handle(menu("3")), vec![Command::CreateWindow]);
    assert_eq!(d.window(), WindowSlot::Creating);
    assert_eq!(d.handle(menu("3")), vec![]);
    assert_eq!(d.handle(LoopEvent::WindowCreated(9)), vec![]);
    assert_eq!(d.window(), WindowSlot::Present(9));
    assert_eq!(d.handle(menu("3")), vec![Command::FocusWindow]);
    assert_eq!(d.window(), WindowSlot::Present(9));
}

#[test]
fn window_events_route_only_to_owned_window() {
    let mut d = running();
    assert_eq!(d.handle(LoopEvent::Window { id: 9, close_requested: false }), vec![]);
    d.handle(menu("3"));
    d.handle(LoopEvent::WindowCreated(9));
    assert_eq!(d.handle(LoopEvent::Window { id: 8, close_requested: true }), vec![]);
    assert_eq!(d.handle(LoopEvent::Window { id: 9, close_requested: false }), vec![Command::ForwardToWindow]);
    assert_eq!(
        d.handle(LoopEvent::Window { id: 9, close_requested: true }),
        vec![Command::ForwardToWindow, Command::DestroyWindow]
    );
    assert_eq!(d.window(), WindowSlot::Absent);
    assert_eq!(d.handle(menu("3")), vec![Command::CreateWindow]);
}

#[test]
fn failed_window_creation_leaves_no_window() {
    let mut d = running();
    d.handle(menu("3"));
    assert_eq!(d.handle(LoopEvent::WindowCreateFailed), vec![]);
    assert_eq!(d.window(), WindowSlot::Absent);
}

#[test]
fn mute_actions_become_mutations() {
    let mut d = running();
    assert_eq!(d.handle(menu("4")), vec![Command::Mutate(Mutation::ToggleMute)]);
    assert_eq!(d.handle(menu("5")), vec![Command::Mutate(Mutation::MuteUntilExit)]);
    assert_eq!(d.handle(menu("6")), vec![Command::MuteForRequested]);
    assert_eq!(d.handle(menu("99")), vec![]);
    assert_eq!(d.phase(), Phase::Running);
}

#[test]
fn exit_stops_routing_later_events() {
    let mut d = running();
    assert_eq!(d.handle(menu("7")), vec![Command::Exit]);
    assert_eq!(d.phase(), Phase::ShuttingDown);
    assert_eq!(d.handle(menu("3")), vec![]);
    assert_eq!(d.handle(menu("4")), vec![]);
    assert_eq!(d.handle(LoopEvent::Window { id: 1, close_requested: true }), vec![]);
    assert_eq!(d.window(), WindowSlot::Absent);
}

#[test]
fn clicks_before_table_are_queued_in_order() {
    let mut d = Dispatcher::new();
    d.handle(LoopEvent::Init);
    assert_eq!(d.handle(menu("4")), vec![]);
    assert_eq!(d.handle(menu("3")), vec![]);
    assert_eq!(
        d.handle(LoopEvent::TrayReady(tray())),
        vec![Command::Mutate(Mutation::ToggleMute), Command::CreateWindow]
    );
    assert!(d.has_tray());
}

#[test]
fn queued_exit_drops_clicks_after_it() {
    let mut d = Dispatcher::new();
    d.handle(LoopEvent::Init);
    d.handle(menu("7"));
    d.handle(menu("4"));
    assert_eq!(d.handle(LoopEvent::TrayReady(tray())), vec![Command::Exit]);
    assert_eq!(d.phase(), Phase::ShuttingDown);
}

#[test]
fn tray_failure_is_fatal() {
    let mut d = Dispatcher::new();
    d.handle(LoopEvent::Init);
    assert_eq!(d.handle(LoopEvent::TrayFailed), vec![Command::Fatal, Command::Exit]);
    assert_eq!(d.phase(), Phase::ShuttingDown);
}

#[test]
fn events_before_init_are_ignored() {
    let mut d = Dispatcher::new();
    assert_eq!(d.handle(menu("3")), vec![]);
    assert_eq!(d.handle(LoopEvent::Other), vec![]);
    assert_eq!(d.phase(), Phase::Uninitialized);
}
