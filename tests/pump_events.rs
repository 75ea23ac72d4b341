use crossterm::event::KeyCode;
use crossterm::event::KeyEvent;
use crossterm::event::KeyModifiers;
use rsstui::action::Action;
use rsstui::event::route_event;
use rsstui::event::Event;
use rsstui::event::Route;
use rsstui::pump::KeyKind;
use rsstui::pump::Pump;
use rsstui::pump::PumpPhase;
use rsstui::pump::RawInput;
use rsstui::pump::Ready;

fn key() -> KeyEvent {
    KeyEvent::new(KeyCode::Char('q'), KeyModifiers::NONE)
}

fn drive(inputs: Vec<Ready>) -> Vec<Event> {
    let mut pump = Pump::new();
    let mut out = Vec::new();
    if let Some(e) = pump.begin() {
        out.push(e);
    }
    for r in inputs {
        if let Some(e) = pump.step(r) {
            out.push(e);
        }
    }
    out
}

#[test]
fn init_comes_first_and_once() {
    let mut pump = Pump::new();
    assert!(matches!(pump.begin(), Some(Event::Init)));
    assert!(pump.begin().is_none());
    assert_eq!(pump.phase, PumpPhase::Running);
}

#[test]
fn press_then_release_gives_one_key_event() {
    let out = drive(vec![
        Ready::Input(RawInput::Key(key(), KeyKind::Press)),
        Ready::Input(RawInput::Key(key(), KeyKind::Release)),
    ]);
    assert_eq!(out.iter().filter(|e| matches!(e, Event::Key(_))).count(), 1);
    assert_eq!(out.len(), 2);
}

#[test]
fn repeat_is_suppressed() {
    let out = drive(vec![Ready::Input(RawInput::Key(key(), KeyKind::Repeat))]);
    assert_eq!(out.len(), 1);
}

#[test]
fn nothing_after_cancellation() {
    let out = drive(vec![
        Ready::Tick,
        Ready::Cancelled,
        Ready::Tick,
        Ready::Render,
        Ready::Input(RawInput::Key(key(), KeyKind::Press)),
    ]);
    assert_eq!(out.len(), 2);
    assert!(matches!(out[0], Event::Init));
    assert!(matches!(out[1], Event::Tick));
}

#[test]
fn sources_map_to_events() {
    let out = drive(vec![
        Ready::Render,
        Ready::InputError,
        Ready::InputEnded,
        Ready::Input(RawInput::Resize(100, 40)),
        Ready::Input(RawInput::FocusLost),
        Ready::Input(RawInput::FocusGained),
        Ready::Input(RawInput::Paste(String::from("hi"))),
    ]);
    assert_eq!(out.len(), 7);
    assert!(matches!(out[1], Event::Render));
    assert!(matches!(out[2], Event::Error));
    assert!(matches!(out[3], Event::Resize(100, 40)));
    assert!(matches!(out[4], Event::FocusLost));
    assert!(matches!(out[5], Event::FocusGained));
    assert!(matches!(&out[6], Event::Paste(s) if s == "hi"));
}

#[test]
fn receiver_gone_stops_pump() {
    let mut pump = Pump::new();
    pump.begin();
    pump.receiver_gone();
    assert!(!pump.is_running());
    assert!(pump.step(Ready::Tick).is_none());
}

#[test]
fn events_translate_to_actions() {
    assert_eq!(Event::Tick.to_action(), Some(Action::Tick));
    assert_eq!(Event::Render.to_action(), Some(Action::Render));
    assert_eq!(Event::Resize(3, 4).to_action(), Some(Action::Resize(3, 4)));
    assert_eq!(Event::Quit.to_action(), Some(Action::Quit));
    assert_eq!(Event::FocusLost.to_action(), None);
}

#[test]
fn key_and_mouse_are_routed() {
    assert!(matches!(route_event(Some(Event::Key(key()))), Route::Key(_)));
    assert!(matches!(route_event(Some(Event::Tick)), Route::Ignored));
    assert!(matches!(route_event(None), Route::Ignored));
}
