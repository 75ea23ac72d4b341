use rsstui::action::Action;
use rsstui::feeds::batch_succeeded;
use rsstui::mode::Mode;
use rsstui::router::Delivery;
use rsstui::router::Router;
use rsstui::session::SessionConfig;
use rsstui::session::TermOp;
use rsstui::shutdown::Shutdown;
use rsstui::shutdown::StopStep;

#[test]
fn enter_ops_with_all_features() {
    let c = SessionConfig { mouse: true, paste: true };
    assert_eq!(
        c.enter_ops(),
        vec![
            TermOp::EnableRawMode,
            TermOp::EnterAlternateScreen,
            TermOp::HideCursor,
            TermOp::EnableMouseCapture,
            TermOp::EnableBracketedPaste,
            TermOp::StartPump,
        ]
    );
}

#[test]
fn exit_ops_undo_in_reverse() {
    let c = SessionConfig { mouse: true, paste: true };
    assert_eq!(
        c.exit_ops(true),
        vec![
            TermOp::StopPump,
            TermOp::Flush,
            TermOp::DisableBracketedPaste,
            TermOp::DisableMouseCapture,
            TermOp::LeaveAlternateScreen,
            TermOp::ShowCursor,
            TermOp::DisableRawMode,
        ]
    );
}

#[test]
fn second_exit_toggles_nothing() {
    let c = SessionConfig { mouse: false, paste: true };
    assert_eq!(c.exit_ops(false), vec![TermOp::StopPump]);
}

#[test]
fn plain_enter_has_no_features() {
    let c = SessionConfig { mouse: false, paste: false };
    assert_eq!(c.enter_ops().len(), 4);
}

#[test]
fn shutdown_finishes_at_once() {
    let mut s = Shutdown::new();
    assert_eq!(s.observe(true), StopStep::Finished);
}

#[test]
fn shutdown_is_bounded_when_task_ignores_cancel() {
    let mut s = Shutdown::new();
    let mut waits = 0;
    let mut aborted_at = None;
    loop {
        match s.observe(false) {
            StopStep::Finished => unreachable!(),
            StopStep::Wait { abort, give_up } => {
                waits += 1;
                if abort && aborted_at.is_none() {
                    aborted_at = Some(waits);
                }
                if give_up {
                    break;
                }
            }
        }
        assert!(waits <= 200);
    }
    assert_eq!(waits, 101);
    assert_eq!(aborted_at, Some(51));
}

#[test]
fn router_fans_out_in_order() {
    let mut r = Router::new();
    for i in 0..3 {
        assert_eq!(r.register(), i);
    }
    r.enqueue(Action::Tick);
    let cycle = r.take_cycle();
    assert_eq!(cycle, vec![Action::Tick]);
    let d = r.deliveries(cycle.len());
    assert_eq!(
        d,
        vec![
            Delivery { action: 0, component: 0 },
            Delivery { action: 0, component: 1 },
            Delivery { action: 0, component: 2 },
        ]
    );
}

#[test]
fn follow_ups_wait_for_next_cycle() {
    let mut r = Router::new();
    r.register();
    r.enqueue(Action::Tick);
    r.enqueue(Action::Render);
    let cycle = r.take_cycle();
    r.enqueue(Action::Quit);
    assert_eq!(cycle, vec![Action::Tick, Action::Render]);
    assert_eq!(r.deliveries(2).len(), 2);
    assert_eq!(r.take_cycle(), vec![Action::Quit]);
    assert!(r.take_cycle().is_empty());
}

#[test]
fn batch_fails_if_any_fetch_fails() {
    assert!(batch_succeeded(&vec![]));
    assert!(batch_succeeded(&vec![true, true]));
    assert!(!batch_succeeded(&vec![true, false, true]));
}

#[test]
fn mode_defaults_to_home() {
    assert_eq!(Mode::default(), Mode::Home);
}
