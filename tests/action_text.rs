use rsstui::action::Action;
use rsstui::action::ActionErrorKind;
use rsstui::action::LoopEffect;

fn round_trip(a: Action) {
    let text = a.to_text();
    let back = Action::from_text(&text).unwrap();
    assert_eq!(back, a);
}

#[test]
fn zero_payload_variants_round_trip() {
    for a in [
        Action::Tick,
        Action::Render,
        Action::Suspend,
        Action::Resume,
        Action::Quit,
        Action::Refresh,
        Action::Help,
    ] {
        round_trip(a);
    }
}

#[test]
fn zero_payload_encodes_as_name() {
    assert_eq!(Action::Tick.to_text(), "Tick");
    assert_eq!(Action::Refresh.to_text(), "Refresh");
    assert_eq!(Action::Help.to_text(), "Help");
}

#[test]
fn resize_round_trips() {
    round_trip(Action::Resize(0, 0));
    round_trip(Action::Resize(80, 24));
    round_trip(Action::Resize(65535, 10));
}

#[test]
fn resize_encoding() {
    assert_eq!(Action::Resize(80, 24).to_text(), "Resize(80, 24)");
    assert_eq!(Action::Resize(0, 65535).to_text(), "Resize(0, 65535)");
}

#[test]
fn error_round_trips() {
    round_trip(Action::Error(String::from("disk full")));
    round_trip(Action::Error(String::new()));
    round_trip(Action::Error(String::from("(nested) parens)")));
    round_trip(Action::Error(String::from("Error(x)")));
}

#[test]
fn error_encoding() {
    assert_eq!(Action::Error(String::from("boom")).to_text(), "Error(boom)");
}

#[test]
fn resize_decodes_with_spaces_and_sign() {
    assert_eq!(Action::from_text("Resize(10,20)").unwrap(), Action::Resize(10, 20));
    assert_eq!(Action::from_text("Resize( 7 , +8 )").unwrap(), Action::Resize(7, 8));
    assert_eq!(Action::from_text("Resize(007,\t1)").unwrap(), Action::Resize(7, 1));
}

#[test]
fn resize_wrong_arity_fails() {
    let e = Action::from_text("Resize(1)").unwrap_err();
    assert_eq!(e.kind, ActionErrorKind::MalformedPayload);
    assert_eq!(e.token, "Resize(1)");
    let e = Action::from_text("Resize(1,2,3)").unwrap_err();
    assert_eq!(e.kind, ActionErrorKind::MalformedPayload);
}

#[test]
fn resize_non_numeric_fails() {
    let e = Action::from_text("Resize(a,b)").unwrap_err();
    assert_eq!(e.kind, ActionErrorKind::InvalidNumber);
    assert_eq!(e.token, "a");
    let e = Action::from_text("Resize(3, b )").unwrap_err();
    assert_eq!(e.kind, ActionErrorKind::InvalidNumber);
    assert_eq!(e.token, "b");
}

#[test]
fn resize_out_of_range_fails() {
    let e = Action::from_text("Resize(65536,1)").unwrap_err();
    assert_eq!(e.kind, ActionErrorKind::InvalidNumber);
    assert_eq!(e.token, "65536");
    let e = Action::from_text("Resize(-1,1)").unwrap_err();
    assert_eq!(e.kind, ActionErrorKind::InvalidNumber);
    let e = Action::from_text("Resize(,1)").unwrap_err();
    assert_eq!(e.token, "");
}

#[test]
fn unknown_variant_fails() {
    let e = Action::from_text("Bogus").unwrap_err();
    assert_eq!(e.kind, ActionErrorKind::UnknownVariant);
    assert_eq!(e.token, "Bogus");
    assert_eq!(Action::from_text("").unwrap_err().kind, ActionErrorKind::UnknownVariant);
    assert_eq!(Action::from_text("tick").unwrap_err().kind, ActionErrorKind::UnknownVariant);
}

#[test]
fn unclosed_payload_fails() {
    assert_eq!(Action::from_text("Error(").unwrap_err().kind, ActionErrorKind::MalformedPayload);
    assert_eq!(Action::from_text("Error(abc").unwrap_err().kind, ActionErrorKind::MalformedPayload);
    assert_eq!(Action::from_text("Resize(1,2").unwrap_err().kind, ActionErrorKind::MalformedPayload);
}

#[test]
fn error_payload_decodes() {
    assert_eq!(Action::from_text("Error()").unwrap(), Action::Error(String::new()));
    assert_eq!(Action::from_text("Error(a, b)").unwrap(), Action::Error(String::from("a, b")));
}

#[test]
fn error_messages_name_the_token() {
    let e = Action::from_text("Bogus").unwrap_err();
    assert_eq!(e.message(), "Unknown Action variant: Bogus");
    let e = Action::from_text("Resize(1)").unwrap_err();
    assert_eq!(e.message(), "Invalid Action payload: Resize(1)");
    let e = Action::from_text("Resize(x,1)").unwrap_err();
    assert_eq!(e.message(), "Invalid Resize field: x");
}

#[test]
fn unicode_white_space_is_trimmed() {
    assert_eq!(Action::from_text("Resize(\u{3000}5,6\u{a0})").unwrap(), Action::Resize(5, 6));
}

#[test]
fn actions_compare_by_value() {
    assert_ne!(Action::Resize(1, 2), Action::Resize(2, 1));
    assert_ne!(Action::Error(String::from("a")), Action::Error(String::from("b")));
    assert_ne!(Action::Tick, Action::Render);
}

#[test]
fn loop_effects_of_actions() {
    assert_eq!(Action::Quit.loop_effect(), LoopEffect::Quit);
    assert_eq!(Action::Suspend.loop_effect(), LoopEffect::Suspend);
    assert_eq!(Action::Resume.loop_effect(), LoopEffect::Resume);
    assert_eq!(Action::Resize(9, 8).loop_effect(), LoopEffect::Resize(9, 8));
    assert_eq!(Action::Render.loop_effect(), LoopEffect::Render);
    assert_eq!(Action::Tick.loop_effect(), LoopEffect::Nothing);
    assert_eq!(Action::Help.loop_effect(), LoopEffect::Nothing);
}
