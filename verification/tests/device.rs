use music::device::{DevicePrompt, Effect, Label, Look, Press};

fn prompt() -> DevicePrompt<u32> {
    DevicePrompt::new("AB-12".to_string(), "https://example".to_string())
}

#[test]
fn the_prompt_is_laid_out() {
    let view = prompt().render();
    assert_eq!(view.id, "youtube-device-prompt");
    assert_eq!(view.title, "login-authorizing");
    assert_eq!(view.width, 440);
    assert_eq!(view.detail, "login-device-code");
    assert_eq!(view.detail_url, "https://example");
    assert_eq!(view.code, "AB-12");
    assert_eq!(view.copy.id, "copy-device-code");
    assert!(view.copy.label.is_none());
    assert_eq!(view.copy.icon, Some("icons/copy.svg"));
    assert_eq!(view.copy.look, Look::Bare);
    assert!(view.copy.small);
    assert_eq!(view.open.id, "open-device-authorization");
    assert!(matches!(&view.open.label, Some(Label::Text(text)) if text == "https://example"));
    assert_eq!(view.open.icon, Some("icons/external-link.svg"));
    assert_eq!(view.open.look, Look::Outline);
    assert_eq!(view.action.id, "cancel-device-authorization");
    assert!(matches!(view.action.label, Some(Label::Message("common-cancel"))));
    assert_eq!(view.action.icon, None);
    assert!(matches!(view.dismiss, Press::Cancel));
}

#[test]
fn presses_copy_and_open() {
    let prompt = prompt();
    let view = prompt.render();
    assert!(matches!(prompt.pressed(&view.copy.press), Effect::WriteToClipboard("AB-12")));
    assert!(matches!(prompt.pressed(&view.open.press), Effect::OpenUrl("https://example")));
}

#[test]
fn giving_up_calls_the_handler_there_is() {
    let silent = prompt();
    assert!(matches!(silent.pressed(&silent.render().action.press), Effect::Nothing));
    let handled = prompt().on_cancel(1).on_cancel(2);
    assert!(matches!(handled.pressed(&handled.render().action.press), Effect::Run(2)));
    assert!(matches!(handled.pressed(&handled.render().dismiss), Effect::Run(2)));
}
