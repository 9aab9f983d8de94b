//! The prompt that shows a device code while the user authorizes the application elsewhere.

use vstd::prelude::*;

verus! {

/// How a button is drawn.
#[derive(Clone, Copy, Debug, PartialEq, Eq, Structural)]
pub enum Look {
    /// Without a frame or a fill.
    Bare,
    Outline,
}

/// What is written on a button.
pub enum Label {
    /// The text that the application's language has under this key.
    Message(&'static str),
    /// This text.
    Text(String),
}

/// What pressing a button, or dismissing the prompt, asks for.
pub enum Press {
    Copy(String),
    Open(String),
    Cancel,
}

/// What is done about it.
pub enum Effect<'a, C> {
    WriteToClipboard(&'a str),
    OpenUrl(&'a str),
    /// Call the handler.
    Run(&'a C),
    Nothing,
}

pub struct PromptButton {
    pub id: &'static str,
    pub label: Option<Label>,
    pub icon: Option<&'static str>,
    pub look: Look,
    pub small: bool,
    pub press: Press,
}

/// The prompt as it is drawn: the code with a button to copy it beside it, below them a button
/// that opens the address, and an action that cancels.
pub struct PromptView {
    pub id: &'static str,
    /// The key of the title.
    pub title: &'static str,
    /// In pixels.
    pub width: u32,
    /// The key of the explanation, which names the address.
    pub detail: &'static str,
    pub detail_url: String,
    pub code: String,
    pub copy: PromptButton,
    pub open: PromptButton,
    pub action: PromptButton,
    pub dismiss: Press,
}

/// Text on a button, a press and a button as values.
pub enum LabelModel {
    Message(Seq<char>),
    Text(Seq<char>),
}

pub enum PressModel {
    Copy(Seq<char>),
    Open(Seq<char>),
    Cancel,
}

pub struct ButtonModel {
    pub id: Seq<char>,
    pub label: Option<LabelModel>,
    pub icon: Option<Seq<char>>,
    pub look: Look,
    pub small: bool,
    pub press: PressModel,
}

impl View for Label {
    type V = LabelModel;

    open spec fn view(&self) -> LabelModel {
        match *self {
            Label::Message(key) => LabelModel::Message(key@),
            Label::Text(text) => LabelModel::Text(text@),
        }
    }
}

impl View for Press {
    type V = PressModel;

    open spec fn view(&self) -> PressModel {
        match *self {
            Press::Copy(text) => PressModel::Copy(text@),
            Press::Open(url) => PressModel::Open(url@),
            Press::Cancel => PressModel::Cancel,
        }
    }
}

impl View for PromptButton {
    type V = ButtonModel;

    open spec fn view(&self) -> ButtonModel {
        ButtonModel {
            id: self.id@,
            label: match self.label {
                Some(label) => Some(label@),
                None => None,
            },
            icon: match self.icon {
                Some(icon) => Some(icon@),
                None => None,
            },
            look: self.look,
            small: self.small,
            press: self.press@,
        }
    }
}

/// The prompt, with a handler of type `C` that is called when the user gives up.
pub struct DevicePrompt<C> {
    code: String,
    url: String,
    cancel: Option<C>,
}

/// A `DevicePrompt` as a value.
pub struct PromptModel<C> {
    pub code: Seq<char>,
    pub url: Seq<char>,
    pub cancel: Option<C>,
}

impl<C> View for DevicePrompt<C> {
    type V = PromptModel<C>;

    closed spec fn view(&self) -> PromptModel<C> {
        PromptModel { code: self.code@, url: self.url@, cancel: self.cancel }
    }
}

impl<C> DevicePrompt<C> {
    pub fn new(code: String, url: String) -> (prompt: Self)
        ensures
            prompt@ == (PromptModel { code: code@, url: url@, cancel: None::<C> }),
    {
        DevicePrompt { code, url, cancel: None }
    }

    /// The same prompt with that handler, in place of an earlier one.
    pub fn on_cancel(self, handler: C) -> (prompt: Self)
        ensures
            prompt@ == (PromptModel { code: self@.code, url: self@.url, cancel: Some(handler) }),
    {
        DevicePrompt { code: self.code, url: self.url, cancel: Some(handler) }
    }

    /// Lays the prompt out.
    pub fn render(&self) -> (view: PromptView)
        ensures
            view.id@ == "youtube-device-prompt"@,
            view.title@ == "login-authorizing"@,
            view.width == 440,
            view.detail@ == "login-device-code"@,
            view.detail_url@ == self@.url,
            view.code@ == self@.code,
            view.copy@ == (ButtonModel {
                id: "copy-device-code"@,
                label: None,
                icon: Some("icons/copy.svg"@),
                look: Look::Bare,
                small: true,
                press: PressModel::Copy(self@.code),
            }),
            view.open@ == (ButtonModel {
                id: "open-device-authorization"@,
                label: Some(LabelModel::Text(self@.url)),
                icon: Some("icons/external-link.svg"@),
                look: Look::Outline,
                small: false,
                press: PressModel::Open(self@.url),
            }),
            view.action@ == (ButtonModel {
                id: "cancel-device-authorization"@,
                label: Some(LabelModel::Message("common-cancel"@)),
                icon: None,
                look: Look::Bare,
                small: false,
                press: PressModel::Cancel,
            }),
            view.dismiss@ == PressModel::Cancel,
    {
        PromptView {
            id: "youtube-device-prompt",
            title: "login-authorizing",
            width: 440,
            detail: "login-device-code",
            detail_url: self.url.clone(),
            code: self.code.clone(),
            copy: PromptButton {
                id: "copy-device-code",
                label: None,
                icon: Some("icons/copy.svg"),
                look: Look::Bare,
                small: true,
                press: Press::Copy(self.code.clone()),
            },
            open: PromptButton {
                id: "open-device-authorization",
                label: Some(Label::Text(self.url.clone())),
                icon: Some("icons/external-link.svg"),
                look: Look::Outline,
                small: false,
                press: Press::Open(self.url.clone()),
            },
            action: PromptButton {
                id: "cancel-device-authorization",
                label: Some(Label::Message("common-cancel")),
                icon: None,
                look: Look::Bare,
                small: false,
                press: Press::Cancel,
            },
            dismiss: Press::Cancel,
        }
    }

    /// What a press comes to. Giving up calls the handler, where there is one.
    pub fn pressed<'a>(&'a self, press: &'a Press) -> (effect: Effect<'a, C>)
        ensures
            match press@ {
                PressModel::Copy(text) => effect is WriteToClipboard
                    && effect->WriteToClipboard_0@ == text,
                PressModel::Open(url) => effect is OpenUrl && effect->OpenUrl_0@ == url,
                PressModel::Cancel => match self@.cancel {
                    Some(handler) => effect is Run && *effect->Run_0 == handler,
                    None => effect is Nothing,
                },
            },
    {
        match press {
            Press::Copy(text) => Effect::WriteToClipboard(text.as_str()),
            Press::Open(url) => Effect::OpenUrl(url.as_str()),
            Press::Cancel => match &self.cancel {
                Some(handler) => Effect::Run(handler),
                None => Effect::Nothing,
            },
        }
    }
}

/// As values, labels, presses and buttons have the fields that they have.
pub proof fn law_prompt_views(label: Label, press: Press, button: PromptButton)
    ensures
        label matches Label::Message(key) ==> label@ == LabelModel::Message(key@),
        label matches Label::Text(text) ==> label@ == LabelModel::Text(text@),
        press matches Press::Copy(text) ==> press@ == PressModel::Copy(text@),
        press matches Press::Open(url) ==> press@ == PressModel::Open(url@),
        press is Cancel ==> press@ == PressModel::Cancel,
        button@.id == button.id@,
        button@.label is Some <==> button.label is Some,
        button.label is Some ==> button@.label->0 == button.label->0@,
        button@.icon is Some <==> button.icon is Some,
        button.icon is Some ==> button@.icon->0 == button.icon->0@,
        button@.look == button.look,
        button@.small == button.small,
        button@.press == button.press@,
{
}

} // verus!
