//! The two screens side by side, and which of them is in front.

use vstd::prelude::*;
use vstd::string::StringExecFns;
use crate::screens::cipher::{cipher_step, opening_ciphers, CipherMessage, CipherState, CipherView};
use crate::screens::fence::{fence_step, opening_fences};
use crate::screens::fence::{FenceMessage, FenceState, FenceStateView};

verus! {

/// The screens there are.
#[derive(Debug, Clone, Copy, PartialEq, Eq, Structural)]
pub enum Screen {
    Fence,
    Cipher,
}

/// What can reach the application: a change of screen, or a message for
/// one of the screens.
#[derive(Debug, Clone)]
pub enum Message {
    Navigate(Screen),
    Fence(FenceMessage),
    Cipher(CipherMessage),
}

/// The whole application's state. Both screens keep their state while the
/// other is in front.
#[derive(Debug)]
pub struct App {
    pub screen: Screen,
    pub fence: FenceState,
    pub cipher: CipherState,
}

/// The application's state as plain values.
pub struct AppView {
    pub screen: Screen,
    pub fence: FenceStateView,
    pub cipher: CipherView,
}

impl View for App {
    type V = AppView;

    open spec fn view(&self) -> AppView {
        AppView { screen: self.screen, fence: self.fence@, cipher: self.cipher@ }
    }
}

/// The window title while `screen` is in front.
pub open spec fn title_of(screen: Screen) -> Seq<char> {
    match screen {
        Screen::Fence => "Fence Calculator"@,
        Screen::Cipher => "Cipher Tool"@,
    }
}

/// The state that follows `state` on `message`: a message for a screen
/// changes that screen alone, whichever is in front.
pub open spec fn app_step(state: AppView, message: Message) -> AppView {
    match message {
        Message::Navigate(screen) => AppView { screen, ..state },
        Message::Fence(msg) => AppView { fence: fence_step(state.fence, msg), ..state },
        Message::Cipher(msg) => AppView { cipher: cipher_step(state.cipher, msg), ..state },
    }
}

impl App {
    /// The window title for the screen in front.
    pub fn title(&self) -> (r: String)
        ensures
            r@ == title_of(self.screen),
    {
        match self.screen {
            Screen::Fence => String::from_str("Fence Calculator"),
            Screen::Cipher => String::from_str("Cipher Tool"),
        }
    }

    /// The application as it starts: the cipher screen in front, both
    /// screens as they open.
    pub fn new() -> (r: App)
        ensures
            r@ == (AppView {
                screen: Screen::Cipher,
                fence: opening_fences(),
                cipher: opening_ciphers(),
            }),
    {
        App { screen: Screen::Cipher, fence: FenceState::default(), cipher: CipherState::default() }
    }

    /// Takes `message` in: the state afterwards is [`app_step`] of the state
    /// before, whatever the message and the state.
    pub fn update(&mut self, message: Message)
        ensures
            final(self)@ == app_step(old(self)@, message),
    {
        match message {
            Message::Navigate(screen) => {
                self.screen = screen;
            },
            Message::Fence(msg) => {
                self.fence.update(msg);
            },
            Message::Cipher(msg) => {
                self.cipher.update(msg);
            },
        }
    }
}

} // verus!
