//! The window in which the user logs in.

use vstd::prelude::*;

verus! {

/// What the user entered last, and what of it is remembered.
#[derive(Clone, Debug)]
pub struct LoginSettings {
    pub username: String,
    pub password: String,
    pub remember_username: bool,
    pub remember_password: bool,
}

/// Where the focus moves.
#[derive(Clone, Copy, Debug, PartialEq, Eq, Structural)]
pub enum FocusMode {
    FocusNext,
    FocusPrevious,
}

/// What the user asks for.
#[derive(Clone, Debug, PartialEq, Eq)]
pub enum UserEvent {
    /// Log in with a user name and a password.
    LogIn(String, String),
    ToggleRemeberUsername,
    ToggleRemeberPassword,
}

/// What a click or the enter key does.
#[derive(Clone, Debug, PartialEq, Eq)]
pub enum ClickAction {
    Event(UserEvent),
    FocusNext(FocusMode),
}

/// An element of the login window.
#[derive(Clone, Copy, Debug, PartialEq, Eq, Structural)]
pub enum LoginElement {
    /// The field for the user name, which takes up to `length` characters.
    UsernameField { length: usize },
    /// The field for the password, which takes up to `length` characters
    /// and does not show them.
    PasswordField { length: usize },
    /// The switch that says whether the user name is remembered.
    RememberUsername { selected: bool },
    /// The switch that says whether the password is remembered.
    RememberPassword { selected: bool },
    /// The button that logs in.
    LogIn,
}

/// The limits on the size of a window.
#[derive(Clone, Copy, Debug, PartialEq, Eq, Structural)]
pub struct SizeConstraint {
    pub minimum_width: u32,
    pub width: u32,
    pub maximum_width: u32,
    /// The greatest height, in percent of the space that is available.
    pub maximum_height_percent: u32,
}

/// The login window as it is laid out.
#[derive(Clone, Debug)]
pub struct Window {
    pub title: String,
    pub class: String,
    pub size: SizeConstraint,
    pub elements: Vec<LoginElement>,
}

/// The number of characters that the user name and the password can have.
pub const INPUT_LENGTH: usize = 24;

/// The window in which the user logs in.
#[derive(Clone, Debug)]
pub struct LoginWindow {
    pub login_settings: LoginSettings,
}

impl LoginWindow {
    pub const WINDOW_CLASS: &'static str = "login";

    pub fn new(login_settings: LoginSettings) -> (window: LoginWindow)
        ensures
            window.login_settings == login_settings,
    {
        LoginWindow { login_settings }
    }

    pub fn window_class(&self) -> (class: Option<&str>)
        ensures
            class == Some(LoginWindow::WINDOW_CLASS),
    {
        Some(LoginWindow::WINDOW_CLASS)
    }

    /// Whether both a user name and a password are entered, which the
    /// button that logs in goes by.
    pub open spec fn spec_is_complete(username: &str, password: &str) -> bool {
        username@.len() != 0 && password@.len() != 0
    }

    #[verifier::when_used_as_spec(spec_is_complete)]
    pub fn is_complete(username: &str, password: &str) -> (complete: bool)
        ensures
            complete == LoginWindow::spec_is_complete(username, password),
    {
        !username.is_empty() && !password.is_empty()
    }

    /// What the button that logs in does: it asks to log in with what is
    /// entered.
    pub fn log_in_action(username: &str, password: &str) -> (action: Option<ClickAction>)
        ensures
            action matches Some(ClickAction::Event(UserEvent::LogIn(name, word))) && name@ == username@ && word@
                == password@,
    {
        Some(ClickAction::Event(UserEvent::LogIn(username.to_owned(), password.to_owned())))
    }

    /// What the enter key does in the field for the user name: with a user
    /// name it moves on to the next field, without one it does nothing.
    pub fn username_action(username: &str) -> (action: Option<ClickAction>)
        ensures
            action == if username@.len() != 0 {
                Some(ClickAction::FocusNext(FocusMode::FocusNext))
            } else {
                None
            },
    {
        if !username.is_empty() {
            Some(ClickAction::FocusNext(FocusMode::FocusNext))
        } else {
            None
        }
    }

    /// What the enter key does in the field for the password: without a
    /// user name it moves back to the field before, without a password it
    /// does nothing, and with both it asks to log in.
    pub fn password_action(username: &str, password: &str) -> (action: Option<ClickAction>)
        ensures
            username@.len() == 0 ==> action == Some(ClickAction::FocusNext(FocusMode::FocusPrevious)),
            username@.len() != 0 && password@.len() == 0 ==> action.is_none(),
            username@.len() != 0 && password@.len() != 0 ==> (action matches Some(
                ClickAction::Event(UserEvent::LogIn(name, word)),
            ) && name@ == username@ && word@ == password@),
    {
        if username.is_empty() {
            Some(ClickAction::FocusNext(FocusMode::FocusPrevious))
        } else if password.is_empty() {
            None
        } else {
            Some(ClickAction::Event(UserEvent::LogIn(username.to_owned(), password.to_owned())))
        }
    }

    /// The elements of the window, from top to bottom.
    pub open spec fn elements(self) -> Seq<LoginElement> {
        seq![
            LoginElement::UsernameField { length: INPUT_LENGTH },
            LoginElement::PasswordField { length: INPUT_LENGTH },
            LoginElement::RememberUsername { selected: self.login_settings.remember_username },
            LoginElement::RememberPassword { selected: self.login_settings.remember_password },
            LoginElement::LogIn,
        ]
    }

    /// The limits on the size of the window.
    pub open spec fn size() -> SizeConstraint {
        SizeConstraint { minimum_width: 200, width: 250, maximum_width: 300, maximum_height_percent: 80 }
    }

    /// Lays the window out.
    pub fn to_window(&self) -> (window: Window)
        ensures
            window.title@ == "Log In"@,
            window.class@ == LoginWindow::WINDOW_CLASS@,
            window.size == LoginWindow::size(),
            window.elements@ == self.elements(),
    {
        let mut elements: Vec<LoginElement> = Vec::new();
        elements.push(LoginElement::UsernameField { length: INPUT_LENGTH });
        elements.push(LoginElement::PasswordField { length: INPUT_LENGTH });
        elements.push(LoginElement::RememberUsername { selected: self.login_settings.remember_username });
        elements.push(LoginElement::RememberPassword { selected: self.login_settings.remember_password });
        elements.push(LoginElement::LogIn);
        assert(elements@ =~= self.elements());
        Window {
            title: "Log In".to_owned(),
            class: LoginWindow::WINDOW_CLASS.to_owned(),
            size: SizeConstraint { minimum_width: 200, width: 250, maximum_width: 300, maximum_height_percent: 80 },
            elements,
        }
    }
}

} // verus!
