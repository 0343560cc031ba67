use vstd::prelude::*;
use crate::history::{keep_recent, window, HISTORY_WINDOW};
use crate::models::{author_name, author_of, messages_view, Message, MessageView, UserView, WigglesUser};
use crate::text::{blank, is_blank, pop_char, push_char};

verus! {

/// What the keyboard is currently used for.
#[derive(Clone, Copy, Debug, PartialEq, Eq, Structural)]
pub enum InputMode {
    /// Idle: single keys are commands.
    Normal,
    /// Composing the body of a message.
    Editing,
    /// Entering a user name, then a password.
    Login,
}

/// Which part of the login is being entered.
#[derive(Clone, Copy, Debug, PartialEq, Eq, Structural)]
pub enum LoginInput {
    UserName,
    Password,
}

/// A key press, as far as the session distinguishes them.
#[derive(Clone, Copy, Debug, PartialEq, Eq, Structural)]
pub enum Key {
    Char(char),
    Enter,
    Backspace,
    Esc,
    /// Any other key; it changes nothing.
    Other,
}

/// The state of the interactive session.
#[derive(Debug)]
pub struct App {
    /// Current value of the input box.
    pub input: String,
    /// Current input mode.
    pub input_mode: InputMode,
    /// History of recorded messages, oldest first.
    pub messages: Vec<Message>,
    /// Which part of the login the input box holds.
    pub login_input_mode: LoginInput,
}

/// The session as values.
pub struct AppView {
    pub input: Seq<char>,
    pub input_mode: InputMode,
    pub messages: Seq<MessageView>,
    pub login_input_mode: LoginInput,
}

impl View for App {
    type V = AppView;

    open spec fn view(&self) -> AppView {
        AppView {
            input: self.input@,
            input_mode: self.input_mode,
            messages: messages_view(self.messages@),
            login_input_mode: self.login_input_mode,
        }
    }
}

impl Default for App {
    /// An empty session in normal mode.
    fn default() -> (r: App)
        ensures
            r@ == (AppView {
                input: Seq::empty(),
                input_mode: InputMode::Normal,
                messages: Seq::empty(),
                login_input_mode: LoginInput::UserName,
            }),
    {
        let r = App {
            input: String::new(),
            input_mode: InputMode::Normal,
            messages: Vec::new(),
            login_input_mode: LoginInput::UserName,
        };
        assert(r@.messages =~= Seq::<MessageView>::empty());
        r
    }
}

/// What the caller of the session has to do after a key press.
#[derive(Debug)]
pub enum Action {
    /// Nothing: render again and wait for the next key.
    Continue,
    /// Leave the session.
    Quit,
    /// Persist and publish this message, which is already in the history.
    Dispatch(Message),
}

/// An action as values.
pub enum ActionView {
    Continue,
    Quit,
    Dispatch(MessageView),
}

impl View for Action {
    type V = ActionView;

    open spec fn view(&self) -> ActionView {
        match self {
            Action::Continue => ActionView::Continue,
            Action::Quit => ActionView::Quit,
            Action::Dispatch(m) => ActionView::Dispatch(m@),
        }
    }
}

/// The input box after a character or an erase key.
pub open spec fn edit_input(input: Seq<char>, key: Key) -> Seq<char> {
    match key {
        Key::Char(c) => input.push(c),
        Key::Backspace => if input.len() > 0 {
            input.drop_last()
        } else {
            input
        },
        _ => input,
    }
}

/// The message composed by a user from a body.
pub open spec fn composed(id: i32, user_name: Seq<char>, body: Seq<char>) -> MessageView {
    MessageView { id, name: author_of(user_name), body, published: true }
}

/// The session, the user and the action after one key press; `id` is the id that a
/// message composed on this key gets.
pub open spec fn key_step(s: AppView, u: UserView, key: Key, id: i32) -> (AppView, UserView, ActionView) {
    match s.input_mode {
        InputMode::Normal => match key {
            Key::Char(c) => if c == 'e' {
                (AppView { input_mode: InputMode::Editing, ..s }, u, ActionView::Continue)
            } else if c == 'l' || c == 'n' {
                (AppView { input_mode: InputMode::Login, ..s }, u, ActionView::Continue)
            } else if c == 'q' {
                (s, u, ActionView::Quit)
            } else {
                (s, u, ActionView::Continue)
            },
            _ => (s, u, ActionView::Continue),
        },
        InputMode::Login => match key {
            Key::Enter => match s.login_input_mode {
                LoginInput::UserName => (
                    AppView { input: Seq::empty(), login_input_mode: LoginInput::Password, ..s },
                    UserView { name: s.input, ..u },
                    ActionView::Continue,
                ),
                LoginInput::Password => (
                    AppView {
                        input: Seq::empty(),
                        input_mode: InputMode::Editing,
                        login_input_mode: LoginInput::UserName,
                        ..s
                    },
                    UserView { password: s.input, ..u },
                    ActionView::Continue,
                ),
            },
            Key::Esc => (
                AppView { input: Seq::empty(), input_mode: InputMode::Normal, ..s },
                u,
                ActionView::Continue,
            ),
            _ => (AppView { input: edit_input(s.input, key), ..s }, u, ActionView::Continue),
        },
        InputMode::Editing => match key {
            Key::Enter => if is_blank(s.input) {
                (AppView { input: Seq::empty(), ..s }, u, ActionView::Continue)
            } else {
                let m = composed(id, u.name, s.input);
                (
                    AppView { input: Seq::empty(), messages: s.messages.push(m), ..s },
                    u,
                    ActionView::Dispatch(m),
                )
            },
            Key::Esc => (AppView { input_mode: InputMode::Normal, ..s }, u, ActionView::Continue),
            _ => (AppView { input: edit_input(s.input, key), ..s }, u, ActionView::Continue),
        },
    }
}

} // verus!

verus! {

impl App {
    /// Applies a character or an erase key to the input box.
    fn edit(&mut self, key: Key)
        ensures
            final(self)@ == (AppView { input: edit_input(old(self)@.input, key), ..old(self)@ }),
    {
        match key {
            Key::Char(c) => push_char(&mut self.input, c),
            Key::Backspace => {
                let _ = pop_char(&mut self.input);
            },
            _ => {},
        }
    }

    /// Empties the input box and hands back what it held.
    fn take_input(&mut self) -> (r: String)
        ensures
            r@ == old(self)@.input,
            final(self)@ == (AppView { input: Seq::empty(), ..old(self)@ }),
    {
        let taken = self.input.clone();
        self.input = String::new();
        taken
    }

    /// Submits the input box as a message with the given id: a blank input is discarded;
    /// any other becomes a message of `user`, appended to the history and returned.
    pub fn submit_with_id(&mut self, user: &WigglesUser, id: i32) -> (r: Option<Message>)
        ensures
            final(self)@.input == Seq::<char>::empty(),
            final(self)@.input_mode == old(self)@.input_mode,
            final(self)@.login_input_mode == old(self)@.login_input_mode,
            is_blank(old(self)@.input) ==> r is None && final(self)@.messages == old(self)@.messages,
            !is_blank(old(self)@.input) ==> r is Some && r->0@ == composed(id, user.name@, old(self)@.input)
                && final(self)@.messages == old(self)@.messages.push(r->0@),
    {
        let body = self.take_input();
        if blank(body.as_str()) {
            None
        } else {
            let m = Message { id, name: author_name(user), body, published: true };
            let ghost before = self.messages@;
            self.messages.push(m.clone());
            proof {
                assert(messages_view(self.messages@) =~= messages_view(before).push(m@));
            }
            Some(m)
        }
    }

    /// Applies one key press, with `id` as the id of a message that it may compose.
    pub fn apply_key(&mut self, user: &mut WigglesUser, key: Key, id: i32) -> (r: Action)
        ensures
            (final(self)@, final(user)@, r@) == key_step(old(self)@, old(user)@, key, id),
    {
        match self.input_mode {
            InputMode::Normal => match key {
                Key::Char(c) => {
                    if c == 'e' {
                        self.input_mode = InputMode::Editing;
                        Action::Continue
                    } else if c == 'l' || c == 'n' {
                        self.input_mode = InputMode::Login;
                        Action::Continue
                    } else if c == 'q' {
                        Action::Quit
                    } else {
                        Action::Continue
                    }
                },
                _ => Action::Continue,
            },
            InputMode::Login => match key {
                Key::Enter => match self.login_input_mode {
                    LoginInput::UserName => {
                        user.name = self.take_input();
                        self.login_input_mode = LoginInput::Password;
                        Action::Continue
                    },
                    LoginInput::Password => {
                        user.password = self.take_input();
                        self.input_mode = InputMode::Editing;
                        self.login_input_mode = LoginInput::UserName;
                        Action::Continue
                    },
                },
                Key::Esc => {
                    let _ = self.take_input();
                    self.input_mode = InputMode::Normal;
                    Action::Continue
                },
                _ => {
                    self.edit(key);
                    Action::Continue
                },
            },
            InputMode::Editing => match key {
                Key::Enter => match self.submit_with_id(user, id) {
                    Some(m) => Action::Dispatch(m),
                    None => Action::Continue,
                },
                Key::Esc => {
                    self.input_mode = InputMode::Normal;
                    Action::Continue
                },
                _ => {
                    self.edit(key);
                    Action::Continue
                },
            },
        }
    }

    /// Applies one key press; a message composed on it gets a random id.
    pub fn handle_key(&mut self, user: &mut WigglesUser, key: Key) -> (r: Action)
        ensures
            exists|id: i32| (final(self)@, final(user)@, r@) == #[trigger] key_step(old(self)@, old(user)@, key, id),
    {
        let id: i32 = match (self.input_mode, key) {
            (InputMode::Editing, Key::Enter) => rand::random::<i32>(),
            _ => 0,
        };
        self.apply_key(user, key, id)
    }
}

} // verus!

verus! {

/// Inbound payloads as values: `None` stands for a payload that could not be decoded.
pub open spec fn inbound_view(inbound: Seq<Option<Message>>) -> Seq<Option<MessageView>> {
    inbound.map_values(|o: Option<Message>| match o {
        Some(m) => Some(m@),
        None => None,
    })
}

/// The messages that inbound payloads deliver: the decoded ones, in arrival order.
pub open spec fn delivered(inbound: Seq<Option<MessageView>>) -> Seq<MessageView>
    decreases inbound.len(),
{
    if inbound.len() == 0 {
        Seq::empty()
    } else {
        let rest = delivered(inbound.drop_last());
        match inbound.last() {
            Some(m) => rest.push(m),
            None => rest,
        }
    }
}

impl App {
    /// Appends the decoded inbound messages to the history in arrival order; payloads that
    /// could not be decoded are dropped.
    pub fn receive_messages(&mut self, inbound: &Vec<Option<Message>>)
        ensures
            final(self)@ == (AppView {
                messages: old(self)@.messages + delivered(inbound_view(inbound@)),
                ..old(self)@
            }),
    {
        let mut i: usize = 0;
        while i < inbound.len()
            invariant
                i <= inbound.len(),
                self@ == (AppView {
                    messages: old(self)@.messages + delivered(inbound_view(inbound@.subrange(0, i as int))),
                    ..old(self)@
                }),
            decreases inbound.len() - i,
        {
            let ghost before = self.messages@;
            proof {
                assert(inbound@.subrange(0, i + 1).drop_last() =~= inbound@.subrange(0, i as int));
                assert(inbound_view(inbound@.subrange(0, i + 1)).drop_last() =~= inbound_view(
                    inbound@.subrange(0, i as int),
                ));
            }
            match &inbound[i] {
                Some(m) => {
                    self.messages.push(m.clone());
                    proof {
                        assert(messages_view(self.messages@) =~= messages_view(before).push(m@));
                    }
                },
                None => {},
            }
            i = i + 1;
        }
        proof {
            assert(inbound@.subrange(0, inbound@.len() as int) =~= inbound@);
        }
    }

    /// One render tick: merges the inbound messages, then keeps the `HISTORY_WINDOW` most
    /// recent messages.
    pub fn tick(&mut self, inbound: &Vec<Option<Message>>)
        ensures
            final(self)@ == (AppView {
                messages: window(
                    old(self)@.messages + delivered(inbound_view(inbound@)),
                    HISTORY_WINDOW as nat,
                ),
                ..old(self)@
            }),
    {
        self.receive_messages(inbound);
        let mut all: Vec<Message> = Vec::new();
        std::mem::swap(&mut all, &mut self.messages);
        let ghost merged = all@;
        self.messages = keep_recent(all, HISTORY_WINDOW);
        proof {
            assert(messages_view(window(merged, HISTORY_WINDOW as nat)) =~= window(
                messages_view(merged),
                HISTORY_WINDOW as nat,
            ));
        }
    }
}

} // verus!
