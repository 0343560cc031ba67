use vstd::prelude::*;

verus! {

/// What a message is, as mathematical values.
pub struct MessageView {
    pub id: i32,
    pub name: Seq<char>,
    pub body: Seq<char>,
    pub published: bool,
}

/// One chat message, as composed locally or received from the broker.
#[derive(Debug, PartialEq, Eq)]
pub struct Message {
    pub id: i32,
    pub name: String,
    pub body: String,
    pub published: bool,
}

impl View for Message {
    type V = MessageView;

    open spec fn view(&self) -> MessageView {
        MessageView { id: self.id, name: self.name@, body: self.body@, published: self.published }
    }
}

/// The history as values: each message replaced by its view.
pub open spec fn messages_view(msgs: Seq<Message>) -> Seq<MessageView> {
    msgs.map_values(|m: Message| m@)
}

impl Message {
    /// A field-by-field copy of the message.
    pub fn clone(&self) -> (r: Message)
        ensures
            r == *self,
            r@ == self@,
    {
        Message {
            id: self.id,
            name: self.name.clone(),
            body: self.body.clone(),
            published: self.published,
        }
    }

    /// A fixed sample message, not yet published.
    pub fn message_declaration() -> (r: Message)
        ensures
            r@ == (MessageView {
                id: 12345,
                name: "new_message"@,
                body: "new_message body"@,
                published: false,
            }),
    {
        Message {
            id: 12345,
            name: "new_message".to_owned(),
            body: "new_message body".to_owned(),
            published: false,
        }
    }
}

/// A user account as values.
pub struct UserView {
    pub id: i32,
    pub name: Seq<char>,
    pub password: Seq<char>,
    pub email: Seq<char>,
}

/// The identity of the person at the keyboard: an empty name means that none was given.
#[derive(Debug, PartialEq, Eq)]
pub struct WigglesUser {
    pub id: i32,
    pub name: String,
    pub password: String,
    pub email: String,
}

impl View for WigglesUser {
    type V = UserView;

    open spec fn view(&self) -> UserView {
        UserView { id: self.id, name: self.name@, password: self.password@, email: self.email@ }
    }
}

impl Default for WigglesUser {
    /// A user with a random id and no name, password or email.
    fn default() -> (r: WigglesUser)
        ensures
            r.name@.len() == 0,
            r.password@.len() == 0,
            r.email@.len() == 0,
    {
        WigglesUser {
            id: rand::random::<i32>(),
            name: String::new(),
            password: String::new(),
            email: String::new(),
        }
    }
}

/// Relies on `rand::random`: a value drawn from the thread-local generator; nothing is
/// promised of it.
pub assume_specification<T>[ rand::random::<T> ]() -> (r: T)
    where
        rand::distributions::Standard: rand::distributions::Distribution<T>,
;

/// The author shown for messages of a user: the user's name, or "Anonymous" when none is set.
pub open spec fn author_of(name: Seq<char>) -> Seq<char> {
    if name.len() == 0 {
        "Anonymous"@
    } else {
        name
    }
}

/// Computes `author_of` for a user.
pub fn author_name(user: &WigglesUser) -> (r: String)
    ensures
        r@ == author_of(user.name@),
{
    if user.name.as_str().is_empty() {
        "Anonymous".to_owned()
    } else {
        user.name.clone()
    }
}

} // verus!
