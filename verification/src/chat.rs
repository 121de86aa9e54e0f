//! The chat's page: the connection to the server and the list of messages
//! that the page shows.
//!
//! The socket and the page's elements are the caller's. Here stands what is
//! decided: the address of the server, what is sent to it, and how the list
//! of messages grows.

use vstd::prelude::*;
use vstd::string::*;
use crate::text::texts;
use crate::wire::{decode_frame, incoming_text, Frame};

verus! {

/// What happens to a page.
#[derive(Debug)]
pub enum Msg {
    /// A text came in from the server.
    Received(String),
    /// The user asked for the text in the input field to be sent.
    Send,
}

/// The address of the chat's server on `host`.
pub open spec fn chat_url(host: Seq<char>) -> Seq<char> {
    "ws://"@ + host + "/chat"@
}

/// A page's connection to the server: the server's address and the texts
/// that wait to be sent.
#[derive(Debug)]
pub struct Chat {
    url: String,
    outgoing: Vec<String>,
}

impl Chat {
    /// The address of the server.
    pub closed spec fn spec_url(&self) -> Seq<char> {
        self.url@
    }

    /// The texts that wait to be sent, the oldest first.
    pub closed spec fn spec_outgoing(&self) -> Seq<Seq<char>> {
        texts(self.outgoing@)
    }

    /// The connection of a page that was loaded from `host`; nothing waits
    /// to be sent.
    pub fn new(host: &str) -> (r: Chat)
        ensures
            r.spec_url() == chat_url(host@),
            r.spec_outgoing() == Seq::<Seq<char>>::empty(),
    {
        let mut url = String::from_str("ws://");
        url.append(host);
        url.append("/chat");
        let r = Chat { url, outgoing: Vec::new() };
        assert(r.spec_outgoing() =~= Seq::<Seq<char>>::empty());
        r
    }

    /// The address of the server.
    pub fn url(&self) -> (r: &str)
        ensures
            r@ == self.spec_url(),
    {
        self.url.as_str()
    }

    /// Hands `text` over to be sent, behind the texts that wait already.
    pub fn send(&mut self, text: String)
        ensures
            final(self).spec_url() == old(self).spec_url(),
            final(self).spec_outgoing() == old(self).spec_outgoing().push(text@),
    {
        self.outgoing.push(text);
        assert(texts(self.outgoing@) =~= texts(old(self).outgoing@).push(text@));
    }

    /// Takes out the texts that wait to be sent, the oldest first.
    pub fn take_outgoing(&mut self) -> (r: Vec<String>)
        ensures
            final(self).spec_url() == old(self).spec_url(),
            final(self).spec_outgoing() == Seq::<Seq<char>>::empty(),
            texts(r@) == old(self).spec_outgoing(),
    {
        let mut taken: Vec<String> = Vec::new();
        core::mem::swap(&mut self.outgoing, &mut taken);
        assert(texts(self.outgoing@) =~= Seq::<Seq<char>>::empty());
        taken
    }

    /// What a frame from the server means to the page: a text that came in,
    /// or nothing.
    pub fn receive(frame: Frame) -> (r: Option<Msg>)
        ensures
            match incoming_text(frame@) {
                Some(text) => r matches Some(Msg::Received(got)) && got@ == text,
                None => r is None,
            },
    {
        match decode_frame(frame) {
            Some(text) => Some(Msg::Received(text)),
            None => None,
        }
    }
}

/// What the page shows of a text that its user sent.
pub open spec fn own_text(text: Seq<char>) -> Seq<char> {
    "You: "@ + text
}

/// What the caller has to do after an update.
#[derive(Clone, Copy, Debug, PartialEq, Eq, Structural)]
pub struct Update {
    /// Whether the page is to be drawn again.
    pub redraw: bool,
    /// Whether the input field is to be emptied.
    pub clear_input: bool,
}

/// A page of the chat: its connection and the messages that it shows.
#[derive(Debug)]
pub struct FullStackApp {
    chat: Chat,
    messages: Vec<String>,
}

impl FullStackApp {
    /// The messages that the page shows, the oldest first.
    pub closed spec fn spec_messages(&self) -> Seq<Seq<char>> {
        texts(self.messages@)
    }

    /// The page's connection.
    pub closed spec fn spec_chat(&self) -> Chat {
        self.chat
    }

    /// A page that was loaded from `host`; it shows no message.
    pub fn create(host: &str) -> (r: FullStackApp)
        ensures
            r.spec_messages() == Seq::<Seq<char>>::empty(),
            r.spec_chat().spec_url() == chat_url(host@),
            r.spec_chat().spec_outgoing() == Seq::<Seq<char>>::empty(),
    {
        let r = FullStackApp { chat: Chat::new(host), messages: Vec::new() };
        assert(r.spec_messages() =~= Seq::<Seq<char>>::empty());
        r
    }

    /// The messages that the page shows, the oldest first.
    pub fn messages(&self) -> (r: &Vec<String>)
        ensures
            texts(r@) == self.spec_messages(),
    {
        &self.messages
    }

    /// The address of the server.
    pub fn chat_url(&self) -> (r: &str)
        ensures
            r@ == self.spec_chat().spec_url(),
    {
        self.chat.url()
    }

    /// Takes out the texts that wait to be sent to the server.
    pub fn take_outgoing(&mut self) -> (r: Vec<String>)
        ensures
            final(self).spec_messages() == old(self).spec_messages(),
            final(self).spec_chat().spec_url() == old(self).spec_chat().spec_url(),
            final(self).spec_chat().spec_outgoing() == Seq::<Seq<char>>::empty(),
            texts(r@) == old(self).spec_chat().spec_outgoing(),
    {
        self.chat.take_outgoing()
    }

    /// Takes in what happened to the page. A text that came in is shown as
    /// it is. On `Send`, `input` is what the input field holds, or nothing
    /// where the page has no such field: the text is shown as the user's own
    /// and handed over to be sent, and the field is to be emptied.
    pub fn update(&mut self, msg: Msg, input: Option<String>) -> (r: Update)
        ensures
            final(self).spec_chat().spec_url() == old(self).spec_chat().spec_url(),
            match (msg, input) {
                (Msg::Received(text), _) => {
                    &&& final(self).spec_messages() == old(self).spec_messages().push(text@)
                    &&& final(self).spec_chat().spec_outgoing() == old(
                        self,
                    ).spec_chat().spec_outgoing()
                    &&& r == Update { redraw: true, clear_input: false }
                },
                (Msg::Send, Some(text)) => {
                    &&& final(self).spec_messages() == old(self).spec_messages().push(
                        own_text(text@),
                    )
                    &&& final(self).spec_chat().spec_outgoing() == old(
                        self,
                    ).spec_chat().spec_outgoing().push(text@)
                    &&& r == Update { redraw: true, clear_input: true }
                },
                (Msg::Send, None) => {
                    &&& final(self).spec_messages() == old(self).spec_messages()
                    &&& final(self).spec_chat().spec_outgoing() == old(
                        self,
                    ).spec_chat().spec_outgoing()
                    &&& r == Update { redraw: true, clear_input: false }
                },
            },
    {
        match msg {
            Msg::Received(text) => {
                self.messages.push(text);
                assert(texts(self.messages@) =~= texts(old(self).messages@).push(text@));
                Update { redraw: true, clear_input: false }
            },
            Msg::Send => {
                match input {
                    Some(text) => {
                        let shown = String::from_str("You: ").concat(text.as_str());
                        self.messages.push(shown);
                        assert(texts(self.messages@) =~= texts(old(self).messages@).push(
                            own_text(text@),
                        ));
                        self.chat.send(text);
                        Update { redraw: true, clear_input: true }
                    },
                    None => Update { redraw: true, clear_input: false },
                }
            },
        }
    }
}

} // verus!
