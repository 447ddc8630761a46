//! Message delivered to the user handler.

use crate::errors::{Error, ErrorView};
use crate::json::{null, null_value};
use serde_json::Value;
use vstd::prelude::*;
use vstd::string::*;

verus! {

/// Single event delivered to the user handler.
///
/// For incoming messages, `from` and `data` are populated and `err` is `None`.
/// For error events (disconnect, auth failure, server error frame), `err` is
/// `Some(..)`, `from` is empty and `data` is `null`.
#[derive(Debug)]
pub struct Message {
    from: String,
    data: Value,
    err: Option<Error>,
}

/// A [`Message`] with its texts as characters.
pub struct MessageView {
    pub from: Seq<char>,
    pub data: Value,
    pub err: Option<ErrorView>,
}

impl MessageView {
    /// A message `data` sent by `from`.
    pub open spec fn incoming(from: Seq<char>, data: Value) -> Self {
        MessageView { from, data, err: None }
    }

    /// An error event: no sender and no payload.
    pub open spec fn error(err: ErrorView) -> Self {
        MessageView { from: Seq::empty(), data: null_value(), err: Some(err) }
    }

    /// Whether there is somebody to reply to.
    pub open spec fn can_reply(self) -> bool {
        self.err is None && self.from.len() > 0
    }
}

impl View for Message {
    type V = MessageView;

    closed spec fn view(&self) -> MessageView {
        MessageView {
            from: self.from@,
            data: self.data,
            err: match self.err {
                Some(e) => Some(e@),
                None => None,
            },
        }
    }
}

impl Message {
    #[verifier::type_invariant]
    spec fn error_events_are_bare(self) -> bool {
        self.err is Some ==> self.from@ == Seq::<char>::empty() && self.data == null_value()
    }

    /// A message `data` sent by `from`.
    pub fn incoming(from: String, data: Value) -> (r: Self)
        ensures
            r@ == MessageView::incoming(from@, data),
    {
        Message { from, data, err: None }
    }

    /// An error event.
    pub fn error(err: Error) -> (r: Self)
        ensures
            r@ == MessageView::error(err@),
    {
        Message { from: String::new(), data: null(), err: Some(err) }
    }

    /// Sender address, `"as:acme/agent"` or `"ch:acme/channel"`. Empty on
    /// error events.
    pub fn from(&self) -> (r: &str)
        ensures
            r@ == self@.from,
            self@.err is Some ==> r@ == Seq::<char>::empty(),
    {
        proof {
            use_type_invariant(self);
        }
        self.from.as_str()
    }

    /// JSON-decoded payload. `null` on error events.
    pub fn data(&self) -> (r: &Value)
        ensures
            *r == self@.data,
            self@.err is Some ==> *r == null_value(),
    {
        proof {
            use_type_invariant(self);
        }
        &self.data
    }

    /// Takes ownership of the payload, leaving `null` behind.
    pub fn take_data(&mut self) -> (r: Value)
        ensures
            r == old(self)@.data,
            final(self)@ == (MessageView { data: null_value(), ..old(self)@ }),
    {
        proof {
            use_type_invariant(&*self);
        }
        let mut data = null();
        std::mem::swap(&mut self.data, &mut data);
        data
    }

    /// The error carried by this event, if any.
    pub fn err(&self) -> (r: Option<&Error>)
        ensures
            match r {
                Some(e) => self@.err == Some(e@),
                None => self@.err is None,
            },
    {
        self.err.as_ref()
    }

    /// Takes ownership of the error, leaving an event without one. Nobody can be
    /// replied to on what is left of an error event.
    pub fn take_err(&mut self) -> (r: Option<Error>)
        ensures
            match r {
                Some(e) => old(self)@.err == Some(e@) && !final(self)@.can_reply(),
                None => old(self)@.err is None,
            },
            final(self)@ == (MessageView { err: None, ..old(self)@ }),
    {
        proof {
            use_type_invariant(&*self);
        }
        let mut err: Option<Error> = None;
        std::mem::swap(&mut self.err, &mut err);
        err
    }

    /// The address that a reply to this message goes to.
    ///
    /// [`Error::ReplyOnError`] on an error event and on a message without a
    /// sender; [`Error::Closed`] where the agent that received the message is
    /// gone.
    pub fn reply(&self, agent_alive: bool) -> (r: Result<&str, Error>)
        ensures
            match r {
                Ok(to) => self@.can_reply() && agent_alive && to@ == self@.from,
                Err(e) => if self@.can_reply() {
                    !agent_alive && e@ == ErrorView::Closed
                } else {
                    e@ == ErrorView::ReplyOnError
                },
            },
    {
        if self.err.is_some() || self.from.as_str().is_empty() {
            return Err(Error::ReplyOnError);
        }
        if !agent_alive {
            return Err(Error::Closed);
        }
        Ok(self.from.as_str())
    }
}

} // verus!
