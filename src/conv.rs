use vstd::prelude::*;
use vstd::string::StringSliceAdditionalSpecFns;
use crate::constants::{ItemType, MessageStyle, ResultCode};
use crate::message::{c_text, has_nul, lemma_terminated_reads_back, read_c_text, terminated, Message, Reply, SendError};

verus! {

/// What a caller of `send` receives, with the response bytes as a sequence.
pub open spec fn result_view(r: Result<Option<Vec<u8>>, SendError>) -> Result<
    Option<Seq<u8>>,
    SendError,
> {
    match r {
        Ok(Some(v)) => Ok(Some(v@)),
        Ok(None) => Ok(None),
        Err(e) => Err(e),
    }
}

/// The outcome of a conversation turn, given the application's reply: on
/// success the response text up to its terminator, or no response where the
/// response text was null; on failure the reported status, unchanged.
pub open spec fn reply_outcome(reply: Reply) -> Result<Option<Seq<u8>>, SendError> {
    if reply.status.spec_is_success() {
        match reply.text {
            Some(buf) => Ok(Some(c_text(buf@))),
            None => Ok(None),
        }
    } else {
        Err(SendError::Failed(reply.status))
    }
}

/// Turns the application's reply into the outcome of a conversation turn.
pub fn interpret_reply(reply: Reply) -> (r: Result<Option<Vec<u8>>, SendError>)
    ensures
        result_view(r) == reply_outcome(reply),
{
    if reply.status.is_success() {
        match reply.text {
            Some(buf) => Ok(Some(read_c_text(buf.as_slice()))),
            None => Ok(None),
        }
    } else {
        Err(SendError::Failed(reply.status))
    }
}

/// A success status with no response text means "no response", whatever
/// the style; this is what the display-only styles get back.
pub proof fn lemma_null_response_is_no_response(reply: Reply)
    requires
        reply.status.spec_is_success(),
        reply.text is None,
    ensures
        reply_outcome(reply) == Ok::<Option<Seq<u8>>, SendError>(None),
{
}

/// A success status with a response text gives back exactly that text,
/// byte for byte, without its terminator.
pub proof fn lemma_response_text_returned(reply: Reply, text: Seq<u8>)
    requires
        reply.status.spec_is_success(),
        reply.text matches Some(buf) && buf@ == terminated(text),
        !has_nul(text),
    ensures
        reply_outcome(reply) == Ok::<Option<Seq<u8>>, SendError>(Some(text)),
{
    lemma_terminated_reads_back(text);
}

/// Any status other than success is returned as the error, unchanged,
/// whatever response text came with it.
pub proof fn lemma_failure_status_returned(reply: Reply)
    requires
        !reply.status.spec_is_success(),
    ensures
        reply_outcome(reply) == Err::<Option<Seq<u8>>, SendError>(SendError::Failed(reply.status)),
{
}

/// The text that the callback receives reads back, up to its terminator, as
/// the text that was sent.
pub proof fn lemma_delivered_text_is_input(message: Message, text: Seq<u8>)
    requires
        message.text@ == terminated(text),
        !has_nul(text),
    ensures
        c_text(message.text@) == text,
        message.text@.last() == 0,
        message.text@.len() == text.len() + 1,
{
    lemma_terminated_reads_back(text);
}

/// A channel for talking to the user, through a callback that the
/// application supplies. The callback relays each message to the user and
/// hands back the user's reply.
pub struct Conv<F> {
    callback: F,
}

impl<F: Fn(&Message) -> Reply> Conv<F> {
    /// The callback through which messages go.
    pub closed spec fn callback(&self) -> F {
        self.callback
    }

    /// Wraps the application's callback.
    pub fn new(callback: F) -> (r: Self)
        ensures
            r.callback() == callback,
    {
        Conv { callback }
    }

    /// The tag under which the application holds a conversation channel.
    pub fn type_id() -> (r: ItemType)
        ensures
            r == ItemType::Conv,
    {
        ItemType::Conv
    }

    /// Sends one message to the user and returns the response.
    ///
    /// Where `text` holds a null byte the message cannot be built, and the
    /// callback is not called. Otherwise the callback gets the message:
    /// `style`, and the bytes of `text` followed by a null byte. On a success
    /// status the result is the response text, or `None` where the
    /// application gave none (as for the display-only styles); any other
    /// status comes back as the error.
    pub fn send(&self, style: MessageStyle, text: &str) -> (r: Result<Option<Vec<u8>>, SendError>)
        requires
            forall|m: &Message| call_requires(self.callback(), (m,)),
        ensures
            has_nul(text.spec_bytes()) ==> r == Err::<Option<Vec<u8>>, SendError>(
                SendError::InteriorNul,
            ),
            !has_nul(text.spec_bytes()) ==> exists|m: Message, reply: Reply|
                {
                    &&& m.style == style
                    &&& m.text@ == terminated(text.spec_bytes())
                    &&& call_ensures(self.callback(), (&m,), reply)
                    &&& result_view(r) == reply_outcome(reply)
                },
    {
        match Message::new(style, text) {
            Err(e) => Err(e),
            Ok(message) => {
                assert(call_requires(self.callback(), (&message,)));
                let reply = (self.callback)(&message);
                let r = interpret_reply(reply);
                assert(call_ensures(self.callback(), (&message,), reply));
                r
            },
        }
    }
}

} // verus!
