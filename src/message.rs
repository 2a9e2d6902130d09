use vstd::prelude::*;
use vstd::string::StringSliceAdditionalSpecFns;
use crate::constants::{MessageStyle, ResultCode};

verus! {

/// Whether a byte sequence holds a null byte.
pub open spec fn has_nul(b: Seq<u8>) -> bool {
    exists|i: int| 0 <= i < b.len() && b[i] == 0
}

/// The index of the first null byte at or after `i`, or the length if none.
pub open spec fn nul_from(b: Seq<u8>, i: int) -> int
    decreases b.len() - i,
{
    if i < 0 || i >= b.len() || b[i] == 0 {
        i
    } else {
        nul_from(b, i + 1)
    }
}

/// What a reader of a null-terminated buffer sees: the bytes before the
/// first null byte (all of them where there is none).
pub open spec fn c_text(b: Seq<u8>) -> Seq<u8> {
    b.take(nul_from(b, 0))
}

/// The wire form of outbound text: its bytes followed by one null byte.
pub open spec fn terminated(b: Seq<u8>) -> Seq<u8> {
    b.push(0)
}

/// Reading back the wire form of text without null bytes gives the text
/// itself: the terminator is the only null byte, and it ends the text.
pub proof fn lemma_terminated_reads_back(text: Seq<u8>)
    requires
        !has_nul(text),
    ensures
        c_text(terminated(text)) == text,
        terminated(text).len() == text.len() + 1,
        terminated(text).last() == 0,
{
    lemma_terminator_found_from(text, 0);
    assert(terminated(text).take(text.len() as int) =~= text);
}

/// From any index of text without null bytes, the first null byte of its
/// wire form is the terminator.
proof fn lemma_terminator_found_from(text: Seq<u8>, i: int)
    requires
        !has_nul(text),
        0 <= i <= text.len(),
    ensures
        nul_from(terminated(text), i) == text.len(),
    decreases text.len() - i,
{
    if i < text.len() {
        assert(terminated(text)[i] == text[i]);
        lemma_terminator_found_from(text, i + 1);
    }
}

/// Why a message could not be delivered.
#[derive(Clone, Copy, Debug, PartialEq, Eq, Structural)]
pub enum SendError {
    /// The text holds a null byte, so it has no null-terminated form. Nothing
    /// was sent.
    InteriorNul,
    /// The application reported this failure status.
    Failed(ResultCode),
}

/// One outbound conversation turn, as the application's callback sees it.
pub struct Message {
    /// How the text is to be shown.
    pub style: MessageStyle,
    /// The text, followed by its null terminator.
    pub text: Vec<u8>,
}

impl Message {
    /// The text has exactly one null byte, at its end.
    pub open spec fn well_formed(&self) -> bool {
        &&& self.text@.len() > 0
        &&& self.text@.last() == 0
        &&& !has_nul(self.text@.drop_last())
    }

    /// Builds the message for `text` in `style`, failing where the text
    /// holds a null byte.
    pub fn new(style: MessageStyle, text: &str) -> (r: Result<Message, SendError>)
        ensures
            has_nul(text.spec_bytes()) <==> r is Err,
            r is Err ==> r == Err::<Message, SendError>(SendError::InteriorNul),
            r matches Ok(m) ==> m.style == style && m.text@ == terminated(text.spec_bytes())
                && m.well_formed(),
    {
        let bytes: &[u8] = text.as_bytes();
        let mut out: Vec<u8> = Vec::new();
        let mut i: usize = 0;
        while i < bytes.len()
            invariant
                bytes@ == text.spec_bytes(),
                0 <= i <= bytes@.len(),
                out@ == bytes@.take(i as int),
                forall|j: int| 0 <= j < i ==> bytes@[j] != 0,
            decreases bytes@.len() - i,
        {
            if bytes[i] == 0 {
                return Err(SendError::InteriorNul);
            }
            out.push(bytes[i]);
            i = i + 1;
        }
        assert(out@ == bytes@);
        out.push(0);
        assert(out@.drop_last() == bytes@);
        Ok(Message { style, text: out })
    }
}

/// What the application's callback hands back for one message.
pub struct Reply {
    /// The status the application reported.
    pub status: ResultCode,
    /// The response buffer, if any: bytes up to and including a null
    /// terminator. `None` where the response text pointer was null.
    pub text: Option<Vec<u8>>,
}

/// Reads a null-terminated buffer: a copy of the bytes before its first
/// null byte.
pub fn read_c_text(buf: &[u8]) -> (r: Vec<u8>)
    ensures
        r@ == c_text(buf@),
{
    let mut out: Vec<u8> = Vec::new();
    let mut i: usize = 0;
    while i < buf.len() && buf[i] != 0
        invariant
            0 <= i <= buf@.len(),
            out@ == buf@.take(i as int),
            nul_from(buf@, i as int) == nul_from(buf@, 0),
        decreases buf@.len() - i,
    {
        out.push(buf[i]);
        i = i + 1;
    }
    out
}

} // verus!
