use vstd::prelude::*;

verus! {

/// The status code that reports success.
pub const PAM_SUCCESS: i32 = 0;

/// The kind of a conversation turn, as the application renders it.
#[derive(Clone, Copy, Debug, PartialEq, Eq, Structural)]
pub enum MessageStyle {
    /// A prompt whose answer is not echoed (a password).
    PromptEchoOff,
    /// A prompt whose answer is echoed (a user name).
    PromptEchoOn,
    /// An error message; carries no answer back.
    ErrorMsg,
    /// An informational message; carries no answer back.
    TextInfo,
    /// A yes/no/maybe question.
    RadioType,
    /// A binary prompt, for agents rather than people.
    BinaryPrompt,
}

/// The integer by which the application knows each style.
pub open spec fn style_code(s: MessageStyle) -> i32 {
    match s {
        MessageStyle::PromptEchoOff => 1,
        MessageStyle::PromptEchoOn => 2,
        MessageStyle::ErrorMsg => 3,
        MessageStyle::TextInfo => 4,
        MessageStyle::RadioType => 5,
        MessageStyle::BinaryPrompt => 7,
    }
}

impl MessageStyle {
    /// The styles that only show text and take no answer.
    pub open spec fn is_display_only(self) -> bool {
        self == MessageStyle::ErrorMsg || self == MessageStyle::TextInfo
    }

    /// The style's integer code on the wire.
    pub fn code(&self) -> (r: i32)
        ensures
            r == style_code(*self),
    {
        match self {
            MessageStyle::PromptEchoOff => 1,
            MessageStyle::PromptEchoOn => 2,
            MessageStyle::ErrorMsg => 3,
            MessageStyle::TextInfo => 4,
            MessageStyle::RadioType => 5,
            MessageStyle::BinaryPrompt => 7,
        }
    }
}

/// Distinct styles have distinct codes, so the application can always tell
/// which style it was sent.
pub proof fn lemma_style_code_injective(a: MessageStyle, b: MessageStyle)
    ensures
        style_code(a) == style_code(b) <==> a == b,
{
}

/// The kinds of extension data that a module can ask its handle for.
#[derive(Clone, Copy, Debug, PartialEq, Eq, Structural)]
pub enum ItemType {
    /// The conversation channel.
    Conv,
}

/// The integer tag by which the application knows each kind of item.
pub open spec fn item_code(t: ItemType) -> i32 {
    match t {
        ItemType::Conv => 5,
    }
}

impl ItemType {
    /// The item's integer tag on the wire.
    pub fn code(&self) -> (r: i32)
        ensures
            r == item_code(*self),
    {
        match self {
            ItemType::Conv => 5,
        }
    }
}

/// A status code reported by the application: zero for success, any other
/// value names a failure. This layer compares it with success and otherwise
/// passes it on unchanged.
#[derive(Clone, Copy, Debug, PartialEq, Eq, Structural)]
pub struct ResultCode(pub i32);

impl ResultCode {
    pub open spec fn spec_is_success(&self) -> bool {
        self.0 == PAM_SUCCESS
    }

    /// Whether the code reports success.
    #[verifier::when_used_as_spec(spec_is_success)]
    pub fn is_success(&self) -> (r: bool)
        ensures
            r == self.spec_is_success(),
    {
        self.0 == PAM_SUCCESS
    }
}

} // verus!
