//! The context that is attached to an error: a code, and a message for the user.
use crate::code::Code;
use std::borrow::Cow;
use vstd::prelude::*;

verus! {

/// A context for classifying errors.
///
/// It provides a [`Code`], which may be [unknown](Code::Unknown), and a `message` which explains
/// more about the problem at hand.
#[derive(Debug)]
pub struct Context {
    /// The classification of the error.
    pub code: Code,
    /// A description of what went wrong, if available.
    pub message: Option<Cow<'static, str>>,
}

/// What a [`Context`] says, whether its message is borrowed or owned.
pub struct ContextView {
    pub code: Code,
    pub message: Option<Seq<char>>,
}

impl ContextView {
    /// The text shown for a context: its message, or a fixed text where it has none.
    pub open spec fn text(self) -> Seq<char> {
        match self.message {
            Some(message) => message,
            None => "Something went wrong"@,
        }
    }

    /// The context that a bare code stands for: that code, and no message.
    pub open spec fn of_code(code: Code) -> ContextView {
        ContextView { code, message: None }
    }
}

impl View for Context {
    type V = ContextView;

    open spec fn view(&self) -> ContextView {
        ContextView {
            code: self.code,
            message: match self.message {
                Some(message) => Some(message@),
                None => None,
            },
        }
    }
}

impl Context {
    /// Create a new instance with an unknown code and an owned `message`.
    pub fn new(message: String) -> (context: Self)
        ensures
            context == (Context { code: Code::Unknown, message: Some(Cow::Owned(message)) }),
            context@ == (ContextView { code: Code::Unknown, message: Some(message@) }),
    {
        Context { code: Code::Unknown, message: Some(Cow::Owned(message)) }
    }

    /// Create a new instance with `code` and a statically known `message`.
    pub fn new_static(code: Code, message: &'static str) -> (context: Self)
        ensures
            context == (Context { code, message: Some(Cow::Borrowed(message)) }),
            context@ == (ContextView { code, message: Some(message@) }),
    {
        Context { code, message: Some(Cow::Borrowed(message)) }
    }

    /// Adjust the `code` of this instance to the given one.
    pub fn with_code(self, code: Code) -> (context: Self)
        ensures
            context == (Context { code, message: self.message }),
            context@ == (ContextView { code, message: self@.message }),
    {
        Context { code, message: self.message }
    }

    /// The text to show for this context: its message, or a fixed text where it has none.
    pub fn display(&self) -> (text: &str)
        ensures
            text@ == self@.text(),
    {
        match &self.message {
            Some(Cow::Borrowed(message)) => message,
            Some(Cow::Owned(message)) => message.as_str(),
            None => "Something went wrong",
        }
    }
}

impl Default for Context {
    /// The context of an error of which nothing is known.
    fn default() -> (context: Self)
        ensures
            context == (Context { code: Code::Unknown, message: None }),
    {
        Context { code: Code::Unknown, message: None }
    }
}

impl Clone for Context {
    fn clone(&self) -> (copy: Self)
        ensures
            copy == *self,
    {
        let message = match &self.message {
            Some(Cow::Borrowed(message)) => Some(Cow::Borrowed(*message)),
            Some(Cow::Owned(message)) => Some(Cow::Owned(message.clone())),
            None => None,
        };
        Context { code: self.code, message }
    }
}

impl From<Code> for Context {
    /// A bare code stands for a context with that code and no message.
    fn from(code: Code) -> (context: Self) {
        Context { code, message: None }
    }
}

impl vstd::std_specs::convert::FromSpecImpl<Code> for Context {
    open spec fn obeys_from_spec() -> bool {
        true
    }

    open spec fn from_spec(code: Code) -> Self {
        Context { code, message: None }
    }
}

impl core::fmt::Display for Context {
    /// Writes the message, or the fixed text where there is none.
    fn fmt(&self, f: &mut core::fmt::Formatter<'_>) -> core::fmt::Result {
        f.write_str(self.display())
    }
}

} // verus!
