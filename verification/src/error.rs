//! A catch-all container for conversion errors.
//!
//! A migration chain may route every conversion failure into one caller-chosen
//! error type.  When the caller does not want to define such a type, this
//! container stands in: it owns the rendered description of whatever error a
//! conversion step raised, type-erased down to the text that a caller would
//! display or log.

use vstd::prelude::*;

verus! {

/// A type-erased migration failure: the description of the error that some
/// conversion step raised, kept as owned text.
#[derive(Debug)]
pub struct MagicError {
    message: String,
}

impl View for MagicError {
    type V = Seq<char>;

    closed spec fn view(&self) -> Seq<char> {
        self.message@
    }
}

impl DeepView for MagicError {
    type V = Seq<char>;

    open spec fn deep_view(&self) -> Seq<char> {
        self@
    }
}

impl MagicError {
    /// Wraps the rendered description of an error.
    pub fn new(message: String) -> (r: Self)
        ensures
            r@ == message@,
    {
        MagicError { message }
    }

    /// The rendered description of the wrapped error.
    pub fn message(&self) -> (r: &str)
        ensures
            r@ == self@,
    {
        self.message.as_str()
    }

    /// Gives the wrapped description back as owned text.
    pub fn into_message(self) -> (r: String)
        ensures
            r@ == self@,
    {
        self.message
    }
}

impl From<String> for MagicError {
    fn from(message: String) -> (r: Self) {
        MagicError { message }
    }
}

impl vstd::std_specs::convert::FromSpecImpl<String> for MagicError {
    open spec fn obeys_from_spec() -> bool {
        true
    }

    closed spec fn from_spec(message: String) -> Self {
        MagicError { message }
    }
}

/// What converting a `String` into a [`MagicError`] means: the conversion
/// wraps the message unchanged, so `MagicError::from(s)` (or `s.into()`)
/// yields an error whose view — and hence whose `message` — is the text it
/// was given.
pub proof fn lemma_from_string_preserves_message(message: String)
    ensures
        (<MagicError as vstd::std_specs::convert::FromSpec<String>>::from_spec(message))@
            == message@,
{
}

} // verus!
