//! The passkey capability: the operations that the app asks the platform
//! authenticator to perform, and what the authenticator answers.
use vstd::prelude::*;

verus! {

/// A failure reported by the platform authenticator.
#[derive(Clone, Debug, PartialEq, Eq)]
pub struct Error {
    message: String,
}

impl View for Error {
    type V = Seq<char>;

    closed spec fn view(&self) -> Seq<char> {
        self.message@
    }
}

/// What `{:?}` makes of a string: the string quoted, with its special characters escaped.
pub uninterp spec fn debug_quoted(text: Seq<char>) -> Seq<char>;

/// Formats `text` with std's `Debug` implementation for `str`.
///
/// The contract claims only that the result is a function of `text`, named
/// [`debug_quoted`]; which characters std escapes, and how, is left unsaid.
#[verifier::external_body]
fn quote_for_debug(text: &str) -> (quoted: String)
    ensures
        quoted@ == debug_quoted(text@),
{
    format!("{:?}", text)
}

/// The `Debug` text of an [`Error`] whose message is `message`.
pub open spec fn error_debug_text(message: Seq<char>) -> Seq<char> {
    "Error { message: "@ + debug_quoted(message) + " }"@
}

impl Error {
    /// An error that carries `message`.
    pub fn new(message: String) -> (error: Error)
        ensures
            error@ == message@,
    {
        Error { message }
    }

    /// The message that the authenticator gave.
    pub fn message(&self) -> (message: &str)
        ensures
            message@ == self@,
    {
        self.message.as_str()
    }

    /// The text that `{:?}` gives for this error.
    pub fn debug_text(&self) -> (text: String)
        ensures
            text@ == error_debug_text(self@),
    {
        let mut text = "Error { message: ".to_owned();
        let quoted = quote_for_debug(self.message.as_str());
        text.append(quoted.as_str());
        text.append(" }");
        text
    }
}

/// An operation that the app asks the platform authenticator to perform. The
/// payload is the JSON challenge that the server issued.
#[derive(Clone, Debug, PartialEq, Eq)]
pub enum PasskeyOperation {
    CreateCredential(Vec<u8>),
    RequestCredential(Vec<u8>),
}

/// The mathematical value of a [`PasskeyOperation`].
pub enum OperationView {
    CreateCredential(Seq<u8>),
    RequestCredential(Seq<u8>),
}

impl View for PasskeyOperation {
    type V = OperationView;

    open spec fn view(&self) -> OperationView {
        match self {
            PasskeyOperation::CreateCredential(c) => OperationView::CreateCredential(c@),
            PasskeyOperation::RequestCredential(c) => OperationView::RequestCredential(c@),
        }
    }
}

/// What the platform authenticator answers: a new credential, an assertion of
/// an existing one (each as a JSON document), or an error message.
#[derive(Clone, Debug, PartialEq, Eq)]
pub enum PasskeyOutput {
    RegisterCredential(Vec<u8>),
    Credential(Vec<u8>),
    Error(String),
}

/// The outcome that an authenticator's answer stands for.
pub open spec fn outcome_of(output: PasskeyOutput) -> Result<Seq<u8>, Seq<char>> {
    match output {
        PasskeyOutput::RegisterCredential(c) => Ok(c@),
        PasskeyOutput::Credential(c) => Ok(c@),
        PasskeyOutput::Error(message) => Err(message@),
    }
}

impl PasskeyOutput {
    /// Turns the authenticator's answer into the outcome handed to the app:
    /// the credential's JSON document, or the authenticator's error.
    pub fn into_result(self) -> (outcome: Result<Vec<u8>, Error>)
        ensures
            outcome_of(self) == match outcome {
                Ok(c) => Ok::<Seq<u8>, Seq<char>>(c@),
                Err(e) => Err(e@),
            },
    {
        match self {
            PasskeyOutput::RegisterCredential(c) => Ok(c),
            PasskeyOutput::Credential(c) => Ok(c),
            PasskeyOutput::Error(message) => Err(Error { message }),
        }
    }
}

} // verus!
