use vstd::prelude::*;

verus! {

/// Typed failure surfaced to the caller of every fallible operation in
/// this crate. The excluded presentation layer decides how to show it.
#[derive(Debug)]
pub enum Error {
    /// A structured-configuration decode failure.
    Json(String),
    /// A compressed-container (archive) format failure.
    Zip(String),
    /// A file create/open/read/write failure.
    IO(String),
    /// An environment or policy failure, described in plain words.
    Message(String),
}

impl Error {
    /// The message of this error as the presentation layer renders it.
    pub open spec fn message_spec(&self) -> Seq<char> {
        match self {
            Error::Json(m) => "JSON Error: "@ + m@,
            Error::Zip(m) => "Zip Error: "@ + m@,
            Error::IO(m) => "IO Error: "@ + m@,
            Error::Message(m) => m@,
        }
    }

    /// Render the error as a human-readable message.
    pub fn message(&self) -> (r: String)
        ensures
            r@ == self.message_spec(),
    {
        match self {
            Error::Json(m) => String::from_str("JSON Error: ").concat(m.as_str()),
            Error::Zip(m) => String::from_str("Zip Error: ").concat(m.as_str()),
            Error::IO(m) => String::from_str("IO Error: ").concat(m.as_str()),
            Error::Message(m) => m.clone(),
        }
    }
}

} // verus!
