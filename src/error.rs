use vstd::prelude::*;

verus! {

/// What can stop a session.
#[derive(Debug, PartialEq, Eq)]
pub enum EError {
    /// A document or the terminal could not be read or written; the text
    /// says what failed.
    Io(String),
    /// A file named on the command line is not an `.epub` file.
    NotEpub(String),
    /// Anything else, such as more documents than there are slots.
    Other,
}

impl EError {
    /// A short description for the user.
    pub fn describe(&self) -> (r: String)
        ensures
            self is Io ==> r@ == "Error io"@,
            self is NotEpub ==> r@ == "Not an epub file"@,
            self is Other ==> r@ == "Errror other"@,
    {
        match self {
            EError::Io(_) => "Error io".to_owned(),
            EError::NotEpub(_) => "Not an epub file".to_owned(),
            EError::Other => "Errror other".to_owned(),
        }
    }
}

} // verus!
