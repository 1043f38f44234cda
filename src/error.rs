use vstd::prelude::*;

verus! {

/// What can go wrong: an I/O failure with the operating system's message,
/// or another failure with a free-text description.
#[derive(Debug)]
pub enum Error {
    Io(String),
    Etc(String),
}

/// The single text under which an error reaches the caller.
pub open spec fn error_text(e: Error) -> Seq<char> {
    match e {
        Error::Io(m) => m@,
        Error::Etc(m) => "etc-error: "@ + m@,
    }
}

impl Error {
    /// The text of the error as a caller sees it.
    pub fn message(&self) -> (r: String)
        ensures
            r@ == error_text(*self),
    {
        match self {
            Error::Io(m) => m.clone(),
            Error::Etc(m) => {
                let mut s = String::from_str("etc-error: ");
                s.append(m.as_str());
                s
            },
        }
    }
}

} // verus!
