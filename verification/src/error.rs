//! The closed set of failure kinds that the backend reports.

use vstd::prelude::*;
use vstd::std_specs::convert::FromSpecImpl;

verus! {

/// `std::io::Error`, carried through unread: nothing is known of a value but
/// its identity.
#[verifier::external_type_specification]
#[verifier::external_body]
pub struct ExIoError(std::io::Error);

/// A failure of the backend. Every fallible operation reports exactly one
/// variant; variants are never nested.
#[derive(Debug)]
pub enum Error {
    /// A failed file-system operation, with the failure as the system gave it.
    Io(std::io::Error),
    /// A failure of the windowing runtime, by its message.
    Tauri(String),
    /// The platform or the configuration does not give what is needed.
    Config(String),
    /// A plugin failed.
    Plugin(String),
    /// Any other failure, by its message.
    Custom(String),
}

/// What an [`Error`] is in contracts: its variant, with the message as a
/// sequence of characters.
pub enum ErrorView {
    Io(std::io::Error),
    Tauri(Seq<char>),
    Config(Seq<char>),
    Plugin(Seq<char>),
    Custom(Seq<char>),
}

impl View for Error {
    type V = ErrorView;

    open spec fn view(&self) -> ErrorView {
        match *self {
            Error::Io(e) => ErrorView::Io(e),
            Error::Tauri(m) => ErrorView::Tauri(m@),
            Error::Config(m) => ErrorView::Config(m@),
            Error::Plugin(m) => ErrorView::Plugin(m@),
            Error::Custom(m) => ErrorView::Custom(m@),
        }
    }
}

/// An outcome as contracts see it: a success as it is, a failure by its
/// view.
pub open spec fn outcome_view<T>(outcome: Result<T, Error>) -> Result<T, ErrorView> {
    match outcome {
        Ok(value) => Ok(value),
        Err(e) => Err(e@),
    }
}

impl Error {
    /// A failure outside the other kinds, with `msg` as its message.
    pub fn custom(msg: &str) -> (e: Error)
        ensures
            e@ == ErrorView::Custom(msg@),
    {
        Error::Custom(msg.to_owned())
    }

    /// A configuration failure with `msg` as its message.
    pub fn config(msg: &str) -> (e: Error)
        ensures
            e@ == ErrorView::Config(msg@),
    {
        Error::Config(msg.to_owned())
    }

    /// A plugin failure with `msg` as its message.
    pub fn plugin(msg: &str) -> (e: Error)
        ensures
            e@ == ErrorView::Plugin(msg@),
    {
        Error::Plugin(msg.to_owned())
    }
}

impl From<std::io::Error> for Error {
    /// An I/O failure becomes `Io` and keeps the failure itself.
    fn from(e: std::io::Error) -> (r: Error)
        ensures
            r == Error::Io(e),
    {
        Error::Io(e)
    }
}

impl FromSpecImpl<std::io::Error> for Error {
    open spec fn obeys_from_spec() -> bool {
        true
    }

    open spec fn from_spec(e: std::io::Error) -> Error {
        Error::Io(e)
    }
}

impl From<&str> for Error {
    /// A bare message becomes `Custom`.
    fn from(s: &str) -> (r: Error)
        ensures
            r@ == ErrorView::Custom(s@),
    {
        Error::Custom(s.to_owned())
    }
}

/// The conversion makes a fresh text, of which contracts know the
/// characters and not the identity: what it gives is stated on `from`
/// itself, over the view.
impl FromSpecImpl<&str> for Error {
    open spec fn obeys_from_spec() -> bool {
        false
    }

    open spec fn from_spec(s: &str) -> Error {
        arbitrary()
    }
}

impl From<String> for Error {
    /// An owned message becomes `Custom` and is kept as it is.
    fn from(s: String) -> (r: Error)
        ensures
            r == Error::Custom(s),
    {
        Error::Custom(s)
    }
}

impl FromSpecImpl<String> for Error {
    open spec fn obeys_from_spec() -> bool {
        true
    }

    open spec fn from_spec(s: String) -> Error {
        Error::Custom(s)
    }
}

} // verus!
