//! The single error kind of the configuration loader: a human-readable
//! message, either a fixed literal or an owned formatted string. Its view
//! is the message itself.
use vstd::prelude::*;
use vstd::string::*;

verus! {

/// A configuration-load failure, carrying its message.
#[derive(Debug)]
pub enum ErrorConfig {
    Static(&'static str),
    Str(String),
}

impl View for ErrorConfig {
    type V = Seq<char>;

    open spec fn view(&self) -> Seq<char> {
        match self {
            ErrorConfig::Static(s) => s@,
            ErrorConfig::Str(s) => s@,
        }
    }
}

impl From<&'static str> for ErrorConfig {
    fn from(m: &'static str) -> (r: Self)
        ensures
            r == ErrorConfig::Static(m),
            r@ == m@,
    {
        ErrorConfig::Static(m)
    }
}

impl vstd::std_specs::convert::FromSpecImpl<&'static str> for ErrorConfig {
    open spec fn obeys_from_spec() -> bool {
        true
    }

    open spec fn from_spec(m: &'static str) -> Self {
        ErrorConfig::Static(m)
    }
}

impl ErrorConfig {
    /// Wrap a fixed message in the `Static` variant.
    pub fn from_str(m: &'static str) -> (r: Self)
        ensures
            r == ErrorConfig::Static(m),
            r@ == m@,
    {
        ErrorConfig::Static(m)
    }

    /// Wrap an owned, formatted message in the `Str` variant.
    pub fn from_string(m: String) -> (r: Self)
        ensures
            r == ErrorConfig::Str(m),
            r@ == m@,
    {
        ErrorConfig::Str(m)
    }

    /// The message, whichever variant carries it.
    pub fn message(&self) -> (r: String)
        ensures
            r@ == self@,
    {
        match self {
            ErrorConfig::Static(s) => (*s).to_owned(),
            ErrorConfig::Str(s) => s.clone(),
        }
    }
}

} // verus!
