//! The server's secrets.
use vstd::prelude::*;

verus! {

/// The secrets read at start-up: the SMTPS connection URL of the mailer.
#[derive(PartialEq)]
pub struct Secrets {
    pub smtps: String,
}

impl Secrets {
    /// The SMTPS connection URL.
    pub fn smtps(&self) -> (url: &str)
        ensures
            url@ == self.smtps@,
    {
        self.smtps.as_str()
    }

    /// Whether the secrets were loaded: they differ from the default, that is
    /// the SMTPS URL is not empty.
    pub fn asserts(secrets: &Secrets) -> (initialized: bool)
        ensures
            initialized == (secrets.smtps@.len() > 0),
    {
        secrets.smtps.as_str().unicode_len() > 0
    }
}

impl Default for Secrets {
    /// No secrets: an empty SMTPS URL.
    fn default() -> (s: Self)
        ensures
            s.smtps@.len() == 0,
    {
        Secrets { smtps: String::new() }
    }
}

} // verus!
