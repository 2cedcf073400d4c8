//! The two credentials and the secret store that keeps them.
//!
//! The store itself belongs to the operating system and is reached by the
//! host. Here stand the names under which the secrets are kept, what the host
//! reports of a lookup or a write, and a model of the store in which the
//! commands can be reasoned about.

use vstd::prelude::*;

verus! {

/// The service identifier under which both secrets are kept.
pub const SERVICE_NAME: &'static str = "focus-hub-app";

/// An outside service that asks for a credential.
#[derive(Clone, Copy, Debug, PartialEq, Eq, Structural)]
pub enum Service {
    GitHub,
    Jules,
}

impl Service {
    /// The name of the service as it is shown to a reader.
    pub open spec fn label(self) -> Seq<char> {
        match self {
            Service::GitHub => "GitHub"@,
            Service::Jules => "Jules"@,
        }
    }

    /// The account name under which the service's token is kept.
    pub open spec fn account(self) -> Seq<char> {
        match self {
            Service::GitHub => "github_token"@,
            Service::Jules => "jules_token"@,
        }
    }

    /// The name of the service as it is shown to a reader.
    pub fn label_text(self) -> (text: &'static str)
        ensures
            text@ == self.label(),
    {
        match self {
            Service::GitHub => "GitHub",
            Service::Jules => "Jules",
        }
    }

    /// The account name under which the service's token is kept.
    pub fn account_name(self) -> (name: &'static str)
        ensures
            name@ == self.account(),
    {
        match self {
            Service::GitHub => "github_token",
            Service::Jules => "jules_token",
        }
    }
}

/// What the host reports of looking a secret up.
#[derive(Clone, Debug, PartialEq, Eq)]
pub enum Lookup {
    /// The secret that is kept under the account.
    Found(String),
    /// No secret could be read under the account.
    NotFound,
    /// The store could not be addressed at all; the text says why.
    Unavailable(String),
}

/// The mathematical value of a [`Lookup`].
pub enum LookupView {
    Found(Seq<char>),
    NotFound,
    Unavailable(Seq<char>),
}

impl View for Lookup {
    type V = LookupView;

    open spec fn view(&self) -> LookupView {
        match self {
            Lookup::Found(secret) => LookupView::Found(secret@),
            Lookup::NotFound => LookupView::NotFound,
            Lookup::Unavailable(reason) => LookupView::Unavailable(reason@),
        }
    }
}

/// What the host reports of writing a secret.
#[derive(Clone, Debug, PartialEq, Eq)]
pub enum Written {
    /// The secret is now kept under the account.
    Stored,
    /// The write failed and changed nothing; the text says why.
    Unavailable(String),
}

/// The mathematical value of a [`Written`].
pub enum WrittenView {
    Stored,
    Unavailable(Seq<char>),
}

impl View for Written {
    type V = WrittenView;

    open spec fn view(&self) -> WrittenView {
        match self {
            Written::Stored => WrittenView::Stored,
            Written::Unavailable(reason) => WrittenView::Unavailable(reason@),
        }
    }
}

} // verus!
