//! The identity providers and what a client hands over to sign in through
//! one.

use vstd::prelude::*;

use crate::text::same_text;

verus! {

/// The one-time authorization code that an identity provider gave the
/// client.
#[derive(Debug)]
pub struct OAuthCode(String);

impl View for OAuthCode {
    type V = Seq<char>;

    closed spec fn view(&self) -> Seq<char> {
        self.0@
    }
}

impl Clone for OAuthCode {
    fn clone(&self) -> (r: OAuthCode)
        ensures
            r@ == self@,
    {
        OAuthCode(self.0.clone())
    }
}

impl OAuthCode {
    pub fn new(value: String) -> (code: OAuthCode)
        ensures
            code@ == value@,
    {
        OAuthCode(value)
    }

    pub fn into_inner(self) -> (text: String)
        ensures
            text@ == self@,
    {
        self.0
    }
}

/// The identity providers that a user can sign in through.
#[derive(Debug, Clone, Copy, PartialEq, Eq, Structural)]
pub enum OAuthProvider {
    Github,
    Gitlab,
    Bitbucket,
}

impl OAuthProvider {
    /// The provider that a lower-case name stands for.
    pub fn from_name(name: &str) -> (r: Option<OAuthProvider>)
        ensures
            r == provider_named(name@),
    {
        if same_text(name, "github") {
            Some(OAuthProvider::Github)
        } else if same_text(name, "gitlab") {
            Some(OAuthProvider::Gitlab)
        } else if same_text(name, "bitbucket") {
            Some(OAuthProvider::Bitbucket)
        } else {
            None
        }
    }

    /// The lower-case name of the provider.
    pub fn name(&self) -> (name: &'static str)
        ensures
            provider_named(name@) == Some(*self),
    {
        proof {
            lemma_names_differ();
        }
        match self {
            OAuthProvider::Github => "github",
            OAuthProvider::Gitlab => "gitlab",
            OAuthProvider::Bitbucket => "bitbucket",
        }
    }
}

/// The provider that a name stands for, if any.
pub open spec fn provider_named(name: Seq<char>) -> Option<OAuthProvider> {
    if name == "github"@ {
        Some(OAuthProvider::Github)
    } else if name == "gitlab"@ {
        Some(OAuthProvider::Gitlab)
    } else if name == "bitbucket"@ {
        Some(OAuthProvider::Bitbucket)
    } else {
        None
    }
}

proof fn lemma_names_differ()
    ensures
        "github"@ != "gitlab"@,
        "github"@ != "bitbucket"@,
        "gitlab"@ != "bitbucket"@,
{
    reveal_strlit("github");
    reveal_strlit("gitlab");
    reveal_strlit("bitbucket");
    assert("github"@[3] == 'h');
    assert("gitlab"@[3] == 'l');
    assert("github"@.len() == 6);
    assert("bitbucket"@.len() == 9);
    assert("gitlab"@.len() == 6);
}

} // verus!
