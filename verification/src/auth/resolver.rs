//! The adapters to the identity providers, built once and handed to the use
//! cases that need them.

use vstd::prelude::*;

use crate::auth::store::{BitbucketOAuthStore, GitlabOAuthStore, OAuthStore, OAuthStoreProxy};

verus! {

/// Holds the adapters to all identity providers behind their one face.
pub struct AuthResolver<G: OAuthStore> {
    oauth_store: OAuthStoreProxy<G>,
}

impl<G: OAuthStore> AuthResolver<G> {
    /// Builds the adapters around the one to GitHub.
    pub fn new(github_oauth_store: G) -> (resolver: Self)
        ensures
            resolver.proxy().github() == github_oauth_store,
    {
        let gitlab_oauth_store = GitlabOAuthStore::new();
        let bitbucket_oauth_store = BitbucketOAuthStore::new();
        AuthResolver {
            oauth_store: OAuthStoreProxy::new(
                github_oauth_store,
                gitlab_oauth_store,
                bitbucket_oauth_store,
            ),
        }
    }

    /// The adapters that the resolver holds.
    pub closed spec fn proxy(&self) -> OAuthStoreProxy<G> {
        self.oauth_store
    }

    /// The one face of all adapters.
    pub fn oauth_proxy(&self) -> (proxy: &OAuthStoreProxy<G>)
        ensures
            *proxy == self.proxy(),
    {
        &self.oauth_store
    }
}

} // verus!
