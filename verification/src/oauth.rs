//! Users as third-party sign-in providers describe them.

use vstd::prelude::*;
use crate::text::{decimal, u64_to_decimal};

verus! {

/// The query string with which a provider sends the user back after sign-in.
pub struct CallbackQuery {
    /// The authorization code to exchange for a token.
    pub code: String,
    /// The anti-forgery state handed out with the sign-in link.
    pub state: String,
}

/// A GitHub account, as GitHub's user API reports it.
pub struct GitHubUser {
    pub id: u64,
    pub login: String,
    pub name: Option<String>,
    pub email: Option<String>,
    /// The serialized URL of the account's avatar.
    pub avatar_url: String,
}

/// A signed-in account, whatever the provider.
pub struct BaseOauthUser {
    pub id: String,
    pub login: String,
    pub name: Option<String>,
    pub email: Option<String>,
    pub avatar_url: String,
}

impl From<GitHubUser> for BaseOauthUser {
    /// Keeps the GitHub account's fields, with its numeric ID written in
    /// decimal.
    fn from(user: GitHubUser) -> (base: BaseOauthUser)
        ensures
            base.id@ == decimal(user.id as nat),
            base.login == user.login,
            base.name == user.name,
            base.email == user.email,
            base.avatar_url == user.avatar_url,
    {
        BaseOauthUser {
            id: u64_to_decimal(user.id),
            login: user.login,
            name: user.name,
            email: user.email,
            avatar_url: user.avatar_url,
        }
    }
}

impl vstd::std_specs::convert::FromSpecImpl<GitHubUser> for BaseOauthUser {
    /// The ID is pinned down by its text only, so the conversion is described by
    /// the `ensures` of `from` rather than by a single value.
    open spec fn obeys_from_spec() -> bool {
        false
    }

    open spec fn from_spec(user: GitHubUser) -> BaseOauthUser {
        arbitrary()
    }
}

} // verus!
