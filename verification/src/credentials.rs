//! The access key pair that signs requests.

use vstd::prelude::*;

verus! {

/// An access key id, its secret and an optional session token.
#[derive(Clone, Debug)]
pub struct Credential {
    pub secret_id: String,
    pub secret_key: String,
    pub token: Option<String>,
}

/// What a [`Credential`] holds, as mathematical values.
pub struct CredentialView {
    pub secret_id: Seq<char>,
    pub secret_key: Seq<char>,
    pub token: Option<Seq<char>>,
}

impl View for Credential {
    type V = CredentialView;

    open spec fn view(&self) -> CredentialView {
        CredentialView {
            secret_id: self.secret_id@,
            secret_key: self.secret_key@,
            token: match self.token {
                Some(token) => Some(token@),
                None => None,
            },
        }
    }
}

impl Credential {
    /// Bundles the three parts of a credential, each taken as given.
    pub fn new(secret_id: &str, secret_key: &str, token: Option<String>) -> (credential: Self)
        ensures
            credential.secret_id@ == secret_id@,
            credential.secret_key@ == secret_key@,
            credential.token == token,
    {
        Credential { secret_id: secret_id.to_owned(), secret_key: secret_key.to_owned(), token }
    }
}

impl Default for Credential {
    /// An empty key pair without a token.
    fn default() -> (credential: Self)
        ensures
            credential.secret_id@ == Seq::<char>::empty(),
            credential.secret_key@ == Seq::<char>::empty(),
            credential.token is None,
    {
        Credential { secret_id: String::new(), secret_key: String::new(), token: None }
    }
}

} // verus!
