//! The middleware that puts the credentials on every outbound call.
use crate::transport::{
    clone_token, insert_metadata, is_metadata_key, metadata_entries, metadata_key_count,
    token_bytes, MetadataToken,
};
use vstd::prelude::*;

verus! {

/// The metadata `m` with the entry `key` set to the one value of `token`, when
/// there is a token; else `m` unchanged.
pub open spec fn with_token(m: Map<Seq<char>, Seq<Seq<u8>>>, key: Seq<char>, token: Option<MetadataToken>) -> Map<
    Seq<char>,
    Seq<Seq<u8>>,
> {
    match token {
        Some(t) => m.insert(key, seq![token_bytes(t)]),
        None => m,
    }
}

/// The bytes of a token, if there is one.
pub open spec fn option_bytes(token: Option<MetadataToken>) -> Option<Seq<u8>> {
    match token {
        Some(t) => Some(token_bytes(t)),
        None => None,
    }
}

/// The most keys that a request's metadata may hold for the credentials to be added.
pub const MAX_METADATA_KEYS: usize = 4094;

/// Holds the credentials in wire form and adds them to each request.
#[derive(Debug)]
pub struct AuthInterceptor {
    username: Option<MetadataToken>,
    password: Option<MetadataToken>,
}

impl AuthInterceptor {
    /// The user name that each call carries, if any.
    pub closed spec fn spec_username(&self) -> Option<MetadataToken> {
        self.username
    }

    /// The password that each call carries, if any.
    pub closed spec fn spec_password(&self) -> Option<MetadataToken> {
        self.password
    }

    pub fn new(username: Option<MetadataToken>, password: Option<MetadataToken>) -> (r: AuthInterceptor)
        ensures
            r.spec_username() == username,
            r.spec_password() == password,
    {
        AuthInterceptor { username, password }
    }

    /// Sets the `username` and `password` entries of the request's metadata to
    /// the configured values, replacing what was there under those keys. A
    /// request passes unchanged when no credentials are configured. A request
    /// whose metadata already holds more than `MAX_METADATA_KEYS` keys is
    /// refused (`None`): the metadata table cannot take more.
    pub fn call(&self, request: tonic::Request<()>) -> (r: Option<tonic::Request<()>>)
        ensures
            r is None <==> metadata_entries(request).dom().len() > MAX_METADATA_KEYS,
            r matches Some(out) ==> metadata_entries(out) == with_token(
                with_token(metadata_entries(request), "username"@, self.spec_username()),
                "password"@,
                self.spec_password(),
            ),
            self.spec_username() is None && self.spec_password() is None ==> (r matches Some(out)
                ==> out == request),
    {
        if metadata_key_count(&request) > MAX_METADATA_KEYS {
            return None;
        }
        proof {
            reveal_strlit("username");
            reveal_strlit("password");
            assert(is_metadata_key("username"@));
            assert(is_metadata_key("password"@));
        }
        let mut request = request;
        match &self.username {
            Some(t) => insert_metadata(&mut request, "username", clone_token(t)),
            None => {},
        }
        match &self.password {
            Some(t) => insert_metadata(&mut request, "password", clone_token(t)),
            None => {},
        }
        Some(request)
    }
}

impl Clone for AuthInterceptor {
    fn clone(&self) -> (r: AuthInterceptor)
        ensures
            option_bytes(r.spec_username()) == option_bytes(self.spec_username()),
            option_bytes(r.spec_password()) == option_bytes(self.spec_password()),
    {
        let username = match &self.username {
            Some(t) => Some(clone_token(t)),
            None => None,
        };
        let password = match &self.password {
            Some(t) => Some(clone_token(t)),
            None => None,
        };
        AuthInterceptor { username, password }
    }
}

} // verus!
