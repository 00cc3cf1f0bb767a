//! Building a client that does not check the server's certificate.
//!
//! Never use this but to test something locally where certificates do not
//! matter: without a check of the certificate, anyone between the client and
//! the device can read and change the traffic.
use crate::auth::AuthInterceptor;
use crate::client::{ClientBuilder, Connector, TrustConfig};
use crate::error::GinmiError;
use vstd::prelude::*;

verus! {

/// A builder with options that weaken the connection's security.
#[derive(Debug, Clone)]
pub struct DangerousClientBuilder<'a> {
    builder: ClientBuilder<'a>,
}

impl<'a> DangerousClientBuilder<'a> {
    /// The builder whose options are extended.
    pub closed spec fn spec_builder(&self) -> ClientBuilder<'a> {
        self.builder
    }

    pub fn from_builder(builder: ClientBuilder<'a>) -> (r: DangerousClientBuilder<'a>)
        ensures
            r.spec_builder() == builder,
    {
        DangerousClientBuilder { builder }
    }

    /// Stops checking the server's certificate: chain, expiry and name alike.
    /// This replaces a CA certificate configured before.
    ///
    /// # Safety
    /// This makes the client open to anyone in the middle of the connection.
    /// Use it for local tests only.
    pub fn disable_certificate_verification(self) -> (r: DangerousClientBuilder<'a>)
        ensures
            r.spec_builder().spec_target() == self.spec_builder().spec_target(),
            r.spec_builder().spec_creds() == self.spec_builder().spec_creds(),
            r.spec_builder().spec_trust() == Some(TrustConfig::Bypass),
    {
        DangerousClientBuilder { builder: self.builder.with_bypass() }
    }

    /// As `ClientBuilder::connector`, with the options set here.
    pub fn connector(&self) -> (r: Result<Connector, GinmiError>)
        ensures
            self.spec_builder().connects_with(r),
    {
        self.builder.connector()
    }

    /// As `ClientBuilder::authenticator`.
    pub fn authenticator(&self) -> (r: Result<AuthInterceptor, GinmiError>)
        ensures
            self.spec_builder().authenticates_with(r),
    {
        self.builder.authenticator()
    }
}

} // verus!
