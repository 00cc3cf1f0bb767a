//! The client, its builder, and the requests it composes.
use crate::auth::AuthInterceptor;
pub use crate::capabilities::{Capabilities, Encoding};
use crate::dangerous::DangerousClientBuilder;
use crate::error::GinmiError;
use crate::gnmi::{Extension, GetRequest, GnmiPath, ModelData, PathElem};
use crate::path::{bare_elements, pieces, shorthand_path};
use crate::transport::{
    endpoint_for, is_metadata_text, metadata_token, parse_uri, tls_accepted, token_bytes,
    uri_error_of, with_tls,
};
use std::collections::HashMap;
use tonic::transport::Endpoint;
use vstd::prelude::*;
use vstd::slice::slice_to_vec;
use vstd::string::StringSliceAdditionalSpecFns;

verus! {

/// The kinds of data that a get request selects.
#[derive(Debug, Clone, Copy, PartialEq, Eq, Structural)]
pub enum DataType {
    All,
    Config,
    State,
    Operational,
}

impl DataType {
    /// The wire code of the data type.
    pub open spec fn code(self) -> i32 {
        match self {
            DataType::All => 0,
            DataType::Config => 1,
            DataType::State => 2,
            DataType::Operational => 3,
        }
    }

    pub fn as_i32(self) -> (r: i32)
        ensures
            r == self.code(),
    {
        match self {
            DataType::All => 0,
            DataType::Config => 1,
            DataType::State => 2,
            DataType::Operational => 3,
        }
    }
}

/// A user name and a password, sent together or not at all.
#[derive(Debug, Clone, Copy)]
pub struct Credentials<'a> {
    pub username: &'a str,
    pub password: &'a str,
}

/// How the server's certificate is checked.
#[derive(Debug, Clone)]
pub enum TrustConfig {
    /// Against this CA certificate (PEM), for a server named `domain`.
    Standard { ca_certificate: Vec<u8>, domain: String },
    /// Not at all: any certificate is taken as valid. Only for a lab whose
    /// certificates are not in place yet; it opens the door to anyone in the
    /// middle.
    Bypass,
}

/// Where the connection goes, and how its certificate is checked.
#[derive(Debug)]
pub enum Connector {
    /// A tonic endpoint, with the CA certificate and name applied when TLS was configured.
    Verified(Endpoint),
    /// The target of a connection on which no certificate is checked.
    Unverified(http::Uri),
}

/// A connection to a device, shared by its clones.
#[derive(Debug, Clone)]
pub struct Client<T> {
    inner: T,
}

impl<T> Client<T> {
    /// The transport that the client owns.
    pub closed spec fn spec_inner(&self) -> T {
        self.inner
    }

    pub fn new(inner: T) -> (r: Client<T>)
        ensures
            r.spec_inner() == inner,
    {
        Client { inner }
    }

    /// The transport, to make a call on.
    pub fn inner_mut(&mut self) -> (r: &mut T)
        ensures
            *r == old(self).spec_inner(),
            final(self).spec_inner() == *final(r),
    {
        &mut self.inner
    }

    pub fn builder<'a>(target: &'a str) -> (r: ClientBuilder<'a>)
        ensures
            r.spec_target() == target@,
            r.spec_creds() is None,
            r.spec_trust() is None,
    {
        ClientBuilder::new(target)
    }

    /// The wire path that a slash-delimited shorthand stands for: one element
    /// per non-empty segment between `/`, each without attributes; a text
    /// without `/` is one element. A `/` inside a name cannot be written.
    pub fn get_path_from_str(path: &str) -> (r: GnmiPath)
        ensures
            r@ == shorthand_path(path@),
    {
        let ghost s = path@;
        let n = path.unicode_len();
        let mut elem: Vec<PathElem> = Vec::new();
        let mut start: usize = 0;
        let mut i: usize = 0;
        let mut has_slash = false;
        proof {
            assert(s.take(0) =~= Seq::<char>::empty());
        }
        while i < n
            invariant
                s == path@,
                n == s.len(),
                start <= i <= n,
                has_slash == s.take(i as int).contains('/'),
                pieces(s.take(i as int)).len() >= 1,
                pieces(s.take(i as int)).last() =~= s.subrange(start as int, i as int),
                elem@.map_values(|e: PathElem| e@) =~= bare_elements(
                    pieces(s.take(i as int)).drop_last().filter(|x: Seq<char>| x.len() > 0),
                ),
            decreases n - i,
        {
            let ghost before = pieces(s.take(i as int));
            let ghost kept = elem@.map_values(|e: PathElem| e@);
            let c = path.get_char(i);
            proof {
                assert(s.take(i + 1).drop_last() =~= s.take(i as int));
                assert(s.take(i + 1).last() == c);
                assert(before =~= before.drop_last().push(before.last()));
                before.drop_last().lemma_filter_push(before.last(), |x: Seq<char>| x.len() > 0);
            }
            if c == '/' {
                if start < i {
                    let seg = path.substring_char(start, i);
                    elem.push(PathElem { name: String::from_str(seg), key: HashMap::new() });
                    proof {
                        assert(elem@.map_values(|e: PathElem| e@) =~= kept.push(
                            elem@[elem@.len() - 1]@,
                        ));
                    }
                } else {
                    assert(before.last().len() == 0);
                }
                has_slash = true;
                start = i + 1;
                proof {
                    assert(pieces(s.take(i + 1)) == before.push(Seq::<char>::empty()));
                    assert(pieces(s.take(i + 1)).drop_last() =~= before);
                    assert(s.take(i + 1).contains('/')) by {
                        assert(s.take(i + 1)[i as int] == '/');
                    }
                }
            } else {
                proof {
                    assert(pieces(s.take(i + 1)).drop_last() =~= before.drop_last());
                    assert(before.last().push(c) =~= s.subrange(start as int, i + 1));
                    assert(s.take(i + 1).contains('/') == s.take(i as int).contains('/')) by {
                        if s.take(i + 1).contains('/') {
                            let k = choose|k: int| 0 <= k < i + 1 && #[trigger] s.take(i + 1)[k] == '/';
                            assert(s.take(i as int)[k] == '/');
                        }
                        if s.take(i as int).contains('/') {
                            let k = choose|k: int| 0 <= k < i && #[trigger] s.take(i as int)[k] == '/';
                            assert(s.take(i + 1)[k] == '/');
                        }
                    }
                }
            }
            i = i + 1;
        }
        proof {
            assert(s.take(n as int) =~= s);
        }
        if !has_slash {
            let mut single: Vec<PathElem> = Vec::new();
            single.push(PathElem { name: String::from_str(path), key: HashMap::new() });
            let r = GnmiPath { origin: String::new(), elem: single, target: String::new() };
            assert(r@.elements =~= shorthand_path(s).elements);
            return r;
        }
        let ghost all = pieces(s);
        let ghost kept = elem@.map_values(|e: PathElem| e@);
        proof {
            assert(all =~= all.drop_last().push(all.last()));
            all.drop_last().lemma_filter_push(all.last(), |x: Seq<char>| x.len() > 0);
        }
        if start < n {
            let seg = path.substring_char(start, n);
            elem.push(PathElem { name: String::from_str(seg), key: HashMap::new() });
            proof {
                assert(elem@.map_values(|e: PathElem| e@) =~= kept.push(elem@[elem@.len() - 1]@));
            }
        } else {
            assert(all.last().len() == 0);
        }
        let r = GnmiPath { origin: String::new(), elem, target: String::new() };
        assert(r@.elements =~= shorthand_path(s).elements);
        r
    }

    /// The get request for one path: the prefix only when it is not empty,
    /// both written in the shorthand, with the selectors set and the models and
    /// extensions carried over verbatim and in order.
    pub fn get_request(
        prefix: &str,
        path: &str,
        data_type: DataType,
        encoding: Encoding,
        use_models: Vec<ModelData>,
        extensions: Vec<Extension>,
    ) -> (r: GetRequest)
        ensures
            prefix@.len() == 0 ==> r.prefix is None,
            prefix@.len() > 0 ==> (r.prefix matches Some(p) && p@ == shorthand_path(prefix@)),
            r.path@.len() == 1,
            r.path@[0]@ == shorthand_path(path@),
            r.data_type == data_type.code(),
            r.encoding == encoding.code(),
            r.use_models@ == use_models@,
            r.extension@ == extensions@,
    {
        let prefix_path = if prefix.unicode_len() != 0 {
            Some(Self::get_path_from_str(prefix))
        } else {
            None
        };
        let mut paths: Vec<GnmiPath> = Vec::new();
        paths.push(Self::get_path_from_str(path));
        GetRequest {
            prefix: prefix_path,
            path: paths,
            data_type: data_type.as_i32(),
            encoding: encoding.as_i32(),
            use_models,
            extension: extensions,
        }
    }
}

/// Configures and makes clients: the target, then optionally TLS and the
/// credentials. Nothing is checked before the connection is built.
#[derive(Debug, Clone)]
pub struct ClientBuilder<'a> {
    target: &'a str,
    creds: Option<Credentials<'a>>,
    trust: Option<TrustConfig>,
}

impl<'a> ClientBuilder<'a> {
    /// The target address, unparsed.
    pub closed spec fn spec_target(&self) -> Seq<char> {
        self.target@
    }

    /// The configured credentials, if any.
    pub closed spec fn spec_creds(&self) -> Option<Credentials<'a>> {
        self.creds
    }

    /// The configured trust policy, if any.
    pub closed spec fn spec_trust(&self) -> Option<TrustConfig> {
        self.trust
    }

    pub fn new(target: &'a str) -> (r: ClientBuilder<'a>)
        ensures
            r.spec_target() == target@,
            r.spec_creds() is None,
            r.spec_trust() is None,
    {
        ClientBuilder { target, creds: None, trust: None }
    }

    /// Configures the credentials sent with every call; their characters are
    /// checked when the client is built.
    pub fn credentials(self, username: &'a str, password: &'a str) -> (r: ClientBuilder<'a>)
        ensures
            r.spec_target() == self.spec_target(),
            r.spec_creds() == Some(Credentials { username, password }),
            r.spec_trust() == self.spec_trust(),
    {
        ClientBuilder { creds: Some(Credentials { username, password }), ..self }
    }

    /// Checks the server's certificate against `ca_certificate` (PEM) and its
    /// name against `domain_name`.
    pub fn tls(self, ca_certificate: &[u8], domain_name: &str) -> (r: ClientBuilder<'a>)
        ensures
            r.spec_target() == self.spec_target(),
            r.spec_creds() == self.spec_creds(),
            r.spec_trust() matches Some(TrustConfig::Standard { ca_certificate: c, domain: d })
                && c@ == ca_certificate@ && d@ == domain_name@,
    {
        let trust = TrustConfig::Standard {
            ca_certificate: slice_to_vec(ca_certificate),
            domain: String::from_str(domain_name),
        };
        ClientBuilder { trust: Some(trust), ..self }
    }

    /// The same builder with certificate checks disabled.
    pub(crate) fn with_bypass(self) -> (r: ClientBuilder<'a>)
        ensures
            r.spec_target() == self.spec_target(),
            r.spec_creds() == self.spec_creds(),
            r.spec_trust() == Some(TrustConfig::Bypass),
    {
        ClientBuilder { trust: Some(TrustConfig::Bypass), ..self }
    }

    /// Options that weaken the connection's security; see `DangerousClientBuilder`.
    pub fn dangerous(self) -> (r: DangerousClientBuilder<'a>)
        ensures
            r.spec_builder() == self,
    {
        DangerousClientBuilder::from_builder(self)
    }

    /// What `connector` returns for this builder: the parser's description
    /// when the target is no URI; else a verified endpoint, or a transport
    /// error when tonic refuses the CA certificate or the name; or, when
    /// checks are disabled, the parsed target.
    pub open spec fn connects_with(&self, r: Result<Connector, GinmiError>) -> bool {
        match uri_error_of(self.spec_target()) {
            Some(msg) => r matches Err(GinmiError::InvalidUriError(m)) && m@ == msg,
            None => match self.spec_trust() {
                None => r matches Ok(Connector::Verified(_)),
                Some(TrustConfig::Standard { ca_certificate, domain }) => if tls_accepted(
                    ca_certificate@,
                    domain@,
                ) {
                    r matches Ok(Connector::Verified(_))
                } else {
                    r matches Err(GinmiError::TransportError(_))
                },
                Some(TrustConfig::Bypass) => r matches Ok(Connector::Unverified(_)),
            },
        }
    }

    /// What `authenticator` returns for this builder: no credentials on the
    /// calls when none are configured; else both in wire form, or the error of
    /// a credential that metadata cannot carry.
    pub open spec fn authenticates_with(&self, r: Result<AuthInterceptor, GinmiError>) -> bool {
        match self.spec_creds() {
            None => r matches Ok(a) && a.spec_username() is None && a.spec_password() is None,
            Some(c) => {
                &&& (r is Ok <==> is_metadata_text(c.username@) && is_metadata_text(c.password@))
                &&& (r matches Ok(a) ==> {
                    &&& a.spec_username() matches Some(u) && token_bytes(u) == c.username.spec_bytes()
                    &&& a.spec_password() matches Some(p) && token_bytes(p) == c.password.spec_bytes()
                })
                &&& (r is Err ==> r matches Err(GinmiError::InvalidHeaderValue(_)))
            },
        }
    }

    /// The steps of building a client that come before the connection: the
    /// target is parsed as a URI, then the trust policy is applied to it.
    pub fn connector(&self) -> (r: Result<Connector, GinmiError>)
        ensures
            self.connects_with(r),
    {
        let uri = match parse_uri(self.target) {
            Ok(u) => u,
            Err(e) => return Err(GinmiError::InvalidUriError(e)),
        };
        match &self.trust {
            None => Ok(Connector::Verified(endpoint_for(uri))),
            Some(TrustConfig::Standard { ca_certificate, domain }) => {
                match with_tls(endpoint_for(uri), ca_certificate.as_slice(), domain.as_str()) {
                    Ok(endpoint) => Ok(Connector::Verified(endpoint)),
                    Err(e) => Err(GinmiError::TransportError(e)),
                }
            },
            Some(TrustConfig::Bypass) => Ok(Connector::Unverified(uri)),
        }
    }

    /// The step of building a client that comes after the connection: the
    /// credentials are turned into metadata values, which fails on a character
    /// that metadata cannot carry.
    pub fn authenticator(&self) -> (r: Result<AuthInterceptor, GinmiError>)
        ensures
            self.authenticates_with(r),
    {
        match self.creds {
            Some(c) => {
                let username = match metadata_token(c.username) {
                    Ok(t) => t,
                    Err(e) => return Err(GinmiError::InvalidHeaderValue(e)),
                };
                let password = match metadata_token(c.password) {
                    Ok(t) => t,
                    Err(e) => return Err(GinmiError::InvalidHeaderValue(e)),
                };
                Ok(AuthInterceptor::new(Some(username), Some(password)))
            },
            None => Ok(AuthInterceptor::new(None, None)),
        }
    }
}

} // verus!
