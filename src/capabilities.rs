//! What a device said it supports, with the queries over it.
use crate::gnmi::{CapabilityResponse, ModelData};
use vstd::prelude::*;

verus! {

/// The encodings of data that the protocol knows, each with its fixed wire code.
#[derive(Debug, Clone, Copy, PartialEq, Eq, Structural)]
pub enum Encoding {
    Json,
    Bytes,
    Proto,
    Ascii,
    JsonIetf,
}

impl Encoding {
    /// The wire code of the encoding.
    pub open spec fn code(self) -> i32 {
        match self {
            Encoding::Json => 0,
            Encoding::Bytes => 1,
            Encoding::Proto => 2,
            Encoding::Ascii => 3,
            Encoding::JsonIetf => 4,
        }
    }

    pub fn as_i32(self) -> (r: i32)
        ensures
            r == self.code(),
    {
        match self {
            Encoding::Json => 0,
            Encoding::Bytes => 1,
            Encoding::Proto => 2,
            Encoding::Ascii => 3,
            Encoding::JsonIetf => 4,
        }
    }
}

/// The model `m` is exactly the triple (name, organization, version).
pub open spec fn is_model(m: ModelData, name: Seq<char>, organization: Seq<char>, version: Seq<char>) -> bool {
    m.name@ == name && m.organization@ == organization && m.version@ == version
}

/// Capabilities of a device, as it answered a capability exchange.
#[derive(Debug, Clone)]
pub struct Capabilities(pub CapabilityResponse);

impl Capabilities {
    /// The protocol version that the device speaks, verbatim.
    pub fn gnmi_version(&self) -> (r: &str)
        ensures
            r@ == self.0.g_nmi_version@,
    {
        self.0.g_nmi_version.as_str()
    }

    /// Whether the device lists a model equal to the triple in all three fields.
    pub fn supports_model(&self, name: &str, organization: &str, version: &str) -> (r: bool)
        ensures
            r == exists|i: int|
                0 <= i < self.0.supported_models@.len()
                    && #[trigger] is_model(self.0.supported_models@[i], name@, organization@, version@),
    {
        let want_name = String::from_str(name);
        let want_organization = String::from_str(organization);
        let want_version = String::from_str(version);
        let models = &self.0.supported_models;
        let mut i: usize = 0;
        while i < models.len()
            invariant
                models@ == self.0.supported_models@,
                want_name@ == name@,
                want_organization@ == organization@,
                want_version@ == version@,
                i <= models.len(),
                forall|j: int|
                    0 <= j < i ==> !#[trigger] is_model(models@[j], name@, organization@, version@),
            decreases models.len() - i,
        {
            let m = &models[i];
            if m.name == want_name && m.organization == want_organization && m.version == want_version {
                assert(is_model(models@[i as int], name@, organization@, version@));
                return true;
            }
            i = i + 1;
        }
        false
    }

    /// Whether the device lists the wire code of `encoding`.
    pub fn supports_encoding(&self, encoding: Encoding) -> (r: bool)
        ensures
            r == self.0.supported_encodings@.contains(encoding.code()),
    {
        let enc: i32 = encoding.as_i32();
        let codes = &self.0.supported_encodings;
        let mut i: usize = 0;
        while i < codes.len()
            invariant
                codes@ == self.0.supported_encodings@,
                enc == encoding.code(),
                i <= codes.len(),
                forall|j: int| 0 <= j < i ==> codes@[j] != enc,
            decreases codes.len() - i,
        {
            if codes[i] == enc {
                assert(codes@[i as int] == enc);
                return true;
            }
            i = i + 1;
        }
        false
    }
}

} // verus!
