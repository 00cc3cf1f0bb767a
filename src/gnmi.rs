//! The gNMI messages that the library fills in and reads, as plain values.
use std::collections::HashMap;
use vstd::prelude::*;

verus! {

/// One element of a wire path: a name and its key/value attributes.
#[derive(Debug, Clone, PartialEq, Eq)]
pub struct PathElem {
    pub name: String,
    pub key: HashMap<String, String>,
}

/// A wire path: an ordered list of elements with its origin and target.
#[derive(Debug, Clone, PartialEq, Eq)]
pub struct GnmiPath {
    pub origin: String,
    pub elem: Vec<PathElem>,
    pub target: String,
}

/// A data model that a device supports or that a request is restricted to.
#[derive(Debug, Clone, PartialEq, Eq)]
pub struct ModelData {
    pub name: String,
    pub organization: String,
    pub version: String,
}

/// An extension registered with the protocol: an identifier and its payload.
#[derive(Debug, Clone, PartialEq, Eq)]
pub struct RegisteredExtension {
    pub id: i32,
    pub msg: Vec<u8>,
}

/// The role of a client in master arbitration.
#[derive(Debug, Clone, PartialEq, Eq)]
pub struct Role {
    pub id: String,
}

/// An unsigned 128-bit integer as two halves.
#[derive(Debug, Clone, Copy, PartialEq, Eq)]
pub struct Uint128 {
    pub high: u64,
    pub low: u64,
}

/// A request for master arbitration between several clients.
#[derive(Debug, Clone, PartialEq, Eq)]
pub struct MasterArbitration {
    pub role: Option<Role>,
    pub election_id: Option<Uint128>,
}

/// A span of time, in nanoseconds since the epoch.
#[derive(Debug, Clone, Copy, PartialEq, Eq)]
pub struct TimeRange {
    pub start: i64,
    pub end: i64,
}

/// What a history extension asks for.
#[derive(Debug, Clone, PartialEq, Eq)]
pub enum HistoryRequest {
    SnapshotTime(i64),
    Range(TimeRange),
}

/// A request for data at a past time or over a span of time.
#[derive(Debug, Clone, PartialEq, Eq)]
pub struct History {
    pub request: Option<HistoryRequest>,
}

/// A protocol extension carried by a request or a response.
#[derive(Debug, Clone, PartialEq, Eq)]
pub enum Extension {
    RegisteredExt(RegisteredExtension),
    MasterArbitration(MasterArbitration),
    History(History),
}

/// The (empty) request of a capability exchange.
#[derive(Debug, Clone, PartialEq, Eq)]
pub struct CapabilityRequest {
    pub extension: Vec<Extension>,
}

/// What a device answers to a capability exchange.
#[derive(Debug, Clone, PartialEq, Eq)]
pub struct CapabilityResponse {
    pub supported_models: Vec<ModelData>,
    pub supported_encodings: Vec<i32>,
    pub g_nmi_version: String,
    pub extension: Vec<Extension>,
}

/// A request to retrieve a snapshot of data from a device.
#[derive(Debug, Clone, PartialEq, Eq)]
pub struct GetRequest {
    pub prefix: Option<GnmiPath>,
    pub path: Vec<GnmiPath>,
    pub data_type: i32,
    pub encoding: i32,
    pub use_models: Vec<ModelData>,
    pub extension: Vec<Extension>,
}

} // verus!
