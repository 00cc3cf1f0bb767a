use ginmi::capabilities::{Capabilities, Encoding};
use ginmi::gnmi::{CapabilityResponse, ModelData};

fn model(name: &str, organization: &str, version: &str) -> ModelData {
    ModelData {
        name: name.to_string(),
        organization: organization.to_string(),
        version: version.to_string(),
    }
}

fn caps(models: Vec<ModelData>, encodings: Vec<i32>) -> Capabilities {
    Capabilities(CapabilityResponse {
        supported_models: models,
        supported_encodings: encodings,
        g_nmi_version: "0.10.0".to_string(),
        extension: Vec::new(),
    })
}

#[test]
fn gnmi_version_is_verbatim() {
    assert_eq!(caps(Vec::new(), Vec::new()).gnmi_version(), "0.10.0");
}

#[test]
fn supports_model_needs_the_exact_triple() {
    let c = caps(vec![model("urn:y", "Other", "2.0"), model("urn:x", "Org", "1.0")], Vec::new());
    assert!(c.supports_model("urn:x", "Org", "1.0"));
    assert!(!c.supports_model("urn:z", "Org", "1.0"));
    assert!(!c.supports_model("urn:x", "Org2", "1.0"));
    assert!(!c.supports_model("urn:x", "Org", "1.1"));
    assert!(!c.supports_model("urn:x", "org", "1.0"));
    assert!(!c.supports_model("urn:y", "Org", "1.0"));
}

#[test]
fn supports_model_on_an_empty_list() {
    assert!(!caps(Vec::new(), Vec::new()).supports_model("urn:x", "Org", "1.0"));
}

#[test]
fn supports_encoding_uses_the_fixed_codes() {
    let c = caps(Vec::new(), vec![0, 2, 4]);
    assert!(c.supports_encoding(Encoding::Json));
    assert!(!c.supports_encoding(Encoding::Bytes));
    assert!(c.supports_encoding(Encoding::Proto));
    assert!(!c.supports_encoding(Encoding::Ascii));
    assert!(c.supports_encoding(Encoding::JsonIetf));
    let d = caps(Vec::new(), vec![1, 3, 7]);
    assert!(!d.supports_encoding(Encoding::Json));
    assert!(d.supports_encoding(Encoding::Bytes));
    assert!(!d.supports_encoding(Encoding::Proto));
    assert!(d.supports_encoding(Encoding::Ascii));
    assert!(!d.supports_encoding(Encoding::JsonIetf));
}

#[test]
fn encoding_codes() {
    assert_eq!(Encoding::Json.as_i32(), 0);
    assert_eq!(Encoding::Bytes.as_i32(), 1);
    assert_eq!(Encoding::Proto.as_i32(), 2);
    assert_eq!(Encoding::Ascii.as_i32(), 3);
    assert_eq!(Encoding::JsonIetf.as_i32(), 4);
}
