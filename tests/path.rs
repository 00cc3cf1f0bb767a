use ginmi::gnmi::{GnmiPath, PathElem};
use ginmi::path::{Path, PathElement};
use ginmi::Client;
use std::collections::HashMap;

fn attrs(pairs: &[(&str, &str)]) -> HashMap<String, String> {
    let mut m = HashMap::new();
    for (k, v) in pairs {
        m.insert(k.to_string(), v.to_string());
    }
    m
}

fn names(p: &GnmiPath) -> Vec<String> {
    p.elem.iter().map(|e| e.name.clone()).collect()
}

fn shorthand(s: &str) -> GnmiPath {
    Client::<()>::get_path_from_str(s)
}

#[test]
fn structural_path_to_wire_keeps_order_and_attributes() {
    let mut p = Path::new("dev1", "openconfig");
    p.push("interfaces", HashMap::new());
    p.push("interface", attrs(&[("name", "eth0")]));
    p.push("state", attrs(&[("a", "1"), ("b", "x/y")]));
    let w = p.to_wire();
    assert_eq!(w.target, "dev1");
    assert_eq!(w.origin, "openconfig");
    assert_eq!(names(&w), vec!["interfaces", "interface", "state"]);
    assert!(w.elem[0].key.is_empty());
    assert_eq!(w.elem[1].key, attrs(&[("name", "eth0")]));
    assert_eq!(w.elem[2].key, attrs(&[("a", "1"), ("b", "x/y")]));
}

#[test]
fn wire_round_trip_of_structural_paths() {
    for n in 0..4 {
        let mut p = Path::new("t", "o");
        for i in 0..n {
            p.push(&format!("e{}", i), attrs(&[("k", &format!("v{}", i))]));
        }
        let w = p.to_wire();
        assert_eq!(w.elem.len(), n);
        let back = Path::from_wire(&w).unwrap();
        assert_eq!(back.to_wire(), w);
    }
}

#[test]
fn from_wire_refuses_an_empty_name() {
    let w = GnmiPath {
        origin: String::new(),
        elem: vec![
            PathElem { name: "a".to_string(), key: HashMap::new() },
            PathElem { name: String::new(), key: HashMap::new() },
        ],
        target: String::new(),
    };
    assert!(Path::from_wire(&w).is_none());
}

#[test]
fn path_element_to_wire_is_verbatim() {
    let e = PathElement::new("interface", attrs(&[("name", "eth0/1")]));
    let w = e.to_wire();
    assert_eq!(w.name, "interface");
    assert_eq!(w.key, attrs(&[("name", "eth0/1")]));
}

#[test]
fn shorthand_equals_structural_path() {
    let mut p = Path::new("", "");
    p.push("a", HashMap::new());
    p.push("b", HashMap::new());
    p.push("c", HashMap::new());
    assert_eq!(shorthand("a/b/c"), p.to_wire());
}

#[test]
fn shorthand_splits_on_slashes() {
    let w = shorthand("interfaces/interface/state");
    assert_eq!(names(&w), vec!["interfaces", "interface", "state"]);
    assert!(w.elem.iter().all(|e| e.key.is_empty()));
    assert_eq!(w.target, "");
    assert_eq!(w.origin, "");
}

#[test]
fn shorthand_skips_empty_segments() {
    assert_eq!(names(&shorthand("/a//b/")), vec!["a", "b"]);
    assert_eq!(names(&shorthand("/")), Vec::<String>::new());
    assert_eq!(names(&shorthand("//x")), vec!["x"]);
}

#[test]
fn shorthand_without_slash_is_one_element() {
    assert_eq!(names(&shorthand("system")), vec!["system"]);
    assert_eq!(names(&shorthand("")), vec![""]);
    assert_eq!(names(&shorthand("näme[x=1]")), vec!["näme[x=1]"]);
}

#[test]
fn default_path_has_empty_target_and_origin() {
    let mut p = Path::default();
    p.push("system", HashMap::new());
    let w = p.to_wire();
    assert_eq!(w.target, "");
    assert_eq!(w.origin, "");
    assert_eq!(names(&w), vec!["system"]);
}
