use config_resolver::record::Foo;
use config_resolver::resolver::{
    literal_default, resolve, resolve_default, resolve_explicit, try_default_file, ResolveError,
};

fn named(names: &[&str], id: Option<u64>) -> Foo {
    Foo {
        name: Some(names.iter().map(|s| s.to_string()).collect()),
        id,
    }
}

#[test]
fn explicit_json_valid() {
    let bytes = br#"{"name":["alpha","beta"],"id":7}"#.to_vec();
    let r = resolve_explicit("conf.json", Some(bytes));
    assert_eq!(r, Ok(named(&["alpha", "beta"], Some(7))));
}

#[test]
fn explicit_yaml_valid() {
    let bytes = b"name:\n  - alpha\n  - beta\nid: 7\n".to_vec();
    let r = resolve_explicit("conf.yaml", Some(bytes));
    assert_eq!(r, Ok(named(&["alpha", "beta"], Some(7))));
}

#[test]
fn explicit_toml_valid() {
    let bytes = b"name = [\"alpha\", \"beta\"]\nid = 7\n".to_vec();
    let r = resolve_explicit("conf.toml", Some(bytes));
    assert_eq!(r, Ok(named(&["alpha", "beta"], Some(7))));
}

#[test]
fn format_independence() {
    let json = resolve_explicit("a.json", Some(br#"{"name":["x"],"id":1}"#.to_vec()));
    let yaml = resolve_explicit("a.yaml", Some(b"name:\n  - x\nid: 1\n".to_vec()));
    let toml = resolve_explicit("a.toml", Some(b"name = [\"x\"]\nid = 1\n".to_vec()));
    assert!(json.is_ok());
    assert_eq!(json, yaml);
    assert_eq!(yaml, toml);
}

#[test]
fn unsupported_extension_fails() {
    let bytes = br#"{"name":["alpha"],"id":7}"#.to_vec();
    let r = resolve_explicit("conf.ini", Some(bytes));
    assert_eq!(r, Err(ResolveError::UnsupportedFileType));
}

#[test]
fn missing_explicit_file_fails() {
    let r = resolve_explicit("conf.json", None);
    assert_eq!(r, Err(ResolveError::ReadFailed));
}

#[test]
fn malformed_explicit_file_fails() {
    let r = resolve_explicit("conf.json", Some(b"{not json".to_vec()));
    assert_eq!(r, Err(ResolveError::ParseFailed));
}

#[test]
fn default_fallback_when_no_file() {
    let r = resolve_default(None);
    assert_eq!(r, named(&["default1", "default2"], Some(12)));
}

#[test]
fn default_file_wins_over_literal() {
    let r = resolve_default(Some(b"name:\n  - fromfile\nid: 3\n".to_vec()));
    assert_eq!(r, named(&["fromfile"], Some(3)));
}

#[test]
fn malformed_default_file_falls_back() {
    let r = resolve_default(Some(b"id: [unclosed\n".to_vec()));
    assert_eq!(r, literal_default());
}

#[test]
fn scalar_default_file_falls_back() {
    assert_eq!(try_default_file(Some(b"just a scalar\n".to_vec())), None);
    let r = resolve_default(Some(b"just a scalar\n".to_vec()));
    assert_eq!(r, named(&["default1", "default2"], Some(12)));
}

#[test]
fn literal_default_value() {
    let d = literal_default();
    assert_eq!(d.name, Some(vec!["default1".to_string(), "default2".to_string()]));
    assert_eq!(d.id, Some(12));
}

#[test]
fn literal_default_matches_its_yaml_form() {
    let bytes = b"name:\n  - default1\n  - default2\nid: 12\n".to_vec();
    let r = resolve_explicit("d.yaml", Some(bytes));
    assert_eq!(r, Ok(literal_default()));
}

#[test]
fn empty_object_decodes_to_absent_fields() {
    for (path, bytes) in [
        ("c.json", b"{}".to_vec()),
        ("c.yaml", b"{}".to_vec()),
        ("c.toml", b"".to_vec()),
    ] {
        let r = resolve_explicit(path, Some(bytes));
        assert_eq!(r, Ok(Foo { name: None, id: None }), "path {}", path);
    }
}

#[test]
fn null_fields_decode_to_absent_fields() {
    let r = resolve_explicit("c.json", Some(br#"{"name":null,"id":null}"#.to_vec()));
    assert_eq!(r, Ok(Foo { name: None, id: None }));
    let r = resolve_explicit("c.yaml", Some(b"name:\nid:\n".to_vec()));
    assert_eq!(r, Ok(Foo { name: None, id: None }));
}

#[test]
fn unknown_keys_are_ignored() {
    let r = resolve_explicit("c.json", Some(br#"{"other":3,"id":5}"#.to_vec()));
    assert_eq!(r, Ok(Foo { name: None, id: Some(5) }));
}

#[test]
fn absent_fields_distinct_from_empty_and_zero() {
    let absent = Foo::new();
    assert_eq!(absent, Foo { name: None, id: None });
    assert_ne!(absent, Foo { name: Some(Vec::new()), id: None });
    assert_ne!(absent, Foo { name: None, id: Some(0) });
    assert_ne!(absent, Foo { name: Some(Vec::new()), id: Some(0) });
}

#[test]
fn empty_name_list_is_kept() {
    let r = resolve_explicit("c.json", Some(br#"{"name":[]}"#.to_vec()));
    assert_eq!(r, Ok(Foo { name: Some(Vec::new()), id: None }));
}

#[test]
fn largest_id_decodes() {
    let r = resolve_explicit("c.json", Some(br#"{"id":18446744073709551615}"#.to_vec()));
    assert_eq!(r, Ok(Foo { name: None, id: Some(u64::MAX) }));
}

#[test]
fn negative_id_fails() {
    let r = resolve_explicit("c.toml", Some(b"id = -1\n".to_vec()));
    assert_eq!(r, Err(ResolveError::ParseFailed));
    let r = resolve_explicit("c.json", Some(br#"{"id":-1}"#.to_vec()));
    assert_eq!(r, Err(ResolveError::ParseFailed));
}

#[test]
fn explicit_path_wins_over_default() {
    let explicit = br#"{"name":["chosen"],"id":1}"#.to_vec();
    let default_file = b"name:\n  - ignored\nid: 2\n".to_vec();
    let r = resolve(Some("a.json"), Some(explicit), Some(default_file));
    assert_eq!(r, Ok(named(&["chosen"], Some(1))));
}

#[test]
fn explicit_path_failure_is_not_recovered() {
    let default_file = b"name:\n  - ignored\nid: 2\n".to_vec();
    let r = resolve(Some("a.json"), None, Some(default_file));
    assert_eq!(r, Err(ResolveError::ReadFailed));
}

#[test]
fn no_explicit_path_uses_default_file() {
    let default_file = b"name:\n  - fromfile\nid: 2\n".to_vec();
    let r = resolve(None, None, Some(default_file));
    assert_eq!(r, Ok(named(&["fromfile"], Some(2))));
}

#[test]
fn no_sources_uses_built_in_default() {
    let r = resolve(None, None, None);
    assert_eq!(r, Ok(literal_default()));
}

#[test]
fn non_string_name_fails() {
    let r = resolve_explicit("c.json", Some(br#"{"name":[1,2]}"#.to_vec()));
    assert_eq!(r, Err(ResolveError::ParseFailed));
}
