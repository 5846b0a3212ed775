use wash_config::config::{
    ArchetypePolicy, InterfaceConfig, LanguageConfig, ProviderConfig, TypeConfig,
};
use wash_config::document::RawValue;
use wash_config::grammar::parse_document;
use wash_config::locate::locate_manifest;
use wash_config::resolve::resolve_manifest;
use wash_config::version::Version;

const PROVIDER: &str = r#"
language = "rust"
name = "testprovider"
version = "1.2.3-alpha.1+build5"

[provider]
capability_id = "wasmcloud:httpserver"
"#;

#[test]
fn provider_with_vendor_default() {
    let config = resolve_manifest(PROVIDER, "/p/wasmcloud.toml", None).unwrap();
    assert_eq!(
        config.project_type,
        TypeConfig::Provider(ProviderConfig {
            capability_id: "wasmcloud:httpserver".to_string(),
            vendor: "NoVendor".to_string(),
        })
    );
    assert_eq!(
        config.common.version,
        Version {
            major: 1,
            minor: 2,
            patch: 3,
            pre: "alpha.1".to_string(),
            build: "build5".to_string(),
        }
    );
}

#[test]
fn provider_with_vendor_declared() {
    let text = r#"
language = "rust"
name = "p"
version = "0.1.0"

[provider]
capability_id = "wasmcloud:keyvalue"
vendor = "acme"
"#;
    let config = resolve_manifest(text, "/p/wasmcloud.toml", None).unwrap();
    assert_eq!(
        config.project_type,
        TypeConfig::Provider(ProviderConfig {
            capability_id: "wasmcloud:keyvalue".to_string(),
            vendor: "acme".to_string(),
        })
    );
}

#[test]
fn provider_missing_capability_id() {
    let text = r#"
language = "rust"
name = "p"
version = "0.1.0"

[provider]
vendor = "acme"
"#;
    let err = resolve_manifest(text, "/p/wasmcloud.toml", None).unwrap_err();
    assert_eq!(err.render(), "Missing capability_id in /p/wasmcloud.toml");
}

#[test]
fn interface_defaults() {
    let text = r#"
language = "rust"
name = "i"
version = "0.1.0"

[interface]
"#;
    let config = resolve_manifest(text, "/i/wasmcloud.toml", None).unwrap();
    assert_eq!(
        config.project_type,
        TypeConfig::Interface(InterfaceConfig {
            html_target: "html".to_string(),
            codegen_config: ".".to_string(),
        })
    );
}

#[test]
fn unsupported_language() {
    let text = "language = \"zig\"\nname = \"x\"\nversion = \"0.1.0\"\n\n[actor]\n";
    let err = resolve_manifest(text, "/x/wasmcloud.toml", None).unwrap_err();
    assert_eq!(err.render(), "Unsupported language: zig");
}

#[test]
fn missing_language() {
    let text = "name = \"x\"\nversion = \"0.1.0\"\n\n[actor]\n";
    let err = resolve_manifest(text, "/x/wasmcloud.toml", None).unwrap_err();
    assert_eq!(err.render(), "Missing language in /x/wasmcloud.toml");
}

#[test]
fn missing_name() {
    let text = "language = \"rust\"\nversion = \"0.1.0\"\n\n[actor]\n";
    let err = resolve_manifest(text, "/x/wasmcloud.toml", None).unwrap_err();
    assert_eq!(err.render(), "Missing name in /x/wasmcloud.toml");
}

#[test]
fn empty_name_counts_as_missing() {
    let text = "language = \"rust\"\nname = \"\"\nversion = \"0.1.0\"\n\n[actor]\n";
    let err = resolve_manifest(text, "/x/wasmcloud.toml", None).unwrap_err();
    assert_eq!(err.render(), "Missing name in /x/wasmcloud.toml");
}

#[test]
fn missing_version() {
    let text = "language = \"rust\"\nname = \"x\"\n\n[actor]\n";
    let err = resolve_manifest(text, "/x/wasmcloud.toml", None).unwrap_err();
    assert_eq!(err.render(), "Missing version in /x/wasmcloud.toml");
}

#[test]
fn invalid_version() {
    let text = "language = \"rust\"\nname = \"x\"\nversion = \"1.2\"\n\n[actor]\n";
    let err = resolve_manifest(text, "/x/wasmcloud.toml", None).unwrap_err();
    assert_eq!(err.render(), "Invalid version 1.2 in /x/wasmcloud.toml");
}

#[test]
fn multiple_archetype_sections() {
    let text = "language = \"rust\"\nname = \"x\"\nversion = \"0.1.0\"\n\n[actor]\n\n[provider]\n";
    let err = resolve_manifest(text, "/x/wasmcloud.toml", None).unwrap_err();
    assert_eq!(
        err.render(),
        "Multiple archetype sections in /x/wasmcloud.toml"
    );
}

#[test]
fn actor_overrides_and_booleans() {
    let text = r#"
# a manifest with every actor option declared
language = "rust"
name = "x"
version = "0.1.0"

[actor]
claims = ["wasmcloud:httpserver", "wasmcloud:keyvalue",]
registry = "localhost:5000"
push_insecure = true
key_directory = "/tmp/keys"
filename = "out.wasm"
wasm_target = "wasm32-wasi"
call_alias = "echo"
"#;
    let config = resolve_manifest(text, "/x/wasmcloud.toml", None).unwrap();
    match config.project_type {
        TypeConfig::Actor(a) => {
            assert_eq!(
                a.claims,
                vec![
                    "wasmcloud:httpserver".to_string(),
                    "wasmcloud:keyvalue".to_string()
                ]
            );
            assert_eq!(a.registry, Some("localhost:5000".to_string()));
            assert!(a.push_insecure);
            assert_eq!(a.key_directory, "/tmp/keys".to_string());
            assert_eq!(a.filename, Some("out.wasm".to_string()));
            assert_eq!(a.wasm_target, "wasm32-wasi".to_string());
            assert_eq!(a.call_alias, Some("echo".to_string()));
        }
        other => panic!("expected an actor variant, got {:?}", other),
    }
}

#[test]
fn empty_claims_list() {
    let text = "language = \"rust\"\nname = \"x\"\nversion = \"0.1.0\"\n\n[actor]\nclaims = []\n";
    let config = resolve_manifest(text, "/x/wasmcloud.toml", None).unwrap();
    match config.project_type {
        TypeConfig::Actor(a) => assert_eq!(a.claims, Vec::<String>::new()),
        other => panic!("expected an actor variant, got {:?}", other),
    }
}

#[test]
fn language_section_without_discriminator_match_is_ignored() {
    let text = r#"
language = "tinygo"
name = "x"
version = "0.1.0"

[actor]

[rust]
cargo_path = "./cargo"
"#;
    let config = resolve_manifest(text, "/x/wasmcloud.toml", None).unwrap();
    assert_eq!(
        config.language,
        LanguageConfig::TinyGo(wash_config::config::TinyGoConfig { tinygo_path: None })
    );
}

#[test]
fn comments_and_trailing_comments_parse() {
    let text = "# heading\nlanguage = \"rust\" # the toolchain\nname = \"x\"\nversion = \"0.1.0\"\n[actor] # section\n";
    assert!(resolve_manifest(text, "/x/wasmcloud.toml", None).is_ok());
}

#[test]
fn duplicate_key_first_occurrence_wins() {
    let text = "name = \"first\"\nname = \"second\"\n";
    let doc = parse_document(text).unwrap();
    assert_eq!(doc.top.len(), 2);
    match &doc.top[0].value {
        RawValue::Text(s) => assert_eq!(s, "first"),
        other => panic!("expected a string value, got {:?}", other),
    }
}

#[test]
fn malformed_lines_are_rejected() {
    assert!(parse_document("key = \"unterminated\n").is_none());
    assert!(parse_document("key = [\"a\"\n").is_none());
    assert!(parse_document("[section\n").is_none());
    assert!(parse_document("key = 5x\n").is_none());
    assert!(parse_document("key = -\n").is_none());
    assert!(parse_document("key = \"a\" trailing\n").is_none());
    assert!(parse_document("= \"a\"\n").is_none());
}

#[test]
fn integer_entries_are_tolerated_and_count_as_absent() {
    let doc = parse_document("port = 8080\ndelta = -3\n").unwrap();
    assert_eq!(doc.top.len(), 2);
    match &doc.top[0].value {
        RawValue::Number(n) => assert_eq!(n, "8080"),
        other => panic!("expected a number value, got {:?}", other),
    }
    match &doc.top[1].value {
        RawValue::Number(n) => assert_eq!(n, "-3"),
        other => panic!("expected a number value, got {:?}", other),
    }
    let text = "language = \"rust\"\nname = \"x\"\nversion = 5\nretries = 3\n\n[actor]\n";
    let err = resolve_manifest(text, "/x/wasmcloud.toml", None).unwrap_err();
    assert_eq!(err.render(), "Missing version in /x/wasmcloud.toml");
}

#[test]
fn locate_without_explicit_path_uses_working_directory() {
    let found = locate_manifest(None, true, true, "/abs/cwd".to_string(), true);
    assert_eq!(found, Ok("wasmcloud.toml".to_string()));
    let missing = locate_manifest(None, true, true, "/abs/cwd".to_string(), false);
    assert_eq!(
        missing.unwrap_err().render(),
        "No wasmcloud.toml file found in /abs/cwd"
    );
}

#[test]
fn explicit_file_and_containing_directory_resolve_identically() {
    let text = "language = \"rust\"\nname = \"x\"\nversion = \"0.1.0\"\n\n[actor]\n";
    let via_file = locate_manifest(
        Some("./proj/wasmcloud.toml".to_string()),
        true,
        false,
        String::new(),
        false,
    )
    .unwrap();
    let via_dir = locate_manifest(
        Some("./proj".to_string()),
        true,
        true,
        "/abs/proj".to_string(),
        true,
    )
    .unwrap();
    assert_eq!(via_file, via_dir);
    let c1 = resolve_manifest(text, "/abs/proj/wasmcloud.toml", None).unwrap();
    let c2 = resolve_manifest(text, "/abs/proj/wasmcloud.toml", Some(ArchetypePolicy::Provider))
        .unwrap();
    assert_eq!(c1, c2);
}

#[test]
fn nonexistent_path_error_is_verbatim() {
    let err = locate_manifest(
        Some("./x/y.toml".to_string()),
        false,
        false,
        String::new(),
        false,
    )
    .unwrap_err();
    assert_eq!(err.render(), "Path ./x/y.toml does not exist");
}
