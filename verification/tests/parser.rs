use wash_config::config::{
    ActorConfig, ArchetypePolicy, CommonConfig, LanguageConfig, RustConfig, TinyGoConfig,
    TypeConfig,
};
use wash_config::locate::locate_manifest;
use wash_config::resolve::resolve_manifest;
use wash_config::version::Version;

fn version(major: u64, minor: u64, patch: u64) -> Version {
    Version {
        major,
        minor,
        patch,
        pre: String::new(),
        build: String::new(),
    }
}

const RUST_ACTOR: &str = r#"
language = "rust"
name = "testactor"
version = "0.1.0"

[actor]
claims = ["wasmcloud:httpserver"]
registry = "localhost:8080"
filename = "testactor.wasm"
call_alias = "testactor"

[rust]
cargo_path = "./cargo"
target_path = "./target"
"#;

#[test]
/// Should parse a full and correct manifest for a rust actor project
fn rust_actor() {
    let path = "/tests/parser/files/rust_actor.toml";
    let result = resolve_manifest(RUST_ACTOR, path, None);
    assert!(result.is_ok());
    let config = result.unwrap();
    assert_eq!(
        config.language,
        LanguageConfig::Rust(RustConfig {
            cargo_path: Some("./cargo".to_string()),
            target_path: Some("./target".to_string()),
        })
    );
    assert_eq!(
        config.project_type,
        TypeConfig::Actor(ActorConfig {
            claims: vec!["wasmcloud:httpserver".to_string()],
            registry: Some("localhost:8080".to_string()),
            push_insecure: false,
            key_directory: "./keys".to_string(),
            filename: Some("testactor.wasm".to_string()),
            wasm_target: "wasm32-unknown-unknown".to_string(),
            call_alias: Some("testactor".to_string()),
        })
    );
    assert_eq!(
        config.common,
        CommonConfig {
            name: "testactor".to_string(),
            version: version(0, 1, 0),
        }
    );
}

const TINYGO_ACTOR: &str = r#"
language = "tinygo"
name = "testactor"
version = "0.1.0"

[actor]
claims = ["wasmcloud:httpserver"]
registry = "localhost:8080"
filename = "testactor.wasm"
call_alias = "testactor"

[tinygo]
tinygo_path = "path/to/tinygo"
"#;

#[test]
/// Should parse a full and correct manifest for a tinygo actor project
fn tinygo_actor() {
    let path = "/tests/parser/files/tinygo_actor.toml";
    let result = resolve_manifest(TINYGO_ACTOR, path, None);
    assert!(result.is_ok());
    let config = result.unwrap();
    assert_eq!(
        config.language,
        LanguageConfig::TinyGo(TinyGoConfig {
            tinygo_path: Some("path/to/tinygo".to_string()),
        })
    );
    assert_eq!(
        config.project_type,
        TypeConfig::Actor(ActorConfig {
            claims: vec!["wasmcloud:httpserver".to_string()],
            registry: Some("localhost:8080".to_string()),
            push_insecure: false,
            key_directory: "./keys".to_string(),
            filename: Some("testactor.wasm".to_string()),
            wasm_target: "wasm32-unknown-unknown".to_string(),
            call_alias: Some("testactor".to_string()),
        })
    );
    assert_eq!(
        config.common,
        CommonConfig {
            name: "testactor".to_string(),
            version: version(0, 1, 0),
        }
    );
}

#[test]
/// A directory holding the default-named manifest resolves to that file,
/// and the file resolves like any explicit path
fn folder_path() {
    let dir = "./tests/parser/files/folder".to_string();
    let located = locate_manifest(
        Some(dir),
        true,
        true,
        "/abs/tests/parser/files/folder".to_string(),
        true,
    );
    assert_eq!(
        located,
        Ok("./tests/parser/files/folder/wasmcloud.toml".to_string())
    );
    let config = resolve_manifest(RUST_ACTOR, &located.unwrap(), None).unwrap();
    assert_eq!(
        config.language,
        LanguageConfig::Rust(RustConfig {
            cargo_path: Some("./cargo".to_string()),
            target_path: Some("./target".to_string()),
        })
    );
}

const NO_SECTION: &str = r#"
language = "rust"
name = "testactor"
version = "0.1.0"
"#;

#[test]
/// A manifest without its actor section fails naming the missing section
fn no_actor_config() {
    let path = "/abs/tests/parser/files/no_actor.toml";
    let result = resolve_manifest(NO_SECTION, path, None);
    assert!(result.is_err());
    assert_eq!(
        result.unwrap_err().render(),
        format!("Missing actor config in {}", path)
    );
}

#[test]
/// A manifest without its provider section fails naming the missing section
fn no_provider_config() {
    let path = "/abs/tests/parser/files/no_provider.toml";
    let result = resolve_manifest(NO_SECTION, path, Some(ArchetypePolicy::Provider));
    assert!(result.is_err());
    assert_eq!(
        result.unwrap_err().render(),
        format!("Missing provider config in {}", path)
    );
}

#[test]
/// A manifest without its interface section fails naming the missing section
fn no_interface_config() {
    let path = "/abs/tests/parser/files/no_interface.toml";
    let result = resolve_manifest(NO_SECTION, path, Some(ArchetypePolicy::Interface));
    assert!(result.is_err());
    assert_eq!(
        result.unwrap_err().render(),
        format!("Missing interface config in {}", path)
    );
}

#[test]
/// A directory without the default-named manifest fails naming the
/// canonicalized directory
fn folder_path_with_no_config() {
    let canonical = "/abs/tests/parser/files/noconfig";
    let result = locate_manifest(
        Some("./tests/parser/files/noconfig".to_string()),
        true,
        true,
        canonical.to_string(),
        false,
    );
    assert!(result.is_err());
    assert_eq!(
        result.unwrap_err().render(),
        format!("No wasmcloud.toml file found in {}", canonical)
    );
}

#[test]
/// A file that is not a well-formed manifest fails naming the file
fn random_file() {
    let path = "/abs/tests/parser/files/random.txt";
    let result = resolve_manifest("this is just a random file\nwith some text in it\n", path, None);
    assert!(result.is_err());
    assert_eq!(
        result.unwrap_err().render(),
        format!("Invalid config file: {}", path)
    );
}

#[test]
/// A nonexistent file path fails echoing the caller's path verbatim
fn nonexistent_file() {
    let input = "./tests/parser/files/nonexistent.toml";
    let result = locate_manifest(Some(input.to_string()), false, false, String::new(), false);
    assert!(result.is_err());
    assert_eq!(
        result.unwrap_err().render(),
        format!("Path {} does not exist", input)
    );
}

#[test]
/// A nonexistent directory path fails echoing the caller's path verbatim
fn nonexistent_folder() {
    let input = "./tests/parser/files/nonexistent/";
    let result = locate_manifest(Some(input.to_string()), false, false, String::new(), false);
    assert!(result.is_err());
    assert_eq!(
        result.unwrap_err().render(),
        format!("Path {} does not exist", input)
    );
}

const MINIMAL_RUST_ACTOR: &str = r#"
language = "rust"
name = "testactor"
version = "0.1.0"

[actor]
claims = ["wasmcloud:httpserver"]
"#;

#[test]
/// A manifest declaring only required fields gets every default
fn minimal_rust_actor() {
    let path = "/tests/parser/files/minimal_rust_actor.toml";
    let result = resolve_manifest(MINIMAL_RUST_ACTOR, path, None);
    assert!(result.is_ok());
    let config = result.unwrap();
    assert_eq!(
        config.language,
        LanguageConfig::Rust(RustConfig {
            cargo_path: None,
            target_path: None,
        })
    );
    assert_eq!(
        config.project_type,
        TypeConfig::Actor(ActorConfig {
            claims: vec!["wasmcloud:httpserver".to_string()],
            registry: None,
            push_insecure: false,
            key_directory: "./keys".to_string(),
            filename: None,
            wasm_target: "wasm32-unknown-unknown".to_string(),
            call_alias: None,
        })
    );
    assert_eq!(
        config.common,
        CommonConfig {
            name: "testactor".to_string(),
            version: version(0, 1, 0),
        }
    );
}
