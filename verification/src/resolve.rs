//! Validation and defaulting: from the generic document to the fully typed
//! configuration, or a discriminated error.
//!
//! Stage order, and so error precedence, is: format, then the common fields,
//! then the language discriminator, then the archetype. A field carrying a
//! value of the wrong kind counts as absent. When a manifest declares more
//! than one archetype section it is rejected outright.

use vstd::prelude::*;
use crate::config::{
    ActorConfig, ActorView, ArchetypePolicy, CommonConfig, CommonView, InterfaceConfig,
    InterfaceView, LanguageConfig, LanguageView, ProviderConfig, ProviderView, ResolvedConfig,
    ResolvedView, RustConfig, RustView, TinyGoConfig, TinyGoView, TypeConfig, TypeView,
    result_view, view_opt,
};
use crate::document::{
    DocumentView, EntryView, RawDocument, bool_value, find_section, list_value, lookup_bool,
    lookup_list, lookup_section, lookup_str, section_or_empty, str_value, views_of_entries,
};
use crate::error::{ConfigError, ErrorView};
use crate::grammar::{parse_document, spec_document};
use crate::strutil::str_eq;
use crate::version::{parse_semver, semver_of};

verus! {

/// The archetype expected when a manifest declares none: the caller's
/// choice, or the actor archetype as the baseline.
pub open spec fn effective_policy(p: Option<ArchetypePolicy>) -> ArchetypePolicy {
    match p {
        Some(x) => x,
        None => ArchetypePolicy::Actor,
    }
}

/// The archetype-independent fields a document yields: `name` must be
/// present and non-empty, `version` present and a valid semantic version.
pub open spec fn spec_common(doc: DocumentView, path: Seq<char>) -> Result<CommonView, ErrorView> {
    match str_value(doc.top, "name"@) {
        None => Err(ErrorView::MissingField("name"@, path)),
        Some(n) => if n.len() == 0 {
            Err(ErrorView::MissingField("name"@, path))
        } else {
            match str_value(doc.top, "version"@) {
                None => Err(ErrorView::MissingField("version"@, path)),
                Some(vs) => match semver_of(vs) {
                    None => Err(ErrorView::InvalidVersion(vs, path)),
                    Some(v) => Ok(CommonView { name: n, version: v }),
                },
            }
        },
    }
}

/// The language variant a document yields: the `language` discriminator
/// picks the variant, whose optional overrides come from the section of the
/// same name; each defaults to absent.
pub open spec fn spec_language(doc: DocumentView, path: Seq<char>) -> Result<
    LanguageView,
    ErrorView,
> {
    match str_value(doc.top, "language"@) {
        None => Err(ErrorView::MissingLanguage(path)),
        Some(l) => if l == "rust"@ {
            let es = section_or_empty(doc, "rust"@);
            Ok(LanguageView::Rust(RustView {
                cargo_path: str_value(es, "cargo_path"@),
                target_path: str_value(es, "target_path"@),
            }))
        } else if l == "tinygo"@ {
            let es = section_or_empty(doc, "tinygo"@);
            Ok(LanguageView::TinyGo(TinyGoView { tinygo_path: str_value(es, "tinygo_path"@) }))
        } else {
            Err(ErrorView::UnsupportedLanguage(l))
        },
    }
}

/// The actor archetype's fields from its section, defaults applied.
pub open spec fn spec_actor(es: Seq<EntryView>) -> ActorView {
    ActorView {
        claims: match list_value(es, "claims"@) {
            Some(v) => v,
            None => Seq::empty(),
        },
        registry: str_value(es, "registry"@),
        push_insecure: match bool_value(es, "push_insecure"@) {
            Some(b) => b,
            None => false,
        },
        key_directory: match str_value(es, "key_directory"@) {
            Some(s) => s,
            None => "./keys"@,
        },
        filename: str_value(es, "filename"@),
        wasm_target: match str_value(es, "wasm_target"@) {
            Some(s) => s,
            None => "wasm32-unknown-unknown"@,
        },
        call_alias: str_value(es, "call_alias"@),
    }
}

/// The provider archetype's fields from its section: `capability_id` is
/// required, the vendor identity defaults.
pub open spec fn spec_provider(es: Seq<EntryView>, path: Seq<char>) -> Result<
    ProviderView,
    ErrorView,
> {
    match str_value(es, "capability_id"@) {
        None => Err(ErrorView::MissingField("capability_id"@, path)),
        Some(cid) => Ok(ProviderView {
            capability_id: cid,
            vendor: match str_value(es, "vendor"@) {
                Some(v) => v,
                None => "NoVendor"@,
            },
        }),
    }
}

/// The interface archetype's fields from its section, defaults applied.
pub open spec fn spec_interface(es: Seq<EntryView>) -> InterfaceView {
    InterfaceView {
        html_target: match str_value(es, "html_target"@) {
            Some(s) => s,
            None => "html"@,
        },
        codegen_config: match str_value(es, "codegen_config"@) {
            Some(s) => s,
            None => "."@,
        },
    }
}

/// The archetype a document yields: exactly one of the three sections must
/// be present; none is reported per the expected-archetype policy, more
/// than one is rejected.
pub open spec fn spec_archetype(
    doc: DocumentView,
    pol: ArchetypePolicy,
    path: Seq<char>,
) -> Result<TypeView, ErrorView> {
    let a = find_section(doc.sections, "actor"@);
    let p = find_section(doc.sections, "provider"@);
    let i = find_section(doc.sections, "interface"@);
    if a is Some && p is None && i is None {
        Ok(TypeView::Actor(spec_actor(a.unwrap())))
    } else if p is Some && a is None && i is None {
        match spec_provider(p.unwrap(), path) {
            Ok(pv) => Ok(TypeView::Provider(pv)),
            Err(e) => Err(e),
        }
    } else if i is Some && a is None && p is None {
        Ok(TypeView::Interface(spec_interface(i.unwrap())))
    } else if a is None && p is None && i is None {
        Err(
            match pol {
                ArchetypePolicy::Actor => ErrorView::MissingActorConfig(path),
                ArchetypePolicy::Provider => ErrorView::MissingProviderConfig(path),
                ArchetypePolicy::Interface => ErrorView::MissingInterfaceConfig(path),
            },
        )
    } else {
        Err(ErrorView::MultipleArchetypes(path))
    }
}

/// The configuration a well-formed document yields, or the first error in
/// stage order.
pub open spec fn spec_resolve_document(
    doc: DocumentView,
    pol: ArchetypePolicy,
    path: Seq<char>,
) -> Result<ResolvedView, ErrorView> {
    match spec_common(doc, path) {
        Err(e) => Err(e),
        Ok(common) => match spec_language(doc, path) {
            Err(e) => Err(e),
            Ok(language) => match spec_archetype(doc, pol, path) {
                Err(e) => Err(e),
                Ok(project_type) => Ok(ResolvedView { common, language, project_type }),
            },
        },
    }
}

/// The configuration a manifest text yields: an ill-formed text is an
/// invalid-format error carrying the path, a well-formed one resolves as
/// `spec_resolve_document` says.
pub open spec fn spec_resolve(
    text: Seq<char>,
    pol: ArchetypePolicy,
    path: Seq<char>,
) -> Result<ResolvedView, ErrorView> {
    match spec_document(text) {
        None => Err(ErrorView::InvalidFormat(path)),
        Some(doc) => spec_resolve_document(doc, pol, path),
    }
}

/// Pulls the archetype-independent fields out of a document; `path` is the
/// canonicalized manifest path echoed by errors.
pub fn extract_common(doc: &RawDocument, path: &str) -> (r: Result<CommonConfig, ConfigError>)
    ensures
        result_view(r) == spec_common(doc@, path@),
{
    let name = match lookup_str(&doc.top, "name") {
        None => {
            return Err(ConfigError::MissingField("name".to_owned(), path.to_owned()));
        },
        Some(n) => n,
    };
    if name.as_str().is_empty() {
        return Err(ConfigError::MissingField("name".to_owned(), path.to_owned()));
    }
    let vs = match lookup_str(&doc.top, "version") {
        None => {
            return Err(ConfigError::MissingField("version".to_owned(), path.to_owned()));
        },
        Some(v) => v,
    };
    match parse_semver(vs.as_str()) {
        None => Err(ConfigError::InvalidVersion(vs, path.to_owned())),
        Some(version) => Ok(CommonConfig { name, version }),
    }
}

/// Reads a language section's optional string override.
fn section_str(doc: &RawDocument, section: &str, key: &str) -> (r: Option<String>)
    ensures
        view_opt(r) == str_value(section_or_empty(doc@, section@), key@),
{
    match lookup_section(doc, section) {
        Some(es) => lookup_str(es, key),
        None => {
            proof {
                assert(str_value(Seq::<EntryView>::empty(), key@) is None);
            }
            None
        },
    }
}

/// Resolves the `language` discriminator to its variant; `path` is the
/// canonicalized manifest path echoed by errors.
pub fn resolve_language(doc: &RawDocument, path: &str) -> (r: Result<LanguageConfig, ConfigError>)
    ensures
        result_view(r) == spec_language(doc@, path@),
{
    let l = match lookup_str(&doc.top, "language") {
        None => {
            return Err(ConfigError::MissingLanguage(path.to_owned()));
        },
        Some(l) => l,
    };
    if str_eq(l.as_str(), "rust") {
        Ok(LanguageConfig::Rust(RustConfig {
            cargo_path: section_str(doc, "rust", "cargo_path"),
            target_path: section_str(doc, "rust", "target_path"),
        }))
    } else if str_eq(l.as_str(), "tinygo") {
        Ok(LanguageConfig::TinyGo(TinyGoConfig {
            tinygo_path: section_str(doc, "tinygo", "tinygo_path"),
        }))
    } else {
        Err(ConfigError::UnsupportedLanguage(l))
    }
}

/// Builds the actor variant from its section's entries.
fn build_actor(es: &Vec<crate::document::RawEntry>) -> (r: ActorConfig)
    ensures
        r@ == spec_actor(views_of_entries(es@)),
{
    let claims = match lookup_list(es, "claims") {
        Some(v) => v,
        None => {
            let none: Vec<String> = Vec::new();
            proof {
                assert(crate::document::views_of_strings(none@) =~= Seq::<Seq<char>>::empty());
            }
            none
        },
    };
    ActorConfig {
        claims,
        registry: lookup_str(es, "registry"),
        push_insecure: match lookup_bool(es, "push_insecure") {
            Some(b) => b,
            None => false,
        },
        key_directory: match lookup_str(es, "key_directory") {
            Some(s) => s,
            None => "./keys".to_owned(),
        },
        filename: lookup_str(es, "filename"),
        wasm_target: match lookup_str(es, "wasm_target") {
            Some(s) => s,
            None => "wasm32-unknown-unknown".to_owned(),
        },
        call_alias: lookup_str(es, "call_alias"),
    }
}

/// Builds the provider variant from its section's entries.
fn build_provider(es: &Vec<crate::document::RawEntry>, path: &str) -> (r: Result<
    ProviderConfig,
    ConfigError,
>)
    ensures
        result_view(r) == spec_provider(views_of_entries(es@), path@),
{
    match lookup_str(es, "capability_id") {
        None => Err(ConfigError::MissingField("capability_id".to_owned(), path.to_owned())),
        Some(capability_id) => Ok(ProviderConfig {
            capability_id,
            vendor: match lookup_str(es, "vendor") {
                Some(v) => v,
                None => "NoVendor".to_owned(),
            },
        }),
    }
}

/// Builds the interface variant from its section's entries.
fn build_interface(es: &Vec<crate::document::RawEntry>) -> (r: InterfaceConfig)
    ensures
        r@ == spec_interface(views_of_entries(es@)),
{
    InterfaceConfig {
        html_target: match lookup_str(es, "html_target") {
            Some(s) => s,
            None => "html".to_owned(),
        },
        codegen_config: match lookup_str(es, "codegen_config") {
            Some(s) => s,
            None => ".".to_owned(),
        },
    }
}

/// Resolves which archetype the document declares; `policy` names the
/// archetype reported as missing when it declares none, the actor archetype
/// when the caller has no preference. `path` is the canonicalized manifest
/// path echoed by errors.
pub fn resolve_archetype(doc: &RawDocument, policy: Option<ArchetypePolicy>, path: &str) -> (r:
    Result<TypeConfig, ConfigError>)
    ensures
        result_view(r) == spec_archetype(doc@, effective_policy(policy), path@),
{
    let a = lookup_section(doc, "actor");
    let p = lookup_section(doc, "provider");
    let i = lookup_section(doc, "interface");
    if a.is_some() && p.is_none() && i.is_none() {
        Ok(TypeConfig::Actor(build_actor(a.unwrap())))
    } else if p.is_some() && a.is_none() && i.is_none() {
        match build_provider(p.unwrap(), path) {
            Ok(pv) => Ok(TypeConfig::Provider(pv)),
            Err(e) => Err(e),
        }
    } else if i.is_some() && a.is_none() && p.is_none() {
        Ok(TypeConfig::Interface(build_interface(i.unwrap())))
    } else if a.is_none() && p.is_none() && i.is_none() {
        match policy {
            None | Some(ArchetypePolicy::Actor) => Err(
                ConfigError::MissingActorConfig(path.to_owned()),
            ),
            Some(ArchetypePolicy::Provider) => Err(
                ConfigError::MissingProviderConfig(path.to_owned()),
            ),
            Some(ArchetypePolicy::Interface) => Err(
                ConfigError::MissingInterfaceConfig(path.to_owned()),
            ),
        }
    } else {
        Err(ConfigError::MultipleArchetypes(path.to_owned()))
    }
}

/// Pure combination of the three already validated parts.
pub fn assemble(common: CommonConfig, language: LanguageConfig, project_type: TypeConfig) -> (r:
    ResolvedConfig)
    ensures
        r@ == (ResolvedView { common: common@, language: language@, project_type: project_type@ }),
{
    ResolvedConfig { common, language, project_type }
}

/// Resolves a manifest's text into the full configuration, or the first
/// error in stage order. `manifest_path` is the canonicalized path of the
/// file the text came from, echoed by every error that names a file.
pub fn resolve_manifest(content: &str, manifest_path: &str, policy: Option<ArchetypePolicy>) -> (r:
    Result<ResolvedConfig, ConfigError>)
    ensures
        result_view(r) == spec_resolve(content@, effective_policy(policy), manifest_path@),
{
    let doc = match parse_document(content) {
        None => {
            return Err(ConfigError::InvalidFormat(manifest_path.to_owned()));
        },
        Some(d) => d,
    };
    let common = match extract_common(&doc, manifest_path) {
        Err(e) => {
            return Err(e);
        },
        Ok(c) => c,
    };
    let language = match resolve_language(&doc, manifest_path) {
        Err(e) => {
            return Err(e);
        },
        Ok(l) => l,
    };
    let project_type = match resolve_archetype(&doc, policy, manifest_path) {
        Err(e) => {
            return Err(e);
        },
        Ok(t) => t,
    };
    Ok(assemble(common, language, project_type))
}

} // verus!
