//! The fully resolved configuration value and its variant sets.

use vstd::prelude::*;
use crate::version::{Version, VersionView};

verus! {

/// The fields every manifest shares, whatever its archetype or language.
#[derive(Debug, Clone, PartialEq, Eq)]
pub struct CommonConfig {
    pub name: String,
    pub version: Version,
}

/// Overrides for the Rust toolchain; absent fields mean "use the
/// toolchain's default".
#[derive(Debug, Clone, PartialEq, Eq)]
pub struct RustConfig {
    pub cargo_path: Option<String>,
    pub target_path: Option<String>,
}

/// Overrides for the TinyGo toolchain; an absent field means "use the
/// toolchain's default".
#[derive(Debug, Clone, PartialEq, Eq)]
pub struct TinyGoConfig {
    pub tinygo_path: Option<String>,
}

/// The closed set of language toolchains a manifest can target.
#[derive(Debug, Clone, PartialEq, Eq)]
pub enum LanguageConfig {
    Rust(RustConfig),
    TinyGo(TinyGoConfig),
}

/// The actor archetype's fields, with its defaults applied.
#[derive(Debug, Clone, PartialEq, Eq)]
pub struct ActorConfig {
    pub claims: Vec<String>,
    pub registry: Option<String>,
    pub push_insecure: bool,
    pub key_directory: String,
    pub filename: Option<String>,
    pub wasm_target: String,
    pub call_alias: Option<String>,
}

/// The provider archetype's fields; `capability_id` is required.
#[derive(Debug, Clone, PartialEq, Eq)]
pub struct ProviderConfig {
    pub capability_id: String,
    pub vendor: String,
}

/// The interface archetype's fields, with its defaults applied.
#[derive(Debug, Clone, PartialEq, Eq)]
pub struct InterfaceConfig {
    pub html_target: String,
    pub codegen_config: String,
}

/// The closed set of mutually exclusive project archetypes.
#[derive(Debug, Clone, PartialEq, Eq)]
pub enum TypeConfig {
    Actor(ActorConfig),
    Provider(ProviderConfig),
    Interface(InterfaceConfig),
}

/// Which archetype to report as missing when a manifest declares none.
#[derive(Debug, Clone, Copy, PartialEq, Eq)]
pub enum ArchetypePolicy {
    Actor,
    Provider,
    Interface,
}

/// The engine's sole output: one immutable, fully validated configuration.
#[derive(Debug, Clone, PartialEq, Eq)]
pub struct ResolvedConfig {
    pub common: CommonConfig,
    pub language: LanguageConfig,
    pub project_type: TypeConfig,
}

pub open spec fn view_opt(o: Option<String>) -> Option<Seq<char>> {
    match o {
        Some(s) => Some(s@),
        None => None,
    }
}

/// A `Result` carried over to the views of its two sides.
pub open spec fn result_view<T: View, E: View>(r: Result<T, E>) -> Result<T::V, E::V> {
    match r {
        Ok(t) => Ok(t@),
        Err(e) => Err(e@),
    }
}

pub struct CommonView {
    pub name: Seq<char>,
    pub version: VersionView,
}

pub struct RustView {
    pub cargo_path: Option<Seq<char>>,
    pub target_path: Option<Seq<char>>,
}

pub struct TinyGoView {
    pub tinygo_path: Option<Seq<char>>,
}

pub enum LanguageView {
    Rust(RustView),
    TinyGo(TinyGoView),
}

pub struct ActorView {
    pub claims: Seq<Seq<char>>,
    pub registry: Option<Seq<char>>,
    pub push_insecure: bool,
    pub key_directory: Seq<char>,
    pub filename: Option<Seq<char>>,
    pub wasm_target: Seq<char>,
    pub call_alias: Option<Seq<char>>,
}

pub struct ProviderView {
    pub capability_id: Seq<char>,
    pub vendor: Seq<char>,
}

pub struct InterfaceView {
    pub html_target: Seq<char>,
    pub codegen_config: Seq<char>,
}

pub enum TypeView {
    Actor(ActorView),
    Provider(ProviderView),
    Interface(InterfaceView),
}

pub struct ResolvedView {
    pub common: CommonView,
    pub language: LanguageView,
    pub project_type: TypeView,
}

impl View for CommonConfig {
    type V = CommonView;

    open spec fn view(&self) -> CommonView {
        CommonView { name: self.name@, version: self.version@ }
    }
}

impl View for RustConfig {
    type V = RustView;

    open spec fn view(&self) -> RustView {
        RustView { cargo_path: view_opt(self.cargo_path), target_path: view_opt(self.target_path) }
    }
}

impl View for TinyGoConfig {
    type V = TinyGoView;

    open spec fn view(&self) -> TinyGoView {
        TinyGoView { tinygo_path: view_opt(self.tinygo_path) }
    }
}

impl View for LanguageConfig {
    type V = LanguageView;

    open spec fn view(&self) -> LanguageView {
        match self {
            LanguageConfig::Rust(c) => LanguageView::Rust(c@),
            LanguageConfig::TinyGo(c) => LanguageView::TinyGo(c@),
        }
    }
}

impl View for ActorConfig {
    type V = ActorView;

    open spec fn view(&self) -> ActorView {
        ActorView {
            claims: crate::document::views_of_strings(self.claims@),
            registry: view_opt(self.registry),
            push_insecure: self.push_insecure,
            key_directory: self.key_directory@,
            filename: view_opt(self.filename),
            wasm_target: self.wasm_target@,
            call_alias: view_opt(self.call_alias),
        }
    }
}

impl View for ProviderConfig {
    type V = ProviderView;

    open spec fn view(&self) -> ProviderView {
        ProviderView { capability_id: self.capability_id@, vendor: self.vendor@ }
    }
}

impl View for InterfaceConfig {
    type V = InterfaceView;

    open spec fn view(&self) -> InterfaceView {
        InterfaceView { html_target: self.html_target@, codegen_config: self.codegen_config@ }
    }
}

impl View for TypeConfig {
    type V = TypeView;

    open spec fn view(&self) -> TypeView {
        match self {
            TypeConfig::Actor(c) => TypeView::Actor(c@),
            TypeConfig::Provider(c) => TypeView::Provider(c@),
            TypeConfig::Interface(c) => TypeView::Interface(c@),
        }
    }
}

impl View for ResolvedConfig {
    type V = ResolvedView;

    open spec fn view(&self) -> ResolvedView {
        ResolvedView {
            common: self.common@,
            language: self.language@,
            project_type: self.project_type@,
        }
    }
}

} // verus!
