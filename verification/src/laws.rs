//! The engine's cross-cutting guarantees, stated and proved over the same
//! specification functions the executable contracts use.

use vstd::prelude::*;
use crate::config::{
    ActorView, ArchetypePolicy, CommonView, LanguageView, ResolvedView, RustView, TinyGoView,
    TypeView,
};
use crate::document::{
    DocumentView, EntryView, bool_value, find_section, list_value, section_or_empty, str_value,
};
use crate::error::ErrorView;
use crate::grammar::spec_document;
use crate::locate::spec_locate;
use crate::resolve::{
    spec_actor, spec_archetype, spec_common, spec_interface, spec_language, spec_provider,
    spec_resolve, spec_resolve_document,
};
use crate::version::{VersionView, semver_of};

verus! {

/// Round-trip defaults: a document that declares only the required fields —
/// a Rust manifest with an actor section and none of the optional keys —
/// resolves, and every optional field comes out at its documented default:
/// no claims, no registry, `push_insecure` false, `key_directory` "./keys",
/// no filename override, `wasm_target` "wasm32-unknown-unknown", no call
/// alias, and no toolchain overrides.
pub proof fn lemma_round_trip_defaults(
    doc: DocumentView,
    pol: ArchetypePolicy,
    path: Seq<char>,
    es: Seq<EntryView>,
    n: Seq<char>,
    vs: Seq<char>,
    v: VersionView,
)
    requires
        str_value(doc.top, "name"@) == Some(n),
        n.len() > 0,
        str_value(doc.top, "version"@) == Some(vs),
        semver_of(vs) == Some(v),
        str_value(doc.top, "language"@) == Some("rust"@),
        str_value(section_or_empty(doc, "rust"@), "cargo_path"@) is None,
        str_value(section_or_empty(doc, "rust"@), "target_path"@) is None,
        find_section(doc.sections, "actor"@) == Some(es),
        find_section(doc.sections, "provider"@) is None,
        find_section(doc.sections, "interface"@) is None,
        list_value(es, "claims"@) is None,
        str_value(es, "registry"@) is None,
        bool_value(es, "push_insecure"@) is None,
        str_value(es, "key_directory"@) is None,
        str_value(es, "filename"@) is None,
        str_value(es, "wasm_target"@) is None,
        str_value(es, "call_alias"@) is None,
    ensures
        spec_resolve_document(doc, pol, path) == Ok::<ResolvedView, ErrorView>(
            ResolvedView {
                common: CommonView { name: n, version: v },
                language: LanguageView::Rust(
                    RustView { cargo_path: None, target_path: None },
                ),
                project_type: TypeView::Actor(
                    ActorView {
                        claims: Seq::empty(),
                        registry: None,
                        push_insecure: false,
                        key_directory: "./keys"@,
                        filename: None,
                        wasm_target: "wasm32-unknown-unknown"@,
                        call_alias: None,
                    },
                ),
            },
        ),
{
}

/// Discriminator exhaustiveness, supported side: each known `language`
/// value resolves to its matching variant, with the overrides the matching
/// section declares; every other value fails as unsupported, echoing the
/// offending value.
pub proof fn lemma_language_exhaustive(doc: DocumentView, path: Seq<char>, l: Seq<char>)
    requires
        str_value(doc.top, "language"@) == Some(l),
    ensures
        l == "rust"@ ==> spec_language(doc, path) == Ok::<LanguageView, ErrorView>(
            LanguageView::Rust(
                RustView {
                    cargo_path: str_value(section_or_empty(doc, "rust"@), "cargo_path"@),
                    target_path: str_value(section_or_empty(doc, "rust"@), "target_path"@),
                },
            ),
        ),
        l == "tinygo"@ ==> spec_language(doc, path) == Ok::<LanguageView, ErrorView>(
            LanguageView::TinyGo(
                TinyGoView {
                    tinygo_path: str_value(section_or_empty(doc, "tinygo"@), "tinygo_path"@),
                },
            ),
        ),
        l != "rust"@ && l != "tinygo"@ ==> spec_language(doc, path) == Err::<
            LanguageView,
            ErrorView,
        >(ErrorView::UnsupportedLanguage(l)),
{
    reveal_strlit("rust");
    reveal_strlit("tinygo");
    assert(("rust"@).len() == 4);
    assert(("tinygo"@).len() == 6);
}

/// Discriminator exhaustiveness, absent side: a document without a
/// `language` discriminator never resolves a language.
pub proof fn lemma_language_required(doc: DocumentView, path: Seq<char>)
    requires
        str_value(doc.top, "language"@) is None,
    ensures
        spec_language(doc, path) == Err::<LanguageView, ErrorView>(
            ErrorView::MissingLanguage(path),
        ),
{
}

/// Archetype exclusivity: with no archetype section the resolution fails,
/// naming the archetype the policy expected; with exactly one section it
/// resolves to that variant with the section's fields intact; with more
/// than one it is rejected.
pub proof fn lemma_archetype_exclusivity(
    doc: DocumentView,
    pol: ArchetypePolicy,
    path: Seq<char>,
)
    ensures
        (find_section(doc.sections, "actor"@) is None && find_section(doc.sections, "provider"@)
            is None && find_section(doc.sections, "interface"@) is None) ==> spec_archetype(
            doc,
            pol,
            path,
        ) == Err::<TypeView, ErrorView>(
            match pol {
                ArchetypePolicy::Actor => ErrorView::MissingActorConfig(path),
                ArchetypePolicy::Provider => ErrorView::MissingProviderConfig(path),
                ArchetypePolicy::Interface => ErrorView::MissingInterfaceConfig(path),
            },
        ),
        find_section(doc.sections, "actor"@) matches Some(es) ==> ((find_section(
            doc.sections,
            "provider"@,
        ) is None && find_section(doc.sections, "interface"@) is None) ==> spec_archetype(
            doc,
            pol,
            path,
        ) == Ok::<TypeView, ErrorView>(TypeView::Actor(spec_actor(es)))),
        find_section(doc.sections, "provider"@) matches Some(es) ==> ((find_section(
            doc.sections,
            "actor"@,
        ) is None && find_section(doc.sections, "interface"@) is None) ==> spec_archetype(
            doc,
            pol,
            path,
        ) == (match spec_provider(es, path) {
            Ok(pv) => Ok::<TypeView, ErrorView>(TypeView::Provider(pv)),
            Err(e) => Err(e),
        })),
        find_section(doc.sections, "interface"@) matches Some(es) ==> ((find_section(
            doc.sections,
            "actor"@,
        ) is None && find_section(doc.sections, "provider"@) is None) ==> spec_archetype(
            doc,
            pol,
            path,
        ) == Ok::<TypeView, ErrorView>(TypeView::Interface(spec_interface(es)))),
        ((find_section(doc.sections, "actor"@) is Some && find_section(doc.sections, "provider"@)
            is Some) || (find_section(doc.sections, "actor"@) is Some && find_section(
            doc.sections,
            "interface"@,
        ) is Some) || (find_section(doc.sections, "provider"@) is Some && find_section(
            doc.sections,
            "interface"@,
        ) is Some)) ==> spec_archetype(doc, pol, path) == Err::<TypeView, ErrorView>(
            ErrorView::MultipleArchetypes(path),
        ),
{
}

/// The configuration a document resolves to does not depend on the path the
/// manifest was reached by: the path only flavours errors.
pub proof fn lemma_resolution_path_independent(
    doc: DocumentView,
    pol: ArchetypePolicy,
    p1: Seq<char>,
    p2: Seq<char>,
)
    ensures
        spec_resolve_document(doc, pol, p1) matches Ok(c1) ==> spec_resolve_document(
            doc,
            pol,
            p2,
        ) matches Ok(c2) ==> c1 == c2,
        spec_resolve_document(doc, pol, p1) is Ok <==> spec_resolve_document(doc, pol, p2) is Ok,
{
}

/// Path resolution equivalence: an explicit file path is used directly; an
/// explicit directory holding the default-named file picks that file. So
/// when both name the same file — the same manifest text — both ways
/// resolve to the identical configuration.
pub proof fn lemma_path_resolution_equivalence(
    t: Seq<char>,
    pol: ArchetypePolicy,
    file: Seq<char>,
    dir: Seq<char>,
    dc1: Seq<char>,
    dc2: Seq<char>,
    hm: bool,
    p1: Seq<char>,
    p2: Seq<char>,
)
    ensures
        spec_locate(Some(file), true, false, dc1, hm) == Ok::<Seq<char>, ErrorView>(file),
        spec_locate(Some(dir), true, true, dc2, true) == Ok::<Seq<char>, ErrorView>(
            dir + "/wasmcloud.toml"@,
        ),
        spec_resolve(t, pol, p1) matches Ok(c1) ==> spec_resolve(t, pol, p2) matches Ok(c2)
            ==> c1 == c2,
        spec_resolve(t, pol, p1) is Ok <==> spec_resolve(t, pol, p2) is Ok,
{
    if spec_document(t) is Some {
        lemma_resolution_path_independent(spec_document(t).unwrap(), pol, p1, p2);
    }
}

} // verus!
