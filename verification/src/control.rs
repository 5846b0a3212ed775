//! Control-plane query responses, modeled as plain values: the fields the
//! output formatting reads. The caller converts the client's own types into
//! these at the edge; in particular a label map is handed over as a list of
//! pairs in whatever order the caller's map yields, so everything proved of
//! the formatting holds for every such order.

use vstd::prelude::*;

verus! {

/// One key/value pair of a labels map, a claims set, or an output map.
#[derive(Debug, Clone, PartialEq, Eq)]
pub struct KeyValue {
    pub key: String,
    pub value: String,
}

pub struct KeyValueView {
    pub key: Seq<char>,
    pub value: Seq<char>,
}

impl View for KeyValue {
    type V = KeyValueView;

    open spec fn view(&self) -> KeyValueView {
        KeyValueView { key: self.key@, value: self.value@ }
    }
}

pub open spec fn views_of_pairs(v: Seq<KeyValue>) -> Seq<KeyValueView> {
    v.map_values(|p: KeyValue| p@)
}

/// A running host: its identity and how long it has been up.
#[derive(Debug, Clone, PartialEq, Eq)]
pub struct Host {
    pub id: String,
    pub uptime_seconds: u64,
}

pub struct HostView {
    pub id: Seq<char>,
    pub uptime_seconds: u64,
}

impl View for Host {
    type V = HostView;

    open spec fn view(&self) -> HostView {
        HostView { id: self.id@, uptime_seconds: self.uptime_seconds }
    }
}

pub open spec fn views_of_hosts(v: Seq<Host>) -> Seq<HostView> {
    v.map_values(|h: Host| h@)
}

/// An actor running on a host.
#[derive(Debug, Clone, PartialEq, Eq)]
pub struct ActorDescription {
    pub id: String,
    pub name: Option<String>,
    pub image_ref: Option<String>,
}

pub struct ActorDescriptionView {
    pub id: Seq<char>,
    pub name: Option<Seq<char>>,
    pub image_ref: Option<Seq<char>>,
}

impl View for ActorDescription {
    type V = ActorDescriptionView;

    open spec fn view(&self) -> ActorDescriptionView {
        ActorDescriptionView {
            id: self.id@,
            name: crate::config::view_opt(self.name),
            image_ref: crate::config::view_opt(self.image_ref),
        }
    }
}

pub open spec fn views_of_actors(v: Seq<ActorDescription>) -> Seq<ActorDescriptionView> {
    v.map_values(|a: ActorDescription| a@)
}

/// A capability provider running on a host.
#[derive(Debug, Clone, PartialEq, Eq)]
pub struct ProviderDescription {
    pub id: String,
    pub name: Option<String>,
    pub link_name: String,
    pub image_ref: Option<String>,
}

pub struct ProviderDescriptionView {
    pub id: Seq<char>,
    pub name: Option<Seq<char>>,
    pub link_name: Seq<char>,
    pub image_ref: Option<Seq<char>>,
}

impl View for ProviderDescription {
    type V = ProviderDescriptionView;

    open spec fn view(&self) -> ProviderDescriptionView {
        ProviderDescriptionView {
            id: self.id@,
            name: crate::config::view_opt(self.name),
            link_name: self.link_name@,
            image_ref: crate::config::view_opt(self.image_ref),
        }
    }
}

pub open spec fn views_of_providers(v: Seq<ProviderDescription>) -> Seq<ProviderDescriptionView> {
    v.map_values(|p: ProviderDescription| p@)
}

/// Everything a host reports about itself: labels and what runs on it.
#[derive(Debug, Clone, PartialEq, Eq)]
pub struct HostInventory {
    pub host_id: String,
    pub labels: Vec<KeyValue>,
    pub actors: Vec<ActorDescription>,
    pub providers: Vec<ProviderDescription>,
}

pub struct HostInventoryView {
    pub host_id: Seq<char>,
    pub labels: Seq<KeyValueView>,
    pub actors: Seq<ActorDescriptionView>,
    pub providers: Seq<ProviderDescriptionView>,
}

impl View for HostInventory {
    type V = HostInventoryView;

    open spec fn view(&self) -> HostInventoryView {
        HostInventoryView {
            host_id: self.host_id@,
            labels: views_of_pairs(self.labels@),
            actors: views_of_actors(self.actors@),
            providers: views_of_providers(self.providers@),
        }
    }
}

/// One signed claims set, as the fields of its token.
#[derive(Debug, Clone, PartialEq, Eq)]
pub struct Claim {
    pub fields: Vec<KeyValue>,
}

pub struct ClaimView {
    pub fields: Seq<KeyValueView>,
}

impl View for Claim {
    type V = ClaimView;

    open spec fn view(&self) -> ClaimView {
        ClaimView { fields: views_of_pairs(self.fields@) }
    }
}

pub open spec fn views_of_claims(v: Seq<Claim>) -> Seq<ClaimView> {
    v.map_values(|c: Claim| c@)
}

/// The claims sets a host knows of.
#[derive(Debug, Clone, PartialEq, Eq)]
pub struct GetClaimsResponse {
    pub claims: Vec<Claim>,
}

pub struct GetClaimsResponseView {
    pub claims: Seq<ClaimView>,
}

impl View for GetClaimsResponse {
    type V = GetClaimsResponseView;

    open spec fn view(&self) -> GetClaimsResponseView {
        GetClaimsResponseView { claims: views_of_claims(self.claims@) }
    }
}

/// One link between an actor and a provider.
#[derive(Debug, Clone, PartialEq, Eq)]
pub struct LinkDefinition {
    pub actor_id: String,
    pub provider_id: String,
    pub contract_id: String,
    pub link_name: String,
}

pub struct LinkDefinitionView {
    pub actor_id: Seq<char>,
    pub provider_id: Seq<char>,
    pub contract_id: Seq<char>,
    pub link_name: Seq<char>,
}

impl View for LinkDefinition {
    type V = LinkDefinitionView;

    open spec fn view(&self) -> LinkDefinitionView {
        LinkDefinitionView {
            actor_id: self.actor_id@,
            provider_id: self.provider_id@,
            contract_id: self.contract_id@,
            link_name: self.link_name@,
        }
    }
}

pub open spec fn views_of_links(v: Seq<LinkDefinition>) -> Seq<LinkDefinitionView> {
    v.map_values(|l: LinkDefinition| l@)
}

/// The links a host knows of.
#[derive(Debug, Clone, PartialEq, Eq)]
pub struct LinkDefinitionList {
    pub links: Vec<LinkDefinition>,
}

pub struct LinkDefinitionListView {
    pub links: Seq<LinkDefinitionView>,
}

impl View for LinkDefinitionList {
    type V = LinkDefinitionListView;

    open spec fn view(&self) -> LinkDefinitionListView {
        LinkDefinitionListView { links: views_of_links(self.links@) }
    }
}

/// The value of the first pair with key `k`, or the empty string.
pub open spec fn pair_value_or_empty(ps: Seq<KeyValueView>, k: Seq<char>) -> Seq<char>
    decreases ps.len(),
{
    if ps.len() == 0 {
        Seq::empty()
    } else if ps[0].key == k {
        ps[0].value
    } else {
        pair_value_or_empty(ps.drop_first(), k)
    }
}

/// First-match lookup with the empty string as the default.
pub fn lookup_pair_or_empty(ps: &Vec<KeyValue>, k: &str) -> (r: String)
    ensures
        r@ == pair_value_or_empty(views_of_pairs(ps@), k@),
{
    let ghost pvs = views_of_pairs(ps@);
    proof {
        assert(pvs.skip(0) =~= pvs);
    }
    let mut j: usize = 0;
    while j < ps.len()
        invariant
            j <= ps@.len(),
            pvs == views_of_pairs(ps@),
            pvs.len() == ps@.len(),
            pair_value_or_empty(pvs, k@) == pair_value_or_empty(pvs.skip(j as int), k@),
        decreases ps@.len() - j,
    {
        proof {
            assert(pvs.skip(j as int)[0] == pvs[j as int]);
            assert(pvs.skip(j as int).drop_first() =~= pvs.skip(j as int + 1));
        }
        if crate::strutil::str_eq(ps[j].key.as_str(), k) {
            return ps[j].value.clone();
        }
        j += 1;
    }
    proof {
        assert(pvs.skip(j as int) =~= Seq::<KeyValueView>::empty());
    }
    String::new()
}

} // verus!
