//! Output shaping for control-plane query responses: which rows each table
//! holds, in what order, with which defaults and placeholders, and the exact
//! texts and key/value pairs of the command results. Only the final table
//! rendering is an outside call; every decision here is verified.

use vstd::prelude::*;
use vstd::string::StringExecFns;
use crate::control::{
    ActorDescriptionView, Claim, ClaimView, GetClaimsResponse, Host, HostInventory, HostView,
    KeyValue, KeyValueView, LinkDefinitionList, LinkDefinitionView,
    ProviderDescriptionView, lookup_pair_or_empty, pair_value_or_empty, views_of_pairs,
};
use crate::table::{
    Align, Cell, CellView, decimal, lemma_spans_positive_concat, lemma_spans_positive_push,
    lemma_views_of_rows_push, render_table, row_spans_positive, rows_spans_positive,
    spec_decimal, table_text_of, views_of_cells, views_of_rows,
};

verus! {

/// The text, or the placeholder for an absent one.
pub open spec fn spec_text_or_na(o: Option<Seq<char>>) -> Seq<char> {
    match o {
        Some(s) => s,
        None => "N/A"@,
    }
}

fn text_or_na(o: &Option<String>) -> (r: String)
    ensures
        r@ == spec_text_or_na(crate::config::view_opt(*o)),
{
    match o {
        Some(s) => s.clone(),
        None => "N/A".to_owned(),
    }
}

fn lit_cell(text: &str, span: usize, align: Align) -> (r: Cell)
    ensures
        r@ == (CellView { text: text@, span, align }),
{
    Cell { text: text.to_owned(), span, align }
}

fn row1(a: Cell) -> (r: Vec<Cell>)
    requires
        a.span >= 1,
    ensures
        views_of_cells(r@) == seq![a@],
        row_spans_positive(views_of_cells(r@)),
{
    let ghost av = a@;
    let mut v: Vec<Cell> = Vec::new();
    v.push(a);
    proof {
        assert(views_of_cells(v@) =~= seq![av]);
        assert(row_spans_positive(seq![av]));
    }
    v
}

fn row2(a: Cell, b: Cell) -> (r: Vec<Cell>)
    requires
        a.span >= 1,
        b.span >= 1,
    ensures
        views_of_cells(r@) == seq![a@, b@],
        row_spans_positive(views_of_cells(r@)),
{
    let ghost (av, bv) = (a@, b@);
    let mut v: Vec<Cell> = Vec::new();
    v.push(a);
    v.push(b);
    proof {
        assert(views_of_cells(v@) =~= seq![av, bv]);
        assert(row_spans_positive(seq![av, bv]));
    }
    v
}

fn row3(a: Cell, b: Cell, c: Cell) -> (r: Vec<Cell>)
    requires
        a.span >= 1,
        b.span >= 1,
        c.span >= 1,
    ensures
        views_of_cells(r@) == seq![a@, b@, c@],
        row_spans_positive(views_of_cells(r@)),
{
    let ghost (av, bv, cv) = (a@, b@, c@);
    let mut v: Vec<Cell> = Vec::new();
    v.push(a);
    v.push(b);
    v.push(c);
    proof {
        assert(views_of_cells(v@) =~= seq![av, bv, cv]);
        assert(row_spans_positive(seq![av, bv, cv]));
    }
    v
}

fn row4(a: Cell, b: Cell, c: Cell, d: Cell) -> (r: Vec<Cell>)
    requires
        a.span >= 1,
        b.span >= 1,
        c.span >= 1,
        d.span >= 1,
    ensures
        views_of_cells(r@) == seq![a@, b@, c@, d@],
        row_spans_positive(views_of_cells(r@)),
{
    let ghost (av, bv, cv, dv) = (a@, b@, c@, d@);
    let mut v: Vec<Cell> = Vec::new();
    v.push(a);
    v.push(b);
    v.push(c);
    v.push(d);
    proof {
        assert(views_of_cells(v@) =~= seq![av, bv, cv, dv]);
        assert(row_spans_positive(seq![av, bv, cv, dv]));
    }
    v
}

// ---------------------------------------------------------------- links ---

pub open spec fn spec_links_header() -> Seq<CellView> {
    seq![
        CellView { text: "Actor ID"@, span: 1, align: Align::Left },
        CellView { text: "Provider ID"@, span: 1, align: Align::Left },
        CellView { text: "Contract ID"@, span: 1, align: Align::Left },
        CellView { text: "Link Name"@, span: 1, align: Align::Left },
    ]
}

pub open spec fn spec_link_row(l: LinkDefinitionView) -> Seq<CellView> {
    seq![
        CellView { text: l.actor_id, span: 1, align: Align::Left },
        CellView { text: l.provider_id, span: 1, align: Align::Left },
        CellView { text: l.contract_id, span: 1, align: Align::Left },
        CellView { text: l.link_name, span: 1, align: Align::Left },
    ]
}

pub open spec fn rows_of_links(ls: Seq<LinkDefinitionView>) -> Seq<Seq<CellView>>
    decreases ls.len(),
{
    if ls.len() == 0 {
        Seq::empty()
    } else {
        rows_of_links(ls.drop_last()).push(spec_link_row(ls.last()))
    }
}

/// The rows of the link table: the header, then one row per link in input
/// order with its four identifiers.
pub open spec fn spec_links_rows(list: crate::control::LinkDefinitionListView) -> Seq<
    Seq<CellView>,
> {
    seq![spec_links_header()] + rows_of_links(list.links)
}

/// The link table as the renderer prints it.
pub fn links_table(list: &LinkDefinitionList) -> (r: String)
    ensures
        r@ == table_text_of(spec_links_rows(list@)),
{
    let ghost lvs = crate::control::views_of_links(list.links@);
    let mut rows: Vec<Vec<Cell>> = Vec::new();
    let hdr = row4(
        lit_cell("Actor ID", 1, Align::Left),
        lit_cell("Provider ID", 1, Align::Left),
        lit_cell("Contract ID", 1, Align::Left),
        lit_cell("Link Name", 1, Align::Left),
    );
    let ghost hv = views_of_cells(hdr@);
    rows.push(hdr);
    proof {
        assert(views_of_rows(rows@) =~= seq![hv]);
        assert(views_of_rows(rows@) =~= seq![spec_links_header()]);
        assert forall|i: int| 0 <= i < 1 implies row_spans_positive(#[trigger] seq![hv][i]) by {
            assert(seq![hv][i] == hv);
        }
        assert(rows_spans_positive(views_of_rows(rows@)));
    }
    let mut j: usize = 0;
    while j < list.links.len()
        invariant
            j <= list.links@.len(),
            lvs == crate::control::views_of_links(list.links@),
            lvs.len() == list.links@.len(),
            views_of_rows(rows@) == seq![spec_links_header()] + rows_of_links(
                lvs.take(j as int),
            ),
            rows_spans_positive(views_of_rows(rows@)),
        decreases list.links@.len() - j,
    {
        let l = &list.links[j];
        let row = row4(
            Cell { text: l.actor_id.clone(), span: 1, align: Align::Left },
            Cell { text: l.provider_id.clone(), span: 1, align: Align::Left },
            Cell { text: l.contract_id.clone(), span: 1, align: Align::Left },
            Cell { text: l.link_name.clone(), span: 1, align: Align::Left },
        );
        let ghost prev = rows@;
        rows.push(row);
        proof {
            lemma_views_of_rows_push(prev, rows@[prev.len() as int]);
            lemma_spans_positive_push(views_of_rows(prev), views_of_cells(
                rows@[prev.len() as int]@,
            ));
            assert(lvs[j as int] == list.links@[j as int]@);
            assert(lvs.take(j as int + 1).drop_last() =~= lvs.take(j as int));
            assert(lvs.take(j as int + 1).last() == lvs[j as int]);
            assert(views_of_rows(rows@) =~= seq![spec_links_header()] + rows_of_links(
                lvs.take(j as int + 1),
            ));
        }
        j += 1;
    }
    proof {
        assert(lvs.take(lvs.len() as int) =~= lvs);
    }
    render_table(&rows)
}

// ---------------------------------------------------------------- hosts ---

pub open spec fn spec_hosts_header() -> Seq<CellView> {
    seq![
        CellView { text: "Host ID"@, span: 1, align: Align::Left },
        CellView { text: "Uptime (seconds)"@, span: 1, align: Align::Left },
    ]
}

pub open spec fn spec_host_row(h: HostView) -> Seq<CellView> {
    seq![
        CellView { text: h.id, span: 1, align: Align::Left },
        CellView { text: spec_decimal(h.uptime_seconds as nat), span: 1, align: Align::Left },
    ]
}

pub open spec fn rows_of_hosts(hs: Seq<HostView>) -> Seq<Seq<CellView>>
    decreases hs.len(),
{
    if hs.len() == 0 {
        Seq::empty()
    } else {
        rows_of_hosts(hs.drop_last()).push(spec_host_row(hs.last()))
    }
}

/// The rows of the host table: the header, then one row per host in input
/// order, the uptime written in decimal.
pub open spec fn spec_hosts_rows(hs: Seq<HostView>) -> Seq<Seq<CellView>> {
    seq![spec_hosts_header()] + rows_of_hosts(hs)
}

/// The host table as the renderer prints it.
pub fn hosts_table(hosts: &Vec<Host>) -> (r: String)
    ensures
        r@ == table_text_of(spec_hosts_rows(crate::control::views_of_hosts(hosts@))),
{
    let ghost hvs = crate::control::views_of_hosts(hosts@);
    let mut rows: Vec<Vec<Cell>> = Vec::new();
    let hdr = row2(
        lit_cell("Host ID", 1, Align::Left),
        lit_cell("Uptime (seconds)", 1, Align::Left),
    );
    let ghost hv = views_of_cells(hdr@);
    rows.push(hdr);
    proof {
        assert(views_of_rows(rows@) =~= seq![hv]);
        assert(views_of_rows(rows@) =~= seq![spec_hosts_header()]);
        assert forall|i: int| 0 <= i < 1 implies row_spans_positive(#[trigger] seq![hv][i]) by {
            assert(seq![hv][i] == hv);
        }
        assert(rows_spans_positive(views_of_rows(rows@)));
    }
    let mut j: usize = 0;
    while j < hosts.len()
        invariant
            j <= hosts@.len(),
            hvs == crate::control::views_of_hosts(hosts@),
            hvs.len() == hosts@.len(),
            views_of_rows(rows@) == seq![spec_hosts_header()] + rows_of_hosts(hvs.take(j as int)),
            rows_spans_positive(views_of_rows(rows@)),
        decreases hosts@.len() - j,
    {
        let h = &hosts[j];
        let row = row2(
            Cell { text: h.id.clone(), span: 1, align: Align::Left },
            Cell { text: decimal(h.uptime_seconds), span: 1, align: Align::Left },
        );
        let ghost prev = rows@;
        rows.push(row);
        proof {
            lemma_views_of_rows_push(prev, rows@[prev.len() as int]);
            lemma_spans_positive_push(views_of_rows(prev), views_of_cells(
                rows@[prev.len() as int]@,
            ));
            assert(hvs[j as int] == hosts@[j as int]@);
            assert(hvs.take(j as int + 1).drop_last() =~= hvs.take(j as int));
            assert(hvs.take(j as int + 1).last() == hvs[j as int]);
            assert(views_of_rows(rows@) =~= seq![spec_hosts_header()] + rows_of_hosts(
                hvs.take(j as int + 1),
            ));
        }
        j += 1;
    }
    proof {
        assert(hvs.take(hvs.len() as int) =~= hvs);
    }
    render_table(&rows)
}

// --------------------------------------------------------------- claims ---

pub open spec fn spec_claim_field_row(label: Seq<char>, fields: Seq<KeyValueView>, key: Seq<char>)
    -> Seq<CellView> {
    seq![
        CellView { text: label, span: 1, align: Align::Left },
        CellView { text: pair_value_or_empty(fields, key), span: 1, align: Align::Left },
    ]
}

/// The six rows one claims set prints: its token fields in the fixed order,
/// with the empty string where a field is absent, and a closing blank row.
pub open spec fn spec_claim_rows(c: ClaimView) -> Seq<Seq<CellView>> {
    seq![
        spec_claim_field_row("Issuer"@, c.fields, "iss"@),
        spec_claim_field_row("Subject"@, c.fields, "sub"@),
        spec_claim_field_row("Capabilities"@, c.fields, "caps"@),
        spec_claim_field_row("Version"@, c.fields, "version"@),
        spec_claim_field_row("Revision"@, c.fields, "rev"@),
        seq![CellView { text: Seq::empty(), span: 2, align: Align::Center }],
    ]
}

pub open spec fn rows_of_claims(cs: Seq<ClaimView>) -> Seq<Seq<CellView>>
    decreases cs.len(),
{
    if cs.len() == 0 {
        Seq::empty()
    } else {
        rows_of_claims(cs.drop_last()) + spec_claim_rows(cs.last())
    }
}

/// The rows of the claims table: the title, then each claims set's rows in
/// input order.
pub open spec fn spec_claims_rows(list: crate::control::GetClaimsResponseView) -> Seq<
    Seq<CellView>,
> {
    seq![seq![CellView { text: "Claims"@, span: 2, align: Align::Center }]] + rows_of_claims(
        list.claims,
    )
}

fn claim_field_row(label: &str, fields: &Vec<KeyValue>, key: &str) -> (r: Vec<Cell>)
    ensures
        views_of_cells(r@) == spec_claim_field_row(label@, views_of_pairs(fields@), key@),
        row_spans_positive(views_of_cells(r@)),
{
    row2(
        lit_cell(label, 1, Align::Left),
        Cell { text: lookup_pair_or_empty(fields, key), span: 1, align: Align::Left },
    )
}

/// The six rows of one claims set.
fn claim_rows(c: &Claim) -> (r: Vec<Vec<Cell>>)
    ensures
        views_of_rows(r@) == spec_claim_rows(c@),
        rows_spans_positive(views_of_rows(r@)),
{
    let mut rows: Vec<Vec<Cell>> = Vec::new();
    let r0 = claim_field_row("Issuer", &c.fields, "iss");
    let r1 = claim_field_row("Subject", &c.fields, "sub");
    let r2 = claim_field_row("Capabilities", &c.fields, "caps");
    let r3 = claim_field_row("Version", &c.fields, "version");
    let r4 = claim_field_row("Revision", &c.fields, "rev");
    let r5 = row1(Cell { text: String::new(), span: 2, align: Align::Center });
    let ghost vs = seq![
        views_of_cells(r0@),
        views_of_cells(r1@),
        views_of_cells(r2@),
        views_of_cells(r3@),
        views_of_cells(r4@),
        views_of_cells(r5@),
    ];
    rows.push(r0);
    rows.push(r1);
    rows.push(r2);
    rows.push(r3);
    rows.push(r4);
    rows.push(r5);
    proof {
        assert(views_of_rows(rows@) =~= vs);
        assert(views_of_rows(rows@) =~= spec_claim_rows(c@));
        assert forall|i: int| 0 <= i < 6 implies row_spans_positive(#[trigger] vs[i]) by {
            if i == 0 {
                assert(vs[i] == vs[0]);
            } else if i == 1 {
                assert(vs[i] == vs[1]);
            } else if i == 2 {
                assert(vs[i] == vs[2]);
            } else if i == 3 {
                assert(vs[i] == vs[3]);
            } else if i == 4 {
                assert(vs[i] == vs[4]);
            } else {
                assert(vs[i] == vs[5]);
            }
        }
        assert(rows_spans_positive(views_of_rows(rows@)));
    }
    rows
}

/// The claims table as the renderer prints it.
pub fn claims_table(list: &GetClaimsResponse) -> (r: String)
    ensures
        r@ == table_text_of(spec_claims_rows(list@)),
{
    let ghost cvs = crate::control::views_of_claims(list.claims@);
    let mut rows: Vec<Vec<Cell>> = Vec::new();
    let hdr = row1(lit_cell("Claims", 2, Align::Center));
    let ghost hv = views_of_cells(hdr@);
    rows.push(hdr);
    proof {
        assert(views_of_rows(rows@) =~= seq![hv]);
        assert(views_of_rows(rows@) =~= seq![
            seq![CellView { text: "Claims"@, span: 2, align: Align::Center }],
        ]);
        assert forall|i: int| 0 <= i < 1 implies row_spans_positive(#[trigger] seq![hv][i]) by {
            assert(seq![hv][i] == hv);
        }
        assert(rows_spans_positive(views_of_rows(rows@)));
    }
    let mut j: usize = 0;
    while j < list.claims.len()
        invariant
            j <= list.claims@.len(),
            cvs == crate::control::views_of_claims(list.claims@),
            cvs.len() == list.claims@.len(),
            views_of_rows(rows@) == seq![
                seq![CellView { text: "Claims"@, span: 2, align: Align::Center }],
            ] + rows_of_claims(cvs.take(j as int)),
            rows_spans_positive(views_of_rows(rows@)),
        decreases list.claims@.len() - j,
    {
        let ghost prev = rows@;
        let mut six = claim_rows(&list.claims[j]);
        let ghost sixraw = six@;
        rows.append(&mut six);
        proof {
            lemma_views_of_rows_concat(prev, sixraw);
            lemma_spans_positive_concat(views_of_rows(prev), views_of_rows(sixraw));
            assert(cvs[j as int] == list.claims@[j as int]@);
            assert(cvs.take(j as int + 1).drop_last() =~= cvs.take(j as int));
            assert(cvs.take(j as int + 1).last() == cvs[j as int]);
            assert(views_of_rows(rows@) =~= seq![
                seq![CellView { text: "Claims"@, span: 2, align: Align::Center }],
            ] + rows_of_claims(cvs.take(j as int + 1)));
        }
        j += 1;
    }
    proof {
        assert(cvs.take(cvs.len() as int) =~= cvs);
    }
    render_table(&rows)
}

/// Element-wise view of joining two row lists.
pub proof fn lemma_views_of_rows_concat(a: Seq<Vec<Cell>>, b: Seq<Vec<Cell>>)
    ensures
        views_of_rows(a + b) == views_of_rows(a) + views_of_rows(b),
{
    assert forall|i: int| 0 <= i < (a + b).len() implies views_of_rows(a + b)[i] == (views_of_rows(
        a,
    ) + views_of_rows(b))[i] by {
        assert(views_of_rows(a + b)[i] == views_of_cells((a + b)[i]@));
        if i < a.len() {
            assert((a + b)[i] == a[i]);
            assert(views_of_rows(a)[i] == views_of_cells(a[i]@));
        } else {
            assert((a + b)[i] == b[i - a.len()]);
            assert(views_of_rows(b)[i - a.len()] == views_of_cells(b[i - a.len()]@));
        }
    }
    assert(views_of_rows(a + b) =~= views_of_rows(a) + views_of_rows(b));
}

// ------------------------------------------------------------ inventory ---

pub open spec fn spec_label_row(p: KeyValueView) -> Seq<CellView> {
    seq![
        CellView { text: p.key, span: 2, align: Align::Left },
        CellView { text: p.value, span: 2, align: Align::Left },
    ]
}

pub open spec fn rows_of_labels(ls: Seq<KeyValueView>) -> Seq<Seq<CellView>>
    decreases ls.len(),
{
    if ls.len() == 0 {
        Seq::empty()
    } else {
        rows_of_labels(ls.drop_last()).push(spec_label_row(ls.last()))
    }
}

pub open spec fn spec_actor_row(a: ActorDescriptionView) -> Seq<CellView> {
    seq![
        CellView { text: a.id, span: 1, align: Align::Left },
        CellView { text: spec_text_or_na(a.name), span: 1, align: Align::Left },
        CellView { text: spec_text_or_na(a.image_ref), span: 2, align: Align::Left },
    ]
}

pub open spec fn rows_of_actors(avs: Seq<ActorDescriptionView>) -> Seq<Seq<CellView>>
    decreases avs.len(),
{
    if avs.len() == 0 {
        Seq::empty()
    } else {
        rows_of_actors(avs.drop_last()).push(spec_actor_row(avs.last()))
    }
}

pub open spec fn spec_provider_row(p: ProviderDescriptionView) -> Seq<CellView> {
    seq![
        CellView { text: p.id, span: 1, align: Align::Left },
        CellView { text: spec_text_or_na(p.name), span: 1, align: Align::Left },
        CellView { text: p.link_name, span: 1, align: Align::Left },
        CellView { text: spec_text_or_na(p.image_ref), span: 1, align: Align::Left },
    ]
}

pub open spec fn rows_of_providers(ps: Seq<ProviderDescriptionView>) -> Seq<Seq<CellView>>
    decreases ps.len(),
{
    if ps.len() == 0 {
        Seq::empty()
    } else {
        rows_of_providers(ps.drop_last()).push(spec_provider_row(ps.last()))
    }
}

pub open spec fn spec_blank_row(align: Align) -> Seq<CellView> {
    seq![CellView { text: Seq::empty(), span: 4, align }]
}

/// The labels block: a blank row then one row per label in input order, or
/// a placeholder row when there are none.
pub open spec fn spec_label_section(ls: Seq<KeyValueView>) -> Seq<Seq<CellView>> {
    if ls.len() > 0 {
        seq![spec_blank_row(Align::Center)] + rows_of_labels(ls)
    } else {
        seq![seq![CellView { text: "No labels present"@, span: 4, align: Align::Center }]]
    }
}

/// The actors block: their header then one row per actor in input order, or
/// a placeholder row when there are none.
pub open spec fn spec_actor_section(avs: Seq<ActorDescriptionView>) -> Seq<Seq<CellView>> {
    if avs.len() > 0 {
        seq![
            seq![
                CellView { text: "Actor ID"@, span: 1, align: Align::Left },
                CellView { text: "Name"@, span: 1, align: Align::Left },
                CellView { text: "Image Reference"@, span: 2, align: Align::Left },
            ],
        ] + rows_of_actors(avs)
    } else {
        seq![seq![CellView { text: "No actors found"@, span: 4, align: Align::Left }]]
    }
}

/// The providers block: their header then one row per provider in input
/// order, or a placeholder row when there are none.
pub open spec fn spec_provider_section(ps: Seq<ProviderDescriptionView>) -> Seq<Seq<CellView>> {
    if ps.len() > 0 {
        seq![
            seq![
                CellView { text: "Provider ID"@, span: 1, align: Align::Left },
                CellView { text: "Name"@, span: 1, align: Align::Left },
                CellView { text: "Link Name"@, span: 1, align: Align::Left },
                CellView { text: "Image Reference"@, span: 1, align: Align::Left },
            ],
        ] + rows_of_providers(ps)
    } else {
        seq![seq![CellView { text: "No providers found"@, span: 4, align: Align::Left }]]
    }
}

/// The rows of the inventory table: the title; the labels block; the actors
/// block; the providers block; with the blank rows the original layout puts
/// between the blocks. Absent names and image references print as "N/A".
pub open spec fn spec_inventory_rows(inv: crate::control::HostInventoryView) -> Seq<
    Seq<CellView>,
> {
    seq![
        seq![
            CellView {
                text: "Host Inventory ("@ + inv.host_id + ")"@,
                span: 4,
                align: Align::Center,
            },
        ],
    ] + spec_label_section(inv.labels) + seq![spec_blank_row(Align::Center)] + spec_actor_section(
        inv.actors,
    ) + seq![spec_blank_row(Align::Left)] + spec_provider_section(inv.providers)
}

/// The inventory table as the renderer prints it.
#[verifier::rlimit(60)]
pub fn host_inventory_table(inv: &HostInventory) -> (r: String)
    ensures
        r@ == table_text_of(spec_inventory_rows(inv@)),
{
    let ghost title_rows = seq![
        seq![
            CellView {
                text: "Host Inventory ("@ + inv@.host_id + ")"@,
                span: 4,
                align: Align::Center,
            },
        ],
    ];
    let mut rows: Vec<Vec<Cell>> = Vec::new();
    let mut title = "Host Inventory (".to_owned();
    title.append(inv.host_id.as_str());
    title.append(")");
    let trow = row1(Cell { text: title, span: 4, align: Align::Center });
    let ghost tv = views_of_cells(trow@);
    rows.push(trow);
    proof {
        assert(views_of_rows(rows@) =~= seq![tv]);
        assert(views_of_rows(rows@) =~= title_rows);
        assert forall|i: int| 0 <= i < 1 implies row_spans_positive(#[trigger] seq![tv][i]) by {
            assert(seq![tv][i] == tv);
        }
        assert(rows_spans_positive(views_of_rows(rows@)));
    }

    let ghost lvs = views_of_pairs(inv.labels@);
    if inv.labels.len() > 0 {
        let ghost prev = rows@;
        rows.push(row1(Cell { text: String::new(), span: 4, align: Align::Center }));
        proof {
            lemma_views_of_rows_push(prev, rows@[prev.len() as int]);
            lemma_spans_positive_push(views_of_rows(prev), views_of_cells(
                rows@[prev.len() as int]@,
            ));
        }
        let ghost base = views_of_rows(rows@);
        let mut j: usize = 0;
        while j < inv.labels.len()
            invariant
                j <= inv.labels@.len(),
                lvs == views_of_pairs(inv.labels@),
                lvs.len() == inv.labels@.len(),
                views_of_rows(rows@) == base + rows_of_labels(lvs.take(j as int)),
                rows_spans_positive(views_of_rows(rows@)),
            decreases inv.labels@.len() - j,
        {
            let p = &inv.labels[j];
            let ghost prev = rows@;
            rows.push(row2(
                Cell { text: p.key.clone(), span: 2, align: Align::Left },
                Cell { text: p.value.clone(), span: 2, align: Align::Left },
            ));
            proof {
                lemma_views_of_rows_push(prev, rows@[prev.len() as int]);
                lemma_spans_positive_push(views_of_rows(prev), views_of_cells(
                    rows@[prev.len() as int]@,
                ));
                assert(lvs[j as int] == inv.labels@[j as int]@);
                assert(lvs.take(j as int + 1).drop_last() =~= lvs.take(j as int));
                assert(lvs.take(j as int + 1).last() == lvs[j as int]);
                assert(views_of_rows(rows@) =~= base + rows_of_labels(lvs.take(j as int + 1)));
            }
            j += 1;
        }
        proof {
            assert(lvs.take(lvs.len() as int) =~= lvs);
            assert(views_of_rows(rows@) =~= title_rows + spec_label_section(lvs));
        }
    } else {
        let ghost prev = rows@;
        rows.push(row1(lit_cell("No labels present", 4, Align::Center)));
        proof {
            lemma_views_of_rows_push(prev, rows@[prev.len() as int]);
            lemma_spans_positive_push(views_of_rows(prev), views_of_cells(
                rows@[prev.len() as int]@,
            ));
            assert(views_of_rows(rows@) =~= title_rows + spec_label_section(lvs));
        }
    }

    let ghost prev = rows@;
    rows.push(row1(Cell { text: String::new(), span: 4, align: Align::Center }));
    let ghost done2 = title_rows + spec_label_section(lvs) + seq![spec_blank_row(Align::Center)];
    proof {
        lemma_views_of_rows_push(prev, rows@[prev.len() as int]);
                lemma_spans_positive_push(views_of_rows(prev), views_of_cells(
                    rows@[prev.len() as int]@,
                ));
        assert(views_of_rows(rows@) =~= done2);
    }

    let ghost avs = crate::control::views_of_actors(inv.actors@);
    if inv.actors.len() > 0 {
        let ghost prev = rows@;
        rows.push(row3(
            lit_cell("Actor ID", 1, Align::Left),
            lit_cell("Name", 1, Align::Left),
            lit_cell("Image Reference", 2, Align::Left),
        ));
        proof {
            lemma_views_of_rows_push(prev, rows@[prev.len() as int]);
            lemma_spans_positive_push(views_of_rows(prev), views_of_cells(
                rows@[prev.len() as int]@,
            ));
        }
        let ghost base = views_of_rows(rows@);
        let mut j: usize = 0;
        while j < inv.actors.len()
            invariant
                j <= inv.actors@.len(),
                avs == crate::control::views_of_actors(inv.actors@),
                avs.len() == inv.actors@.len(),
                views_of_rows(rows@) == base + rows_of_actors(avs.take(j as int)),
                rows_spans_positive(views_of_rows(rows@)),
            decreases inv.actors@.len() - j,
        {
            let a = &inv.actors[j];
            let ghost prev = rows@;
            rows.push(row3(
                Cell { text: a.id.clone(), span: 1, align: Align::Left },
                Cell { text: text_or_na(&a.name), span: 1, align: Align::Left },
                Cell { text: text_or_na(&a.image_ref), span: 2, align: Align::Left },
            ));
            proof {
                lemma_views_of_rows_push(prev, rows@[prev.len() as int]);
                lemma_spans_positive_push(views_of_rows(prev), views_of_cells(
                    rows@[prev.len() as int]@,
                ));
                assert(avs[j as int] == inv.actors@[j as int]@);
                assert(avs.take(j as int + 1).drop_last() =~= avs.take(j as int));
                assert(avs.take(j as int + 1).last() == avs[j as int]);
                assert(views_of_rows(rows@) =~= base + rows_of_actors(avs.take(j as int + 1)));
            }
            j += 1;
        }
        proof {
            assert(avs.take(avs.len() as int) =~= avs);
            assert(views_of_rows(rows@) =~= done2 + spec_actor_section(avs));
        }
    } else {
        let ghost prev = rows@;
        rows.push(row1(lit_cell("No actors found", 4, Align::Left)));
        proof {
            lemma_views_of_rows_push(prev, rows@[prev.len() as int]);
            lemma_spans_positive_push(views_of_rows(prev), views_of_cells(
                rows@[prev.len() as int]@,
            ));
            assert(views_of_rows(rows@) =~= done2 + spec_actor_section(avs));
        }
    }

    let ghost prev = rows@;
    rows.push(row1(Cell { text: String::new(), span: 4, align: Align::Left }));
    let ghost done4 = done2 + spec_actor_section(avs) + seq![spec_blank_row(Align::Left)];
    proof {
        lemma_views_of_rows_push(prev, rows@[prev.len() as int]);
                lemma_spans_positive_push(views_of_rows(prev), views_of_cells(
                    rows@[prev.len() as int]@,
                ));
        assert(views_of_rows(rows@) =~= done4);
    }

    let ghost pvs = crate::control::views_of_providers(inv.providers@);
    if inv.providers.len() > 0 {
        let ghost prev = rows@;
        rows.push(row4(
            lit_cell("Provider ID", 1, Align::Left),
            lit_cell("Name", 1, Align::Left),
            lit_cell("Link Name", 1, Align::Left),
            lit_cell("Image Reference", 1, Align::Left),
        ));
        proof {
            lemma_views_of_rows_push(prev, rows@[prev.len() as int]);
            lemma_spans_positive_push(views_of_rows(prev), views_of_cells(
                rows@[prev.len() as int]@,
            ));
        }
        let ghost base = views_of_rows(rows@);
        let mut j: usize = 0;
        while j < inv.providers.len()
            invariant
                j <= inv.providers@.len(),
                pvs == crate::control::views_of_providers(inv.providers@),
                pvs.len() == inv.providers@.len(),
                views_of_rows(rows@) == base + rows_of_providers(pvs.take(j as int)),
                rows_spans_positive(views_of_rows(rows@)),
            decreases inv.providers@.len() - j,
        {
            let p = &inv.providers[j];
            let ghost prev = rows@;
            rows.push(row4(
                Cell { text: p.id.clone(), span: 1, align: Align::Left },
                Cell { text: text_or_na(&p.name), span: 1, align: Align::Left },
                Cell { text: p.link_name.clone(), span: 1, align: Align::Left },
                Cell { text: text_or_na(&p.image_ref), span: 1, align: Align::Left },
            ));
            proof {
                lemma_views_of_rows_push(prev, rows@[prev.len() as int]);
                lemma_spans_positive_push(views_of_rows(prev), views_of_cells(
                    rows@[prev.len() as int]@,
                ));
                assert(pvs[j as int] == inv.providers@[j as int]@);
                assert(pvs.take(j as int + 1).drop_last() =~= pvs.take(j as int));
                assert(pvs.take(j as int + 1).last() == pvs[j as int]);
                assert(views_of_rows(rows@) =~= base + rows_of_providers(pvs.take(j as int + 1)));
            }
            j += 1;
        }
        proof {
            assert(pvs.take(pvs.len() as int) =~= pvs);
            assert(views_of_rows(rows@) =~= done4 + spec_provider_section(pvs));
        }
    } else {
        let ghost prev = rows@;
        rows.push(row1(lit_cell("No providers found", 4, Align::Left)));
        proof {
            lemma_views_of_rows_push(prev, rows@[prev.len() as int]);
            lemma_spans_positive_push(views_of_rows(prev), views_of_cells(
                rows@[prev.len() as int]@,
            ));
            assert(views_of_rows(rows@) =~= done4 + spec_provider_section(pvs));
        }
    }

    proof {
        assert(views_of_rows(rows@) =~= spec_inventory_rows(inv@));
    }
    render_table(&rows)
}

// -------------------------------------------------------------- commands ---

/// A command's outcome: its text and the key/value pairs it publishes, or
/// the message of its failure.
pub open spec fn command_result_view(r: Result<(String, Vec<KeyValue>), String>) -> Result<
    (Seq<char>, Seq<KeyValueView>),
    Seq<char>,
> {
    match r {
        Ok((text, pairs)) => Ok((text@, views_of_pairs(pairs@))),
        Err(m) => Err(m@),
    }
}

fn pair(key: &str, value: &str) -> (r: KeyValue)
    ensures
        r@ == (KeyValueView { key: key@, value: value@ }),
{
    KeyValue { key: key.to_owned(), value: value.to_owned() }
}

/// The text of a successful link deletion.
pub open spec fn spec_link_del_text(a: Seq<char>, c: Seq<char>, l: Seq<char>) -> Seq<char> {
    "Deleted link for "@ + a + " on "@ + c + " ("@ + l + ") successfully"@
}

/// Reports a link deletion: on no failure, the success text and the three
/// identifiers as pairs; on a failure, exactly its message.
pub fn link_del_output(
    actor_id: &str,
    contract_id: &str,
    link_name: &str,
    failure: Option<String>,
) -> (r: Result<(String, Vec<KeyValue>), String>)
    ensures
        command_result_view(r) == match crate::config::view_opt(failure) {
            None => Ok::<(Seq<char>, Seq<KeyValueView>), Seq<char>>(
                (
                    spec_link_del_text(actor_id@, contract_id@, link_name@),
                    seq![
                        KeyValueView { key: "actor_id"@, value: actor_id@ },
                        KeyValueView { key: "contract_id"@, value: contract_id@ },
                        KeyValueView { key: "link_name"@, value: link_name@ },
                    ],
                ),
            ),
            Some(f) => Err("Error deleting link: "@ + f),
        },
{
    match failure {
        None => {
            let mut pairs: Vec<KeyValue> = Vec::new();
            pairs.push(pair("actor_id", actor_id));
            pairs.push(pair("contract_id", contract_id));
            pairs.push(pair("link_name", link_name));
            let mut text = "Deleted link for ".to_owned();
            text.append(actor_id);
            text.append(" on ");
            text.append(contract_id);
            text.append(" (");
            text.append(link_name);
            text.append(") successfully");
            proof {
                assert(views_of_pairs(pairs@) =~= seq![
                    KeyValueView { key: "actor_id"@, value: actor_id@ },
                    KeyValueView { key: "contract_id"@, value: contract_id@ },
                    KeyValueView { key: "link_name"@, value: link_name@ },
                ]);
            }
            Ok((text, pairs))
        },
        Some(f) => {
            let mut m = "Error deleting link: ".to_owned();
            m.append(f.as_str());
            Err(m)
        },
    }
}

/// The text of a successful link publication.
pub open spec fn spec_link_put_text(a: Seq<char>, p: Seq<char>) -> Seq<char> {
    "Published link ("@ + a + ") <-> ("@ + p + ") successfully"@
}

/// Reports a link publication: on no failure, the success text and the two
/// identifiers as pairs; on a failure, exactly its message.
pub fn link_put_output(actor_id: &str, provider_id: &str, failure: Option<String>) -> (r: Result<
    (String, Vec<KeyValue>),
    String,
>)
    ensures
        command_result_view(r) == match crate::config::view_opt(failure) {
            None => Ok::<(Seq<char>, Seq<KeyValueView>), Seq<char>>(
                (
                    spec_link_put_text(actor_id@, provider_id@),
                    seq![
                        KeyValueView { key: "actor_id"@, value: actor_id@ },
                        KeyValueView { key: "provider_id"@, value: provider_id@ },
                    ],
                ),
            ),
            Some(f) => Err("Error advertising link: "@ + f),
        },
{
    match failure {
        None => {
            let mut pairs: Vec<KeyValue> = Vec::new();
            pairs.push(pair("actor_id", actor_id));
            pairs.push(pair("provider_id", provider_id));
            let mut text = "Published link (".to_owned();
            text.append(actor_id);
            text.append(") <-> (");
            text.append(provider_id);
            text.append(") successfully");
            proof {
                assert(views_of_pairs(pairs@) =~= seq![
                    KeyValueView { key: "actor_id"@, value: actor_id@ },
                    KeyValueView { key: "provider_id"@, value: provider_id@ },
                ]);
            }
            Ok((text, pairs))
        },
        Some(f) => {
            let mut m = "Error advertising link: ".to_owned();
            m.append(f.as_str());
            Err(m)
        },
    }
}

/// The query responses publish their table and one structured payload; this
/// is the table text and the key the payload is published under.
pub fn get_hosts_output(hosts: &Vec<Host>) -> (r: (String, String))
    ensures
        r.0@ == table_text_of(spec_hosts_rows(crate::control::views_of_hosts(hosts@))),
        r.1@ == "hosts"@,
{
    (hosts_table(hosts), "hosts".to_owned())
}

/// The inventory response's table text and payload key.
pub fn get_host_inventory_output(inv: &HostInventory) -> (r: (String, String))
    ensures
        r.0@ == table_text_of(spec_inventory_rows(inv@)),
        r.1@ == "inventory"@,
{
    (host_inventory_table(inv), "inventory".to_owned())
}

/// The claims response's table text and payload key.
pub fn get_claims_output(claims: &GetClaimsResponse) -> (r: (String, String))
    ensures
        r.0@ == table_text_of(spec_claims_rows(claims@)),
        r.1@ == "claims"@,
{
    (claims_table(claims), "claims".to_owned())
}

/// The link query's table text and payload key.
pub fn link_query_output(list: &LinkDefinitionList) -> (r: (String, String))
    ensures
        r.0@ == table_text_of(spec_links_rows(list@)),
        r.1@ == "links"@,
{
    (links_table(list), "links".to_owned())
}

/// The texts joined by the separator: empty for none, and no separator
/// after the last.
pub open spec fn spec_join(xs: Seq<Seq<char>>, sep: Seq<char>) -> Seq<char>
    decreases xs.len(),
{
    if xs.len() == 0 {
        Seq::empty()
    } else if xs.len() == 1 {
        xs[0]
    } else {
        spec_join(xs.drop_last(), sep) + sep + xs.last()
    }
}

fn join(xs: &Vec<String>, sep: &str) -> (r: String)
    ensures
        r@ == spec_join(crate::document::views_of_strings(xs@), sep@),
{
    let ghost xvs = crate::document::views_of_strings(xs@);
    let mut s = String::new();
    let mut j: usize = 0;
    while j < xs.len()
        invariant
            j <= xs@.len(),
            xvs == crate::document::views_of_strings(xs@),
            xvs.len() == xs@.len(),
            s@ == spec_join(xvs.take(j as int), sep@),
        decreases xs@.len() - j,
    {
        if j > 0 {
            s.append(sep);
        }
        s.append(xs[j].as_str());
        proof {
            assert(xvs[j as int] == xs@[j as int]@);
            assert(xvs.take(j as int + 1).drop_last() =~= xvs.take(j as int));
            assert(xvs.take(j as int + 1).last() == xvs[j as int]);
            if j == 0 {
                assert(s@ =~= spec_join(xvs.take(1), sep@));
            }
        }
        j += 1;
    }
    proof {
        assert(xvs.take(xvs.len() as int) =~= xvs);
    }
    s
}

/// The manifest-application report: a heading, then each result on its own
/// line, in input order; the payload key is "results".
pub fn apply_manifest_output(results: &Vec<String>) -> (r: (String, String))
    ensures
        r.0@ == "\nManifest application results:\n"@ + spec_join(
            crate::document::views_of_strings(results@),
            "\n"@,
        ),
        r.1@ == "results"@,
{
    let mut text = "\nManifest application results:\n".to_owned();
    text.append(join(results, "\n").as_str());
    (text, "results".to_owned())
}

} // verus!
