//! Product search: the document kept per product, the backend that serves
//! it, the filter a search is scoped by, and the steps of a full reindex.
use vstd::prelude::*;
use crate::product::Product;
use crate::text::{concat, opt_string_view, opt_view, str_eq, to_owned};

verus! {

/// The document a product is indexed as.
#[derive(Debug, Clone, PartialEq, Eq)]
pub struct SearchProduct {
    pub id: String,
    pub tenant_id: String,
    pub store_id: String,
    pub vendor_id: String,
    pub title: String,
    pub description: String,
    pub status: String,
    pub primary_category_id: String,
    pub category_ids: Vec<String>,
    pub sku_codes: Vec<String>,
}

/// Where an OpenSearch index would be reached.
#[derive(Debug, Clone, PartialEq, Eq)]
pub struct OpenSearchClient {
    pub base_url: String,
    pub index_name: String,
}

impl OpenSearchClient {
    /// A client for the index `index_name` at `base_url`.
    pub fn new(base_url: &str, index_name: &str) -> (r: OpenSearchClient)
        ensures
            r.base_url@ == base_url@,
            r.index_name@ == index_name@,
    {
        OpenSearchClient { base_url: to_owned(base_url), index_name: to_owned(index_name) }
    }
}

/// Where a Meilisearch index is reached.
#[derive(Debug, Clone, PartialEq, Eq)]
pub struct MeilisearchConfig {
    pub base_url: String,
    pub api_key: Option<String>,
    pub index_name: String,
}

/// The search backend in use.
#[derive(Debug, Clone, PartialEq, Eq)]
pub enum SearchBackend {
    Meilisearch(MeilisearchConfig),
    OpenSearch(OpenSearchClient),
    Disabled,
}

/// The search service: a backend. Only Meilisearch is queried; the others
/// answer searches with no hits and accept writes without doing anything.
#[derive(Debug, Clone, PartialEq, Eq)]
pub struct SearchService {
    pub backend: SearchBackend,
}

impl SearchService {
    /// Search through Meilisearch.
    pub fn meilisearch(base_url: &str, api_key: Option<&str>, index_name: &str) -> (r: SearchService)
        ensures
            r.backend matches SearchBackend::Meilisearch(c) && c.base_url@ == base_url@
                && opt_string_view(c.api_key) == opt_view(api_key) && c.index_name@ == index_name@,
    {
        let key = match api_key {
            Some(k) => Some(to_owned(k)),
            None => None,
        };
        SearchService {
            backend: SearchBackend::Meilisearch(
                MeilisearchConfig {
                    base_url: to_owned(base_url),
                    api_key: key,
                    index_name: to_owned(index_name),
                },
            ),
        }
    }

    /// No search at all.
    pub fn none() -> (r: SearchService)
        ensures
            r.backend == SearchBackend::Disabled,
    {
        SearchService { backend: SearchBackend::Disabled }
    }

    /// OpenSearch, which is not queried yet.
    pub fn opensearch(base_url: &str, index_name: &str) -> (r: SearchService)
        ensures
            r.backend matches SearchBackend::OpenSearch(c) && c.base_url@ == base_url@
                && c.index_name@ == index_name@,
    {
        SearchService { backend: SearchBackend::OpenSearch(OpenSearchClient::new(base_url, index_name)) }
    }

    /// Whether the backend is really queried (only Meilisearch is); the
    /// others answer at once with no hits.
    pub fn is_queried(&self) -> (r: bool)
        ensures
            r == (self.backend is Meilisearch),
    {
        match &self.backend {
            SearchBackend::Meilisearch(_) => true,
            _ => false,
        }
    }
}

/// The kinds of search backend a deployment may choose.
#[derive(Debug, Clone, Copy, PartialEq, Eq)]
pub enum BackendKind {
    Meilisearch,
    OpenSearch,
    Disabled,
}

/// The backend named by `SEARCH_BACKEND` (Meilisearch when unset), or none
/// for a name that is not known.
pub open spec fn backend_kind_spec(name: Option<Seq<char>>) -> Option<BackendKind> {
    let n = match name {
        Some(v) => v,
        None => "meili"@,
    };
    if n == "none"@ {
        Some(BackendKind::Disabled)
    } else if n == "meili"@ || n == "meilisearch"@ {
        Some(BackendKind::Meilisearch)
    } else if n == "opensearch"@ {
        Some(BackendKind::OpenSearch)
    } else {
        None
    }
}

/// The backend named by `SEARCH_BACKEND` (Meilisearch when unset), or none
/// for a name that is not known.
pub fn backend_kind(name: Option<&str>) -> (r: Option<BackendKind>)
    ensures
        r == backend_kind_spec(opt_view(name)),
{
    let n = match name {
        Some(v) => v,
        None => "meili",
    };
    if str_eq(n, "none") {
        Some(BackendKind::Disabled)
    } else if str_eq(n, "meili") || str_eq(n, "meilisearch") {
        Some(BackendKind::Meilisearch)
    } else if str_eq(n, "opensearch") {
        Some(BackendKind::OpenSearch)
    } else {
        None
    }
}

/// The filter that scopes a search to a tenant: `tenant_id = "<id>"`.
pub fn tenant_filter(tenant_id: &str) -> (r: String)
    ensures
        r@ == "tenant_id = \""@ + tenant_id@ + "\""@,
{
    let a = concat("tenant_id = \"", tenant_id);
    concat(a.as_str(), "\"")
}

/// The hits that are answered: none without a tenant, and never a hit
/// without an id.
pub open spec fn kept_hits(hits: Seq<SearchProduct>, tenant_id: Seq<char>) -> Seq<SearchProduct>
    decreases hits.len(),
{
    if hits.len() == 0 {
        Seq::empty()
    } else {
        let r = kept_hits(hits.drop_last(), tenant_id);
        if tenant_id.len() > 0 && hits.last().id@.len() > 0 {
            r.push(hits.last())
        } else {
            r
        }
    }
}

/// A product as the storefront lists it from a search hit.
pub open spec fn hit_product(h: SearchProduct) -> (Seq<char>, Seq<char>, Seq<char>, Seq<char>, Seq<char>) {
    (h.id@, h.vendor_id@, h.title@, h.description@, h.status@)
}

/// A listed product as plain values.
pub open spec fn product_view(p: Product) -> (Seq<char>, Seq<char>, Seq<char>, Seq<char>, Seq<char>) {
    (p.id@, p.vendor_id@, p.title@, p.description@, p.status@)
}

/// A listed product keeps each field of its hit in its own place: the
/// product's id, vendor, title, description and status are the hit's, and
/// two products are listed alike only when their hits agree on all five.
pub proof fn lemma_hit_fields_kept(p: Product, h: SearchProduct)
    ensures
        product_view(p) == hit_product(h) <==> {
            &&& p.id@ == h.id@
            &&& p.vendor_id@ == h.vendor_id@
            &&& p.title@ == h.title@
            &&& p.description@ == h.description@
            &&& p.status@ == h.status@
        },
{
}

/// Only hits of a non-empty tenant with a non-empty id are listed, in the
/// order the search gave them, each at most once per occurrence.
pub proof fn lemma_kept_hits_have_ids(hits: Seq<SearchProduct>, tenant_id: Seq<char>)
    ensures
        kept_hits(hits, tenant_id).len() <= hits.len(),
        tenant_id.len() == 0 ==> kept_hits(hits, tenant_id).len() == 0,
        forall|i: int|
            0 <= i < kept_hits(hits, tenant_id).len() ==> (#[trigger] kept_hits(hits, tenant_id)[i]).id@.len()
                > 0,
    decreases hits.len(),
{
    if hits.len() > 0 {
        lemma_kept_hits_have_ids(hits.drop_last(), tenant_id);
    }
}

/// The storefront's products for the hits of a search: each kept hit, in
/// order, with its id, vendor, title, description and status.
pub fn hits_to_products(hits: Vec<SearchProduct>, tenant_id: &str) -> (r: Vec<Product>)
    ensures
        r@.len() == kept_hits(hits@, tenant_id@).len(),
        forall|i: int|
            0 <= i < r@.len() ==> product_view(#[trigger] r@[i]) == hit_product(
                kept_hits(hits@, tenant_id@)[i],
            ),
        forall|i: int|
            0 <= i < r@.len() ==> {
                let h = kept_hits(hits@, tenant_id@)[i];
                &&& (#[trigger] r@[i]).id@ == h.id@
                &&& r@[i].vendor_id@ == h.vendor_id@
                &&& r@[i].title@ == h.title@
                &&& r@[i].description@ == h.description@
                &&& r@[i].status@ == h.status@
            },
{
    let ghost all = hits@;
    let mut out: Vec<Product> = Vec::new();
    let mut k: usize = 0;
    assert(all.take(0) =~= Seq::<SearchProduct>::empty());
    while k < hits.len()
        invariant
            k <= hits@.len(),
            all == hits@,
            out@.len() == kept_hits(all.take(k as int), tenant_id@).len(),
            forall|i: int|
                0 <= i < out@.len() ==> product_view(#[trigger] out@[i]) == hit_product(
                    kept_hits(all.take(k as int), tenant_id@)[i],
                ),
        decreases hits.len() - k,
    {
        assert(all.take(k + 1).drop_last() =~= all.take(k as int));
        assert(all.take(k + 1).last() == all[k as int]);
        let h = &hits[k];
        if !tenant_id.is_empty() && !h.id.as_str().is_empty() {
            let p = Product {
                id: to_owned(h.id.as_str()),
                vendor_id: to_owned(h.vendor_id.as_str()),
                title: to_owned(h.title.as_str()),
                description: to_owned(h.description.as_str()),
                status: to_owned(h.status.as_str()),
            };
            out.push(p);
        }
        k = k + 1;
    }
    assert(all.take(hits.len() as int) =~= all);
    out
}

/// Which products a reindex covers: each filter, when given, must match.
#[derive(Debug, Clone, PartialEq, Eq)]
pub struct ReindexFilters {
    pub tenant_id: Option<String>,
    pub store_id: Option<String>,
    pub vendor_id: Option<String>,
    pub status: Option<String>,
    pub product_id: Option<String>,
}

/// A filter value when given and non-empty.
pub open spec fn given(v: Option<Seq<char>>) -> Option<Seq<char>> {
    match v {
        Some(s) => if s.len() > 0 {
            Some(s)
        } else {
            None
        },
        None => None,
    }
}

fn given_value(v: Option<&str>) -> (r: Option<String>)
    ensures
        opt_string_view(r) == given(opt_view(v)),
{
    match v {
        Some(s) => if s.is_empty() {
            None
        } else {
            Some(to_owned(s))
        },
        None => None,
    }
}

impl ReindexFilters {
    /// The filters of a reindex; an empty value means no filter.
    pub fn from_args(
        tenant_id: Option<&str>,
        store_id: Option<&str>,
        vendor_id: Option<&str>,
        status: Option<&str>,
        product_id: Option<&str>,
    ) -> (r: ReindexFilters)
        ensures
            opt_string_view(r.tenant_id) == given(opt_view(tenant_id)),
            opt_string_view(r.store_id) == given(opt_view(store_id)),
            opt_string_view(r.vendor_id) == given(opt_view(vendor_id)),
            opt_string_view(r.status) == given(opt_view(status)),
            opt_string_view(r.product_id) == given(opt_view(product_id)),
    {
        ReindexFilters {
            tenant_id: given_value(tenant_id),
            store_id: given_value(store_id),
            vendor_id: given_value(vendor_id),
            status: given_value(status),
            product_id: given_value(product_id),
        }
    }

    /// No filter is set.
    pub fn is_empty(&self) -> (r: bool)
        ensures
            r == (self.tenant_id is None && self.store_id is None && self.vendor_id is None
                && self.status is None && self.product_id is None),
    {
        self.tenant_id.is_none() && self.store_id.is_none() && self.vendor_id.is_none()
            && self.status.is_none() && self.product_id.is_none()
    }
}

/// The conditions of the filters, in order: each column test and the value
/// bound to it.
pub open spec fn filter_clauses_spec(f: ReindexFilters) -> Seq<(Seq<char>, Seq<char>)> {
    let a = match f.tenant_id {
        Some(v) => seq![("p.tenant_id::text = "@, v@)],
        None => Seq::empty(),
    };
    let b = match f.store_id {
        Some(v) => seq![("p.store_id::text = "@, v@)],
        None => Seq::empty(),
    };
    let c = match f.vendor_id {
        Some(v) => seq![("p.vendor_id::text = "@, v@)],
        None => Seq::empty(),
    };
    let d = match f.status {
        Some(v) => seq![("p.status = "@, v@)],
        None => Seq::empty(),
    };
    let e = match f.product_id {
        Some(v) => seq![("p.id::text = "@, v@)],
        None => Seq::empty(),
    };
    a + b + c + d + e
}

fn push_clause(out: &mut Vec<(String, String)>, column: &str, value: &Option<String>)
    ensures
        crate::text::pair_views(final(out)@) == crate::text::pair_views(old(out)@) + match value {
            Some(v) => seq![(column@, v@)],
            None => Seq::<(Seq<char>, Seq<char>)>::empty(),
        },
{
    let ghost before = out@;
    match value {
        Some(v) => {
            out.push((to_owned(column), to_owned(v.as_str())));
            assert(crate::text::pair_views(out@) =~= crate::text::pair_views(before) + seq![
                (column@, v@),
            ]);
        },
        None => {
            assert(crate::text::pair_views(out@) =~= crate::text::pair_views(before)
                + Seq::<(Seq<char>, Seq<char>)>::empty());
        },
    }
}

/// The conditions of the filters, in order, joined by `AND` in the query:
/// each column test and the value bound to it.
pub fn filter_clauses(f: &ReindexFilters) -> (r: Vec<(String, String)>)
    ensures
        crate::text::pair_views(r@) == filter_clauses_spec(*f),
{
    let mut out: Vec<(String, String)> = Vec::new();
    assert(crate::text::pair_views(out@) =~= Seq::<(Seq<char>, Seq<char>)>::empty());
    push_clause(&mut out, "p.tenant_id::text = ", &f.tenant_id);
    push_clause(&mut out, "p.store_id::text = ", &f.store_id);
    push_clause(&mut out, "p.vendor_id::text = ", &f.vendor_id);
    push_clause(&mut out, "p.status = ", &f.status);
    push_clause(&mut out, "p.id::text = ", &f.product_id);
    assert(crate::text::pair_views(out@) =~= filter_clauses_spec(*f));
    out
}

/// How far a reindex has come: the offset of the next batch and the
/// products indexed so far.
#[derive(Debug, Clone, Copy, PartialEq, Eq)]
pub struct ReindexProgress {
    pub offset: i64,
    pub total: u64,
}

/// The progress after a batch of `rows` products: an empty batch ends the
/// reindex (`None`); otherwise the offset moves by the batch size.
pub fn reindex_step(p: ReindexProgress, rows: u64, batch_size: i64) -> (r: Option<ReindexProgress>)
    requires
        i64::MIN <= p.offset + batch_size <= i64::MAX,
        p.total + rows <= u64::MAX,
    ensures
        rows == 0 ==> r is None,
        rows > 0 ==> r == Some(ReindexProgress { offset: (p.offset + batch_size) as i64, total: (p.total + rows) as u64 }),
{
    if rows == 0 {
        None
    } else {
        Some(ReindexProgress { offset: p.offset + batch_size, total: p.total + rows })
    }
}

/// How many products a batch at `offset` reads when `n` products match and
/// a batch reads at most `batch_size` (in the products' creation order).
pub open spec fn page_rows(n: int, batch_size: int, offset: int) -> int {
    if n - offset <= 0 {
        0
    } else if n - offset < batch_size {
        n - offset
    } else {
        batch_size
    }
}

/// The products indexed by a run that stands at `offset` with `total` done:
/// each batch reads the next page and `reindex_step` moves on, until a
/// batch comes back empty.
pub open spec fn reindex_run(n: int, batch_size: int, offset: int, total: int) -> int
    decreases (if n > offset {
        n - offset
    } else {
        0
    }),
{
    if batch_size <= 0 || page_rows(n, batch_size, offset) == 0 {
        total
    } else {
        reindex_run(n, batch_size, offset + batch_size, total + page_rows(n, batch_size, offset))
    }
}

/// A reindex run sends every matching product once: the batches read the
/// consecutive pages `[offset, offset + rows)` of the products in creation
/// order, and a run from the start indexes exactly the `n` matching products.
pub proof fn lemma_reindex_run_sends_every_product(n: int, batch_size: int, offset: int, total: int)
    requires
        batch_size > 0,
        0 <= offset,
    ensures
        reindex_run(n, batch_size, offset, total) == total + if n > offset {
            n - offset
        } else {
            0
        },
    decreases (if n > offset {
        n - offset
    } else {
        0
    }),
{
    if page_rows(n, batch_size, offset) != 0 {
        lemma_reindex_run_sends_every_product(
            n,
            batch_size,
            offset + batch_size,
            total + page_rows(n, batch_size, offset),
        );
    }
}

/// What a reindex run does: count the matching products and stop, walk the
/// products without writing to the index, or walk them and write each batch.
#[derive(Debug, Clone, Copy, PartialEq, Eq)]
pub enum ReindexMode {
    CountOnly,
    DryRun,
    Write,
}

/// The mode chosen from the two switches: counting wins over a dry run,
/// and with neither set the batches are written.
pub open spec fn reindex_mode_spec(dry_run: bool, count_only: bool) -> ReindexMode {
    if count_only {
        ReindexMode::CountOnly
    } else if dry_run {
        ReindexMode::DryRun
    } else {
        ReindexMode::Write
    }
}

pub fn reindex_mode(dry_run: bool, count_only: bool) -> (r: ReindexMode)
    ensures
        r == reindex_mode_spec(dry_run, count_only),
{
    if count_only {
        ReindexMode::CountOnly
    } else if dry_run {
        ReindexMode::DryRun
    } else {
        ReindexMode::Write
    }
}

/// Whether the run walks the products batch by batch (it does unless it only counts).
pub fn walks_batches(mode: ReindexMode) -> (r: bool)
    ensures
        r <==> mode != ReindexMode::CountOnly,
{
    match mode {
        ReindexMode::CountOnly => false,
        _ => true,
    }
}

/// Whether a batch that was read is written to the index: only outside a dry run.
pub fn writes_batch(mode: ReindexMode) -> (r: bool)
    ensures
        r <==> mode == ReindexMode::Write,
{
    match mode {
        ReindexMode::Write => true,
        _ => false,
    }
}

/// A dry run and a count never write to the index; a run writes exactly
/// when neither switch is set.
pub proof fn lemma_reindex_writes_only_when_asked(dry_run: bool, count_only: bool)
    ensures
        (reindex_mode_spec(dry_run, count_only) == ReindexMode::Write) <==> (!dry_run && !count_only),
        count_only ==> reindex_mode_spec(dry_run, count_only) == ReindexMode::CountOnly,
{
}

} // verus!
