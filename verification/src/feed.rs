use vstd::prelude::*;

use crate::dom;
use crate::entry::FeedEntry;
use crate::entry::Link;
use crate::entry::RawEntry;
use crate::entry::RawEntryView;
use crate::entry::entry_from_raw;
use crate::entry::opt_str_view;
use crate::errors::FeedError;
use crate::errors::ResolveError;
use crate::extract::err_names;
use crate::extract::select;
use crate::ident::now_rfc3339;
use crate::ident::uuid_urn;
use crate::ident::uuid_urn_of;
use crate::selector::CssSelector;
use crate::selector::SelectorEx;

verus! {


// ---------------------------------------------------------------------------
// The per-service feed configuration and the assembly of one feed document.
// ---------------------------------------------------------------------------

/// The declarative description of one service: static feed metadata plus the
/// selectors that locate and decode each entry.  `entries` selects the
/// container elements and therefore carries no attribute; `entry_title` is
/// mandatory; every other entry-level selector is optional.
#[derive(Debug)]
pub struct FeedConfig {
    pub title: String,
    pub subtitle: Option<String>,
    /// The base URL: both the fetch target and the base for relative links.
    pub link: String,
    pub entries: CssSelector,
    pub entry_title: SelectorEx,
    pub entry_link: Option<SelectorEx>,
    pub entry_author: Option<SelectorEx>,
    pub entry_summary: Option<SelectorEx>,
    pub entry_updated: Option<SelectorEx>,
    pub entry_published: Option<SelectorEx>,
}

/// The assembled feed document.
#[derive(Debug)]
pub struct Feed {
    pub title: String,
    pub subtitle: Option<String>,
    /// Wall-clock time of assembly.
    pub updated: String,
    /// Deterministic identifier derived from the service id.
    pub id: String,
    /// Exactly one link: the configured base URL.
    pub links: Vec<Link>,
    /// Never empty.
    pub entries: Vec<FeedEntry>,
}

/// The failure `e` identifies one of the selectors the configuration
/// declares.
pub open spec fn err_names_configured(cfg: &FeedConfig, e: ResolveError) -> bool {
    ||| err_names(e, cfg.entry_title)
    ||| (cfg.entry_link matches Some(s) && err_names(e, s))
    ||| (cfg.entry_author matches Some(s) && err_names(e, s))
    ||| (cfg.entry_summary matches Some(s) && err_names(e, s))
    ||| (cfg.entry_updated matches Some(s) && err_names(e, s))
    ||| (cfg.entry_published matches Some(s) && err_names(e, s))
}

/// `en` is what the entry builder makes of some raw extraction whose optional
/// fields are present exactly where the configuration declares a selector.
pub open spec fn built_entry(cfg: &FeedConfig, en: FeedEntry) -> bool {
    &&& en.wf()
    &&& exists|raw: RawEntryView|
        {
            &&& #[trigger] entry_from_raw(raw, cfg.link@) == en@
            &&& (raw.link is Some <==> cfg.entry_link is Some)
            &&& (raw.author is Some <==> cfg.entry_author is Some)
            &&& (raw.summary is Some <==> cfg.entry_summary is Some)
            &&& (raw.updated is Some <==> cfg.entry_updated is Some)
            &&& (raw.published is Some <==> cfg.entry_published is Some)
        }
}

/// Resolves every configured selector within one entry fragment and builds
/// the normalized entry.  The title is mandatory; a failure of any configured
/// selector aborts the entry, identifying that selector — a configured
/// selector is never silently defaulted.
pub fn fill_entry(entry_element: &scraper::ElementRef<'_>, feed_cfg: &FeedConfig) -> (r: Result<
    FeedEntry,
    ResolveError,
>)
    ensures
        r matches Ok(en) ==> built_entry(feed_cfg, en),
        r matches Err(e) ==> err_names_configured(feed_cfg, e),
{
    let title = select(entry_element, &feed_cfg.entry_title)?;
    let link = match &feed_cfg.entry_link {
        Some(s) => Some(select(entry_element, s)?),
        None => None,
    };
    let author = match &feed_cfg.entry_author {
        Some(s) => Some(select(entry_element, s)?),
        None => None,
    };
    let summary = match &feed_cfg.entry_summary {
        Some(s) => Some(select(entry_element, s)?),
        None => None,
    };
    let updated = match &feed_cfg.entry_updated {
        Some(s) => Some(select(entry_element, s)?),
        None => None,
    };
    let published = match &feed_cfg.entry_published {
        Some(s) => Some(select(entry_element, s)?),
        None => None,
    };
    let raw = RawEntry { title, link, author, summary, updated, published };
    let ghost rv = raw@;
    let en = crate::entry::build_entry(raw, feed_cfg.link.as_str());
    proof {
        assert(entry_from_raw(rv, feed_cfg.link@) == en@);
    }
    Ok(en)
}

/// Combines the configured metadata, the derived feed identifier, the
/// assembly timestamp and the entries built from the located fragments into
/// one feed document; zero fragments are a distinct failure, never an empty
/// feed.
pub fn assemble(
    cfg: &FeedConfig,
    service_id: &str,
    fragments: Vec<scraper::ElementRef<'_>>,
    now: String,
) -> (r: Result<Feed, FeedError>)
    ensures
        fragments@.len() == 0 ==> r == Err::<Feed, FeedError>(FeedError::EmptyResult),
        r matches Ok(f) ==> {
            &&& f.entries@.len() == fragments@.len()
            &&& f.entries@.len() > 0
            &&& forall|i: int| 0 <= i < f.entries@.len() ==> built_entry(cfg, #[trigger] f.entries@[i])
            &&& f.title@ == cfg.title@
            &&& opt_str_view(f.subtitle) == opt_str_view(cfg.subtitle)
            &&& f.updated@ == now@
            &&& f.id@ == uuid_urn_of(service_id@)
            &&& f.links@.len() == 1
            &&& f.links@[0].href@ == cfg.link@
        },
        r matches Err(e) ==> (e == FeedError::EmptyResult || (e matches FeedError::Resolve(re)
            && err_names_configured(cfg, re))) && (fragments@.len() > 0
            ==> e matches FeedError::Resolve(..)),
{
    let mut entries: Vec<FeedEntry> = Vec::new();
    let n = fragments.len();
    let mut idx: usize = 0;
    while idx < n
        invariant
            n == fragments@.len(),
            idx <= n,
            entries@.len() == idx,
            forall|i: int| 0 <= i < entries@.len() ==> built_entry(cfg, #[trigger] entries@[i]),
        decreases n - idx,
    {
        match fill_entry(&fragments[idx], cfg) {
            Ok(en) => entries.push(en),
            Err(e) => {
                return Err(FeedError::Resolve(e));
            },
        }
        idx += 1;
    }
    if entries.is_empty() {
        return Err(FeedError::EmptyResult);
    }
    let id = uuid_urn(service_id);
    let mut links: Vec<Link> = Vec::new();
    links.push(Link { href: cfg.link.clone() });
    let subtitle = match &cfg.subtitle {
        Some(s) => Some(s.clone()),
        None => None,
    };
    Ok(Feed { title: cfg.title.clone(), subtitle, updated: now, id, links, entries })
}

/// The whole per-request pipeline after the fetch: parses the document,
/// locates the entry fragments, builds every entry and assembles the feed.
/// The feed identifier is the stable hash of the service id alone.
pub fn feed_for_document(cfg: &FeedConfig, service_id: &str, html: &str) -> (r: Result<
    Feed,
    FeedError,
>)
    ensures
        r matches Ok(f) ==> {
            &&& f.entries@.len() > 0
            &&& forall|i: int| 0 <= i < f.entries@.len() ==> built_entry(cfg, #[trigger] f.entries@[i])
            &&& f.title@ == cfg.title@
            &&& opt_str_view(f.subtitle) == opt_str_view(cfg.subtitle)
            &&& f.updated@.len() > 0
            &&& f.id@ == uuid_urn_of(service_id@)
            &&& f.links@.len() == 1
            &&& f.links@[0].href@ == cfg.link@
        },
        r matches Err(e) ==> (e == FeedError::EmptyResult || (e matches FeedError::Resolve(re)
            && err_names_configured(cfg, re))),
{
    let doc = dom::parse_document(html);
    let fragments = dom::select_in_document(&doc, cfg.entries.compiled());
    let now = now_rfc3339();
    assemble(cfg, service_id, fragments, now)
}

} // verus!
