use vstd::prelude::*;

use crate::ident::uuid_urn;
use crate::ident::uuid_urn_of;

verus! {

use vstd::string::StrSliceExecFns;
use vstd::string::StringExecFns;

broadcast use vstd::string::group_string_axioms;

// ---------------------------------------------------------------------------
// The normalized feed-entry record and the pure transformations that build
// it: link resolution against the base URL and the stable identifier seed.
// ---------------------------------------------------------------------------

/// A feed link.
#[derive(Debug)]
pub struct Link {
    pub href: String,
}

/// A feed author.
#[derive(Debug)]
pub struct Person {
    pub name: String,
}

/// One normalized feed entry.
#[derive(Debug)]
pub struct FeedEntry {
    pub title: String,
    /// Zero or one link.
    pub links: Vec<Link>,
    /// The deterministic synthetic identifier.
    pub id: String,
    /// Zero or one author.
    pub authors: Vec<Person>,
    pub summary: Option<String>,
    /// Always present, possibly empty.
    pub updated: String,
    pub published: Option<String>,
}

/// The mathematical shape of a feed entry.
#[verifier::ext_equal]
pub ghost struct FeedEntryView {
    pub title: Seq<char>,
    pub link: Option<Seq<char>>,
    pub id: Seq<char>,
    pub author: Option<Seq<char>>,
    pub summary: Option<Seq<char>>,
    pub updated: Seq<char>,
    pub published: Option<Seq<char>>,
}

/// The view of an optional string.
pub open spec fn opt_str_view(o: Option<String>) -> Option<Seq<char>> {
    match o {
        Some(s) => Some(s@),
        None => None,
    }
}

impl FeedEntry {
    /// At most one link and at most one author.
    pub open spec fn wf(&self) -> bool {
        self.links@.len() <= 1 && self.authors@.len() <= 1
    }
}

impl View for FeedEntry {
    type V = FeedEntryView;

    open spec fn view(&self) -> FeedEntryView {
        FeedEntryView {
            title: self.title@,
            link: if self.links@.len() >= 1 {
                Some(self.links@[0].href@)
            } else {
                None
            },
            id: self.id@,
            author: if self.authors@.len() >= 1 {
                Some(self.authors@[0].name@)
            } else {
                None
            },
            summary: opt_str_view(self.summary),
            updated: self.updated@,
            published: opt_str_view(self.published),
        }
    }
}

// ---------------------------------------------------------------------------
// Link normalization.
// ---------------------------------------------------------------------------

/// Whether `l` starts with the four characters of `http`.
pub open spec fn starts_with_http(l: Seq<char>) -> bool {
    l.len() >= 4 && l[0] == 'h' && l[1] == 't' && l[2] == 't' && l[3] == 'p'
}

/// A raw link value resolved against the feed's base URL: a value starting
/// with `/` or `.` is prefixed with the base, one that does not start with
/// `http` is prefixed with the base and a `/`, and anything else passes
/// through unchanged.
pub open spec fn normalized_link(l: Seq<char>, base: Seq<char>) -> Seq<char> {
    if l.len() > 0 && (l[0] == '/' || l[0] == '.') {
        base + l
    } else if !starts_with_http(l) {
        base + seq!['/'] + l
    } else {
        l
    }
}

fn starts_with_http_exec(s: &str) -> (r: bool)
    ensures
        r == starts_with_http(s@),
{
    if s.unicode_len() < 4 {
        return false;
    }
    s.get_char(0) == 'h' && s.get_char(1) == 't' && s.get_char(2) == 't' && s.get_char(3) == 'p'
}

/// Resolves a raw link value against the base URL.
pub fn normalize_link(raw: &str, base: &str) -> (r: String)
    ensures
        r@ == normalized_link(raw@, base@),
{
    let relative = if raw.unicode_len() > 0 {
        let c = raw.get_char(0);
        c == '/' || c == '.'
    } else {
        false
    };
    if relative {
        let mut out = base.to_owned();
        out.append(raw);
        out
    } else if !starts_with_http_exec(raw) {
        proof {
            reveal_strlit("/");
            assert("/"@ =~= seq!['/']);
        }
        let mut out = base.to_owned();
        out.append("/");
        out.append(raw);
        proof {
            assert(out@ =~= base@ + seq!['/'] + raw@);
        }
        out
    } else {
        raw.to_owned()
    }
}

// ---------------------------------------------------------------------------
// The identifier seed: a rendering of (title, link) that the stable hashing
// scheme is applied to.
// ---------------------------------------------------------------------------

/// The rendering of the entry's links (zero or one) inside the identifier
/// seed.
pub open spec fn links_render(link: Option<Seq<char>>) -> Seq<char> {
    match link {
        None => "[]"@,
        Some(h) => "[Link { href: \""@ + h + "\" }]"@,
    }
}

/// The identifier seed of an entry: its title followed by the rendering of
/// its links.
pub open spec fn entry_id_seed(title: Seq<char>, link: Option<Seq<char>>) -> Seq<char> {
    title + links_render(link)
}

/// The identifier of an entry: the stable hash of its seed.
pub open spec fn entry_id(title: Seq<char>, link: Option<Seq<char>>) -> Seq<char> {
    uuid_urn_of(entry_id_seed(title, link))
}

fn render_links(link: &Option<String>) -> (r: String)
    ensures
        r@ == links_render(match link {
            Some(h) => Some(h@),
            None => None,
        }),
{
    match link {
        None => {
            let out: String = "[]".to_owned();
            out
        },
        Some(h) => {
            let mut out: String = "[Link { href: \"".to_owned();
            out.append(h.as_str());
            out.append("\" }]");
            proof {
                reveal_strlit("[Link { href: \"");
                reveal_strlit("\" }]");
            }
            out
        },
    }
}

/// Builds the identifier of an entry from its title and its optional link.
pub fn derive_entry_id(title: &str, link: &Option<String>) -> (r: String)
    ensures
        r@ == entry_id(title@, opt_str_view(*link)),
        r@.len() == 45,
{
    let mut seed = title.to_owned();
    let rendered = render_links(link);
    seed.append(rendered.as_str());
    uuid_urn(seed.as_str())
}

// ---------------------------------------------------------------------------
// Laws of the identifier: derivation is deterministic, and with one component
// fixed, changing the other always changes the seed the hash is applied to
// (collision resistance for distinct seeds is the hash's own).
// ---------------------------------------------------------------------------

/// Law: identifier derivation is deterministic — identical (title, link)
/// pairs always produce identical identifiers.
pub proof fn lemma_entry_id_deterministic(
    t1: Seq<char>,
    l1: Option<Seq<char>>,
    t2: Seq<char>,
    l2: Option<Seq<char>>,
)
    requires
        t1 == t2,
        l1 == l2,
    ensures
        entry_id(t1, l1) == entry_id(t2, l2),
{
}

proof fn lemma_concat_left_cancel(a: Seq<char>, b: Seq<char>, c: Seq<char>, d: Seq<char>)
    requires
        a.len() == c.len(),
        a + b == c + d,
    ensures
        a == c,
        b == d,
{
    assert forall|i: int| 0 <= i < a.len() implies a[i] == c[i] by {
        assert((a + b)[i] == a[i]);
        assert((c + d)[i] == c[i]);
    }
    assert(a =~= c);
    assert((a + b).len() == a.len() + b.len());
    assert((c + d).len() == c.len() + d.len());
    assert(b.len() == d.len());
    assert forall|i: int| 0 <= i < b.len() implies b[i] == d[i] by {
        assert((a + b)[a.len() + i] == b[i]);
        assert((c + d)[c.len() + i] == d[i]);
    }
    assert(b =~= d);
}

/// Law: the rendering of the links component is injective.
pub proof fn lemma_links_render_injective(l1: Option<Seq<char>>, l2: Option<Seq<char>>)
    requires
        l1 != l2,
    ensures
        links_render(l1) != links_render(l2),
{
    reveal_strlit("[]");
    reveal_strlit("[Link { href: \"");
    reveal_strlit("\" }]");
    match (l1, l2) {
        (None, None) => {
        },
        (None, Some(h)) => {
            assert(links_render(l1).len() == 2);
            assert(links_render(l2).len() >= 19);
        },
        (Some(h), None) => {
            assert(links_render(l1).len() >= 19);
            assert(links_render(l2).len() == 2);
        },
        (Some(h1), Some(h2)) => {
            let p = "[Link { href: \""@;
            let s = "\" }]"@;
            if links_render(l1) == links_render(l2) {
                assert(p + h1 + s == p + h2 + s);
                lemma_concat_left_cancel(p + h1, s, p + h2, s);
                lemma_concat_left_cancel(p, h1, p, h2);
            }
        },
    }
}

/// Law: with the same link, entries whose titles differ have different
/// identifier seeds.
pub proof fn lemma_entry_id_seed_title_injective(
    t1: Seq<char>,
    t2: Seq<char>,
    l: Option<Seq<char>>,
)
    requires
        t1 != t2,
    ensures
        entry_id_seed(t1, l) != entry_id_seed(t2, l),
{
    let r = links_render(l);
    if t1.len() == t2.len() {
        if entry_id_seed(t1, l) == entry_id_seed(t2, l) {
            lemma_concat_left_cancel(t1, r, t2, r);
        }
    } else {
        assert(entry_id_seed(t1, l).len() != entry_id_seed(t2, l).len());
    }
}

/// Law: with the same title, entries whose links differ have different
/// identifier seeds.
pub proof fn lemma_entry_id_seed_link_injective(
    t: Seq<char>,
    l1: Option<Seq<char>>,
    l2: Option<Seq<char>>,
)
    requires
        l1 != l2,
    ensures
        entry_id_seed(t, l1) != entry_id_seed(t, l2),
{
    lemma_links_render_injective(l1, l2);
    if entry_id_seed(t, l1) == entry_id_seed(t, l2) {
        lemma_concat_left_cancel(t, links_render(l1), t, links_render(l2));
    }
}

// ---------------------------------------------------------------------------
// Building a normalized entry from raw extracted strings.
// ---------------------------------------------------------------------------

/// The raw strings one extraction pass hands to the entry builder: the title
/// is mandatory, every other field is present exactly when its selector is
/// configured.
#[derive(Debug)]
pub struct RawEntry {
    pub title: String,
    pub link: Option<String>,
    pub author: Option<String>,
    pub summary: Option<String>,
    pub updated: Option<String>,
    pub published: Option<String>,
}

/// The mathematical shape of the raw extracted strings.
#[verifier::ext_equal]
pub ghost struct RawEntryView {
    pub title: Seq<char>,
    pub link: Option<Seq<char>>,
    pub author: Option<Seq<char>>,
    pub summary: Option<Seq<char>>,
    pub updated: Option<Seq<char>>,
    pub published: Option<Seq<char>>,
}

impl View for RawEntry {
    type V = RawEntryView;

    open spec fn view(&self) -> RawEntryView {
        RawEntryView {
            title: self.title@,
            link: opt_str_view(self.link),
            author: opt_str_view(self.author),
            summary: opt_str_view(self.summary),
            updated: opt_str_view(self.updated),
            published: opt_str_view(self.published),
        }
    }
}

/// What the entry builder makes of raw extracted strings: the link is
/// resolved against the base URL, the identifier is the stable hash of
/// (title, resolved link), `updated` defaults to the empty string, and the
/// remaining optional fields carry over unchanged.
pub open spec fn entry_from_raw(r: RawEntryView, base: Seq<char>) -> FeedEntryView {
    let link = match r.link {
        Some(l) => Some(normalized_link(l, base)),
        None => None,
    };
    FeedEntryView {
        title: r.title,
        link: link,
        id: uuid_urn_of(r.title + links_render(link)),
        author: r.author,
        summary: r.summary,
        updated: match r.updated {
            Some(u) => u,
            None => Seq::empty(),
        },
        published: r.published,
    }
}

/// Maps raw extracted strings into a normalized feed entry.  The identifier
/// is a pure function of the entry's title and resolved link: unchanged
/// content keeps its identity across repeated fetches.
pub fn build_entry(raw: RawEntry, base: &str) -> (e: FeedEntry)
    ensures
        e@ == entry_from_raw(raw@, base@),
        e@.id == entry_id(e@.title, e@.link),
        e.wf(),
{
    let RawEntry { title, link, author, summary, updated, published } = raw;
    let link: Option<String> = match link {
        Some(l) => Some(normalize_link(l.as_str(), base)),
        None => None,
    };
    let id = derive_entry_id(title.as_str(), &link);
    let mut links: Vec<Link> = Vec::new();
    match link {
        Some(href) => links.push(Link { href }),
        None => (),
    }
    let mut authors: Vec<Person> = Vec::new();
    match author {
        Some(name) => authors.push(Person { name }),
        None => (),
    }
    let updated = match updated {
        Some(u) => u,
        None => String::new(),
    };
    let e = FeedEntry { title, links, id, authors, summary, updated, published };
    proof {
        assert(e@ =~= entry_from_raw(raw@, base@));
    }
    e
}

} // verus!
