use vstd::prelude::*;

use crate::errors::SelectorError;

verus! {

use vstd::string::StrSliceExecFns;
use vstd::string::StringExecFns;
use crate::dom::css_valid;
use crate::dom::parse_css;
use crate::dom::syntax_message_embeds;

broadcast use vstd::string::group_string_axioms;

// ---------------------------------------------------------------------------
// The selector micro-syntax: `<structural-selector>` or
// `<structural-selector>|<attribute-name>`, split on the first `|`.
// ---------------------------------------------------------------------------

/// Whether `s` contains a `'|'` character.
pub open spec fn has_bar(s: Seq<char>) -> bool {
    exists|i: int| 0 <= i < s.len() && s[i] == '|'
}

/// `i` is the position of the first `'|'` in `s`.
pub open spec fn is_first_bar(s: Seq<char>, i: int) -> bool {
    &&& 0 <= i < s.len()
    &&& s[i] == '|'
    &&& forall|j: int| 0 <= j < i ==> s[j] != '|'
}

/// The position of the first `'|'` in `s` (meaningful only when `has_bar(s)`).
pub open spec fn bar_pos(s: Seq<char>) -> int {
    choose|i: int| is_first_bar(s, i)
}

/// The structural-selector part: everything before the first `'|'`, or all of
/// `s` when there is none.
pub open spec fn sel_part(s: Seq<char>) -> Seq<char> {
    if has_bar(s) {
        s.subrange(0, bar_pos(s))
    } else {
        s
    }
}

/// The attribute part: everything after the first `'|'`, taken verbatim, or
/// absent when there is no `'|'`.
pub open spec fn attr_part(s: Seq<char>) -> Option<Seq<char>> {
    if has_bar(s) {
        Some(s.subrange(bar_pos(s) + 1, s.len() as int))
    } else {
        None
    }
}

/// The textual form that parses back into the given components.
pub open spec fn serialize_spec(sel: Seq<char>, attr: Option<Seq<char>>) -> Seq<char> {
    match attr {
        Some(a) => sel + seq!['|'] + a,
        None => sel,
    }
}

proof fn lemma_first_bar_unique(s: Seq<char>, i: int, j: int)
    requires
        is_first_bar(s, i),
        is_first_bar(s, j),
    ensures
        i == j,
{
    if i < j {
        assert(s[i] != '|');
    } else if j < i {
        assert(s[j] != '|');
    }
}

/// Pins `bar_pos` down to a concretely found first-bar position.
proof fn lemma_bar_pos(s: Seq<char>, i: int)
    requires
        is_first_bar(s, i),
    ensures
        has_bar(s),
        bar_pos(s) == i,
{
    assert(has_bar(s));
    assert(is_first_bar(s, bar_pos(s)));
    lemma_first_bar_unique(s, bar_pos(s), i);
}

/// Law: for a structural selector free of `'|'`, serializing the two
/// components and splitting again yields the components unchanged.
pub proof fn lemma_split_serialize_roundtrip(sel: Seq<char>, attr: Option<Seq<char>>)
    requires
        forall|j: int| 0 <= j < sel.len() ==> sel[j] != '|',
    ensures
        sel_part(serialize_spec(sel, attr)) == sel,
        attr_part(serialize_spec(sel, attr)) == attr,
{
    match attr {
        None => {
            assert(!has_bar(sel));
        },
        Some(a) => {
            let s = sel + seq!['|'] + a;
            assert(s[sel.len() as int] == '|');
            assert forall|j: int| 0 <= j < sel.len() implies s[j] != '|' by {
                assert(s[j] == sel[j]);
            }
            lemma_bar_pos(s, sel.len() as int);
            assert(s.subrange(0, sel.len() as int) =~= sel);
            assert(s.subrange(sel.len() as int + 1, s.len() as int) =~= a);
        },
    }
}

/// Finds the position of the first `'|'` in `s`, if any.
fn find_bar(s: &str) -> (r: Option<usize>)
    ensures
        match r {
            Some(i) => is_first_bar(s@, i as int),
            None => !has_bar(s@),
        },
{
    let n = s.unicode_len();
    let mut i: usize = 0;
    while i < n
        invariant
            n == s@.len(),
            i <= n,
            forall|j: int| 0 <= j < i ==> s@[j] != '|',
        decreases n - i,
    {
        if s.get_char(i) == '|' {
            return Some(i);
        }
        i += 1;
    }
    None
}

// ---------------------------------------------------------------------------
// The compiled structural selector, kept together with its source text.
// ---------------------------------------------------------------------------

/// A compiled structural selector.  Its view is its source text.
#[derive(Debug)]
pub struct CssSelector {
    text: String,
    pub(crate) compiled: scraper::Selector,
}

impl View for CssSelector {
    type V = Seq<char>;

    closed spec fn view(&self) -> Seq<char> {
        self.text@
    }
}

impl CssSelector {
    /// A well-formed selector has non-empty source text that the matching
    /// engine accepts.
    pub open spec fn wf(&self) -> bool {
        self@.len() > 0 && css_valid(self@)
    }

    /// Parses a structural selector; empty text is a distinct failure, and a
    /// text the matching engine rejects is a syntax failure.
    pub fn parse(text: &str) -> (r: Result<CssSelector, SelectorError>)
        ensures
            r is Ok <==> text@.len() > 0 && css_valid(text@),
            r matches Ok(s) ==> s@ == text@ && s.wf(),
            text@.len() == 0 ==> r == Err::<CssSelector, SelectorError>(SelectorError::Empty),
            text@.len() > 0 && !css_valid(text@) ==> (r matches Err(e)
                && e matches SelectorError::Syntax { message } && syntax_message_embeds(
                message@,
                text@,
            )),
    {
        if text.unicode_len() == 0 {
            return Err(SelectorError::Empty);
        }
        match parse_css(text) {
            Ok(compiled) => Ok(CssSelector { text: text.to_owned(), compiled }),
            Err(message) => Err(SelectorError::Syntax { message }),
        }
    }

    /// The source text the selector was parsed from.
    pub fn as_str(&self) -> (r: &str)
        ensures
            r@ == self@,
    {
        self.text.as_str()
    }

    /// The compiled structural pattern, for the matching engine.
    pub(crate) fn compiled(&self) -> &scraper::Selector {
        &self.compiled
    }
}

// ---------------------------------------------------------------------------
// A selector together with an optional attribute target.
// ---------------------------------------------------------------------------

/// A structural selector plus an optional attribute name: resolution means
/// concatenated text content without one, the attribute's value with one.
#[derive(Debug)]
pub struct SelectorEx {
    pub selector: CssSelector,
    pub attr: Option<String>,
}

impl SelectorEx {
    /// The attribute component, viewed.
    pub open spec fn attr_view(&self) -> Option<Seq<char>> {
        match self.attr {
            Some(a) => Some(a@),
            None => None,
        }
    }

    pub open spec fn wf(&self) -> bool {
        self.selector.wf()
    }

    /// Parses `sel` or `sel|attr`: the text is split on the first `'|'`, the
    /// left part must compile as a structural selector, and the right part,
    /// when present, is the attribute name taken verbatim.
    pub fn parse(text: &str) -> (r: Result<SelectorEx, SelectorError>)
        ensures
            r is Ok <==> sel_part(text@).len() > 0 && css_valid(sel_part(text@)),
            r matches Ok(d) ==> d.selector@ == sel_part(text@) && d.attr_view() == attr_part(
                text@,
            ) && d.wf(),
            sel_part(text@).len() == 0 ==> r == Err::<SelectorEx, SelectorError>(
                SelectorError::Empty,
            ),
            sel_part(text@).len() > 0 && !css_valid(sel_part(text@)) ==> (r matches Err(e)
                && e matches SelectorError::Syntax { message } && syntax_message_embeds(
                message@,
                sel_part(text@),
            )),
    {
        let n = text.unicode_len();
        match find_bar(text) {
            Some(i) => {
                proof {
                    lemma_bar_pos(text@, i as int);
                }
                let sel_text = text.substring_char(0, i);
                let attr_text = text.substring_char(i + 1, n);
                let selector = CssSelector::parse(sel_text)?;
                Ok(SelectorEx { selector, attr: Some(attr_text.to_owned()) })
            },
            None => {
                let selector = CssSelector::parse(text)?;
                Ok(SelectorEx { selector, attr: None })
            },
        }
    }

    /// Re-serializes the descriptor into the textual form it parses from.
    pub fn serialized(&self) -> (r: String)
        ensures
            r@ == serialize_spec(self.selector@, self.attr_view()),
    {
        let mut out = self.selector.as_str().to_owned();
        if let Some(a) = &self.attr {
            proof {
                reveal_strlit("|");
                assert("|"@ =~= seq!['|']);
            }
            out.append("|");
            out.append(a.as_str());
            proof {
                assert(out@ =~= self.selector@ + seq!['|'] + a@);
            }
        }
        out
    }
}

} // verus!
