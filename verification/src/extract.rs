use vstd::prelude::*;

use crate::dom;
use crate::entry::opt_str_view;
use crate::errors::ResolveError;
use crate::errors::ResolveFailKind;
use crate::selector::SelectorEx;

verus! {


// ---------------------------------------------------------------------------
// The extraction engine: resolving one selector descriptor against one entry
// fragment.  What an opaque fragment holds cannot be predicted here; the
// contracts pin down the failure reporting and, in the callers, what is made
// of every string that comes back.
// ---------------------------------------------------------------------------

/// The failure `e` identifies the descriptor `s`.
pub open spec fn err_names(e: ResolveError, s: SelectorEx) -> bool {
    e.selector@ == s.selector@ && opt_str_view(e.attr) == s.attr_view()
}

fn clone_opt_string(o: &Option<String>) -> (r: Option<String>)
    ensures
        opt_str_view(r) == opt_str_view(*o),
{
    match o {
        Some(s) => Some(s.clone()),
        None => None,
    }
}

fn resolve_error(selector: &SelectorEx, kind: ResolveFailKind) -> (r: ResolveError)
    ensures
        err_names(r, *selector),
        r.kind == kind,
{
    ResolveError {
        selector: selector.selector.as_str().to_owned(),
        attr: clone_opt_string(&selector.attr),
        kind,
    }
}

/// Resolves one selector descriptor against one fragment: the first matching
/// descendant element in document order decides; with an attribute configured
/// the result is that attribute's value, without one it is the concatenated
/// text content.  A failure identifies the descriptor, and an attribute
/// failure can only arise when an attribute is configured.
pub fn select(entry_element: &scraper::ElementRef<'_>, selector: &SelectorEx) -> (r: Result<
    String,
    ResolveError,
>)
    ensures
        r matches Err(e) ==> err_names(e, *selector) && (selector.attr is None ==> e.kind
            == ResolveFailKind::NoMatch) && (e.kind == ResolveFailKind::NoAttr
            ==> selector.attr is Some),
{
    match dom::select_first_in(entry_element, selector.selector.compiled()) {
        Some(element) => match &selector.attr {
            Some(attr) => match dom::element_attr(&element, attr.as_str()) {
                Some(value) => Ok(value),
                None => Err(resolve_error(selector, ResolveFailKind::NoAttr)),
            },
            None => Ok(dom::element_text(&element)),
        },
        None => Err(resolve_error(selector, ResolveFailKind::NoMatch)),
    }
}

} // verus!
