use vstd::prelude::*;

verus! {

use vstd::string::StringExecFns;

/// Failure of parsing a textual selector at configuration-load time.
#[derive(Debug, PartialEq, Eq)]
pub enum SelectorError {
    /// The selector part of the text was empty.
    Empty,
    /// The selector part did not compile as a structural selector.
    Syntax { message: String },
}

/// The kind of failure when resolving a selector against a fragment.
#[derive(Debug, PartialEq, Eq, Clone, Copy, Structural)]
pub enum ResolveFailKind {
    /// The structural selector matched no descendant element.
    NoMatch,
    /// The selector asked for an attribute absent on the matched element.
    NoAttr,
}

/// A resolution failure, identifying the selector that failed.
#[derive(Debug, PartialEq, Eq)]
pub struct ResolveError {
    /// Source text of the structural selector that failed.
    pub selector: String,
    /// The attribute name the selector asked for, if any.
    pub attr: Option<String>,
    pub kind: ResolveFailKind,
}

/// Failure of assembling a whole feed for one request.
#[derive(Debug, PartialEq, Eq)]
pub enum FeedError {
    /// A configured selector failed to resolve on some entry fragment.
    Resolve(ResolveError),
    /// The entries selector matched zero fragments.
    EmptyResult,
}

/// The diagnostic line for a resolution failure: the failing selector in its
/// textual form, attribute target included.
pub open spec fn resolve_message_spec(e: ResolveError) -> Seq<char> {
    match e.attr {
        None => "selector: "@ + e.selector@,
        Some(a) => "selector: "@ + e.selector@ + "|"@ + a@,
    }
}

/// The diagnostic line for the empty-result failure.
pub open spec fn empty_result_message_spec() -> Seq<char> {
    "entries selector matched nothing"@
}

impl ResolveError {
    /// A diagnostic line identifying the selector that failed.
    pub fn message(&self) -> (r: String)
        ensures
            r@ == resolve_message_spec(*self),
            r@.len() > 0,
    {
        let mut m = String::new();
        m.append("selector: ");
        m.append(self.selector.as_str());
        if let Some(a) = &self.attr {
            m.append("|");
            m.append(a.as_str());
            proof {
                assert(m@ =~= "selector: "@ + self.selector@ + "|"@ + a@);
            }
        } else {
            proof {
                assert(m@ =~= "selector: "@ + self.selector@);
            }
        }
        proof {
            reveal_strlit("selector: ");
        }
        m
    }
}

impl FeedError {
    /// A diagnostic line for the request-level failure: for a resolution
    /// failure exactly the inner error's line, for the empty result exactly
    /// the fixed text.
    pub fn message(&self) -> (r: String)
        ensures
            self matches FeedError::Resolve(e) ==> r@ == resolve_message_spec(*e),
            self is EmptyResult ==> r@ == empty_result_message_spec(),
            r@.len() > 0,
    {
        match self {
            FeedError::Resolve(e) => e.message(),
            FeedError::EmptyResult => {
                proof {
                    reveal_strlit("entries selector matched nothing");
                }
                let mut m = String::new();
                m.append("entries selector matched nothing");
                proof {
                    assert(m@ =~= "entries selector matched nothing"@);
                }
                m
            },
        }
    }
}

} // verus!
