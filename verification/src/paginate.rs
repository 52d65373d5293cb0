//! The pagination engine: walks a cursor-based paged listing into one
//! complete in-memory collection.
//!
//! The engine itself performs no transport. The caller fetches and
//! decodes whatever URL [`Paginator::next_request`] names, hands the
//! decoded [`Page`] to [`Paginator::feed`], and repeats until no request
//! is pending; [`Paginator::into_results`] then yields every collected
//! element in page order.

use vstd::prelude::*;
use vstd::string::StrSliceExecFns;
use vstd::string::StringExecFns;

use crate::page::{Page, PageFrame};
use crate::text::{has_prefix, spec_has_prefix};

verus! {

/// The rewrite applied to each server-supplied next-page URL before it
/// is followed. An injectable policy; the default is [`UrlRewrite::Identity`].
#[derive(Debug, Clone, Copy, PartialEq, Eq, Structural)]
pub enum UrlRewrite {
    /// Follow the URL exactly as the server sent it.
    Identity,
    /// Upgrade a plain `http://` scheme to `https://`; leave every other
    /// URL untouched.
    UpgradeScheme,
}

impl UrlRewrite {
    /// What the rewrite does to a URL.
    pub open spec fn spec_apply(self, u: Seq<char>) -> Seq<char> {
        match self {
            UrlRewrite::Identity => u,
            UrlRewrite::UpgradeScheme => if spec_has_prefix(u, "http://"@) {
                "https://"@ + u.skip("http://"@.len() as int)
            } else {
                u
            },
        }
    }

    /// Apply the rewrite to a URL.
    pub fn apply(&self, url: &str) -> (r: String)
        ensures
            r@ == self.spec_apply(url@),
    {
        match self {
            UrlRewrite::Identity => String::from_str(url),
            UrlRewrite::UpgradeScheme => {
                proof {
                    reveal_strlit("http://");
                    reveal_strlit("https://");
                }
                if has_prefix(url, "http://") {
                    let rest = url.substring_char(7, url.unicode_len());
                    let r = String::from_str("https://").concat(rest);
                    proof {
                        assert(url@.subrange(7, url@.len() as int) =~= url@.skip(
                            "http://"@.len() as int,
                        ));
                    }
                    r
                } else {
                    String::from_str(url)
                }
            },
        }
    }
}

/// The abstract state of one walk: what has been collected, which URL is
/// pending, the rewrite in force, how many more pages the walk may
/// fetch, and whether a page limit cut the walk short.
#[verifier::ext_equal]
pub struct WalkState<T> {
    /// Every element collected so far, in page order.
    pub collected: Seq<T>,
    /// The URL the caller must fetch next, if any.
    pub pending: Option<Seq<char>>,
    /// The rewrite applied to each next-page URL.
    pub rewrite: UrlRewrite,
    /// How many more pages may be fed, when a limit is set.
    pub budget: Option<nat>,
    /// Whether the page limit stopped the walk while a next page remained.
    pub truncated: bool,
}

/// How one fed page advances the walk: its results are appended in
/// order, the budget (if any) shrinks by one, and its next-page URL —
/// rewritten — becomes pending unless the page was the last or the
/// budget ran out.
pub open spec fn step<T>(s: WalkState<T>, p: PageFrame<T>) -> WalkState<T> {
    let budget2 = match s.budget {
        Some(k) => if k > 0 {
            Some((k - 1) as nat)
        } else {
            Some(0nat)
        },
        None => None,
    };
    let exhausted = budget2 == Some(0nat);
    WalkState {
        collected: s.collected + p.results,
        pending: match p.next {
            Some(u) => if exhausted {
                None
            } else {
                Some(s.rewrite.spec_apply(u))
            },
            None => None,
        },
        rewrite: s.rewrite,
        budget: budget2,
        truncated: s.truncated || (exhausted && p.next is Some),
    }
}

/// The walk state after feeding a whole sequence of pages.
pub open spec fn walk<T>(s: WalkState<T>, pages: Seq<PageFrame<T>>) -> WalkState<T>
    decreases pages.len(),
{
    if pages.len() == 0 {
        s
    } else {
        walk(step(s, pages.first()), pages.drop_first())
    }
}

/// The results of a sequence of pages, concatenated in page order.
pub open spec fn concat_results<T>(pages: Seq<PageFrame<T>>) -> Seq<T>
    decreases pages.len(),
{
    if pages.len() == 0 {
        Seq::empty()
    } else {
        pages.first().results + concat_results(pages.drop_first())
    }
}

/// The total number of elements across a sequence of pages.
pub open spec fn total_results<T>(pages: Seq<PageFrame<T>>) -> nat
    decreases pages.len(),
{
    if pages.len() == 0 {
        0
    } else {
        pages.first().results.len() + total_results(pages.drop_first())
    }
}

/// Law: feeding any sequence of pages collects exactly their elements,
/// in page order, however the elements are distributed across the pages
/// — empty pages included — and so exactly as many elements as the pages
/// carry in total.
pub proof fn lemma_walk_collects<T>(s: WalkState<T>, pages: Seq<PageFrame<T>>)
    ensures
        walk(s, pages).collected == s.collected + concat_results(pages),
        walk(s, pages).collected.len() == s.collected.len() + total_results(pages),
    decreases pages.len(),
{
    if pages.len() == 0 {
        assert(walk(s, pages).collected =~= s.collected + concat_results(pages));
    } else {
        lemma_walk_collects(step(s, pages.first()), pages.drop_first());
        assert(walk(s, pages).collected =~= s.collected + concat_results(pages));
    }
}

/// Walks one paged listing. Holds everything collected so far and the
/// URL to fetch next; the caller supplies each fetched page through
/// [`Paginator::feed`].
pub struct Paginator<T> {
    /// Every element collected so far, in page order.
    pub collected: Vec<T>,
    /// The URL the caller must fetch next; `None` once the walk is done.
    pub pending: Option<String>,
    /// The rewrite applied to each next-page URL.
    pub rewrite: UrlRewrite,
    /// How many more pages may be fed, when a limit is set.
    pub budget: Option<usize>,
    /// Whether the page limit stopped the walk while a next page remained.
    pub truncated: bool,
}

impl<T> Paginator<T> {
    /// The abstract state of this walk.
    pub open spec fn model(&self) -> WalkState<T> {
        WalkState {
            collected: self.collected@,
            pending: match self.pending {
                Some(u) => Some(u@),
                None => None,
            },
            rewrite: self.rewrite,
            budget: match self.budget {
                Some(k) => Some(k as nat),
                None => None,
            },
            truncated: self.truncated,
        }
    }

    /// An exhausted budget always means the walk is over.
    pub open spec fn wf(&self) -> bool {
        self.budget == Some(0usize) ==> self.pending is None
    }

    /// Start a walk at `start_url` with no page limit.
    pub fn new(start_url: String, rewrite: UrlRewrite) -> (p: Paginator<T>)
        ensures
            p.model() == (WalkState::<T> {
                collected: Seq::empty(),
                pending: Some(start_url@),
                rewrite,
                budget: None,
                truncated: false,
            }),
            p.wf(),
    {
        let p = Paginator {
            collected: Vec::new(),
            pending: Some(start_url),
            rewrite,
            budget: None,
            truncated: false,
        };
        proof {
            assert(p.model().collected =~= Seq::<T>::empty());
            assert(p.model() =~= (WalkState::<T> {
                collected: Seq::empty(),
                pending: Some(p.pending->0@),
                rewrite,
                budget: None,
                truncated: false,
            }));
        }
        p
    }

    /// Cap the walk at `limit` pages: a safety stop against misbehaving
    /// servers whose pages never end. A limit of zero ends the walk at
    /// once and marks it truncated.
    pub fn with_page_limit(self, limit: usize) -> (p: Paginator<T>)
        requires
            self.wf(),
        ensures
            p.collected@ == self.collected@,
            p.rewrite == self.rewrite,
            p.model().budget == Some(limit as nat),
            limit > 0 ==> p.model().pending == self.model().pending && p.truncated
                == self.truncated,
            limit == 0 ==> p.model().pending is None && p.truncated == (self.truncated
                || self.model().pending is Some),
            p.wf(),
    {
        let mut p = self;
        p.budget = Some(limit);
        if limit == 0 {
            if p.pending.is_some() {
                p.truncated = true;
            }
            p.pending = None;
        }
        p
    }

    /// The URL the caller must fetch next, or `None` once the walk is
    /// done.
    pub fn next_request(&self) -> (r: Option<String>)
        ensures
            match (r, self.model().pending) {
                (Some(u), Some(m)) => u@ == m,
                (None, None) => true,
                _ => false,
            },
    {
        match &self.pending {
            Some(u) => Some(u.clone()),
            None => None,
        }
    }

    /// Whether the walk is over.
    pub fn done(&self) -> (r: bool)
        ensures
            r == (self.model().pending is None),
    {
        self.pending.is_none()
    }

    /// Whether the page limit stopped the walk while pages remained.
    pub fn truncated(&self) -> (r: bool)
        ensures
            r == self.truncated,
    {
        self.truncated
    }

    /// Feed the page fetched from the pending URL: the walk advances by
    /// exactly [`step`].
    pub fn feed(&mut self, page: Page<T>)
        requires
            old(self).wf(),
            old(self).model().pending is Some,
        ensures
            final(self).model() == step(old(self).model(), page.frame()),
            final(self).wf(),
    {
        let mut results = page.results;
        self.collected.append(&mut results);
        let exhausted: bool = match self.budget {
            Some(k) => {
                let k2 = k - 1;
                self.budget = Some(k2);
                k2 == 0
            },
            None => false,
        };
        self.pending = match page.next {
            Some(u) => {
                if exhausted {
                    self.truncated = true;
                    None
                } else {
                    Some(self.rewrite.apply(u.as_str()))
                }
            },
            None => None,
        };
        proof {
            assert(final(self).model() =~= step(old(self).model(), page.frame()));
        }
    }

    /// Every collected element, in page order.
    pub fn into_results(self) -> (r: Vec<T>)
        ensures
            r@ == self.collected@,
    {
        self.collected
    }
}

} // verus!
