//! Correspondents: immutable snapshots from the server, and the
//! case-insensitive lookup by name.

use vstd::prelude::*;
use vstd::string::StringExecFns;

use crate::errors::PaperlessError;
use crate::page::PageFrame;
use crate::paginate::{concat_results, lemma_walk_collects, walk, WalkState};
use crate::text::{
    i32_to_string, spec_decimal_i32, spec_eq_ignore_ascii_case, str_eq_ignore_ascii_case,
};

verus! {

/// One correspondent, as the server lists it. An immutable snapshot;
/// for lookup by name, equality is case-insensitive on `name`.
#[derive(Debug)]
pub struct Correspondent {
    /// The server-assigned id.
    pub id: i32,
    /// How many documents the server holds for this correspondent.
    pub document_count: i32,
    /// The display name; lookups compare it ignoring ASCII case.
    pub name: String,
    /// The server-assigned slug.
    pub slug: String,
    /// The owning user's id.
    pub owner: i32,
}

impl Clone for Correspondent {
    /// An exact copy.
    fn clone(&self) -> (r: Self)
        ensures
            r == *self,
    {
        Correspondent {
            id: self.id,
            document_count: self.document_count,
            name: self.name.clone(),
            slug: self.slug.clone(),
            owner: self.owner,
        }
    }
}

impl Correspondent {
    /// `name` names this correspondent, up to ASCII case.
    pub open spec fn spec_name_matches(&self, name: Seq<char>) -> bool {
        spec_eq_ignore_ascii_case(name, self.name@)
    }

    /// A one-line rendering: the id in brackets, then the quoted name.
    pub fn display_string(&self) -> (r: String)
        ensures
            r@ == "["@ + spec_decimal_i32(self.id as int) + "] \""@ + self.name@ + "\""@,
    {
        let r = String::from_str("[")
            .concat(i32_to_string(self.id).as_str())
            .concat("] \"")
            .concat(self.name.as_str())
            .concat("\"");
        proof {
            assert(r@ =~= "["@ + spec_decimal_i32(self.id as int) + "] \""@ + self.name@
                + "\""@);
        }
        r
    }
}

/// Find the first stored correspondent whose name equals `name` up to
/// ASCII case; when none matches, the lookup fails with
/// [`PaperlessError::UnknownCorrespondent`].
pub fn correspondent_for_name(name: &str, all: &Vec<Correspondent>) -> (r: Result<
    Correspondent,
    PaperlessError,
>)
    ensures
        match r {
            Ok(c) => exists|i: int|
                0 <= i < all@.len() && #[trigger] all@[i].spec_name_matches(name@) && c == all@[i]
                    && (forall|j: int| 0 <= j < i ==> !all@[j].spec_name_matches(name@)),
            Err(e) => e is UnknownCorrespondent && (forall|i: int|
                0 <= i < all@.len() ==> !all@[i].spec_name_matches(name@)),
        },
{
    let mut i: usize = 0;
    while i < all.len()
        invariant
            i <= all@.len(),
            forall|j: int| 0 <= j < i ==> !all@[j].spec_name_matches(name@),
        decreases all@.len() - i,
    {
        if str_eq_ignore_ascii_case(name, all[i].name.as_str()) {
            proof {
                assert(all@[i as int].spec_name_matches(name@));
            }
            return Ok(all[i].clone());
        }
        i = i + 1;
    }
    Err(PaperlessError::UnknownCorrespondent)
}

proof fn lemma_concat_results_elem<T>(pages: Seq<PageFrame<T>>, i: int)
    requires
        0 <= i < concat_results(pages).len(),
    ensures
        exists|p: int, j: int|
            0 <= p < pages.len() && 0 <= j < pages[p].results.len() && concat_results(pages)[i]
                == #[trigger] pages[p].results[j],
    decreases pages.len(),
{
    let head = pages.first().results;
    if i < head.len() {
        assert(concat_results(pages)[i] == pages[0].results[i]);
    } else {
        lemma_concat_results_elem(pages.drop_first(), i - head.len());
        let rest = pages.drop_first();
        let (p, j): (int, int) = choose|p: int, j: int|
            0 <= p < rest.len() && 0 <= j < rest[p].results.len() && concat_results(rest)[i
                - head.len()] == #[trigger] rest[p].results[j];
        assert(concat_results(pages)[i] == pages[p + 1].results[j]);
    }
}

/// Law: a name that matches on no page of a listing matches nowhere in
/// the walked collection either — after exhausting all pages, the lookup
/// by that name fails.
pub proof fn lemma_no_match_on_any_page(
    name: Seq<char>,
    s: WalkState<Correspondent>,
    pages: Seq<PageFrame<Correspondent>>,
)
    requires
        s.collected == Seq::<Correspondent>::empty(),
        forall|p: int, j: int|
            0 <= p < pages.len() && 0 <= j < pages[p].results.len() ==> !(#[trigger] pages[
                p
            ].results[j]).spec_name_matches(name),
    ensures
        forall|i: int|
            0 <= i < walk(s, pages).collected.len() ==> !(#[trigger] walk(
                s,
                pages,
            ).collected[i]).spec_name_matches(name),
{
    lemma_walk_collects(s, pages);
    assert(walk(s, pages).collected =~= concat_results(pages));
    assert forall|i: int| 0 <= i < walk(s, pages).collected.len() implies !(#[trigger] walk(
        s,
        pages,
    ).collected[i]).spec_name_matches(name) by {
        lemma_concat_results_elem(pages, i);
    }
}

} // verus!
