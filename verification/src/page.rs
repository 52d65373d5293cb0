//! One chunk of a paginated collection response, carrying a cursor to
//! the subsequent chunk.

use vstd::prelude::*;

verus! {

/// One page of a paginated server response: a batch of results plus an
/// optional pointer to the next page. Constructed per response by the
/// caller's decoder and discarded once its results are collected.
pub struct Page<T> {
    /// The server's count of elements in the whole collection.
    pub count: i32,
    /// The ids of every element of the collection, when the server
    /// includes them on the page.
    pub all: Vec<i32>,
    /// The URL of the next page, absent on the last page.
    pub next: Option<String>,
    /// The URL of the previous page, absent on the first page.
    pub previous: Option<String>,
    /// The elements of this page, in server-defined order.
    pub results: Vec<T>,
}

/// The part of a page the pagination engine reads: its results and its
/// cursor.
#[verifier::ext_equal]
pub struct PageFrame<T> {
    /// The page's elements.
    pub results: Seq<T>,
    /// The next-page URL, absent on the last page.
    pub next: Option<Seq<char>>,
}

impl<T> Page<T> {
    /// The abstraction of this page that the pagination engine acts on.
    pub open spec fn frame(&self) -> PageFrame<T> {
        PageFrame {
            results: self.results@,
            next: match self.next {
                Some(u) => Some(u@),
                None => None,
            },
        }
    }

    /// A well-formed page never claims fewer elements overall than it
    /// itself carries.
    pub open spec fn wf(&self) -> bool {
        self.results@.len() <= self.count as int
    }
}

} // verus!
