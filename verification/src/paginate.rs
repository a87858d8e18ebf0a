//! The pagination state machine.
//!
//! The registry returns large result sets page by page, each response
//! naming the next page in a `Link` header. The paginator keeps the pages
//! collected so far and the path of the next request; the HTTP shell
//! drives it in a loop, issuing one GET per pending path and feeding back
//! the decoded page together with the raw `Link` header bytes. The loop
//! stops the first time a response carries no usable continuation link.
//!
//! Decoding failure of a page body is treated as fatal by the shell (the
//! error aborts the whole listing); the paginator itself only ever sees
//! pages that decoded.

use vstd::prelude::*;

use crate::api::opt_bytes;
use crate::ascii::ascii_chars;
use crate::ascii::is_visible_ascii;
use crate::error::ApiError;
use crate::link::link_target;
use crate::link::parse_rfc5988;

verus! {

/// The pending path after one response whose raw `Link` header bytes were
/// `link`: the continuation URI if the header holds one, nothing when the
/// header is absent, unreadable (the loop stops with an error), or of any
/// other shape.
pub open spec fn next_pending(link: Option<Seq<u8>>) -> Option<Seq<char>> {
    match link {
        None => None,
        Some(v) => if !is_visible_ascii(v) {
            None
        } else {
            match link_target(v) {
                Some(t) => Some(ascii_chars(t)),
                None => None,
            }
        },
    }
}

/// Whether a response hands pagination on to a further request.
pub open spec fn is_continuation(link: Option<Seq<u8>>) -> bool {
    next_pending(link) is Some
}

/// Whether the `Link` header of a response, if any, reads as text.
pub open spec fn link_readable(link: Option<Seq<u8>>) -> bool {
    match link {
        None => true,
        Some(v) => is_visible_ascii(v),
    }
}

/// Whether a limit of `limit` pages is reached once `count` pages are
/// collected.
pub open spec fn limit_reached(limit: Option<usize>, count: int) -> bool {
    limit matches Some(m) && count >= m
}

/// An in-progress paginated fetch: the pages collected so far, the path
/// of the next request while one is owed, and an optional cap on the
/// number of pages followed (a guard against a server that never stops
/// announcing continuations).
pub struct Paginator<T> {
    pages: Vec<T>,
    next: Option<String>,
    limit: Option<usize>,
}

impl<T> Paginator<T> {
    /// The pages collected so far, in request order.
    pub closed spec fn pages(&self) -> Seq<T> {
        self.pages@
    }

    /// The path of the next request, while pagination is unfinished.
    pub closed spec fn pending(&self) -> Option<Seq<char>> {
        match self.next {
            Some(p) => Some(p@),
            None => None,
        }
    }

    /// The cap on the number of pages, if one was set.
    pub closed spec fn page_limit(&self) -> Option<usize> {
        self.limit
    }

    /// Start a paginated fetch at `initial_path`, following continuation
    /// links however many there are.
    pub fn new(initial_path: String) -> (r: Paginator<T>)
        ensures
            r.pages() == Seq::<T>::empty(),
            r.pending() == Some(initial_path@),
            r.page_limit() is None,
    {
        Paginator { pages: Vec::new(), next: Some(initial_path), limit: None }
    }

    /// Start a paginated fetch at `initial_path` that follows
    /// continuation links only up to `max_pages` pages in all.
    pub fn with_page_limit(initial_path: String, max_pages: usize) -> (r: Paginator<T>)
        ensures
            r.pages() == Seq::<T>::empty(),
            r.pending() == Some(initial_path@),
            r.page_limit() == Some(max_pages),
    {
        Paginator { pages: Vec::new(), next: Some(initial_path), limit: Some(max_pages) }
    }

    /// The path to request next, or nothing once pagination has finished.
    pub fn pending_path(&self) -> (r: Option<&String>)
        ensures
            match r {
                Some(p) => self.pending() == Some(p@),
                None => self.pending() is None,
            },
    {
        match &self.next {
            Some(p) => Some(p),
            None => None,
        }
    }

    /// Record one response: append its decoded page and take the pending
    /// path from its raw `Link` header bytes. A header that does not read
    /// as text is an error, and pagination stops. Once a page limit is
    /// reached, the header is not consulted and pagination stops.
    pub fn feed(&mut self, page: T, link_header: Option<&Vec<u8>>) -> (r: Result<(), ApiError>)
        requires
            old(self).pending() is Some,
        ensures
            final(self).pages() == old(self).pages().push(page),
            final(self).page_limit() == old(self).page_limit(),
            if limit_reached(old(self).page_limit(), old(self).pages().len() as int + 1) {
                final(self).pending() is None && r is Ok
            } else {
                &&& final(self).pending() == next_pending(opt_bytes(link_header))
                &&& (r is Ok <==> link_readable(opt_bytes(link_header)))
                &&& (r matches Err(e) ==> e is ResponseHeaderParseError)
            },
    {
        self.pages.push(page);
        let at_limit = match self.limit {
            Some(m) => self.pages.len() >= m,
            None => false,
        };
        if at_limit {
            self.next = None;
            return Ok(());
        }
        match parse_rfc5988(link_header) {
            Ok(Some(p)) => {
                self.next = Some(p);
                Ok(())
            },
            Ok(None) => {
                self.next = None;
                Ok(())
            },
            Err(e) => {
                self.next = None;
                Err(e)
            },
        }
    }

    /// All collected pages, once pagination has finished.
    pub fn into_pages(self) -> (r: Vec<T>)
        ensures
            r@ == self.pages(),
    {
        self.pages
    }
}

/// The pages the pagination loop collects from a sequence of responses,
/// each a decoded page paired with the raw bytes of its `Link` header:
/// the first response is always consumed, and each further one only while
/// its predecessor carried a usable continuation link.
pub open spec fn pages_collected<T>(resps: Seq<(T, Option<Seq<u8>>)>) -> Seq<T>
    decreases resps.len(),
{
    if resps.len() == 0 {
        Seq::empty()
    } else if is_continuation(resps.first().1) {
        seq![resps.first().0] + pages_collected(resps.skip(1))
    } else {
        seq![resps.first().0]
    }
}

/// How many requests the pagination loop issues against that same
/// sequence of responses.
pub open spec fn requests_made<T>(resps: Seq<(T, Option<Seq<u8>>)>) -> int
    decreases resps.len(),
{
    if resps.len() == 0 {
        0
    } else if is_continuation(resps.first().1) {
        1 + requests_made(resps.skip(1))
    } else {
        1
    }
}

/// Pagination terminates: when each of the first `n - 1` responses
/// carries a usable continuation link and the last carries none, the
/// pagination loop issues exactly `n` requests and collects the `n`
/// decoded pages in request order.
pub proof fn lemma_pagination_termination<T>(resps: Seq<(T, Option<Seq<u8>>)>)
    requires
        resps.len() > 0,
        forall|i: int| 0 <= i < resps.len() - 1 ==> is_continuation((#[trigger] resps[i]).1),
        !is_continuation(resps[resps.len() - 1].1),
    ensures
        requests_made(resps) == resps.len(),
        pages_collected(resps) == resps.map_values(|r: (T, Option<Seq<u8>>)| r.0),
    decreases resps.len(),
{
    let pages = resps.map_values(|r: (T, Option<Seq<u8>>)| r.0);
    if resps.len() == 1 {
        assert(pages_collected(resps) =~= pages);
    } else {
        assert(is_continuation(resps[0].1));
        lemma_pagination_termination(resps.skip(1));
        assert(pages_collected(resps) =~= pages);
    }
}

} // verus!
