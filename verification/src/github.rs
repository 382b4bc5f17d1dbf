//! Listing an account: four collections are fetched page by page, all with
//! one request per round, until a round brings nothing.

use vstd::prelude::*;
use crate::text::{opt_text, texts};

verus! {

/// The names found in an account, by collection.
#[derive(Debug, PartialEq)]
pub struct Repositories {
    pub owned: Vec<String>,
    pub starred: Vec<String>,
    pub watched: Vec<String>,
    pub gists: Vec<String>,
}

/// The model of `Repositories`.
pub struct RepositoriesView {
    pub owned: Seq<Seq<char>>,
    pub starred: Seq<Seq<char>>,
    pub watched: Seq<Seq<char>>,
    pub gists: Seq<Seq<char>>,
}

impl View for Repositories {
    type V = RepositoriesView;

    open spec fn view(&self) -> RepositoriesView {
        RepositoriesView {
            owned: texts(self.owned@),
            starred: texts(self.starred@),
            watched: texts(self.watched@),
            gists: texts(self.gists@),
        }
    }
}

/// One entry of a page: a name, and the cursor that resumes after it.
#[derive(Debug, PartialEq)]
pub struct Edge {
    pub cursor: String,
    pub name: String,
}

/// The model of an `Edge`.
pub struct EdgeView {
    pub cursor: Seq<char>,
    pub name: Seq<char>,
}

impl View for Edge {
    type V = EdgeView;

    open spec fn view(&self) -> EdgeView {
        EdgeView { cursor: self.cursor@, name: self.name@ }
    }
}

/// The views of a list of edges, in order.
pub open spec fn edges_view(edges: Seq<Edge>) -> Seq<EdgeView> {
    Seq::new(edges.len(), |i: int| edges[i]@)
}

/// One response: the next entries of each collection.
#[derive(Debug, PartialEq)]
pub struct Page {
    pub owned: Vec<Edge>,
    pub starred: Vec<Edge>,
    pub watched: Vec<Edge>,
    pub gists: Vec<Edge>,
}

/// The model of a `Page`.
pub struct PageView {
    pub owned: Seq<EdgeView>,
    pub starred: Seq<EdgeView>,
    pub watched: Seq<EdgeView>,
    pub gists: Seq<EdgeView>,
}

impl View for Page {
    type V = PageView;

    open spec fn view(&self) -> PageView {
        PageView {
            owned: edges_view(self.owned@),
            starred: edges_view(self.starred@),
            watched: edges_view(self.watched@),
            gists: edges_view(self.gists@),
        }
    }
}

/// Where each collection resumes: `None` at its beginning.
#[derive(Debug, PartialEq)]
pub struct Cursors {
    pub owned: Option<String>,
    pub starred: Option<String>,
    pub watched: Option<String>,
    pub gists: Option<String>,
}

/// The model of `Cursors`.
pub struct CursorsView {
    pub owned: Option<Seq<char>>,
    pub starred: Option<Seq<char>>,
    pub watched: Option<Seq<char>>,
    pub gists: Option<Seq<char>>,
}

impl View for Cursors {
    type V = CursorsView;

    open spec fn view(&self) -> CursorsView {
        CursorsView {
            owned: opt_text(self.owned),
            starred: opt_text(self.starred),
            watched: opt_text(self.watched),
            gists: opt_text(self.gists),
        }
    }
}

/// Why a listing was given up.
#[derive(Debug, PartialEq, Eq, Clone, Copy, Structural)]
pub enum ListingError {
    /// A request was not answered.
    Transport,
    /// An answer could not be read.
    Malformed,
    /// The answers ended before a round came back empty.
    Incomplete,
}

/// The model of a listing under way.
pub struct ListingView {
    pub cursors: CursorsView,
    pub found: RepositoriesView,
}

/// A page that brings no entry in any collection.
pub open spec fn page_is_empty(page: PageView) -> bool {
    &&& page.owned.len() == 0
    &&& page.starred.len() == 0
    &&& page.watched.len() == 0
    &&& page.gists.len() == 0
}

/// The names of a list of edges, in order.
pub open spec fn edge_names(edges: Seq<EdgeView>) -> Seq<Seq<char>> {
    Seq::new(edges.len(), |i: int| edges[i].name)
}

/// The cursor of a collection after a page: that of the page's last entry,
/// or the old one where the page brought none.
pub open spec fn advance(cursor: Option<Seq<char>>, edges: Seq<EdgeView>) -> Option<Seq<char>> {
    if edges.len() == 0 {
        cursor
    } else {
        Some(edges.last().cursor)
    }
}

/// The listing before the first request.
pub open spec fn listing_start() -> ListingView {
    ListingView {
        cursors: CursorsView { owned: None, starred: None, watched: None, gists: None },
        found: RepositoriesView {
            owned: Seq::empty(),
            starred: Seq::empty(),
            watched: Seq::empty(),
            gists: Seq::empty(),
        },
    }
}

/// The listing after one more page: each collection gains the page's names
/// and moves its own cursor, independently of the others.
pub open spec fn absorb_page(listing: ListingView, page: PageView) -> ListingView {
    ListingView {
        cursors: CursorsView {
            owned: advance(listing.cursors.owned, page.owned),
            starred: advance(listing.cursors.starred, page.starred),
            watched: advance(listing.cursors.watched, page.watched),
            gists: advance(listing.cursors.gists, page.gists),
        },
        found: RepositoriesView {
            owned: listing.found.owned + edge_names(page.owned),
            starred: listing.found.starred + edge_names(page.starred),
            watched: listing.found.watched + edge_names(page.watched),
            gists: listing.found.gists + edge_names(page.gists),
        },
    }
}

/// A listing under way: the cursors of the next request, and what was found.
#[derive(Debug, PartialEq)]
pub struct Listing {
    pub cursors: Cursors,
    pub found: Repositories,
}

impl View for Listing {
    type V = ListingView;

    open spec fn view(&self) -> ListingView {
        ListingView { cursors: self.cursors@, found: self.found@ }
    }
}

fn take_edges(names: &mut Vec<String>, cursor: &mut Option<String>, edges: &Vec<Edge>)
    ensures
        texts(final(names)@) == texts(old(names)@) + edge_names(edges_view(edges@)),
        opt_text(*final(cursor)) == advance(opt_text(*old(cursor)), edges_view(edges@)),
{
    let ghost before = texts(names@);
    let ghost all = edges_view(edges@);
    let mut i: usize = 0;
    while i < edges.len()
        invariant
            i <= edges.len(),
            all == edges_view(edges@),
            texts(names@) == before + edge_names(all.subrange(0, i as int)),
            opt_text(*cursor) == advance(opt_text(*old(cursor)), all.subrange(0, i as int)),
        decreases edges.len() - i,
    {
        let ghost so_far = texts(names@);
        let edge = &edges[i];
        *cursor = Some(edge.cursor.clone());
        names.push(edge.name.clone());
        i += 1;
        assert(texts(names@) =~= so_far.push(edge.name@));
        assert(edge_names(all.subrange(0, i as int)) =~= edge_names(
            all.subrange(0, i as int - 1),
        ).push(edge.name@));
        assert(all.subrange(0, i as int).last() == edge@);
    }
    assert(all.subrange(0, edges.len() as int) =~= all);
}

impl Listing {
    /// A listing that has asked nothing yet.
    pub fn new() -> (r: Listing)
        ensures
            r@ == listing_start(),
    {
        let r = Listing {
            cursors: Cursors { owned: None, starred: None, watched: None, gists: None },
            found: Repositories {
                owned: Vec::new(),
                starred: Vec::new(),
                watched: Vec::new(),
                gists: Vec::new(),
            },
        };
        assert(r@.found.owned =~= Seq::empty());
        assert(r@.found.starred =~= Seq::empty());
        assert(r@.found.watched =~= Seq::empty());
        assert(r@.found.gists =~= Seq::empty());
        r
    }

    /// Takes in one page. Returns whether another request is due: it is
    /// unless the page was empty in all four collections at once.
    pub fn absorb(&mut self, page: &Page) -> (more: bool)
        ensures
            more == !page_is_empty(page@),
            final(self)@ == absorb_page(old(self)@, page@),
    {
        take_edges(&mut self.found.owned, &mut self.cursors.owned, &page.owned);
        take_edges(&mut self.found.starred, &mut self.cursors.starred, &page.starred);
        take_edges(&mut self.found.watched, &mut self.cursors.watched, &page.watched);
        take_edges(&mut self.found.gists, &mut self.cursors.gists, &page.gists);
        !(page.owned.len() == 0 && page.starred.len() == 0 && page.watched.len() == 0
            && page.gists.len() == 0)
    }

    /// What was found.
    pub fn finish(self) -> (r: Repositories)
        ensures
            r@ == self@.found,
    {
        self.found
    }
}

/// The views of a recorded exchange, in order.
pub open spec fn responses_view(responses: Seq<Result<Page, ListingError>>) -> Seq<
    Result<PageView, ListingError>,
> {
    Seq::new(
        responses.len(),
        |i: int|
            match responses[i] {
                Ok(page) => Ok(page@),
                Err(e) => Err(e),
            },
    )
}

/// A response that makes the listing go on: a page with an entry in it.
pub open spec fn brings_entries(response: Result<PageView, ListingError>) -> bool {
    response matches Ok(page) && !page_is_empty(page)
}

/// How a listing that stands at `listing` after `asked` requests ends when
/// the answers still to come are `responses`: with the first failure, at the
/// first empty page with what was found and the number of requests made, or
/// incomplete where the answers run out before either.
pub open spec fn replay_from(
    listing: ListingView,
    responses: Seq<Result<PageView, ListingError>>,
    asked: nat,
) -> Result<(RepositoriesView, nat), ListingError>
    decreases responses.len(),
{
    if responses.len() == 0 {
        Err(ListingError::Incomplete)
    } else {
        match responses[0] {
            Err(e) => Err(e),
            Ok(page) => if page_is_empty(page) {
                Ok((listing.found, asked + 1))
            } else {
                replay_from(absorb_page(listing, page), responses.drop_first(), asked + 1)
            },
        }
    }
}

/// How a listing ends when the answers to its requests are `responses`.
pub open spec fn replay_spec(responses: Seq<Result<PageView, ListingError>>) -> Result<
    (RepositoriesView, nat),
    ListingError,
> {
    replay_from(listing_start(), responses, 0)
}

/// The listing after the first `n` answers, where these are pages.
pub open spec fn listing_after(responses: Seq<Result<PageView, ListingError>>, n: nat) -> ListingView
    decreases n,
{
    if n == 0 {
        listing_start()
    } else {
        absorb_page(listing_after(responses, (n - 1) as nat), responses[n - 1]->Ok_0)
    }
}

proof fn lemma_replay_prefix(responses: Seq<Result<PageView, ListingError>>, k: nat)
    requires
        k <= responses.len(),
        forall|i: int| 0 <= i < k ==> brings_entries(#[trigger] responses[i]),
    ensures
        replay_spec(responses) == replay_from(
            listing_after(responses, k),
            responses.skip(k as int),
            k,
        ),
    decreases k,
{
    if k == 0 {
        assert(responses.skip(0) =~= responses);
    } else {
        lemma_replay_prefix(responses, (k - 1) as nat);
        let rest = responses.skip(k - 1);
        assert(rest[0] == responses[k - 1]);
        assert(brings_entries(responses[k - 1]));
        assert(rest.drop_first() =~= responses.skip(k as int));
    }
}

/// A listing stops at the first page that is empty in all four collections:
/// where `k` pages with entries come first, it asks `k + 1` times and finds
/// what those `k` pages hold, page after page.
pub proof fn lemma_replay_stops_at_first_empty_page(
    responses: Seq<Result<PageView, ListingError>>,
    k: nat,
)
    requires
        k < responses.len(),
        forall|i: int| 0 <= i < k ==> brings_entries(#[trigger] responses[i]),
        responses[k as int] matches Ok(page) && page_is_empty(page),
    ensures
        replay_spec(responses) == Ok::<(RepositoriesView, nat), ListingError>(
            (listing_after(responses, k).found, k + 1),
        ),
{
    lemma_replay_prefix(responses, k);
    assert(responses.skip(k as int)[0] == responses[k as int]);
}

/// A failure before the first empty page ends the listing with that
/// failure, whatever was found until then.
pub proof fn lemma_replay_fails_at_first_failure(
    responses: Seq<Result<PageView, ListingError>>,
    k: nat,
)
    requires
        k < responses.len(),
        forall|i: int| 0 <= i < k ==> brings_entries(#[trigger] responses[i]),
        responses[k as int] is Err,
    ensures
        replay_spec(responses) == Err::<(RepositoriesView, nat), ListingError>(
            responses[k as int]->Err_0,
        ),
{
    lemma_replay_prefix(responses, k);
    assert(responses.skip(k as int)[0] == responses[k as int]);
}

/// Runs a listing against recorded answers, one answer per request, and
/// returns what was found with the number of requests made.
pub fn replay(responses: &Vec<Result<Page, ListingError>>) -> (r: Result<
    (Repositories, usize),
    ListingError,
>)
    ensures
        match replay_spec(responses_view(responses@)) {
            Ok((found, asked)) => r matches Ok((f, n)) && f@ == found && n == asked,
            Err(e) => r == Err::<(Repositories, usize), ListingError>(e),
        },
{
    let ghost all = responses_view(responses@);
    let mut listing = Listing::new();
    let mut i: usize = 0;
    assert(all.skip(0) =~= all);
    while i < responses.len()
        invariant
            i <= responses.len(),
            all == responses_view(responses@),
            replay_spec(all) == replay_from(listing@, all.skip(i as int), i as nat),
        decreases responses.len() - i,
    {
        let ghost rest = all.skip(i as int);
        assert(rest[0] == all[i as int]);
        assert(rest.drop_first() =~= all.skip(i as int + 1));
        match &responses[i] {
            Err(e) => {
                return Err(*e);
            },
            Ok(page) => {
                let more = listing.absorb(page);
                if !more {
                    return Ok((listing.finish(), i + 1));
                }
            },
        }
        i += 1;
    }
    Err(ListingError::Incomplete)
}

} // verus!
