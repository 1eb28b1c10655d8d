//! The rules of fetching a search page by page: which request comes next,
//! what is merged, and when the fetch ends.

use vstd::prelude::*;
use crate::collection::{merged, CardCollection, CollectionView};

verus! {

/// Why a fetch ended without a result.
#[derive(Clone, Copy, Debug, PartialEq, Eq, Structural)]
pub enum FetchError {
    /// The transport could not deliver a page.
    Transport,
    /// A page's body could not be decoded.
    Decode,
}

/// The pause before each page after the first, in milliseconds.
pub const INTER_PAGE_DELAY_MS: u64 = 100;

/// What the driver of a fetch has to do next.
#[derive(Debug, PartialEq, Eq)]
pub enum FetchStep {
    /// Wait `delay_ms` milliseconds, get `uri`, and hand the outcome to
    /// [`Pagination::on_reply`] of `state`.
    Request { state: Pagination, uri: String, delay_ms: u64 },
    /// Every page is merged: this is the result.
    Done(CardCollection),
    /// The fetch is over and has no result.
    Failed(FetchError),
}

/// The pages merged so far; none before the first page has come.
#[derive(Debug, PartialEq, Eq)]
pub struct Pagination {
    pub merged: Option<CardCollection>,
}

/// The mathematical content of a [`FetchStep`].
pub enum StepView {
    Request { merged: Option<CollectionView>, uri: Seq<char>, delay_ms: u64 },
    Done(CollectionView),
    Failed(FetchError),
}

impl View for Pagination {
    type V = Option<CollectionView>;

    open spec fn view(&self) -> Option<CollectionView> {
        match self.merged {
            Some(collection) => Some(collection@),
            None => None,
        }
    }
}

impl View for FetchStep {
    type V = StepView;

    open spec fn view(&self) -> StepView {
        match self {
            FetchStep::Request { state, uri, delay_ms } => StepView::Request {
                merged: state@,
                uri: uri@,
                delay_ms: *delay_ms,
            },
            FetchStep::Done(collection) => StepView::Done(collection@),
            FetchStep::Failed(error) => StepView::Failed(*error),
        }
    }
}

/// The address of the first page of a search: the fixed base with the query
/// behind it, character for character.
pub open spec fn search_uri_of(query: Seq<char>) -> Seq<char> {
    "https://api.scryfall.com/cards/search?q="@ + query
}

/// What has been merged once `page` has come.
pub open spec fn with_page(so_far: Option<CollectionView>, page: CollectionView) -> CollectionView {
    match so_far {
        Some(first) => merged(first, page),
        None => page,
    }
}

/// The step that follows a reply: a failure ends the fetch; a page is merged,
/// and its link, if it has one, is the next request after the pause.
pub open spec fn step_after(
    so_far: Option<CollectionView>,
    reply: Result<CollectionView, FetchError>,
) -> StepView {
    match reply {
        Err(error) => StepView::Failed(error),
        Ok(page) => {
            let all = with_page(so_far, page);
            match all.next_page {
                Some(uri) => StepView::Request {
                    merged: Some(all),
                    uri,
                    delay_ms: INTER_PAGE_DELAY_MS,
                },
                None => StepView::Done(all),
            }
        },
    }
}

/// How a fetch ends on the replies that its requests get, in order: `None`
/// while it still waits for a reply that the sequence does not hold.
pub open spec fn outcome(
    so_far: Option<CollectionView>,
    replies: Seq<Result<CollectionView, FetchError>>,
) -> Option<Result<CollectionView, FetchError>>
    decreases replies.len(),
{
    if replies.len() == 0 {
        None
    } else {
        match step_after(so_far, replies[0]) {
            StepView::Failed(error) => Some(Err(error)),
            StepView::Done(all) => Some(Ok(all)),
            StepView::Request { merged, uri, delay_ms } => outcome(merged, replies.skip(1)),
        }
    }
}

/// The address of the first page of the search for `query`.
pub fn search_uri(query: &str) -> (r: String)
    ensures
        r@ == search_uri_of(query@),
{
    let mut uri = String::from_str("https://api.scryfall.com/cards/search?q=");
    uri.append(query);
    uri
}

/// Begins the fetch of every page of the search for `terms`: the first
/// request goes out at once, with nothing merged yet.
pub fn query(terms: &str) -> (r: FetchStep)
    ensures
        r@ == (StepView::Request {
            merged: None,
            uri: search_uri_of(terms@),
            delay_ms: 0,
        }),
{
    FetchStep::Request {
        state: Pagination { merged: None },
        uri: search_uri(terms),
        delay_ms: 0,
    }
}

impl Pagination {
    /// Takes the outcome of the request that was asked for last and says what
    /// comes next.
    pub fn on_reply(self, reply: Result<CardCollection, FetchError>) -> (r: FetchStep)
        ensures
            r@ == step_after(
                self@,
                match reply {
                    Ok(page) => Ok(page@),
                    Err(error) => Err(error),
                },
            ),
    {
        match reply {
            Err(error) => FetchStep::Failed(error),
            Ok(page) => {
                let all = match self.merged {
                    Some(first) => {
                        let mut first = first;
                        first.append(page);
                        first
                    },
                    None => page,
                };
                match crate::card::clone_text(&all.next_page) {
                    Some(uri) => FetchStep::Request {
                        state: Pagination { merged: Some(all) },
                        uri,
                        delay_ms: INTER_PAGE_DELAY_MS,
                    },
                    None => FetchStep::Done(all),
                }
            },
        }
    }
}

/// The mathematical content of a reply.
pub open spec fn reply_view(reply: Result<CardCollection, FetchError>) -> Result<
    CollectionView,
    FetchError,
> {
    match reply {
        Ok(page) => Ok(page@),
        Err(error) => Err(error),
    }
}

/// The mathematical content of a sequence of replies.
pub open spec fn replies_view(replies: Seq<Result<CardCollection, FetchError>>) -> Seq<
    Result<CollectionView, FetchError>,
> {
    Seq::new(replies.len(), |i: int| reply_view(replies[i]))
}

/// How a fetch that stands at `step` ends on the replies that are still to
/// come.
pub open spec fn outcome_from(
    step: StepView,
    replies: Seq<Result<CollectionView, FetchError>>,
) -> Option<Result<CollectionView, FetchError>> {
    match step {
        StepView::Failed(error) => Some(Err(error)),
        StepView::Done(all) => Some(Ok(all)),
        StepView::Request { merged, uri, delay_ms } => outcome(merged, replies),
    }
}

/// The mathematical content of the end of a fetch.
pub open spec fn end_view(end: Option<Result<CardCollection, FetchError>>) -> Option<
    Result<CollectionView, FetchError>,
> {
    match end {
        Some(reply) => Some(reply_view(reply)),
        None => None,
    }
}

/// Runs a whole fetch for `terms` against replies that are already at hand,
/// the first for the first request and so on, without any waiting. Returns
/// how the fetch ends, or `None` where it would ask for a reply beyond the
/// last one. Replies that the fetch does not come to are ignored.
pub fn replay(terms: &str, replies: &Vec<Result<CardCollection, FetchError>>) -> (r: Option<
    Result<CardCollection, FetchError>,
>)
    ensures
        end_view(r) == outcome(None, replies_view(replies@)),
{
    let ghost all = replies_view(replies@);
    let mut step = query(terms);
    let mut i: usize = 0;
    assert(all.skip(0) =~= all);
    while i < replies.len()
        invariant
            0 <= i <= replies.len(),
            all == replies_view(replies@),
            outcome(None, all) == outcome_from(step@, all.skip(i as int)),
        decreases replies.len() - i,
    {
        match step {
            FetchStep::Request { state, uri, delay_ms } => {
                let reply = match &replies[i] {
                    Ok(page) => Ok(page.clone()),
                    Err(error) => Err(*error),
                };
                proof {
                    assert(all.skip(i as int).skip(1) =~= all.skip(i + 1));
                }
                step = state.on_reply(reply);
            },
            FetchStep::Done(cards) => {
                return Some(Ok(cards));
            },
            FetchStep::Failed(error) => {
                return Some(Err(error));
            },
        }
        i += 1;
    }
    match step {
        FetchStep::Request { state, uri, delay_ms } => None,
        FetchStep::Done(cards) => Some(Ok(cards)),
        FetchStep::Failed(error) => Some(Err(error)),
    }
}

/// The cards of a sequence of pages, page after page.
pub open spec fn cards_of_pages(pages: Seq<CollectionView>) -> Seq<crate::card::CardView>
    decreases pages.len(),
{
    if pages.len() == 0 {
        Seq::empty()
    } else {
        pages[0].cards + cards_of_pages(pages.skip(1))
    }
}

/// The replies of a transport that delivers each of `pages` in turn.
pub open spec fn delivered(pages: Seq<CollectionView>) -> Seq<Result<CollectionView, FetchError>> {
    Seq::new(pages.len(), |i: int| Ok(pages[i]))
}

/// Whether `pages` is a chain: every page but the last links to a next page,
/// and the last does not.
pub open spec fn is_chain(pages: Seq<CollectionView>) -> bool {
    &&& pages.len() > 0
    &&& forall|i: int| 0 <= i < pages.len() - 1 ==> (#[trigger] pages[i]).next_page is Some
    &&& pages.last().next_page is None
}

/// What a fetch holds once a chain of pages has come on top of what was
/// merged before.
pub open spec fn chain_result(
    so_far: Option<CollectionView>,
    pages: Seq<CollectionView>,
) -> CollectionView {
    CollectionView {
        total_cards: match so_far {
            Some(first) => first.total_cards,
            None => pages[0].total_cards,
        },
        cards: match so_far {
            Some(first) => first.cards + cards_of_pages(pages),
            None => cards_of_pages(pages),
        },
        next_page: None,
    }
}

/// A fetch that gets a chain of pages ends with all of their cards in page
/// order, after those merged before, under the declared total of the very
/// first page, and with no link left.
pub proof fn lemma_chain_is_merged(so_far: Option<CollectionView>, pages: Seq<CollectionView>)
    requires
        is_chain(pages),
    ensures
        outcome(so_far, delivered(pages)) == Some(
            Ok::<CollectionView, FetchError>(chain_result(so_far, pages)),
        ),
    decreases pages.len(),
{
    let all = with_page(so_far, pages[0]);
    let rest = pages.skip(1);
    assert(delivered(pages)[0] == Ok::<CollectionView, FetchError>(pages[0]));
    if pages.len() == 1 {
        assert(cards_of_pages(rest) =~= Seq::<crate::card::CardView>::empty());
        assert(all.cards =~= chain_result(so_far, pages).cards);
    } else {
        assert(delivered(pages).skip(1) =~= delivered(rest));
        assert forall|i: int| 0 <= i < rest.len() - 1 implies (#[trigger] rest[i]).next_page
            is Some by {
            assert(rest[i] == pages[i + 1]);
        }
        lemma_chain_is_merged(Some(all), rest);
        assert(chain_result(Some(all), rest).cards =~= chain_result(so_far, pages).cards);
    }
}

/// A fetch from the start over a chain of pages returns the cards of every
/// page in order, the first page's declared total, and no link.
pub proof fn lemma_fetch_returns_every_page(pages: Seq<CollectionView>)
    requires
        is_chain(pages),
    ensures
        outcome(None, delivered(pages)) == Some(
            Ok::<CollectionView, FetchError>(
                CollectionView {
                    total_cards: pages[0].total_cards,
                    cards: cards_of_pages(pages),
                    next_page: None,
                },
            ),
        ),
{
    lemma_chain_is_merged(None, pages);
}

/// A failure aborts the fetch with that failure, however many pages came
/// before it and whatever comes after it: no card of an earlier page is
/// returned.
pub proof fn lemma_failure_aborts(
    so_far: Option<CollectionView>,
    replies: Seq<Result<CollectionView, FetchError>>,
    k: int,
)
    requires
        0 <= k < replies.len(),
        replies[k] is Err,
        forall|i: int|
            0 <= i < k ==> (#[trigger] replies[i]) is Ok && replies[i]->Ok_0.next_page is Some,
    ensures
        outcome(so_far, replies) == Some(
            Err::<CollectionView, FetchError>(replies[k]->Err_0),
        ),
    decreases k,
{
    if k > 0 {
        let all = with_page(so_far, replies[0]->Ok_0);
        let rest = replies.skip(1);
        assert forall|i: int| 0 <= i < k - 1 implies (#[trigger] rest[i]) is Ok
            && rest[i]->Ok_0.next_page is Some by {
            assert(rest[i] == replies[i + 1]);
        }
        lemma_failure_aborts(Some(all), rest, k - 1);
    }
}

} // verus!
