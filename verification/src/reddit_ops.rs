use vstd::prelude::*;
use roux::util::FeedOption;
use crate::filters::passes;
use crate::filters::CriteriaView;
use crate::filters::FilterCriteria;
use crate::models::item_views;
use crate::models::ItemType;
use crate::models::ItemView;
use crate::models::Timestamp;
use crate::models::UnifiedItem;
use crate::text::decimal;
use crate::text::option_text;
use crate::text::push_text;

verus! {

/// The query that asks for a page of `limit` items behind the cursor
/// `after`: `&after=` and the cursor where there is one, `&limit=` and the
/// size in decimal notation, then a closing `&`.
pub open spec fn feed_query(after: Option<Seq<char>>, limit: u32) -> Seq<char> {
    (match after {
        Some(token) => "&after="@ + token,
        None => Seq::<char>::empty(),
    }) + "&limit="@ + decimal(limit as int) + "&"@
}

/// `FeedOption::build_url` of roux, on options that hold the cursor `after`
/// and the page size `limit` and nothing else: it appends [`feed_query`] to
/// `url`.
#[verifier::external_body]
fn append_feed_options(url: &mut String, limit: u32, after: Option<&String>)
    ensures
        final(url)@ == old(url)@ + feed_query(
            match after {
                Some(token) => Some(token@),
                None => None,
            },
            limit,
        ),
{
    let mut options = FeedOption::new().limit(limit);
    options.after = after.cloned();
    options.build_url(url);
}

/// `roux::util::url::build_oauth`: the OAuth origin, a slash and `dest`.
pub assume_specification[ roux::util::url::build_oauth ](dest: &str) -> (r: String)
    ensures
        r@ == "https://oauth.reddit.com/"@ + dest@,
;

/// How many items one page request asks for.
pub const PAGE_LIMIT: u32 = 100;

/// Which of the account's two listings a request reads.
#[derive(Clone, Copy, Debug, PartialEq, Eq, Structural)]
pub enum Source {
    Posts,
    Comments,
}

impl Source {
    /// The listing's path segment.
    pub open spec fn segment(self) -> Seq<char> {
        match self {
            Source::Posts => "/submitted/.json?"@,
            Source::Comments => "/comments/.json?"@,
        }
    }
}

/// The URL of one listing page of `username`: the OAuth origin, the listing's
/// path, the cursor where there is one, and the page size.
pub open spec fn listing_url(username: Seq<char>, source: Source, after: Option<Seq<char>>) -> Seq<
    char,
> {
    "https://oauth.reddit.com/"@ + ("user/"@ + username + source.segment() + feed_query(
        after,
        PAGE_LIMIT,
    ))
}

/// Builds the URL of one listing page.
pub fn build_listing_url(username: &str, source: Source, after: &Option<String>) -> (url: String)
    ensures
        url@ == listing_url(username@, source, option_text(*after)),
{
    let mut path = String::new();
    push_text(&mut path, "user/");
    push_text(&mut path, username);
    match source {
        Source::Posts => push_text(&mut path, "/submitted/.json?"),
        Source::Comments => push_text(&mut path, "/comments/.json?"),
    }
    append_feed_options(&mut path, PAGE_LIMIT, after.as_ref());
    roux::util::url::build_oauth(path.as_str())
}

/// A post as the remote listing gives it, reduced to what the pipeline reads.
#[derive(Clone, Debug)]
pub struct RawPost {
    /// Full remote identifier.
    pub name: String,
    pub subreddit: String,
    pub title: String,
    pub selftext: String,
    pub ups: i32,
    pub num_comments: i32,
    pub permalink: String,
    pub created_utc: Timestamp,
}

/// A comment as the remote listing gives it, reduced to what the pipeline
/// reads. The remote service may leave any field out.
#[derive(Clone, Debug)]
pub struct RawComment {
    /// Full remote identifier.
    pub name: Option<String>,
    pub subreddit: Option<String>,
    /// Title of the post that the comment stands under.
    pub link_title: Option<String>,
    pub body: Option<String>,
    pub score: Option<i32>,
    pub permalink: Option<String>,
    pub created_utc: Option<Timestamp>,
}

/// The text of an optional string, empty where it is absent.
pub open spec fn text_or_empty(s: Option<String>) -> Seq<char> {
    match s {
        Some(t) => t@,
        None => Seq::empty(),
    }
}

/// The unified record of a post.
pub open spec fn post_item(raw: RawPost) -> ItemView {
    ItemView {
        id: raw.name@,
        item_type: ItemType::Post,
        subreddit: raw.subreddit@,
        title: raw.title@,
        content: raw.selftext@,
        upvotes: raw.ups,
        num_comments: raw.num_comments,
        permalink: raw.permalink@,
        created_utc: raw.created_utc,
    }
}

/// The unified record of a comment: absent texts are empty, an absent score
/// or creation time is 0, and a comment has no comment count.
pub open spec fn comment_item(raw: RawComment) -> ItemView {
    ItemView {
        id: text_or_empty(raw.name),
        item_type: ItemType::Comment,
        subreddit: text_or_empty(raw.subreddit),
        title: text_or_empty(raw.link_title),
        content: text_or_empty(raw.body),
        upvotes: match raw.score {
            Some(score) => score,
            None => 0i32,
        },
        num_comments: 0i32,
        permalink: text_or_empty(raw.permalink),
        created_utc: match raw.created_utc {
            Some(created) => created,
            None => 0i128,
        },
    }
}

/// The predicate "is kept under these criteria".
pub open spec fn keeps(criteria: CriteriaView) -> spec_fn(ItemView) -> bool {
    |item: ItemView| passes(item, criteria)
}

/// The unified records of the posts that the criteria keep, in listing order.
pub open spec fn kept_posts(raws: Seq<RawPost>, criteria: CriteriaView) -> Seq<ItemView> {
    raws.map_values(|raw: RawPost| post_item(raw)).filter(keeps(criteria))
}

/// The unified records of the comments that the criteria keep, in listing
/// order.
pub open spec fn kept_comments(raws: Seq<RawComment>, criteria: CriteriaView) -> Seq<ItemView> {
    raws.map_values(|raw: RawComment| comment_item(raw)).filter(keeps(criteria))
}

fn or_empty(s: Option<String>) -> (out: String)
    ensures
        out@ == text_or_empty(s),
{
    match s {
        Some(t) => t,
        None => String::new(),
    }
}

/// Maps a post onto the unified record.
pub fn normalize_post(raw: RawPost) -> (item: UnifiedItem)
    ensures
        item@ == post_item(raw),
{
    UnifiedItem {
        id: raw.name,
        item_type: ItemType::Post,
        subreddit: raw.subreddit,
        title: raw.title,
        content: raw.selftext,
        upvotes: raw.ups,
        num_comments: raw.num_comments,
        permalink: raw.permalink,
        created_utc: raw.created_utc,
    }
}

/// Maps a comment onto the unified record.
pub fn normalize_comment(raw: RawComment) -> (item: UnifiedItem)
    ensures
        item@ == comment_item(raw),
{
    UnifiedItem {
        id: or_empty(raw.name),
        item_type: ItemType::Comment,
        subreddit: or_empty(raw.subreddit),
        title: or_empty(raw.link_title),
        content: or_empty(raw.body),
        upvotes: match raw.score {
            Some(score) => score,
            None => 0,
        },
        num_comments: 0,
        permalink: or_empty(raw.permalink),
        created_utc: match raw.created_utc {
            Some(created) => created,
            None => 0,
        },
    }
}

/// Normalizes the posts and appends those that the criteria keep.
pub fn collect_posts(raws: Vec<RawPost>, criteria: &FilterCriteria, out: &mut Vec<UnifiedItem>)
    ensures
        item_views(final(out)@) == item_views(old(out)@) + kept_posts(raws@, criteria@),
{
    let ghost all = raws@;
    let ghost normalized = all.map_values(|raw: RawPost| post_item(raw));
    let ghost before = item_views(out@);
    proof {
        reveal(Seq::filter);
        assert(normalized.take(0) == Seq::<ItemView>::empty());
    }
    for raw in iter: raws
        invariant
            iter.seq() == all,
            normalized == all.map_values(|raw: RawPost| post_item(raw)),
            item_views(out@) == before + normalized.take(iter.index() as int).filter(
                keeps(criteria@),
            ),
    {
        let ghost i = iter.index() as int;
        let ghost so_far = item_views(out@);
        let item = normalize_post(raw);
        proof {
            assert(normalized.take(i + 1) == normalized.take(i).push(item@));
            normalized.take(i).lemma_filter_push(item@, keeps(criteria@));
        }
        if criteria.matches(&item) {
            out.push(item);
            assert(item_views(out@) == so_far.push(item@));
        }
    }
    assert(normalized.take(all.len() as int) == normalized);
}

/// Normalizes the comments and appends those that the criteria keep.
pub fn collect_comments(
    raws: Vec<RawComment>,
    criteria: &FilterCriteria,
    out: &mut Vec<UnifiedItem>,
)
    ensures
        item_views(final(out)@) == item_views(old(out)@) + kept_comments(raws@, criteria@),
{
    let ghost all = raws@;
    let ghost normalized = all.map_values(|raw: RawComment| comment_item(raw));
    let ghost before = item_views(out@);
    proof {
        reveal(Seq::filter);
        assert(normalized.take(0) == Seq::<ItemView>::empty());
    }
    for raw in iter: raws
        invariant
            iter.seq() == all,
            normalized == all.map_values(|raw: RawComment| comment_item(raw)),
            item_views(out@) == before + normalized.take(iter.index() as int).filter(
                keeps(criteria@),
            ),
    {
        let ghost i = iter.index() as int;
        let ghost so_far = item_views(out@);
        let item = normalize_comment(raw);
        proof {
            assert(normalized.take(i + 1) == normalized.take(i).push(item@));
            normalized.take(i).lemma_filter_push(item@, keeps(criteria@));
        }
        if criteria.matches(&item) {
            out.push(item);
            assert(item_views(out@) == so_far.push(item@));
        }
    }
    assert(normalized.take(all.len() as int) == normalized);
}

/// Where a retrieval stands: which reply it waits for.
#[derive(Clone, Copy, Debug, PartialEq, Eq, Structural)]
pub enum FetchStage {
    /// The posts listing was requested.
    Posts,
    /// A page of the comments listing was requested.
    Comments,
    /// Nothing is outstanding: the retrieval is complete or has failed.
    Finished,
}

/// A page request that failed, or a reply that could not be decoded.
#[derive(Debug)]
pub struct RetrievalError {
    /// The listing whose collection was aborted.
    pub source: Source,
    /// What the transport or the decoder reported.
    pub reason: String,
}

/// What came back for the request that a retrieval is waiting on.
#[derive(Debug)]
pub enum FetchEvent {
    /// The posts listing.
    Posts { children: Vec<RawPost> },
    /// One page of the comments listing, with the cursor of the next page.
    Comments { children: Vec<RawComment>, after: Option<String> },
    /// The request failed or its reply could not be decoded.
    Failed { reason: String },
}

/// What the caller is to do next.
#[derive(Debug)]
pub enum FetchAction {
    /// Request `url` and hand back the reply as an event of `source`'s kind.
    Get { source: Source, url: String },
    /// The retrieval is complete; `items` of the state holds the result.
    Done,
    /// The retrieval is aborted.
    Failed { error: RetrievalError },
    /// The event does not answer the outstanding request; the state is as
    /// it was.
    Rejected,
}

/// A retrieval in progress.
#[derive(Debug)]
pub struct Retrieval {
    pub username: String,
    pub criteria: FilterCriteria,
    /// Whether the comments listing is read once the posts are in.
    pub fetch_comments: bool,
    pub stage: FetchStage,
    /// The kept records of the listings that are complete.
    pub items: Vec<UnifiedItem>,
    /// The comments of the pages read so far, unfiltered.
    pub raw_comments: Vec<RawComment>,
    /// The cursor that the latest comments page returned.
    pub after_token: Option<String>,
    /// The number of the comments page that is outstanding, from 1; it stops
    /// counting at `u64::MAX`.
    pub page_count: u64,
}

/// Whether a comments page ends the listing: it returned no cursor, or it is
/// not the first page and holds no item. An empty first page with a cursor
/// does not end it.
pub open spec fn is_last_page(after: Option<Seq<char>>, fetched: nat, page_count: u64) -> bool {
    after is None || (fetched == 0 && page_count > 1)
}

/// The page number after `page_count`.
pub open spec fn next_page_count(page_count: u64) -> u64 {
    if page_count < u64::MAX {
        (page_count + 1) as u64
    } else {
        page_count
    }
}

/// The action "request this page of this listing".
pub open spec fn is_get(
    action: FetchAction,
    username: Seq<char>,
    wanted: Source,
    after: Option<Seq<char>>,
) -> bool {
    action matches FetchAction::Get { source, url } && source == wanted && url@ == listing_url(
        username,
        wanted,
        after,
    )
}

/// The step taken when the posts listing arrives: the kept posts join the
/// result, and the comments listing is requested where it is wanted.
pub open spec fn posts_received(
    pre: Retrieval,
    children: Seq<RawPost>,
    post: Retrieval,
    action: FetchAction,
) -> bool {
    &&& item_views(post.items@) == item_views(pre.items@) + kept_posts(children, pre.criteria@)
    &&& post.raw_comments@ == pre.raw_comments@
    &&& if pre.fetch_comments {
        &&& post.stage == FetchStage::Comments
        &&& post.after_token is None
        &&& post.page_count == 1
        &&& is_get(action, pre.username@, Source::Comments, None)
    } else {
        &&& post.stage == FetchStage::Finished
        &&& post.after_token == pre.after_token
        &&& post.page_count == pre.page_count
        &&& action is Done
    }
}

/// The step taken when a comments page arrives: its items join the raw
/// comments, and either the next page is requested with the returned cursor,
/// or, on the last page, all raw comments are filtered and normalized into
/// the result.
pub open spec fn page_received(
    pre: Retrieval,
    children: Seq<RawComment>,
    after: Option<Seq<char>>,
    post: Retrieval,
    action: FetchAction,
) -> bool {
    &&& option_text(post.after_token) == after
    &&& if is_last_page(after, children.len(), pre.page_count) {
        &&& post.stage == FetchStage::Finished
        &&& item_views(post.items@) == item_views(pre.items@) + kept_comments(
            pre.raw_comments@ + children,
            pre.criteria@,
        )
        &&& post.raw_comments@.len() == 0
        &&& post.page_count == pre.page_count
        &&& action is Done
    } else {
        &&& post.stage == FetchStage::Comments
        &&& post.items@ == pre.items@
        &&& post.raw_comments@ == pre.raw_comments@ + children
        &&& post.page_count == next_page_count(pre.page_count)
        &&& is_get(action, pre.username@, Source::Comments, after)
    }
}

/// The rule that ends the comments listing: after a page, the next one is
/// requested exactly when the page returned a cursor and either holds an
/// item or is the first page. In particular an empty first page that
/// returned a cursor does not end the listing, and an empty later page does.
pub proof fn lemma_pagination_rule(
    pre: Retrieval,
    children: Seq<RawComment>,
    after: Option<Seq<char>>,
    post: Retrieval,
    action: FetchAction,
)
    requires
        page_received(pre, children, after, post, action),
    ensures
        action is Get <==> after is Some && (children.len() > 0 || pre.page_count <= 1),
        action is Done <==> after is None || (children.len() == 0 && pre.page_count > 1),
        (action is Get) != (action is Done),
        pre.page_count == 1 && after is Some ==> action is Get,
        pre.page_count > 1 && children.len() == 0 ==> action is Done,
        after is None ==> action is Done,
{
}

/// The comments of a run of pages, in the order they were read.
pub open spec fn all_comments(pages: Seq<Seq<RawComment>>) -> Seq<RawComment>
    decreases pages.len(),
{
    if pages.len() == 0 {
        Seq::empty()
    } else {
        all_comments(pages.drop_last()) + pages.last()
    }
}

/// Whether page `k` of a run was taken in by the step for a comments page,
/// under unchanged criteria.
pub open spec fn is_run_step(
    states: Seq<Retrieval>,
    pages: Seq<Seq<RawComment>>,
    cursors: Seq<Option<Seq<char>>>,
    actions: Seq<FetchAction>,
    k: int,
) -> bool {
    &&& states[k + 1].criteria == states[k].criteria
    &&& page_received(states[k], pages[k], cursors[k], states[k + 1], actions[k])
}

/// Whether `states` is what a retrieval goes through while it reads `pages`,
/// page `k` arriving with cursor `cursors[k]` and answered by `actions[k]`:
/// the retrieval starts on the first page with no comment read, every page
/// is taken in by the step for a comments page, and every page but the last
/// of the run was answered by a request for the next.
pub open spec fn is_comments_run(
    states: Seq<Retrieval>,
    pages: Seq<Seq<RawComment>>,
    cursors: Seq<Option<Seq<char>>>,
    actions: Seq<FetchAction>,
) -> bool {
    &&& states.len() == pages.len() + 1
    &&& cursors.len() == pages.len()
    &&& actions.len() == pages.len()
    &&& states[0].page_count == 1
    &&& states[0].raw_comments@.len() == 0
    &&& forall|k: int|
        0 <= k < pages.len() ==> #[trigger] is_run_step(states, pages, cursors, actions, k)
    &&& forall|k: int| 0 <= k < pages.len() - 1 ==> #[trigger] actions[k] is Get
}

/// During a run the page counter stands at 1 exactly while the first page is
/// outstanding, the criteria stay what they were, nothing joins the result,
/// and the raw comments are those of the pages read so far.
pub proof fn lemma_run_prefix(
    states: Seq<Retrieval>,
    pages: Seq<Seq<RawComment>>,
    cursors: Seq<Option<Seq<char>>>,
    actions: Seq<FetchAction>,
    upto: int,
)
    requires
        is_comments_run(states, pages, cursors, actions),
        0 <= upto < pages.len(),
    ensures
        states[upto].page_count > 1 <==> upto > 0,
        states[upto].criteria == states[0].criteria,
        states[upto].items@ == states[0].items@,
        states[upto].raw_comments@ == all_comments(pages.take(upto)),
        forall|k: int| 0 <= k < upto ==> (#[trigger] cursors[k]) is Some && (pages[k].len() > 0 || k == 0),
    decreases upto,
{
    if upto > 0 {
        lemma_run_prefix(states, pages, cursors, actions, upto - 1);
        assert(actions[upto - 1] is Get);
        assert(is_run_step(states, pages, cursors, actions, upto - 1));
        assert(pages.take(upto).drop_last() == pages.take(upto - 1));
        assert(pages.take(upto).last() == pages[upto - 1]);
    } else {
        assert(pages.take(0) == Seq::<Seq<RawComment>>::empty());
        assert(states[0].raw_comments@ == Seq::<RawComment>::empty());
    }
}

/// Over a whole run of the comments listing: every page before the last of
/// the run returned a cursor and, unless it was the first, held an item; and
/// where the last page of the run ended the listing, it returned no cursor
/// or was an empty page behind the first, and the result gained exactly the
/// kept comments of all pages, in the order they were read.
pub proof fn lemma_comments_run(
    states: Seq<Retrieval>,
    pages: Seq<Seq<RawComment>>,
    cursors: Seq<Option<Seq<char>>>,
    actions: Seq<FetchAction>,
)
    requires
        is_comments_run(states, pages, cursors, actions),
        pages.len() > 0,
    ensures
        forall|k: int|
            0 <= k < pages.len() - 1 ==> (#[trigger] cursors[k]) is Some && (pages[k].len() > 0 || k
                == 0),
        actions.last() is Get ==> cursors.last() is Some && (pages.last().len() > 0 || pages.len()
            == 1),
        actions.last() is Done ==> {
            &&& cursors.last() is None || (pages.last().len() == 0 && pages.len() > 1)
            &&& item_views(states.last().items@) == item_views(states[0].items@) + kept_comments(
                all_comments(pages),
                states[0].criteria@,
            )
        },
{
    let last = pages.len() - 1;
    lemma_run_prefix(states, pages, cursors, actions, last);
    assert(is_run_step(states, pages, cursors, actions, last));
    assert(pages.drop_last() == pages.take(last));
    assert(all_comments(pages) == all_comments(pages.take(last)) + pages[last]);
}

/// The step taken when a request fails: the retrieval ends with the error,
/// the raw comments read so far are discarded, and what was already
/// collected stays.
pub open spec fn request_failed(
    pre: Retrieval,
    source: Source,
    reason: Seq<char>,
    post: Retrieval,
    action: FetchAction,
) -> bool {
    &&& post.stage == FetchStage::Finished
    &&& post.items@ == pre.items@
    &&& post.raw_comments@.len() == 0
    &&& post.after_token == pre.after_token
    &&& post.page_count == pre.page_count
    &&& action matches FetchAction::Failed { error }
    &&& error.source == source
    &&& error.reason@ == reason
}

impl Retrieval {
    /// Begins a retrieval for `username` and says what to request first. With
    /// neither listing wanted the retrieval is complete at once, with no item.
    pub fn start(
        username: &str,
        fetch_posts: bool,
        fetch_comments: bool,
        criteria: FilterCriteria,
    ) -> (r: (Retrieval, FetchAction))
        ensures
            r.0.username@ == username@,
            r.0.criteria == criteria,
            r.0.fetch_comments == fetch_comments,
            r.0.items@.len() == 0,
            r.0.raw_comments@.len() == 0,
            r.0.after_token is None,
            r.0.page_count == 1,
            if fetch_posts {
                r.0.stage == FetchStage::Posts && is_get(r.1, username@, Source::Posts, None)
            } else if fetch_comments {
                r.0.stage == FetchStage::Comments && is_get(r.1, username@, Source::Comments, None)
            } else {
                r.0.stage == FetchStage::Finished && r.1 is Done
            },
    {
        let stage = if fetch_posts {
            FetchStage::Posts
        } else if fetch_comments {
            FetchStage::Comments
        } else {
            FetchStage::Finished
        };
        let action = match stage {
            FetchStage::Posts => FetchAction::Get {
                source: Source::Posts,
                url: build_listing_url(username, Source::Posts, &None),
            },
            FetchStage::Comments => FetchAction::Get {
                source: Source::Comments,
                url: build_listing_url(username, Source::Comments, &None),
            },
            FetchStage::Finished => FetchAction::Done,
        };
        let mut name = String::new();
        push_text(&mut name, username);
        let state = Retrieval {
            username: name,
            criteria,
            fetch_comments,
            stage,
            items: Vec::new(),
            raw_comments: Vec::new(),
            after_token: None,
            page_count: 1,
        };
        (state, action)
    }

    /// Hands the collected items over.
    pub fn into_items(self) -> (items: Vec<UnifiedItem>)
        ensures
            items == self.items,
    {
        self.items
    }
}

/// Takes the reply to the outstanding request and decides what comes next.
///
/// The posts listing is read in one page. The comments listing is read page
/// by page, each request carrying the cursor that the page before returned,
/// until a page is the last one ([`is_last_page`]); only then are the
/// comments filtered and normalized. A failed request ends the retrieval.
/// An event that does not answer the outstanding request changes nothing.
pub fn fetch_user_items(state: &mut Retrieval, event: FetchEvent) -> (action: FetchAction)
    ensures
        final(state).username == old(state).username,
        final(state).criteria == old(state).criteria,
        final(state).fetch_comments == old(state).fetch_comments,
        match (old(state).stage, event) {
            (FetchStage::Posts, FetchEvent::Posts { children }) => posts_received(
                *old(state),
                children@,
                *final(state),
                action,
            ),
            (FetchStage::Posts, FetchEvent::Failed { reason }) => request_failed(
                *old(state),
                Source::Posts,
                reason@,
                *final(state),
                action,
            ),
            (FetchStage::Comments, FetchEvent::Comments { children, after }) => page_received(
                *old(state),
                children@,
                option_text(after),
                *final(state),
                action,
            ),
            (FetchStage::Comments, FetchEvent::Failed { reason }) => request_failed(
                *old(state),
                Source::Comments,
                reason@,
                *final(state),
                action,
            ),
            _ => action is Rejected && *final(state) == *old(state),
        },
{
    match (state.stage, event) {
        (FetchStage::Posts, FetchEvent::Posts { children }) => {
            collect_posts(children, &state.criteria, &mut state.items);
            if state.fetch_comments {
                state.stage = FetchStage::Comments;
                state.after_token = None;
                state.page_count = 1;
                FetchAction::Get {
                    source: Source::Comments,
                    url: build_listing_url(state.username.as_str(), Source::Comments, &None),
                }
            } else {
                state.stage = FetchStage::Finished;
                FetchAction::Done
            }
        },
        (FetchStage::Comments, FetchEvent::Comments { children, after }) => {
            let fetched = children.len();
            let mut page = children;
            state.raw_comments.append(&mut page);
            state.after_token = after;
            if state.after_token.is_none() || (fetched == 0 && state.page_count > 1) {
                let mut raws: Vec<RawComment> = Vec::new();
                std::mem::swap(&mut raws, &mut state.raw_comments);
                collect_comments(raws, &state.criteria, &mut state.items);
                state.stage = FetchStage::Finished;
                FetchAction::Done
            } else {
                if state.page_count < u64::MAX {
                    state.page_count = state.page_count + 1;
                }
                FetchAction::Get {
                    source: Source::Comments,
                    url: build_listing_url(
                        state.username.as_str(),
                        Source::Comments,
                        &state.after_token,
                    ),
                }
            }
        },
        (FetchStage::Posts, FetchEvent::Failed { reason }) => {
            state.stage = FetchStage::Finished;
            state.raw_comments = Vec::new();
            FetchAction::Failed { error: RetrievalError { source: Source::Posts, reason } }
        },
        (FetchStage::Comments, FetchEvent::Failed { reason }) => {
            state.stage = FetchStage::Finished;
            state.raw_comments = Vec::new();
            FetchAction::Failed { error: RetrievalError { source: Source::Comments, reason } }
        },
        _ => FetchAction::Rejected,
    }
}

} // verus!
