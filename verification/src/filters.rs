use vstd::prelude::*;
use crate::models::ItemType;
use crate::models::ItemView;
use crate::models::Timestamp;
use crate::models::UnifiedItem;
use crate::text::contains;
use crate::text::has_substring;
use crate::text::lowercase;
use crate::text::option_text;
use crate::text::split;
use crate::text::split_on;
use crate::text::texts;
use crate::text::to_lowercase;
use crate::text::trim;
use crate::text::trimmed;

verus! {

/// What an item has to meet to be kept. Every field is optional, and an
/// absent field matches every item.
///
/// The two age bounds are named after the age of an item, not after its
/// date: `min_age_timestamp` keeps what is at least that old, so what was
/// created at or before it, and `max_age_timestamp` keeps what is at most
/// that old, so what was created at or after it.
#[derive(Clone, Debug)]
pub struct FilterCriteria {
    /// Lower-case names of the communities to keep.
    pub include_subreddits: Option<Vec<String>>,
    /// Lower-case names of the communities to drop.
    pub exclude_subreddits: Option<Vec<String>>,
    /// Lowest score kept.
    pub min_score: Option<i32>,
    /// First score no longer kept.
    pub max_score: Option<i32>,
    /// Latest creation time kept.
    pub min_age_timestamp: Option<Timestamp>,
    /// Earliest creation time kept.
    pub max_age_timestamp: Option<Timestamp>,
    /// Text that the parent post's title of a comment must contain, whatever
    /// the case of the letters.
    pub title_substring: Option<String>,
}

/// The mathematical value of a [`FilterCriteria`].
pub struct CriteriaView {
    pub include_subreddits: Option<Seq<Seq<char>>>,
    pub exclude_subreddits: Option<Seq<Seq<char>>>,
    pub min_score: Option<i32>,
    pub max_score: Option<i32>,
    pub min_age_timestamp: Option<Timestamp>,
    pub max_age_timestamp: Option<Timestamp>,
    pub title_substring: Option<Seq<char>>,
}

/// The texts of an optional list of strings.
pub open spec fn option_texts(list: Option<Vec<String>>) -> Option<Seq<Seq<char>>> {
    match list {
        Some(names) => Some(texts(names@)),
        None => None,
    }
}

impl View for FilterCriteria {
    type V = CriteriaView;

    open spec fn view(&self) -> CriteriaView {
        CriteriaView {
            include_subreddits: option_texts(self.include_subreddits),
            exclude_subreddits: option_texts(self.exclude_subreddits),
            min_score: self.min_score,
            max_score: self.max_score,
            min_age_timestamp: self.min_age_timestamp,
            max_age_timestamp: self.max_age_timestamp,
            title_substring: option_text(self.title_substring),
        }
    }
}

impl CriteriaView {
    /// The criteria with nothing configured.
    pub open spec fn unrestricted() -> CriteriaView {
        CriteriaView {
            include_subreddits: None,
            exclude_subreddits: None,
            min_score: None,
            max_score: None,
            min_age_timestamp: None,
            max_age_timestamp: None,
            title_substring: None,
        }
    }
}

/// The predicate "is not empty".
pub open spec fn is_nonempty() -> spec_fn(Seq<char>) -> bool {
    |text: Seq<char>| text.len() > 0
}

/// The names that a list of pieces stands for: each piece trimmed and
/// lower-cased, the empty ones left out.
pub open spec fn subreddit_names(pieces: Seq<Seq<char>>) -> Seq<Seq<char>> {
    pieces.map_values(|piece: Seq<char>| lowercase(trimmed(piece))).filter(is_nonempty())
}

/// The community names of a comma-separated list.
pub open spec fn subreddit_list(list: Seq<char>) -> Seq<Seq<char>> {
    subreddit_names(split_on(list, ','))
}

/// Leaves the empty names out.
pub fn without_empty(names: Vec<String>) -> (kept: Vec<String>)
    ensures
        texts(kept@) == texts(names@).filter(is_nonempty()),
{
    let ghost all = texts(names@);
    let mut kept: Vec<String> = Vec::new();
    proof {
        reveal(Seq::filter);
        assert(all.take(0) == Seq::<Seq<char>>::empty());
    }
    for name in iter: names
        invariant
            iter.seq() == names@,
            all == texts(names@),
            texts(kept@) == all.take(iter.index() as int).filter(is_nonempty()),
    {
        let ghost i = iter.index() as int;
        let ghost before = texts(kept@);
        proof {
            assert(all.take(i + 1) == all.take(i).push(name@));
            all.take(i).lemma_filter_push(name@, is_nonempty());
        }
        if !name.as_str().is_empty() {
            kept.push(name);
            assert(texts(kept@) == before.push(name@));
        }
    }
    assert(all.take(all.len() as int) == all);
    kept
}

/// Reads a comma-separated list of community names: entries are trimmed and
/// lower-cased, empty entries are discarded.
pub fn parse_subreddit_list(list: &str) -> (names: Vec<String>)
    ensures
        texts(names@) == subreddit_list(list@),
{
    let pieces = split(list, ',');
    let ghost folded = texts(pieces@).map_values(|piece: Seq<char>| lowercase(trimmed(piece)));
    let mut names: Vec<String> = Vec::new();
    let mut i: usize = 0;
    while i < pieces.len()
        invariant
            i <= pieces.len(),
            folded == texts(pieces@).map_values(|piece: Seq<char>| lowercase(trimmed(piece))),
            texts(names@) == folded.take(i as int),
        decreases pieces.len() - i,
    {
        let ghost before = texts(names@);
        let stripped = trim(pieces[i].as_str());
        let name = to_lowercase(stripped.as_str());
        names.push(name);
        assert(texts(names@) == before.push(name@));
        assert(folded.take(i + 1) == folded.take(i as int).push(name@));
        i += 1;
    }
    assert(folded.take(pieces.len() as int) == folded);
    without_empty(names)
}

/// Whether the item's community is among those to keep.
pub open spec fn included(item: ItemView, criteria: CriteriaView) -> bool {
    match criteria.include_subreddits {
        Some(names) => names.contains(lowercase(item.subreddit)),
        None => true,
    }
}

/// Whether the item's community is not among those to drop.
pub open spec fn not_excluded(item: ItemView, criteria: CriteriaView) -> bool {
    match criteria.exclude_subreddits {
        Some(names) => !names.contains(lowercase(item.subreddit)),
        None => true,
    }
}

/// Whether the item's score reaches the lowest score kept.
pub open spec fn reaches_min_score(item: ItemView, criteria: CriteriaView) -> bool {
    match criteria.min_score {
        Some(bound) => item.upvotes >= bound,
        None => true,
    }
}

/// Whether the item's score stays under the exclusive upper bound.
pub open spec fn under_max_score(item: ItemView, criteria: CriteriaView) -> bool {
    match criteria.max_score {
        Some(bound) => item.upvotes < bound,
        None => true,
    }
}

/// Whether the item is at least as old as the minimum age asks: created at
/// or before the bound.
pub open spec fn old_enough(item: ItemView, criteria: CriteriaView) -> bool {
    match criteria.min_age_timestamp {
        Some(bound) => item.created_utc <= bound,
        None => true,
    }
}

/// Whether the item is at most as old as the maximum age asks: created at or
/// after the bound.
pub open spec fn recent_enough(item: ItemView, criteria: CriteriaView) -> bool {
    match criteria.max_age_timestamp {
        Some(bound) => item.created_utc >= bound,
        None => true,
    }
}

/// Whether a comment's parent title contains the wanted text, letter case
/// aside. A post always passes.
pub open spec fn title_matches(item: ItemView, criteria: CriteriaView) -> bool {
    match criteria.title_substring {
        Some(wanted) => item.item_type == ItemType::Comment ==> has_substring(
            lowercase(item.title),
            lowercase(wanted),
        ),
        None => true,
    }
}

/// Whether an item is kept: every configured predicate holds.
pub open spec fn passes(item: ItemView, criteria: CriteriaView) -> bool {
    &&& included(item, criteria)
    &&& not_excluded(item, criteria)
    &&& reaches_min_score(item, criteria)
    &&& under_max_score(item, criteria)
    &&& old_enough(item, criteria)
    &&& recent_enough(item, criteria)
    &&& title_matches(item, criteria)
}

/// Criteria with nothing configured keep every item.
pub proof fn lemma_unrestricted_passes_all(item: ItemView)
    ensures
        passes(item, CriteriaView::unrestricted()),
{
}

/// Both age bounds are inclusive: an item created exactly at the minimum-age
/// bound is old enough, and one created exactly at the maximum-age bound is
/// recent enough.
pub proof fn lemma_age_bounds_inclusive(item: ItemView, criteria: CriteriaView)
    ensures
        criteria.min_age_timestamp == Some(item.created_utc) ==> old_enough(item, criteria),
        criteria.max_age_timestamp == Some(item.created_utc) ==> recent_enough(item, criteria),
{
}

/// The two score bounds differ: the lower one is inclusive, the upper one is
/// exclusive.
pub proof fn lemma_score_bounds_asymmetric(item: ItemView, criteria: CriteriaView)
    ensures
        criteria.min_score == Some(item.upvotes) ==> reaches_min_score(item, criteria),
        criteria.max_score == Some(item.upvotes) ==> !under_max_score(item, criteria),
{
}

/// Whether `name` is one of `names`, letter for letter.
pub fn is_listed(names: &Vec<String>, name: &String) -> (r: bool)
    ensures
        r == texts(names@).contains(name@),
{
    let mut i: usize = 0;
    while i < names.len()
        invariant
            i <= names.len(),
            forall|k: int| 0 <= k < i ==> texts(names@)[k] != name@,
        decreases names.len() - i,
    {
        if names[i] == *name {
            assert(texts(names@)[i as int] == name@);
            return true;
        }
        i += 1;
    }
    false
}

/// The community names of an optional comma-separated list.
pub open spec fn optional_subreddit_list(list: Option<Seq<char>>) -> Option<Seq<Seq<char>>> {
    match list {
        Some(text) => Some(subreddit_list(text)),
        None => None,
    }
}

fn parse_optional_list(list: Option<&String>) -> (names: Option<Vec<String>>)
    ensures
        option_texts(names) == optional_subreddit_list(
            match list {
                Some(text) => Some(text@),
                None => None,
            },
        ),
{
    match list {
        Some(text) => Some(parse_subreddit_list(text.as_str())),
        None => None,
    }
}

impl FilterCriteria {
    /// Builds the criteria from the options as they were given: the two
    /// community lists still comma-separated, the age bounds as timestamps.
    pub fn new(
        subreddit: Option<&String>,
        exclude_subreddit: Option<&String>,
        min_score: Option<i32>,
        max_score: Option<i32>,
        min_age_timestamp: Option<Timestamp>,
        max_age_timestamp: Option<Timestamp>,
        post_title: Option<&String>,
    ) -> (criteria: FilterCriteria)
        ensures
            criteria@ == (CriteriaView {
                include_subreddits: optional_subreddit_list(
                    match subreddit {
                        Some(text) => Some(text@),
                        None => None,
                    },
                ),
                exclude_subreddits: optional_subreddit_list(
                    match exclude_subreddit {
                        Some(text) => Some(text@),
                        None => None,
                    },
                ),
                min_score,
                max_score,
                min_age_timestamp,
                max_age_timestamp,
                title_substring: match post_title {
                    Some(text) => Some(text@),
                    None => None,
                },
            }),
    {
        FilterCriteria {
            include_subreddits: parse_optional_list(subreddit),
            exclude_subreddits: parse_optional_list(exclude_subreddit),
            min_score,
            max_score,
            min_age_timestamp,
            max_age_timestamp,
            title_substring: match post_title {
                Some(text) => Some(text.clone()),
                None => None,
            },
        }
    }

    /// Criteria that keep every item.
    pub fn unrestricted() -> (criteria: FilterCriteria)
        ensures
            criteria@ == CriteriaView::unrestricted(),
    {
        FilterCriteria {
            include_subreddits: None,
            exclude_subreddits: None,
            min_score: None,
            max_score: None,
            min_age_timestamp: None,
            max_age_timestamp: None,
            title_substring: None,
        }
    }

    /// Whether the item's community is among those to keep.
    pub fn included(&self, item: &UnifiedItem) -> (r: bool)
        ensures
            r == included(item@, self@),
    {
        match &self.include_subreddits {
            Some(names) => {
                let community = to_lowercase(item.subreddit.as_str());
                is_listed(names, &community)
            },
            None => true,
        }
    }

    /// Whether the item's community is not among those to drop.
    pub fn not_excluded(&self, item: &UnifiedItem) -> (r: bool)
        ensures
            r == not_excluded(item@, self@),
    {
        match &self.exclude_subreddits {
            Some(names) => {
                let community = to_lowercase(item.subreddit.as_str());
                !is_listed(names, &community)
            },
            None => true,
        }
    }

    /// Whether the item's score lies in the configured range: at or above
    /// the lower bound, and below the upper one.
    pub fn score_in_range(&self, item: &UnifiedItem) -> (r: bool)
        ensures
            r == (reaches_min_score(item@, self@) && under_max_score(item@, self@)),
    {
        let above = match self.min_score {
            Some(bound) => item.upvotes >= bound,
            None => true,
        };
        let below = match self.max_score {
            Some(bound) => item.upvotes < bound,
            None => true,
        };
        above && below
    }

    /// Whether the item's age lies in the configured range, both bounds
    /// included.
    pub fn age_in_range(&self, item: &UnifiedItem) -> (r: bool)
        ensures
            r == (old_enough(item@, self@) && recent_enough(item@, self@)),
    {
        let old = match self.min_age_timestamp {
            Some(bound) => item.created_utc <= bound,
            None => true,
        };
        let recent = match self.max_age_timestamp {
            Some(bound) => item.created_utc >= bound,
            None => true,
        };
        old && recent
    }

    /// Whether a comment's parent title contains the wanted text.
    pub fn title_matches(&self, item: &UnifiedItem) -> (r: bool)
        ensures
            r == title_matches(item@, self@),
    {
        match &self.title_substring {
            Some(wanted) => {
                match item.item_type {
                    ItemType::Post => true,
                    ItemType::Comment => {
                        let title = to_lowercase(item.title.as_str());
                        let needle = to_lowercase(wanted.as_str());
                        contains(title.as_str(), needle.as_str())
                    },
                }
            },
            None => true,
        }
    }

    /// Whether the item is kept: the conjunction of all configured
    /// predicates.
    pub fn matches(&self, item: &UnifiedItem) -> (r: bool)
        ensures
            r == passes(item@, self@),
    {
        self.included(item) && self.not_excluded(item) && self.score_in_range(item)
            && self.age_in_range(item) && self.title_matches(item)
    }
}

} // verus!
