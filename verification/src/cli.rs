use vstd::prelude::*;
use crate::filters::optional_subreddit_list;
use crate::filters::CriteriaView;
use crate::filters::FilterCriteria;
use crate::models::Timestamp;
use crate::text::eq_ignore_ascii_case;
use crate::text::equal_ignoring_ascii_case;
use crate::text::option_text;

verus! {

/// The command-line options, already parsed.
#[derive(Clone, Debug)]
pub struct Cli {
    /// Comma-separated communities to keep.
    pub subreddit: Option<String>,
    /// Comma-separated communities to drop.
    pub exclude_subreddit: Option<String>,
    /// Lowest score kept (`--min-score`).
    pub score: Option<i32>,
    /// First score no longer kept (`--max-score`).
    pub max_score: Option<i32>,
    /// `post`, `comment` or `both`.
    pub item_type: Option<String>,
    pub debug: bool,
    pub delete: bool,
    /// Skip the confirmation before deleting.
    pub yes: bool,
    /// Replacement text for every kept item.
    pub overwrite: Option<String>,
    /// Path of the CSV file to write.
    pub csv: Option<String>,
    pub min_age: Option<String>,
    pub max_age: Option<String>,
    /// Text that the parent post's title of a comment must contain.
    pub post_title: Option<String>,
}

/// Which listings of the account are read.
#[derive(Clone, Copy, Debug, PartialEq, Eq, Structural)]
pub enum ItemSelection {
    Posts,
    Comments,
    Both,
    /// The option names no listing, so none is read.
    Neither,
}

/// The listings that an `--item-type` value selects, the case of its letters
/// aside: `post` or `posts`, `comment` or `comments`, `both`; both where the
/// option is absent, none for any other word.
pub open spec fn selection_of(item_type: Option<Seq<char>>) -> ItemSelection {
    match item_type {
        None => ItemSelection::Both,
        Some(word) => if equal_ignoring_ascii_case(word, "both"@) {
            ItemSelection::Both
        } else if equal_ignoring_ascii_case(word, "post"@) || equal_ignoring_ascii_case(
            word,
            "posts"@,
        ) {
            ItemSelection::Posts
        } else if equal_ignoring_ascii_case(word, "comment"@) || equal_ignoring_ascii_case(
            word,
            "comments"@,
        ) {
            ItemSelection::Comments
        } else {
            ItemSelection::Neither
        },
    }
}

impl ItemSelection {
    /// Resolves the `--item-type` option.
    pub fn from_option(item_type: Option<&String>) -> (selection: ItemSelection)
        ensures
            selection == selection_of(
                match item_type {
                    Some(word) => Some(word@),
                    None => None,
                },
            ),
    {
        match item_type {
            None => ItemSelection::Both,
            Some(word) => {
                let word = word.as_str();
                if eq_ignore_ascii_case(word, "both") {
                    ItemSelection::Both
                } else if eq_ignore_ascii_case(word, "post") || eq_ignore_ascii_case(
                    word,
                    "posts",
                ) {
                    ItemSelection::Posts
                } else if eq_ignore_ascii_case(word, "comment") || eq_ignore_ascii_case(
                    word,
                    "comments",
                ) {
                    ItemSelection::Comments
                } else {
                    ItemSelection::Neither
                }
            },
        }
    }

    /// Whether the posts listing is read.
    pub fn fetch_posts(&self) -> (r: bool)
        ensures
            r == (*self == ItemSelection::Posts || *self == ItemSelection::Both),
    {
        match self {
            ItemSelection::Posts => true,
            ItemSelection::Both => true,
            _ => false,
        }
    }

    /// Whether the comments listing is read.
    pub fn fetch_comments(&self) -> (r: bool)
        ensures
            r == (*self == ItemSelection::Comments || *self == ItemSelection::Both),
    {
        match self {
            ItemSelection::Comments => true,
            ItemSelection::Both => true,
            _ => false,
        }
    }
}

/// Where the kept items go once an overwrite, if any, is through.
#[derive(Debug)]
pub enum OutputPlan {
    /// Delete the items.
    Delete { skip_confirmation: bool },
    /// Write the items to the CSV file at `path`.
    ExportCsv { path: String },
    /// A CSV file was asked for, but there is no item: write nothing.
    NothingToExport,
    /// Print the items.
    Console,
}

impl Cli {
    /// The filter criteria that the options ask for, given the two age
    /// bounds as they were parsed.
    pub fn criteria(&self, min_age: Option<Timestamp>, max_age: Option<Timestamp>) -> (criteria:
        FilterCriteria)
        ensures
            criteria@ == (CriteriaView {
                include_subreddits: optional_subreddit_list(option_text(self.subreddit)),
                exclude_subreddits: optional_subreddit_list(option_text(self.exclude_subreddit)),
                min_score: self.score,
                max_score: self.max_score,
                min_age_timestamp: min_age,
                max_age_timestamp: max_age,
                title_substring: option_text(self.post_title),
            }),
    {
        FilterCriteria::new(
            self.subreddit.as_ref(),
            self.exclude_subreddit.as_ref(),
            self.score,
            self.max_score,
            min_age,
            max_age,
            self.post_title.as_ref(),
        )
    }

    /// The listings to read.
    pub fn selection(&self) -> (selection: ItemSelection)
        ensures
            selection == selection_of(option_text(self.item_type)),
    {
        ItemSelection::from_option(self.item_type.as_ref())
    }

    /// Where the `item_count` kept items go: deletion wins over a CSV file,
    /// a CSV file over the console, and no CSV file is written for no item.
    pub fn output_plan(&self, item_count: usize) -> (plan: OutputPlan)
        ensures
            match (self.delete, self.csv) {
                (true, _) => plan == (OutputPlan::Delete { skip_confirmation: self.yes }),
                (false, Some(file)) => if item_count == 0 {
                    plan is NothingToExport
                } else {
                    plan matches OutputPlan::ExportCsv { path } && path@ == file@
                },
                (false, None) => plan is Console,
            },
    {
        if self.delete {
            OutputPlan::Delete { skip_confirmation: self.yes }
        } else {
            match &self.csv {
                Some(file) => if item_count == 0 {
                    OutputPlan::NothingToExport
                } else {
                    OutputPlan::ExportCsv { path: file.clone() }
                },
                None => OutputPlan::Console,
            }
        }
    }
}

} // verus!
