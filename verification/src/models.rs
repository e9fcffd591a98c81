use vstd::prelude::*;

verus! {

/// Whole seconds since the Unix epoch (1970-01-01T00:00:00Z); negative
/// before it.
///
/// A caller that holds a time with a fraction of a second hands it over
/// rounded down, towards negative infinity: an item counts as created at
/// the start of its second, and the age filters compare whole seconds.
pub type Timestamp = i128;

/// Which kind of remote record an item was normalized from.
#[derive(Clone, Copy, Debug, PartialEq, Eq, Structural)]
pub enum ItemType {
    Post,
    Comment,
}

impl ItemType {
    /// The tag as it is rendered in exported rows.
    pub open spec fn label_text(self) -> Seq<char> {
        match self {
            ItemType::Post => "Post"@,
            ItemType::Comment => "Comment"@,
        }
    }

    /// Renders the tag: `Post` or `Comment`.
    pub fn label(&self) -> (r: &'static str)
        ensures
            r@ == self.label_text(),
    {
        match self {
            ItemType::Post => "Post",
            ItemType::Comment => "Comment",
        }
    }
}

/// One post or comment of the account, in the shape shared by filtering,
/// the batch actions and the exports.
#[derive(Clone, Debug)]
pub struct UnifiedItem {
    /// Full remote identifier, for example `t3_abc` or `t1_def`.
    pub id: String,
    pub item_type: ItemType,
    /// Community name; may be empty.
    pub subreddit: String,
    /// Post title, or the parent post's title for a comment.
    pub title: String,
    /// Post body or comment body.
    pub content: String,
    pub upvotes: i32,
    /// Always 0 for a comment.
    pub num_comments: i32,
    /// Path relative to the site origin.
    pub permalink: String,
    pub created_utc: Timestamp,
}

/// The mathematical value of a [`UnifiedItem`]: its texts as character sequences.
pub struct ItemView {
    pub id: Seq<char>,
    pub item_type: ItemType,
    pub subreddit: Seq<char>,
    pub title: Seq<char>,
    pub content: Seq<char>,
    pub upvotes: i32,
    pub num_comments: i32,
    pub permalink: Seq<char>,
    pub created_utc: Timestamp,
}

impl View for UnifiedItem {
    type V = ItemView;

    open spec fn view(&self) -> ItemView {
        ItemView {
            id: self.id@,
            item_type: self.item_type,
            subreddit: self.subreddit@,
            title: self.title@,
            content: self.content@,
            upvotes: self.upvotes,
            num_comments: self.num_comments,
            permalink: self.permalink@,
            created_utc: self.created_utc,
        }
    }
}

/// The values of a sequence of items, in the same order.
pub open spec fn item_views(items: Seq<UnifiedItem>) -> Seq<ItemView> {
    items.map_values(|item: UnifiedItem| item@)
}

} // verus!
