use bydit::models::ItemType;
use bydit::models::UnifiedItem;
use bydit::sorting::sort_newest_first;

fn dated(id: &str, created: i128) -> UnifiedItem {
    UnifiedItem {
        id: String::from(id),
        item_type: ItemType::Post,
        subreddit: String::new(),
        title: String::new(),
        content: String::new(),
        upvotes: 0,
        num_comments: 0,
        permalink: String::new(),
        created_utc: created,
    }
}

#[test]
fn sort_puts_the_newest_first() {
    let sorted = sort_newest_first(vec![dated("a", 10), dated("b", 30), dated("c", 20), dated("d", -5)]);
    let ids: Vec<&str> = sorted.iter().map(|item| item.id.as_str()).collect();
    assert_eq!(ids, vec!["b", "c", "a", "d"]);
}

#[test]
fn sort_keeps_ties_in_their_order() {
    let sorted = sort_newest_first(vec![
        dated("a", 10),
        dated("b", 20),
        dated("c", 10),
        dated("d", 20),
        dated("e", 10),
    ]);
    let ids: Vec<&str> = sorted.iter().map(|item| item.id.as_str()).collect();
    assert_eq!(ids, vec!["b", "d", "a", "c", "e"]);
}

#[test]
fn sort_of_nothing_is_nothing() {
    assert!(sort_newest_first(Vec::new()).is_empty());
}
