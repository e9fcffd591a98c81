use bydit::filters::is_listed;
use bydit::filters::parse_subreddit_list;
use bydit::filters::without_empty;
use bydit::filters::FilterCriteria;
use bydit::models::ItemType;
use bydit::models::UnifiedItem;

fn filter_item(item_type: ItemType, subreddit: &str, title: &str, upvotes: i32, created: i128) -> UnifiedItem {
    UnifiedItem {
        id: String::from("t3_x"),
        item_type,
        subreddit: String::from(subreddit),
        title: String::from(title),
        content: String::from("body"),
        upvotes,
        num_comments: 0,
        permalink: String::from("/r/x/1"),
        created_utc: created,
    }
}

#[test]
fn empty_criteria_match_every_item() {
    let criteria = FilterCriteria::unrestricted();
    assert!(criteria.matches(&filter_item(ItemType::Post, "Rust", "t", -5, 0)));
    assert!(criteria.matches(&filter_item(ItemType::Comment, "", "", i32::MAX, i128::MIN)));
}

#[test]
fn matches_is_the_conjunction_of_the_predicates() {
    let mut criteria = FilterCriteria::unrestricted();
    criteria.include_subreddits = Some(vec![String::from("rust")]);
    criteria.min_score = Some(10);
    let both = filter_item(ItemType::Post, "rust", "t", 10, 0);
    let wrong_place = filter_item(ItemType::Post, "golang", "t", 10, 0);
    let low_score = filter_item(ItemType::Post, "rust", "t", 9, 0);
    assert!(criteria.included(&both) && criteria.score_in_range(&both));
    assert!(criteria.matches(&both));
    assert!(!criteria.included(&wrong_place) && criteria.score_in_range(&wrong_place));
    assert!(!criteria.matches(&wrong_place));
    assert!(criteria.included(&low_score) && !criteria.score_in_range(&low_score));
    assert!(!criteria.matches(&low_score));
}

#[test]
fn age_bounds_include_the_boundary() {
    let mut criteria = FilterCriteria::unrestricted();
    criteria.min_age_timestamp = Some(1_000);
    assert!(criteria.matches(&filter_item(ItemType::Post, "a", "t", 0, 1_000)));
    assert!(criteria.matches(&filter_item(ItemType::Post, "a", "t", 0, 999)));
    assert!(!criteria.matches(&filter_item(ItemType::Post, "a", "t", 0, 1_001)));

    let mut criteria = FilterCriteria::unrestricted();
    criteria.max_age_timestamp = Some(1_000);
    assert!(criteria.matches(&filter_item(ItemType::Post, "a", "t", 0, 1_000)));
    assert!(criteria.matches(&filter_item(ItemType::Post, "a", "t", 0, 1_001)));
    assert!(!criteria.matches(&filter_item(ItemType::Post, "a", "t", 0, 999)));
}

#[test]
fn score_bounds_are_inclusive_below_and_exclusive_above() {
    let mut criteria = FilterCriteria::unrestricted();
    criteria.min_score = Some(10);
    criteria.max_score = Some(20);
    assert!(!criteria.matches(&filter_item(ItemType::Post, "a", "t", 9, 0)));
    assert!(criteria.matches(&filter_item(ItemType::Post, "a", "t", 10, 0)));
    assert!(criteria.matches(&filter_item(ItemType::Post, "a", "t", 19, 0)));
    assert!(!criteria.matches(&filter_item(ItemType::Post, "a", "t", 20, 0)));
}

#[test]
fn subreddit_lists_are_trimmed_lowercased_and_cleaned() {
    assert_eq!(parse_subreddit_list("Rust, GoLang ,,  ,python"), vec!["rust", "golang", "python"]);
    assert_eq!(parse_subreddit_list(""), Vec::<String>::new());
    assert_eq!(parse_subreddit_list(" , "), Vec::<String>::new());
    assert_eq!(parse_subreddit_list("ONE"), vec!["one"]);
}

#[test]
fn subreddit_matching_ignores_case() {
    let list = String::from("Rust,AskReddit");
    let criteria = FilterCriteria::new(Some(&list), None, None, None, None, None, None);
    assert!(criteria.matches(&filter_item(ItemType::Post, "rust", "t", 0, 0)));
    assert!(criteria.matches(&filter_item(ItemType::Comment, "ASKREDDIT", "t", 0, 0)));
    assert!(!criteria.matches(&filter_item(ItemType::Post, "rustlang", "t", 0, 0)));
    assert!(!criteria.matches(&filter_item(ItemType::Post, "", "t", 0, 0)));

    let criteria = FilterCriteria::new(None, Some(&list), None, None, None, None, None);
    assert!(!criteria.matches(&filter_item(ItemType::Post, "RUST", "t", 0, 0)));
    assert!(criteria.matches(&filter_item(ItemType::Post, "golang", "t", 0, 0)));
    assert!(criteria.matches(&filter_item(ItemType::Comment, "", "t", 0, 0)));
}

#[test]
fn title_filter_applies_to_comments_only() {
    let wanted = String::from("WEEKLY thread");
    let criteria = FilterCriteria::new(None, None, None, None, None, None, Some(&wanted));
    assert!(criteria.matches(&filter_item(ItemType::Comment, "a", "The weekly Thread #4", 0, 0)));
    assert!(!criteria.matches(&filter_item(ItemType::Comment, "a", "Monthly thread", 0, 0)));
    assert!(!criteria.matches(&filter_item(ItemType::Comment, "a", "", 0, 0)));
    assert!(criteria.matches(&filter_item(ItemType::Post, "a", "Monthly thread", 0, 0)));
    assert!(criteria.title_matches(&filter_item(ItemType::Post, "a", "", 0, 0)));
}

#[test]
fn criteria_keep_the_options_they_were_built_from() {
    let wanted = String::from("a,B");
    let unwanted = String::from(" c ");
    let title = String::from("Hi");
    let criteria = FilterCriteria::new(
        Some(&wanted),
        Some(&unwanted),
        Some(1),
        Some(2),
        Some(3),
        Some(4),
        Some(&title),
    );
    assert_eq!(criteria.include_subreddits, Some(vec![String::from("a"), String::from("b")]));
    assert_eq!(criteria.exclude_subreddits, Some(vec![String::from("c")]));
    assert_eq!(criteria.min_score, Some(1));
    assert_eq!(criteria.max_score, Some(2));
    assert_eq!(criteria.min_age_timestamp, Some(3));
    assert_eq!(criteria.max_age_timestamp, Some(4));
    assert_eq!(criteria.title_substring, Some(String::from("Hi")));
}

#[test]
fn listing_compares_letter_for_letter() {
    let names = vec![String::from("rust"), String::from("nix")];
    assert!(is_listed(&names, &String::from("nix")));
    assert!(!is_listed(&names, &String::from("Nix")));
    assert!(!is_listed(&names, &String::from("")));
    assert!(!is_listed(&Vec::new(), &String::from("rust")));
}

#[test]
fn empty_names_are_left_out() {
    let names = vec![String::new(), String::from("a"), String::new(), String::from("b")];
    assert_eq!(without_empty(names), vec!["a", "b"]);
    assert_eq!(without_empty(vec![String::new()]), Vec::<String>::new());
}
