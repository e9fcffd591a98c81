use bydit::cli::Cli;
use bydit::cli::ItemSelection;
use bydit::cli::OutputPlan;

fn bare_cli() -> Cli {
    Cli {
        subreddit: None,
        exclude_subreddit: None,
        score: None,
        max_score: None,
        item_type: None,
        debug: false,
        delete: false,
        yes: false,
        overwrite: None,
        csv: None,
        min_age: None,
        max_age: None,
        post_title: None,
    }
}

fn selection_for(word: &str) -> ItemSelection {
    ItemSelection::from_option(Some(&String::from(word)))
}

#[test]
fn item_type_selects_the_listings() {
    assert_eq!(ItemSelection::from_option(None), ItemSelection::Both);
    assert_eq!(selection_for("both"), ItemSelection::Both);
    assert_eq!(selection_for("BOTH"), ItemSelection::Both);
    assert_eq!(selection_for("post"), ItemSelection::Posts);
    assert_eq!(selection_for("Posts"), ItemSelection::Posts);
    assert_eq!(selection_for("comment"), ItemSelection::Comments);
    assert_eq!(selection_for("COMMENTS"), ItemSelection::Comments);
    assert_eq!(selection_for("everything"), ItemSelection::Neither);
    assert_eq!(selection_for(""), ItemSelection::Neither);
}

#[test]
fn selections_say_what_to_fetch() {
    assert!(ItemSelection::Both.fetch_posts() && ItemSelection::Both.fetch_comments());
    assert!(ItemSelection::Posts.fetch_posts() && !ItemSelection::Posts.fetch_comments());
    assert!(!ItemSelection::Comments.fetch_posts() && ItemSelection::Comments.fetch_comments());
    assert!(!ItemSelection::Neither.fetch_posts() && !ItemSelection::Neither.fetch_comments());
}

#[test]
fn deletion_wins_over_csv_and_console() {
    let mut cli = bare_cli();
    assert!(matches!(cli.output_plan(3), OutputPlan::Console));
    assert!(matches!(cli.output_plan(0), OutputPlan::Console));
    cli.csv = Some(String::from("out.csv"));
    assert!(matches!(cli.output_plan(3), OutputPlan::ExportCsv { ref path } if path == "out.csv"));
    assert!(matches!(cli.output_plan(0), OutputPlan::NothingToExport));
    cli.delete = true;
    cli.yes = true;
    assert!(matches!(cli.output_plan(3), OutputPlan::Delete { skip_confirmation: true }));
    cli.yes = false;
    assert!(matches!(cli.output_plan(0), OutputPlan::Delete { skip_confirmation: false }));
}

#[test]
fn cli_options_become_criteria() {
    let mut cli = bare_cli();
    cli.subreddit = Some(String::from("Rust, Nix"));
    cli.score = Some(5);
    cli.max_score = Some(50);
    cli.post_title = Some(String::from("weekly"));
    cli.item_type = Some(String::from("comment"));
    let criteria = cli.criteria(Some(100), None);
    assert_eq!(criteria.include_subreddits, Some(vec![String::from("rust"), String::from("nix")]));
    assert_eq!(criteria.exclude_subreddits, None);
    assert_eq!(criteria.min_score, Some(5));
    assert_eq!(criteria.max_score, Some(50));
    assert_eq!(criteria.min_age_timestamp, Some(100));
    assert_eq!(criteria.max_age_timestamp, None);
    assert_eq!(criteria.title_substring, Some(String::from("weekly")));
    assert_eq!(cli.selection(), ItemSelection::Comments);
}
