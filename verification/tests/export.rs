use bydit::export::csv_rows;
use bydit::export::encode_csv;
use bydit::export::handle_csv_export;
use bydit::export::handle_print_to_console;
use bydit::export::render_console_line;
use bydit::models::ItemType;
use bydit::models::UnifiedItem;

fn exported(item_type: ItemType, subreddit: &str, title: &str, content: &str) -> UnifiedItem {
    UnifiedItem {
        id: String::from("t3_abc"),
        item_type,
        subreddit: String::from(subreddit),
        title: String::from(title),
        content: String::from(content),
        upvotes: 12,
        num_comments: 3,
        permalink: String::from("/r/rust/comments/abc/"),
        created_utc: 1_700_000_000,
    }
}

#[test]
fn csv_export_quotes_through_the_writer() {
    let items = vec![
        exported(ItemType::Post, "rust", "Hello, world", "say \"hi\""),
        exported(ItemType::Comment, "", "plain", "two\nlines"),
    ];
    let bytes = handle_csv_export(&items).unwrap();
    let text = String::from_utf8(bytes).unwrap();
    assert_eq!(
        text,
        "Type,Subreddit,Title,Content,Upvotes,NumComments,Permalink,TimestampUTC\n\
         Post,r/rust,\"Hello, world\",\"say \"\"hi\"\"\",12,3,https://reddit.com/r/rust/comments/abc/,1700000000\n\
         Comment,,plain,\"two\nlines\",12,3,https://reddit.com/r/rust/comments/abc/,1700000000\n"
    );
}

#[test]
fn csv_export_of_nothing_is_the_header() {
    let bytes = handle_csv_export(&Vec::new()).unwrap();
    assert_eq!(
        String::from_utf8(bytes).unwrap(),
        "Type,Subreddit,Title,Content,Upvotes,NumComments,Permalink,TimestampUTC\n"
    );
}

#[test]
fn exporting_twice_gives_the_same_bytes() {
    let items = vec![
        exported(ItemType::Post, "rust", "a", "b"),
        exported(ItemType::Comment, "golang", "c,d", "e\"f"),
    ];
    let first = handle_csv_export(&items).unwrap();
    let second = handle_csv_export(&items.clone()).unwrap();
    assert_eq!(first, second);
    assert!(!first.is_empty());
}

#[test]
fn csv_rows_hold_the_header_and_one_row_per_item() {
    let mut item = exported(ItemType::Comment, "rust", "t", "c");
    item.upvotes = -4;
    item.num_comments = 0;
    let rows = csv_rows(&vec![item]);
    assert_eq!(
        rows,
        vec![
            vec![
                "Type",
                "Subreddit",
                "Title",
                "Content",
                "Upvotes",
                "NumComments",
                "Permalink",
                "TimestampUTC"
            ],
            vec![
                "Comment",
                "r/rust",
                "t",
                "c",
                "-4",
                "0",
                "https://reddit.com/r/rust/comments/abc/",
                "1700000000"
            ],
        ]
    );
}

#[test]
fn encode_csv_refuses_rows_of_unequal_length() {
    let rows = vec![
        vec![String::from("a"), String::from("b")],
        vec![String::from("c")],
    ];
    match encode_csv(&rows) {
        Err(bydit::export::ExportError::Record { message }) => {
            assert!(message.contains("2 fields"), "unexpected message: {}", message)
        }
        other => panic!("expected a refused record, got {:?}", other),
    }
    let rows = vec![vec![String::from("a"), String::from("b")]];
    assert_eq!(encode_csv(&rows).unwrap(), b"a,b\n".to_vec());
}

#[test]
fn console_lines_use_the_manual_escaping() {
    let item = exported(ItemType::Post, "rust", "a \"b\"", "line1\r\nline2");
    assert_eq!(
        render_console_line(&item),
        "\"Post\",\"r/rust\",\"a \"\"b\"\"\",\"line1\\nline2\",12,3,\"https://reddit.com/r/rust/comments/abc/\",1700000000"
    );
    let lines = handle_print_to_console(&vec![item], false);
    assert_eq!(lines.len(), 2);
    assert_eq!(
        lines[0],
        "Type,Subreddit,Title,Content,Upvotes,NumComments,Permalink,TimestampUTC"
    );
    assert_eq!(
        lines[1],
        "\"Post\",\"r/rust\",\"a \"\"b\"\"\",\"line1\\nline2\",12,3,\"https://reddit.com/r/rust/comments/abc/\",1700000000"
    );
}

#[test]
fn console_shows_an_empty_community_without_prefix() {
    let item = exported(ItemType::Comment, "", "t", "c");
    assert_eq!(
        render_console_line(&item),
        "\"Comment\",\"\",\"t\",\"c\",12,3,\"https://reddit.com/r/rust/comments/abc/\",1700000000"
    );
}

#[test]
fn console_renders_nothing_for_no_items() {
    assert!(handle_print_to_console(&Vec::new(), false).is_empty());
    assert_eq!(
        handle_print_to_console(&Vec::new(), true),
        vec!["No items to output after filtering."]
    );
}

#[test]
fn flushed_export_hands_on_bytes_or_the_failure() {
    assert_eq!(bydit::export::flushed_export(Ok(vec![1u8, 2, 3])).unwrap(), vec![1u8, 2, 3]);
    assert_eq!(bydit::export::flushed_export(Ok(Vec::new())).unwrap(), Vec::<u8>::new());
    match bydit::export::flushed_export(Err(String::from("disk full"))) {
        Err(bydit::export::ExportError::Flush { message }) => assert_eq!(message, "disk full"),
        other => panic!("expected a flush failure, got {:?}", other),
    }
}

#[test]
fn written_record_goes_on_or_reports_the_refusal() {
    assert!(bydit::export::written_record(Ok(())).is_ok());
    let mut writer = csv::Writer::from_writer(Vec::new());
    writer.write_record(["a", "b"]).unwrap();
    let refusal = writer.write_record(["c"]);
    assert!(refusal.is_err());
    match bydit::export::written_record(refusal) {
        Err(bydit::export::ExportError::Record { message }) => {
            assert!(message.contains("2 fields"), "unexpected message: {}", message)
        }
        other => panic!("expected a refused record, got {:?}", other),
    }
}

#[test]
fn encode_csv_of_no_rows_is_empty() {
    assert_eq!(encode_csv(&Vec::new()).unwrap(), Vec::<u8>::new());
}

#[test]
fn encode_csv_takes_rows_of_one_length() {
    let rows = vec![
        vec![String::from("a"), String::from("b")],
        vec![String::from("c, d"), String::new()],
        vec![String::new(), String::new()],
    ];
    assert_eq!(encode_csv(&rows).unwrap(), b"a,b\n\"c, d\",\n,\n".to_vec());
    let single = vec![vec![String::new()], vec![String::from("x")]];
    assert_eq!(encode_csv(&single).unwrap(), b"\"\"\nx\n".to_vec());
    let no_fields = vec![Vec::new(), Vec::new()];
    assert!(encode_csv(&no_fields).is_ok());
    let mixed = vec![Vec::new(), vec![String::from("x")]];
    assert!(encode_csv(&mixed).is_err());
}
