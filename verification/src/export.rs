use vstd::prelude::*;
use crate::models::item_views;
use crate::models::ItemView;
use crate::models::UnifiedItem;
use crate::text::decimal;
use crate::text::decimal_string;
use crate::text::push_text;
use crate::text::texts;
use crate::utils::escape_csv_field;
use crate::utils::escaped_field;

verus! {

/// A writer of the csv crate that collects its output in a byte vector.
#[verifier::external_body]
pub struct CsvBuffer {
    writer: csv::Writer<Vec<u8>>,
}

#[verifier::external_type_specification]
#[verifier::external_body]
pub struct ExCsvError(csv::Error);

/// The bytes that a CSV writer over a byte vector has produced so far: those
/// handed on to the vector and those still in its buffer.
pub uninterp spec fn csv_written(buffer: CsvBuffer) -> Seq<u8>;

/// The number of fields that a CSV writer has written of a record that it
/// has not terminated yet.
pub uninterp spec fn csv_open_fields(buffer: CsvBuffer) -> nat;

/// The number of fields of the first record that a CSV writer has
/// terminated, which it holds every later record to; `None` before the
/// first.
pub uninterp spec fn csv_first_len(buffer: CsvBuffer) -> Option<nat>;

/// The bytes of one record as a CSV writer with the default configuration
/// writes it: the fields quoted where needed, separated by commas, and the
/// record terminator.
pub uninterp spec fn csv_record(fields: Seq<Seq<char>>) -> Seq<u8>;

/// `csv::Writer::from_writer` over a byte vector: a writer with the default
/// configuration that has produced what `sink` holds, is at the start of a
/// record and has terminated none yet.
#[verifier::external_body]
fn csv_writer(sink: Vec<u8>) -> (buffer: CsvBuffer)
    ensures
        csv_written(buffer) == sink@,
        csv_open_fields(buffer) == 0,
        csv_first_len(buffer) is None,
{
    CsvBuffer { writer: csv::Writer::from_writer(sink) }
}

/// `csv::Writer::write_record` at the start of a record. Over a byte
/// vector nothing but the count of fields can make it fail: it succeeds
/// exactly where the record is the first to be terminated or has as many
/// fields as the first. Where it succeeds, the writer has produced the bytes
/// of the record, named [`csv_record`], behind what it had, is at the start
/// of a record again, and holds later records to this record's length.
#[verifier::external_body]
fn csv_write_record(buffer: &mut CsvBuffer, record: &Vec<String>) -> (r: Result<(), csv::Error>)
    requires
        csv_open_fields(*old(buffer)) == 0,
    ensures
        r is Ok <==> csv_first_len(*old(buffer)) is None || csv_first_len(*old(buffer)) == Some(
            record@.len(),
        ),
        r is Ok ==> csv_written(*final(buffer)) == csv_written(*old(buffer)) + csv_record(
            texts(record@),
        ),
        r is Ok ==> csv_open_fields(*final(buffer)) == 0,
        r is Ok ==> csv_first_len(*final(buffer)) == Some(record@.len()),
{
    buffer.writer.write_record(record)
}

/// `csv::Writer::into_inner`: it flushes the writer's buffer into the byte
/// vector, which takes every write, and hands the vector over; it holds
/// everything that the writer has produced. The error that the signature
/// allows for is handed back as the message that its `Display` gives.
#[verifier::external_body]
fn csv_into_inner(buffer: CsvBuffer) -> (r: Result<Vec<u8>, String>)
    ensures
        r is Ok,
        r matches Ok(bytes) ==> bytes@ == csv_written(buffer),
{
    buffer.writer.into_inner().map_err(|error| error.to_string())
}

/// The message of a `csv::Error`, as its `Display` gives it.
#[verifier::external_body]
fn csv_error_message(error: &csv::Error) -> String {
    error.to_string()
}

/// Why an export could not be produced.
#[derive(Debug)]
pub enum ExportError {
    /// A record was refused by the CSV writer.
    Record { message: String },
    /// The written records could not be handed over.
    Flush { message: String },
}

/// The fields of the header row.
pub open spec fn header_fields() -> Seq<Seq<char>> {
    seq![
        "Type"@,
        "Subreddit"@,
        "Title"@,
        "Content"@,
        "Upvotes"@,
        "NumComments"@,
        "Permalink"@,
        "TimestampUTC"@,
    ]
}

/// The header as one line of text.
pub open spec fn header_line() -> Seq<char> {
    "Type,Subreddit,Title,Content,Upvotes,NumComments,Permalink,TimestampUTC"@
}

/// A community name as it is shown: with `r/` before it, unless it is empty.
pub open spec fn shown_subreddit(subreddit: Seq<char>) -> Seq<char> {
    if subreddit.len() == 0 {
        subreddit
    } else {
        "r/"@ + subreddit
    }
}

/// The absolute URL of a permalink: the site origin, then the relative path.
pub open spec fn absolute_permalink(permalink: Seq<char>) -> Seq<char> {
    "https://reddit.com"@ + permalink
}

/// The fields of an item's row, in header order.
pub open spec fn export_fields(item: ItemView) -> Seq<Seq<char>> {
    seq![
        item.item_type.label_text(),
        shown_subreddit(item.subreddit),
        item.title,
        item.content,
        decimal(item.upvotes as int),
        decimal(item.num_comments as int),
        absolute_permalink(item.permalink),
        decimal(item.created_utc as int),
    ]
}

/// The rows of an export: the header, then one row per item.
pub open spec fn export_rows(items: Seq<ItemView>) -> Seq<Seq<Seq<char>>> {
    seq![header_fields()] + items.map_values(|item: ItemView| export_fields(item))
}

/// The texts of a list of rows.
pub open spec fn rows_text(rows: Seq<Vec<String>>) -> Seq<Seq<Seq<char>>> {
    rows.map_values(|row: Vec<String>| texts(row@))
}

/// The bytes of a CSV document: the records of its rows one after another.
pub open spec fn csv_document(rows: Seq<Seq<Seq<char>>>) -> Seq<u8>
    decreases rows.len(),
{
    if rows.len() == 0 {
        Seq::empty()
    } else {
        csv_document(rows.drop_last()) + csv_record(rows.last())
    }
}

/// The same records give the same document: an export depends on nothing
/// but the values of the items, so exporting a sequence twice gives the same
/// bytes.
pub proof fn lemma_export_repeatable(first: Seq<UnifiedItem>, second: Seq<UnifiedItem>)
    requires
        item_views(first) == item_views(second),
    ensures
        csv_document(export_rows(item_views(first))) == csv_document(
            export_rows(item_views(second)),
        ),
{
}

fn shown_subreddit_of(subreddit: &str) -> (out: String)
    ensures
        out@ == shown_subreddit(subreddit@),
{
    let mut out = String::new();
    if !subreddit.is_empty() {
        push_text(&mut out, "r/");
    }
    push_text(&mut out, subreddit);
    out
}

fn absolute_permalink_of(permalink: &str) -> (out: String)
    ensures
        out@ == absolute_permalink(permalink@),
{
    let mut out = String::new();
    push_text(&mut out, "https://reddit.com");
    push_text(&mut out, permalink);
    out
}

/// The header row.
pub fn header_row() -> (row: Vec<String>)
    ensures
        texts(row@) == header_fields(),
{
    let mut row: Vec<String> = Vec::new();
    row.push("Type".to_owned());
    row.push("Subreddit".to_owned());
    row.push("Title".to_owned());
    row.push("Content".to_owned());
    row.push("Upvotes".to_owned());
    row.push("NumComments".to_owned());
    row.push("Permalink".to_owned());
    row.push("TimestampUTC".to_owned());
    assert(texts(row@) == header_fields());
    row
}

/// The row of one item.
pub fn export_row(item: &UnifiedItem) -> (row: Vec<String>)
    ensures
        texts(row@) == export_fields(item@),
{
    let mut row: Vec<String> = Vec::new();
    row.push(item.item_type.label().to_owned());
    row.push(shown_subreddit_of(item.subreddit.as_str()));
    row.push(item.title.clone());
    row.push(item.content.clone());
    row.push(decimal_string(item.upvotes as i128));
    row.push(decimal_string(item.num_comments as i128));
    row.push(absolute_permalink_of(item.permalink.as_str()));
    row.push(decimal_string(item.created_utc));
    assert(texts(row@) == export_fields(item@));
    row
}

/// The rows of an export: the header, then one row per item, in order.
pub fn csv_rows(items: &Vec<UnifiedItem>) -> (rows: Vec<Vec<String>>)
    ensures
        rows_text(rows@) == export_rows(item_views(items@)),
{
    let mut rows: Vec<Vec<String>> = Vec::new();
    let header = header_row();
    rows.push(header);
    assert(rows_text(rows@) == seq![header_fields()]);
    let mut i: usize = 0;
    assert(item_views(items@.take(0)) == Seq::<ItemView>::empty());
    assert(rows_text(rows@) == export_rows(item_views(items@.take(0))));
    while i < items.len()
        invariant
            i <= items.len(),
            rows_text(rows@) == export_rows(item_views(items@.take(i as int))),
        decreases items.len() - i,
    {
        let ghost before = rows_text(rows@);
        let row = export_row(&items[i]);
        rows.push(row);
        assert(rows_text(rows@) == before.push(texts(row@)));
        assert(items@.take(i + 1) == items@.take(i as int).push(items@[i as int]));
        assert(export_rows(item_views(items@.take(i + 1))) == export_rows(
            item_views(items@.take(i as int)),
        ).push(export_fields(items@[i as int]@)));
        i += 1;
    }
    assert(items@.take(items.len() as int) == items@);
    rows
}

/// Whether every row has as many fields as the first.
pub open spec fn same_lengths(rows: Seq<Seq<Seq<char>>>) -> bool {
    forall|k: int| 0 <= k < rows.len() ==> (#[trigger] rows[k]).len() == rows[0].len()
}

/// The rows of an export all have the eight fields of the header.
pub proof fn lemma_export_rows_same_lengths(items: Seq<ItemView>)
    ensures
        same_lengths(export_rows(items)),
{
    let rows = export_rows(items);
    assert(header_fields().len() == 8);
    assert forall|k: int| 0 <= k < rows.len() implies (#[trigger] rows[k]).len() == 8 by {
        if k > 0 {
            assert(rows[k] == export_fields(items[k - 1]));
        }
    }
}

/// Writes the rows as a CSV document. The writer takes rows that all have
/// as many fields as the first, and refuses the first row that has not.
pub fn encode_csv(rows: &Vec<Vec<String>>) -> (r: Result<Vec<u8>, ExportError>)
    ensures
        r is Ok <==> same_lengths(rows_text(rows@)),
        r matches Ok(bytes) ==> bytes@ == csv_document(rows_text(rows@)),
        r matches Err(error) ==> error is Record,
{
    let mut writer = csv_writer(Vec::new());
    let mut i: usize = 0;
    assert(rows_text(rows@).take(0) == Seq::<Seq<Seq<char>>>::empty());
    while i < rows.len()
        invariant
            i <= rows.len(),
            csv_open_fields(writer) == 0,
            csv_written(writer) == csv_document(rows_text(rows@).take(i as int)),
            csv_first_len(writer) == if i == 0 {
                None::<nat>
            } else {
                Some(rows@[0]@.len())
            },
            forall|k: int| 0 <= k < i ==> (#[trigger] rows_text(rows@)[k]).len() == rows_text(
                rows@,
            )[0].len(),
        decreases rows.len() - i,
    {
        let ghost upto = rows_text(rows@).take(i + 1);
        assert(upto.drop_last() == rows_text(rows@).take(i as int));
        assert(upto.last() == texts(rows@[i as int]@));
        assert(rows_text(rows@)[i as int].len() == rows@[i as int]@.len());
        assert(rows_text(rows@)[0].len() == rows@[0]@.len());
        match written_record(csv_write_record(&mut writer, &rows[i])) {
            Ok(()) => {},
            Err(refused) => {
                return Err(refused);
            },
        }
        i += 1;
    }
    assert(rows_text(rows@).take(rows.len() as int) == rows_text(rows@));
    flushed_export(csv_into_inner(writer))
}

/// Renders the items as a CSV document: the header row, then one row per
/// item, quoted by the CSV writer. Every row has the eight fields of the
/// header, so the writer takes them all.
pub fn handle_csv_export(items: &Vec<UnifiedItem>) -> (r: Result<Vec<u8>, ExportError>)
    ensures
        r matches Ok(bytes) && bytes@ == csv_document(export_rows(item_views(items@))),
{
    let rows = csv_rows(items);
    proof {
        lemma_export_rows_same_lengths(item_views(items@));
    }
    encode_csv(&rows)
}

/// The line of one item in the console rendering. The console has no CSV
/// writer behind it: texts stand between double quotes, title and content
/// escaped by [`escaped_field`], numbers stand bare.
pub open spec fn console_line(item: ItemView) -> Seq<char> {
    "\""@ + item.item_type.label_text() + "\",\""@ + shown_subreddit(item.subreddit) + "\",\""@
        + escaped_field(item.title) + "\",\""@ + escaped_field(item.content) + "\","@ + decimal(
        item.upvotes as int,
    ) + ","@ + decimal(item.num_comments as int) + ",\""@ + absolute_permalink(item.permalink)
        + "\","@ + decimal(item.created_utc as int)
}

/// The notice that stands for an empty rendering where one is asked for.
pub open spec fn empty_notice() -> Seq<char> {
    "No items to output after filtering."@
}

/// The lines of the console rendering: for no items nothing at all, or the
/// notice alone where it is asked for; otherwise the header and one line per
/// item.
pub open spec fn console_lines(items: Seq<ItemView>, notice_when_empty: bool) -> Seq<Seq<char>> {
    if items.len() == 0 {
        if notice_when_empty {
            seq![empty_notice()]
        } else {
            Seq::empty()
        }
    } else {
        seq![header_line()] + items.map_values(|item: ItemView| console_line(item))
    }
}

/// Renders one item as a console line.
pub fn render_console_line(item: &UnifiedItem) -> (line: String)
    ensures
        line@ == console_line(item@),
{
    let mut line = String::new();
    push_text(&mut line, "\"");
    push_text(&mut line, item.item_type.label());
    push_text(&mut line, "\",\"");
    push_text(&mut line, shown_subreddit_of(item.subreddit.as_str()).as_str());
    push_text(&mut line, "\",\"");
    push_text(&mut line, escape_csv_field(item.title.as_str()).as_str());
    push_text(&mut line, "\",\"");
    push_text(&mut line, escape_csv_field(item.content.as_str()).as_str());
    push_text(&mut line, "\",");
    push_text(&mut line, decimal_string(item.upvotes as i128).as_str());
    push_text(&mut line, ",");
    push_text(&mut line, decimal_string(item.num_comments as i128).as_str());
    push_text(&mut line, ",\"");
    push_text(&mut line, absolute_permalink_of(item.permalink.as_str()).as_str());
    push_text(&mut line, "\",");
    push_text(&mut line, decimal_string(item.created_utc).as_str());
    line
}

/// Renders the items for the console, one string per line to print.
///
/// With no items nothing is rendered, not even the header, unless
/// `debug_mode` asks for the notice.
pub fn handle_print_to_console(items: &Vec<UnifiedItem>, debug_mode: bool) -> (lines: Vec<String>)
    ensures
        texts(lines@) == console_lines(item_views(items@), debug_mode),
{
    let mut lines: Vec<String> = Vec::new();
    if items.len() == 0 {
        if debug_mode {
            lines.push("No items to output after filtering.".to_owned());
        }
        assert(texts(lines@) == console_lines(item_views(items@), debug_mode));
        return lines;
    }
    lines.push("Type,Subreddit,Title,Content,Upvotes,NumComments,Permalink,TimestampUTC".to_owned());
    let ghost rendered = item_views(items@).map_values(|item: ItemView| console_line(item));
    assert(texts(lines@) == seq![header_line()] + rendered.take(0));
    let mut i: usize = 0;
    while i < items.len()
        invariant
            i <= items.len(),
            rendered == item_views(items@).map_values(|item: ItemView| console_line(item)),
            texts(lines@) == seq![header_line()] + rendered.take(i as int),
        decreases items.len() - i,
    {
        let ghost before = texts(lines@);
        let line = render_console_line(&items[i]);
        lines.push(line);
        assert(texts(lines@) == before.push(line@));
        assert(rendered.take(i + 1) == rendered.take(i as int).push(line@));
        i += 1;
    }
    assert(rendered.take(items.len() as int) == rendered);
    lines
}

/// What becomes of a record once the writer has taken or refused it: a
/// record that was taken lets the export go on, a refused one ends it with
/// the writer's message.
pub fn written_record(written: Result<(), csv::Error>) -> (r: Result<(), ExportError>)
    ensures
        written is Ok ==> r is Ok,
        written is Err ==> r matches Err(ExportError::Record { .. }),
{
    match written {
        Ok(()) => Ok(()),
        Err(error) => Err(ExportError::Record { message: csv_error_message(&error) }),
    }
}

/// What an export gives once the writer was asked for its bytes: the bytes
/// as they are, or the failure with the writer's message.
pub fn flushed_export(flushed: Result<Vec<u8>, String>) -> (r: Result<Vec<u8>, ExportError>)
    ensures
        match flushed {
            Ok(bytes) => r == Ok::<Vec<u8>, ExportError>(bytes),
            Err(reason) => r matches Err(ExportError::Flush { message }) && message@ == reason@,
        },
{
    match flushed {
        Ok(bytes) => Ok(bytes),
        Err(message) => Err(ExportError::Flush { message }),
    }
}

} // verus!
