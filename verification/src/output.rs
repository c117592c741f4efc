//! What a command says: listings, notices and summaries.
//!
//! Output is produced as lines of text, each with a kind. The kind tells the
//! front end how to show the line (colour, bullet, marker); the text is what
//! the line says. Listings meant for other programs are plain lines: one name
//! each, or one JSON array of strings, written by `serde_json`.

use crate::text::{decimal, decimal_string, digit_char};
use vstd::prelude::*;
use vstd::string::StringExecFns;

verus! {

/// `serde_json::Error`, the error type of `serde_json::to_string`. No value
/// of it is ever read here.
#[verifier::external_type_specification]
#[verifier::external_body]
pub struct ExJsonError(serde_json::Error);

/// The character that writes the hexadecimal digit `d`, in lower case.
pub open spec fn hex_digit(d: nat) -> char {
    if d < 10 {
        digit_char(d)
    } else if d == 10 {
        'a'
    } else if d == 11 {
        'b'
    } else if d == 12 {
        'c'
    } else if d == 13 {
        'd'
    } else if d == 14 {
        'e'
    } else {
        'f'
    }
}

/// How one character stands inside a JSON string: the quote, the backslash
/// and the control characters below the space are escaped, every other
/// character stands for itself.
pub open spec fn json_escape(c: char) -> Seq<char> {
    if c == '"' {
        seq!['\\', '"']
    } else if c == '\\' {
        seq!['\\', '\\']
    } else if c == '\u{8}' {
        seq!['\\', 'b']
    } else if c == '\t' {
        seq!['\\', 't']
    } else if c == '\n' {
        seq!['\\', 'n']
    } else if c == '\u{c}' {
        seq!['\\', 'f']
    } else if c == '\r' {
        seq!['\\', 'r']
    } else if (c as u32) < 0x20 {
        seq![
            '\\',
            'u',
            '0',
            '0',
            hex_digit((c as u32 / 16) as nat),
            hex_digit((c as u32 % 16) as nat),
        ]
    } else {
        seq![c]
    }
}

/// The characters of `text` as they stand inside a JSON string.
pub open spec fn json_escaped(text: Seq<char>) -> Seq<char>
    decreases text.len(),
{
    if text.len() == 0 {
        Seq::empty()
    } else {
        json_escaped(text.drop_last()) + json_escape(text.last())
    }
}

/// `text` as a JSON string: escaped, between quotes.
pub open spec fn json_string(text: Seq<char>) -> Seq<char> {
    seq!['"'] + json_escaped(text) + seq!['"']
}

/// The JSON strings of `items`, with a comma between each two.
pub open spec fn json_strings(items: Seq<Seq<char>>) -> Seq<char>
    decreases items.len(),
{
    if items.len() == 0 {
        Seq::empty()
    } else if items.len() == 1 {
        json_string(items[0])
    } else {
        json_strings(items.drop_last()).push(',') + json_string(items.last())
    }
}

/// The JSON array of the strings `items`, on one line and without spaces.
pub open spec fn json_array_text(items: Seq<Seq<char>>) -> Seq<char> {
    seq!['['] + json_strings(items) + seq![']']
}

/// The JSON array of no items is `[]`.
pub proof fn lemma_json_of_nothing(items: Seq<Seq<char>>)
    requires
        items.len() == 0,
    ensures
        json_array_text(items) == "[]"@,
{
    reveal_strlit("[]");
    assert(json_array_text(items) =~= "[]"@);
}

/// Calls `serde_json::to_string` on a vector of strings. Writing strings into
/// memory cannot fail, so the call returns `Ok`. Its compact formatter writes
/// `[`, the items with `,` between them, and `]`; each item is written
/// between quotes, with `"` and `\` preceded by a backslash, the control
/// characters below the space as `\b`, `\t`, `\n`, `\f`, `\r` or `\u00` and
/// two lower-case hexadecimal digits, and every other character as it is.
#[verifier::external_body]
fn to_json(items: &Vec<String>) -> (r: Result<String, serde_json::Error>)
    ensures
        r is Ok,
        r->Ok_0@ == json_array_text(items.deep_view()),
{
    serde_json::to_string(items)
}

/// How a line is to be shown.
#[derive(Debug, Clone, Copy, PartialEq, Eq)]
pub enum LineKind {
    /// Output for other programs: a name or a JSON array, undecorated.
    Plain,
    /// A remark that nothing was done, or why.
    Notice,
    /// The heading of the list of protected names.
    Warning,
    /// A protected name, listed for information.
    Muted,
    /// An empty line.
    Blank,
    /// The heading of the list of names to delete.
    Heading,
    /// A name to delete.
    Item,
    /// The announcement that everything is about to be removed.
    Danger,
    /// The count of deletions that succeeded.
    Success,
    /// The count of deletions that failed.
    Failure,
    /// The name whose deletion begins; its outcome follows on the same line.
    Deleting,
    /// The outcome of a deletion that succeeded.
    Deleted,
    /// The outcome of a deletion that failed; the text is the reason.
    NotDeleted,
}

/// One line of output.
#[derive(Debug, Clone, PartialEq, Eq)]
pub struct Line {
    pub kind: LineKind,
    pub text: String,
}

/// The model of a [`Line`].
pub struct LineView {
    pub kind: LineKind,
    pub text: Seq<char>,
}

impl View for Line {
    type V = LineView;

    open spec fn view(&self) -> LineView {
        LineView { kind: self.kind, text: self.text@ }
    }
}

impl DeepView for Line {
    type V = LineView;

    open spec fn deep_view(&self) -> LineView {
        self@
    }
}

/// Which of the three renderings a command uses.
#[derive(Debug, Clone, Copy, PartialEq, Eq)]
pub enum OutputMode {
    /// One name per line.
    Plain,
    /// One JSON array of names.
    Json,
    /// Headings, bullet lists and notices for a person.
    Interactive,
}

/// The rendering for a pair of flags: JSON where `json` is set, else plain
/// lines in a dry run, else the rendering for a person.
pub open spec fn mode_of(dry_run: bool, json: bool) -> OutputMode {
    if json {
        OutputMode::Json
    } else if dry_run {
        OutputMode::Plain
    } else {
        OutputMode::Interactive
    }
}

/// The line of kind `kind` that says `text`.
pub open spec fn line(kind: LineKind, text: Seq<char>) -> LineView {
    LineView { kind, text }
}

/// One line of kind `kind` for each of `items`, in order.
pub open spec fn lines_of(kind: LineKind, items: Seq<Seq<char>>) -> Seq<LineView> {
    items.map_values(|item: Seq<char>| line(kind, item))
}

/// What is printed where there is nothing to list: the empty JSON array in
/// JSON mode, nothing in a plain dry run, and else the notice `message`.
pub open spec fn empty_result_lines(json: bool, dry_run: bool, message: Seq<char>) -> Seq<
    LineView,
> {
    match mode_of(dry_run, json) {
        OutputMode::Json => seq![line(LineKind::Plain, "[]"@)],
        OutputMode::Plain => Seq::empty(),
        OutputMode::Interactive => seq![line(LineKind::Notice, message)],
    }
}

/// The listing of a dry run: one JSON array, or one plain line for each item.
pub open spec fn dry_run_lines(items: Seq<Seq<char>>, json: bool) -> Seq<LineView> {
    if json {
        seq![line(LineKind::Plain, json_array_text(items))]
    } else {
        lines_of(LineKind::Plain, items)
    }
}

/// The heading over the protected names.
pub open spec fn protected_heading(label: Seq<char>) -> Seq<char> {
    "Protected "@ + label + " (skipped):"@
}

/// The list of protected names that are skipped: nothing where there are
/// none, else a heading, the names and an empty line.
pub open spec fn protected_lines(items: Seq<Seq<char>>, label: Seq<char>) -> Seq<LineView> {
    if items.len() == 0 {
        Seq::empty()
    } else {
        seq![line(LineKind::Warning, protected_heading(label))] + lines_of(LineKind::Muted, items)
            + seq![line(LineKind::Blank, Seq::empty())]
    }
}

/// The heading over the names to delete.
pub open spec fn found_heading(count: nat, item_type: Seq<char>, context: Seq<char>) -> Seq<char> {
    "Found "@ + decimal(count) + " "@ + item_type + " "@ + context + ":"@
}

/// The list of names to delete: a heading with their number, then the names.
pub open spec fn deletion_lines(
    items: Seq<Seq<char>>,
    item_type: Seq<char>,
    context: Seq<char>,
) -> Seq<LineView> {
    seq![line(LineKind::Heading, found_heading(items.len(), item_type, context))] + lines_of(
        LineKind::Item,
        items,
    )
}

/// The sentence that counts the deletions that succeeded.
pub open spec fn deleted_text(deleted: nat, item_type: Seq<char>, target: Seq<char>) -> Seq<char> {
    "Deleted "@ + decimal(deleted) + " "@ + item_type + " from "@ + target
}

/// The sentence that counts the deletions that failed.
pub open spec fn failed_text(failed: nat, item_type: Seq<char>) -> Seq<char> {
    "Failed to delete "@ + decimal(failed) + " "@ + item_type
}

/// The summary of a batch: an empty line, the count of successes and, where
/// there were any, the count of failures.
pub open spec fn summary_lines(
    deleted: nat,
    failed: nat,
    item_type: Seq<char>,
    target: Seq<char>,
) -> Seq<LineView> {
    let head = seq![
        line(LineKind::Blank, Seq::empty()),
        line(LineKind::Success, deleted_text(deleted, item_type, target)),
    ];
    if failed > 0 {
        head.push(line(LineKind::Failure, failed_text(failed, item_type)))
    } else {
        head
    }
}

/// Chooses the rendering for a pair of flags. Whether a terminal is attached
/// plays no part.
pub fn output_mode(dry_run: bool, json: bool) -> (mode: OutputMode)
    ensures
        mode == mode_of(dry_run, json),
{
    if json {
        OutputMode::Json
    } else if dry_run {
        OutputMode::Plain
    } else {
        OutputMode::Interactive
    }
}

/// Appends one line of kind `kind` for each of `items` to `lines`.
pub fn push_lines(lines: &mut Vec<Line>, kind: LineKind, items: &Vec<String>)
    ensures
        final(lines).deep_view() == old(lines).deep_view() + lines_of(kind, items.deep_view()),
{
    let ghost start = lines.deep_view();
    let ghost all = items.deep_view();
    assert(start + lines_of(kind, all.take(0)) =~= start);
    let mut i: usize = 0;
    while i < items.len()
        invariant
            i <= items.len(),
            all == items.deep_view(),
            lines.deep_view() == start + lines_of(kind, all.take(i as int)),
        decreases items.len() - i,
    {
        let ghost before = lines.deep_view();
        lines.push(Line { kind, text: items[i].clone() });
        assert(lines.deep_view() =~= before.push(line(kind, all[i as int])));
        assert(start + lines_of(kind, all.take(i + 1)) =~= (start + lines_of(
            kind,
            all.take(i as int),
        )).push(line(kind, all[i as int])));
        i = i + 1;
    }
    assert(all.take(i as int) == all);
}

/// Appends the lines `more` to `lines`.
pub fn append_lines(lines: &mut Vec<Line>, more: Vec<Line>)
    ensures
        final(lines).deep_view() == old(lines).deep_view() + more.deep_view(),
{
    let mut more = more;
    let ghost added = more.deep_view();
    let ghost start = lines.deep_view();
    lines.append(&mut more);
    assert(lines.deep_view() =~= start + added);
}

/// Appends a notice that says `text` to `lines`.
pub fn push_notice(lines: &mut Vec<Line>, text: String)
    ensures
        final(lines).deep_view() == old(lines).deep_view().push(line(LineKind::Notice, text@)),
{
    let ghost start = lines.deep_view();
    lines.push(Line { kind: LineKind::Notice, text });
    assert(lines.deep_view() =~= start.push(line(LineKind::Notice, text@)));
}

/// Renders `items` as a JSON array of strings on one line. The array of no
/// items is exactly `[]`.
pub fn json_array(items: &Vec<String>) -> (out: String)
    ensures
        out@ == json_array_text(items.deep_view()),
        items.len() == 0 ==> out@ == "[]"@,
{
    proof {
        if items.len() == 0 {
            lemma_json_of_nothing(items.deep_view());
        }
    }
    match to_json(items) {
        Ok(text) => text,
        Err(_) => String::new(),
    }
}

/// What to print where there is nothing to list.
pub fn empty_result(json: bool, dry_run: bool, message: &str) -> (out: Vec<Line>)
    ensures
        out.deep_view() == empty_result_lines(json, dry_run, message@),
{
    let mut out: Vec<Line> = Vec::new();
    match output_mode(dry_run, json) {
        OutputMode::Json => {
            let none: Vec<String> = Vec::new();
            out.push(Line { kind: LineKind::Plain, text: json_array(&none) });
        },
        OutputMode::Plain => {},
        OutputMode::Interactive => {
            out.push(Line { kind: LineKind::Notice, text: message.to_owned() });
        },
    }
    assert(out.deep_view() =~= empty_result_lines(json, dry_run, message@));
    out
}

/// The listing of a dry run.
pub fn dry_run_output(items: &Vec<String>, json: bool) -> (out: Vec<Line>)
    ensures
        out.deep_view() == dry_run_lines(items.deep_view(), json),
{
    let mut out: Vec<Line> = Vec::new();
    if json {
        out.push(Line { kind: LineKind::Plain, text: json_array(items) });
        assert(out.deep_view() =~= dry_run_lines(items.deep_view(), json));
    } else {
        assert(out.deep_view() =~= Seq::<LineView>::empty());
        push_lines(&mut out, LineKind::Plain, items);
        assert(out.deep_view() =~= dry_run_lines(items.deep_view(), json));
    }
    out
}

/// The list of protected names that are skipped.
pub fn protected_items(items: &Vec<String>, label: &str) -> (out: Vec<Line>)
    ensures
        out.deep_view() == protected_lines(items.deep_view(), label@),
{
    let mut out: Vec<Line> = Vec::new();
    if items.len() == 0 {
        assert(out.deep_view() =~= protected_lines(items.deep_view(), label@));
        return out;
    }
    let mut heading = "Protected ".to_owned();
    heading.append(label);
    heading.append(" (skipped):");
    out.push(Line { kind: LineKind::Warning, text: heading });
    assert(out.deep_view() =~= seq![line(LineKind::Warning, protected_heading(label@))]);
    push_lines(&mut out, LineKind::Muted, items);
    let ghost before = out.deep_view();
    out.push(Line { kind: LineKind::Blank, text: String::new() });
    assert(out.deep_view() =~= before.push(line(LineKind::Blank, Seq::empty())));
    assert(out.deep_view() =~= protected_lines(items.deep_view(), label@));
    out
}

/// The list of names to delete, headed by their number.
pub fn items_for_deletion(items: &Vec<String>, item_type: &str, context: &str) -> (out: Vec<Line>)
    ensures
        out.deep_view() == deletion_lines(items.deep_view(), item_type@, context@),
{
    let mut out: Vec<Line> = Vec::new();
    let mut heading = "Found ".to_owned();
    heading.append(decimal_string(items.len()).as_str());
    heading.append(" ");
    heading.append(item_type);
    heading.append(" ");
    heading.append(context);
    heading.append(":");
    out.push(Line { kind: LineKind::Heading, text: heading });
    assert(out.deep_view() =~= seq![
        line(LineKind::Heading, found_heading(items.deep_view().len(), item_type@, context@)),
    ]);
    push_lines(&mut out, LineKind::Item, items);
    out
}

/// The summary of a batch of deletions.
pub fn deletion_summary(deleted: usize, failed: usize, item_type: &str, target: &str) -> (out: Vec<
    Line,
>)
    ensures
        out.deep_view() == summary_lines(deleted as nat, failed as nat, item_type@, target@),
{
    let mut out: Vec<Line> = Vec::new();
    out.push(Line { kind: LineKind::Blank, text: String::new() });
    let mut text = "Deleted ".to_owned();
    text.append(decimal_string(deleted).as_str());
    text.append(" ");
    text.append(item_type);
    text.append(" from ");
    text.append(target);
    out.push(Line { kind: LineKind::Success, text });
    if failed > 0 {
        let mut text = "Failed to delete ".to_owned();
        text.append(decimal_string(failed).as_str());
        text.append(" ");
        text.append(item_type);
        out.push(Line { kind: LineKind::Failure, text });
    }
    assert(out.deep_view() =~= summary_lines(deleted as nat, failed as nat, item_type@, target@));
    out
}

} // verus!
