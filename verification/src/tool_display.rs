//! How tool results are shown: the row a finished tool call gets, shaped
//! from its provider-visible JSON payload when the tool's shape is known,
//! the short preview next to a tool call, and the summaries stored for
//! read-only results. Live progress and resumed transcripts share these
//! functions, so both render identical rows.
use crate::json::{
    json_array_len, json_array_len_of, json_bool_field, json_bool_field_of, json_i64_field,
    json_i64_field_of, json_item_str_field, json_item_str_field_of, json_item_u64_field,
    json_item_u64_field_of, json_str_field, json_str_field_of, json_u64_field, json_u64_field_of,
};
use crate::provider_context::tool_outcome_label;
use crate::session::{NativeToolOutcome, NativeToolPayloadSummary};
use crate::text::{
    append_str, bool_string, bool_text, chars_of, decimal, decimal_string, join_lines,
    join_with_newlines, lines_of, lines_of_str, opt_str_view, opt_view, owned, push_char,
    signed_decimal, signed_decimal_string, str_eq, string_of_range, trim, trimmed,
};
use vstd::prelude::*;

verus! {

pub open spec fn views_of(v: Seq<String>) -> Seq<Seq<char>> {
    v.map_values(|s: String| s@)
}

fn opt_ref(o: &Option<String>) -> (r: Option<&str>)
    ensures
        opt_str_view(r) == opt_view(*o),
{
    match o {
        Some(s) => Some(s.as_str()),
        None => None,
    }
}

fn push_line(lines: &mut Vec<String>, line: String)
    ensures
        views_of(final(lines)@) == views_of(old(lines)@).push(line@),
{
    let ghost before = lines@;
    lines.push(line);
    assert(views_of(lines@) =~= views_of(before).push(line@));
}

// ---------------------------------------------------------------------------
// read_text_file
// ---------------------------------------------------------------------------

/// `completed: <path>; <n> line(s), <bytes> bytes`, counting at least one line.
pub open spec fn read_progress(
    path: Option<Seq<char>>,
    byte_count: Option<u64>,
    text: Option<Seq<char>>,
) -> Option<Seq<char>> {
    match (path, byte_count, text) {
        (Some(p), Some(b), Some(t)) => {
            let n: nat = if lines_of(t).len() == 0 {
                1
            } else {
                lines_of(t).len()
            };
            Some(
                "completed: "@ + p + "; "@ + decimal(n) + if n == 1 {
                    " line, "@
                } else {
                    " lines, "@
                } + decimal(b as nat) + " bytes"@,
            )
        },
        _ => None,
    }
}

pub fn read_progress_from(path: Option<&str>, byte_count: Option<u64>, text: Option<&str>) -> (r:
    Option<String>)
    ensures
        opt_view(r) == read_progress(opt_str_view(path), byte_count, opt_str_view(text)),
{
    match (path, byte_count, text) {
        (Some(path), Some(byte_count), Some(text)) => {
            let lines = lines_of_str(text);
            assert(lines@.len() == lines_of(text@).len()) by {
                assert(lines@.map_values(|l: String| l@).len() == lines@.len());
            }
            let n: usize = if lines.len() == 0 {
                1
            } else {
                lines.len()
            };
            let mut s = String::from_str("completed: ");
            append_str(&mut s, path);
            append_str(&mut s, "; ");
            append_str(&mut s, decimal_string(n as u64).as_str());
            if n == 1 {
                append_str(&mut s, " line, ");
            } else {
                append_str(&mut s, " lines, ");
            }
            append_str(&mut s, decimal_string(byte_count).as_str());
            append_str(&mut s, " bytes");
            Some(s)
        },
        _ => None,
    }
}

pub open spec fn read_progress_of(content: Seq<char>) -> Option<Seq<char>> {
    read_progress(
        json_str_field(content, "path"@),
        json_u64_field(content, "byte_count"@),
        json_str_field(content, "text"@),
    )
}

pub fn native_provider_visible_read_progress(content: &str) -> (r: Option<String>)
    ensures
        opt_view(r) == read_progress_of(content@),
{
    let path = json_str_field_of(content, "path");
    let byte_count = json_u64_field_of(content, "byte_count");
    let text = json_str_field_of(content, "text");
    read_progress_from(opt_ref(&path), byte_count, opt_ref(&text))
}

// ---------------------------------------------------------------------------
// project_path_info
// ---------------------------------------------------------------------------

/// `completed: <path>; <kind>`, with `, <n> bytes` when a size is known.
pub open spec fn path_info_progress(
    relative_path: Option<Seq<char>>,
    kind: Option<Seq<char>>,
    byte_size: Option<u64>,
) -> Option<Seq<char>> {
    match (relative_path, kind) {
        (Some(p), Some(k)) => Some(
            "completed: "@ + p + "; "@ + k + match byte_size {
                Some(n) => ", "@ + decimal(n as nat) + " bytes"@,
                None => seq![],
            },
        ),
        _ => None,
    }
}

pub fn path_info_progress_from(
    relative_path: Option<&str>,
    kind: Option<&str>,
    byte_size: Option<u64>,
) -> (r: Option<String>)
    ensures
        opt_view(r) == path_info_progress(opt_str_view(relative_path), opt_str_view(kind), byte_size),
{
    match (relative_path, kind) {
        (Some(p), Some(k)) => {
            let mut s = String::from_str("completed: ");
            append_str(&mut s, p);
            append_str(&mut s, "; ");
            append_str(&mut s, k);
            if let Some(n) = byte_size {
                append_str(&mut s, ", ");
                append_str(&mut s, decimal_string(n).as_str());
                append_str(&mut s, " bytes");
            }
            Some(s)
        },
        _ => None,
    }
}

pub open spec fn path_info_progress_of(content: Seq<char>) -> Option<Seq<char>> {
    path_info_progress(
        json_str_field(content, "relative_path"@),
        json_str_field(content, "kind"@),
        json_u64_field(content, "byte_size"@),
    )
}

pub fn native_provider_visible_path_info_progress(content: &str) -> (r: Option<String>)
    ensures
        opt_view(r) == path_info_progress_of(content@),
{
    let relative_path = json_str_field_of(content, "relative_path");
    let kind = json_str_field_of(content, "kind");
    let byte_size = json_u64_field_of(content, "byte_size");
    path_info_progress_from(opt_ref(&relative_path), opt_ref(&kind), byte_size)
}

// ---------------------------------------------------------------------------
// failed tools
// ---------------------------------------------------------------------------

/// `failed: <error>`, followed by the guidance on its own line when given.
pub open spec fn failed_progress(error: Option<Seq<char>>, guidance: Option<Seq<char>>) -> Option<
    Seq<char>,
> {
    match error {
        Some(e) => Some(
            "failed: "@ + e + match guidance {
                Some(g) => seq!['\n'] + g,
                None => seq![],
            },
        ),
        None => None,
    }
}

pub fn failed_progress_from(error: Option<&str>, guidance: Option<&str>) -> (r: Option<String>)
    ensures
        opt_view(r) == failed_progress(opt_str_view(error), opt_str_view(guidance)),
{
    match error {
        Some(e) => {
            let mut s = String::from_str("failed: ");
            append_str(&mut s, e);
            if let Some(g) = guidance {
                push_char(&mut s, '\n');
                append_str(&mut s, g);
            }
            Some(s)
        },
        None => None,
    }
}

pub open spec fn failed_progress_of(content: Seq<char>) -> Option<Seq<char>> {
    failed_progress(json_str_field(content, "error"@), json_str_field(content, "guidance"@))
}

pub fn native_provider_visible_failed_progress(content: &str) -> (r: Option<String>)
    ensures
        opt_view(r) == failed_progress_of(content@),
{
    let error = json_str_field_of(content, "error");
    let guidance = json_str_field_of(content, "guidance");
    failed_progress_from(opt_ref(&error), opt_ref(&guidance))
}

// ---------------------------------------------------------------------------
// bash
// ---------------------------------------------------------------------------

/// Trailing output lines a finished bash row keeps visible.
pub const BASH_PROGRESS_TAIL_LINES: usize = 8;

/// `<s>.<tenths>s` from one second on, `<ms>ms` below.
pub open spec fn duration_text(ms: u64) -> Seq<char> {
    if ms >= 1000 {
        decimal((ms / 1000) as nat) + "."@ + decimal(((ms % 1000) / 100) as nat) + "s"@
    } else {
        decimal(ms as nat) + "ms"@
    }
}

pub fn duration_string(ms: u64) -> (s: String)
    ensures
        s@ == duration_text(ms),
{
    if ms >= 1000 {
        let mut s = decimal_string(ms / 1000);
        append_str(&mut s, ".");
        append_str(&mut s, decimal_string((ms % 1000) / 100).as_str());
        append_str(&mut s, "s");
        s
    } else {
        let mut s = decimal_string(ms);
        append_str(&mut s, "ms");
        s
    }
}

/// The rows of a finished bash command: a header with its exit code
/// (`unknown` when absent), duration and output size, a note counting the
/// earlier lines when more than eight, and the last eight output lines.
pub open spec fn bash_progress(
    output: Option<Seq<char>>,
    output_bytes_total: Option<u64>,
    duration_ms: Option<u64>,
    exit_code: Option<i64>,
) -> Option<Seq<char>> {
    match (output, output_bytes_total, duration_ms) {
        (Some(o), Some(total), Some(d)) => {
            let ls = lines_of(o);
            let header = "completed: exit "@ + match exit_code {
                Some(c) => signed_decimal(c as int),
                None => "unknown"@,
            } + "; "@ + duration_text(d) + "; "@ + decimal(total as nat) + " bytes"@;
            let more: Seq<Seq<char>> = if ls.len() > 8 {
                seq!["... "@ + decimal((ls.len() - 8) as nat) + " earlier lines"@]
            } else {
                seq![]
            };
            let tail = if ls.len() > 8 {
                ls.subrange(ls.len() - 8, ls.len() as int)
            } else {
                ls
            };
            Some(join_lines(seq![header] + more + tail))
        },
        _ => None,
    }
}

pub fn bash_progress_from(
    output: Option<&str>,
    output_bytes_total: Option<u64>,
    duration_ms: Option<u64>,
    exit_code: Option<i64>,
) -> (r: Option<String>)
    ensures
        opt_view(r) == bash_progress(opt_str_view(output), output_bytes_total, duration_ms, exit_code),
{
    match (output, output_bytes_total, duration_ms) {
        (Some(output), Some(total), Some(duration)) => {
            let exit = match exit_code {
                Some(code) => signed_decimal_string(code),
                None => String::from_str("unknown"),
            };
            let mut header = String::from_str("completed: exit ");
            append_str(&mut header, exit.as_str());
            append_str(&mut header, "; ");
            append_str(&mut header, duration_string(duration).as_str());
            append_str(&mut header, "; ");
            append_str(&mut header, decimal_string(total).as_str());
            append_str(&mut header, " bytes");
            let output_lines = lines_of_str(output);
            let ghost ls = lines_of(output@);
            assert(views_of(output_lines@) == ls);
            let n = output_lines.len();
            let ghost header_text = header@;
            assert(header_text == "completed: exit "@ + match exit_code {
                Some(c) => signed_decimal(c as int),
                None => "unknown"@,
            } + "; "@ + duration_text(duration) + "; "@ + decimal(total as nat) + " bytes"@);
            let mut lines: Vec<String> = Vec::new();
            assert(views_of(lines@) =~= Seq::<Seq<char>>::empty());
            push_line(&mut lines, header);
            let ghost h = views_of(lines@);
            assert(h =~= seq![header_text]);
            let mut start: usize = 0;
            if n > BASH_PROGRESS_TAIL_LINES {
                let mut more = String::from_str("... ");
                append_str(&mut more, decimal_string((n - BASH_PROGRESS_TAIL_LINES) as u64).as_str());
                append_str(&mut more, " earlier lines");
                assert(more@ == "... "@ + decimal((ls.len() - 8) as nat) + " earlier lines"@);
                push_line(&mut lines, more);
                start = n - BASH_PROGRESS_TAIL_LINES;
            }
            let ghost prefix = views_of(lines@);
            let mut i: usize = start;
            while i < n
                invariant
                    n == output_lines@.len(),
                    views_of(output_lines@) == ls,
                    start <= i <= n,
                    views_of(lines@) == prefix + ls.subrange(start as int, i as int),
                decreases n - i,
            {
                push_line(&mut lines, output_lines[i].clone());
                assert(ls.subrange(start as int, i + 1) =~= ls.subrange(start as int, i as int).push(
                    ls[i as int],
                ));
                i = i + 1;
            }
            let joined = join_with_newlines(&lines);
            proof {
                let more: Seq<Seq<char>> = if ls.len() > 8 {
                    seq!["... "@ + decimal((ls.len() - 8) as nat) + " earlier lines"@]
                } else {
                    seq![]
                };
                let tail = if ls.len() > 8 {
                    ls.subrange(ls.len() - 8, ls.len() as int)
                } else {
                    ls
                };
                assert(ls.subrange(0, ls.len() as int) =~= ls);
                assert(views_of(lines@) =~= seq![header_text] + more + tail);
                assert(joined@ == join_lines(seq![header_text] + more + tail));
            }
            Some(joined)
        },
        _ => None,
    }
}

pub open spec fn bash_progress_of(content: Seq<char>) -> Option<Seq<char>> {
    bash_progress(
        json_str_field(content, "output"@),
        json_u64_field(content, "output_bytes_total"@),
        json_u64_field(content, "duration_ms"@),
        json_i64_field(content, "exit_code"@),
    )
}

pub fn native_provider_visible_bash_progress(content: &str) -> (r: Option<String>)
    ensures
        opt_view(r) == bash_progress_of(content@),
{
    let output = json_str_field_of(content, "output");
    let total = json_u64_field_of(content, "output_bytes_total");
    let duration = json_u64_field_of(content, "duration_ms");
    let exit_code = json_i64_field_of(content, "exit_code");
    bash_progress_from(opt_ref(&output), total, duration, exit_code)
}

// ---------------------------------------------------------------------------
// search_project and list_project_paths
// ---------------------------------------------------------------------------

pub open spec fn match_line(item: (Seq<char>, u64, Seq<char>)) -> Seq<char> {
    item.0 + ":"@ + decimal(item.1 as nat) + ": "@ + item.2
}

pub open spec fn search_item_views(items: Seq<Option<(String, u64, String)>>) -> Seq<
    Option<(Seq<char>, u64, Seq<char>)>,
> {
    items.map_values(
        |it: Option<(String, u64, String)>|
            match it {
                Some(t) => Some((t.0@, t.1, t.2@)),
                None => None,
            },
    )
}

/// A header with the match count and truncation, one `path:line: text`
/// row per shown match, and a count of the matches not shown beyond eight;
/// nothing when a shown match lacks a field.
pub open spec fn search_progress(
    count: Option<usize>,
    truncated: Option<bool>,
    items: Seq<Option<(Seq<char>, u64, Seq<char>)>>,
) -> Option<Seq<char>> {
    match (count, truncated) {
        (Some(n), Some(tr)) => if forall|i: int| 0 <= i < items.len() ==> #[trigger] items[i] is Some {
            let header = "completed: "@ + decimal(n as nat) + " matches; truncated="@ + bool_text(tr);
            let rows = items.map_values(
                |it: Option<(Seq<char>, u64, Seq<char>)>| match_line(it.unwrap()),
            );
            let more: Seq<Seq<char>> = if n > 8 {
                seq!["... "@ + decimal((n - 8) as nat) + " more matches"@]
            } else {
                seq![]
            };
            Some(join_lines(seq![header] + rows + more))
        } else {
            None
        },
        _ => None,
    }
}

pub fn search_progress_from(
    count: Option<usize>,
    truncated: Option<bool>,
    items: &Vec<Option<(String, u64, String)>>,
) -> (r: Option<String>)
    ensures
        opt_view(r) == search_progress(count, truncated, search_item_views(items@)),
{
    let ghost iv = search_item_views(items@);
    let (n, tr) = match (count, truncated) {
        (Some(n), Some(tr)) => (n, tr),
        _ => {
            return None;
        },
    };
    let mut header = String::from_str("completed: ");
    append_str(&mut header, decimal_string(n as u64).as_str());
    append_str(&mut header, " matches; truncated=");
    append_str(&mut header, bool_string(tr));
    let ghost header_text = header@;
    let mut lines: Vec<String> = Vec::new();
    assert(views_of(lines@) =~= Seq::<Seq<char>>::empty());
    push_line(&mut lines, header);
    let ghost prefix = views_of(lines@);
    assert(prefix =~= seq![header_text]);
    let ghost rows = iv.map_values(
        |it: Option<(Seq<char>, u64, Seq<char>)>| match_line(it.unwrap()),
    );
    let mut i: usize = 0;
    while i < items.len()
        invariant
            iv == search_item_views(items@),
            rows == iv.map_values(|it: Option<(Seq<char>, u64, Seq<char>)>| match_line(it.unwrap())),
            i <= items@.len(),
            forall|j: int| 0 <= j < i ==> #[trigger] iv[j] is Some,
            views_of(lines@) == prefix + rows.take(i as int),
        decreases items.len() - i,
    {
        match &items[i] {
            Some((path, line_number, line)) => {
                let mut row = owned(path.as_str());
                append_str(&mut row, ":");
                append_str(&mut row, decimal_string(*line_number).as_str());
                append_str(&mut row, ": ");
                append_str(&mut row, line.as_str());
                push_line(&mut lines, row);
                assert(rows.take(i + 1) =~= rows.take(i as int).push(rows[i as int]));
            },
            None => {
                assert(!(forall|j: int| 0 <= j < iv.len() ==> #[trigger] iv[j] is Some));
                return None;
            },
        }
        i = i + 1;
    }
    let ghost before_more = views_of(lines@);
    if n > 8 {
        let mut more = String::from_str("... ");
        append_str(&mut more, decimal_string((n - 8) as u64).as_str());
        append_str(&mut more, " more matches");
        push_line(&mut lines, more);
    }
    let joined = join_with_newlines(&lines);
    proof {
        let more: Seq<Seq<char>> = if n > 8 {
            seq!["... "@ + decimal((n - 8) as nat) + " more matches"@]
        } else {
            seq![]
        };
        assert(rows.take(items@.len() as int) =~= rows);
        assert(views_of(lines@) =~= seq![header_text] + rows + more);
    }
    Some(joined)
}

/// Match `i` of a search payload, when it has its three fields.
pub open spec fn search_item_of(content: Seq<char>, i: int) -> Option<(Seq<char>, u64, Seq<char>)> {
    match (
        json_item_str_field(content, "matches"@, i as usize, "path"@),
        json_item_u64_field(content, "matches"@, i as usize, "line_number"@),
        json_item_str_field(content, "matches"@, i as usize, "line"@),
    ) {
        (Some(p), Some(n), Some(l)) => Some((p, n, l)),
        _ => None,
    }
}

pub open spec fn shown(n: usize, limit: usize) -> nat {
    if n < limit {
        n as nat
    } else {
        limit as nat
    }
}

pub open spec fn search_progress_of(content: Seq<char>) -> Option<Seq<char>> {
    match json_array_len(content, "matches"@) {
        Some(n) => search_progress(
            Some(n),
            json_bool_field(content, "truncated"@),
            Seq::new(shown(n, 8), |i: int| search_item_of(content, i)),
        ),
        None => None,
    }
}

pub fn native_provider_visible_search_progress(content: &str) -> (r: Option<String>)
    ensures
        opt_view(r) == search_progress_of(content@),
{
    let count = match json_array_len_of(content, "matches") {
        Some(n) => n,
        None => {
            return None;
        },
    };
    let truncated = json_bool_field_of(content, "truncated");
    let limit: usize = if count < 8 {
        count
    } else {
        8
    };
    let mut items: Vec<Option<(String, u64, String)>> = Vec::new();
    let mut i: usize = 0;
    while i < limit
        invariant
            limit == shown(count, 8),
            i <= limit,
            search_item_views(items@) == Seq::new(i as nat, |k: int| search_item_of(content@, k)),
        decreases limit - i,
    {
        let path = json_item_str_field_of(content, "matches", i, "path");
        let line_number = json_item_u64_field_of(content, "matches", i, "line_number");
        let line = json_item_str_field_of(content, "matches", i, "line");
        let item = match (path, line_number, line) {
            (Some(p), Some(n), Some(l)) => Some((p, n, l)),
            _ => None,
        };
        let ghost before = items@;
        items.push(item);
        assert(search_item_views(items@) =~= Seq::new((i + 1) as nat, |k: int| search_item_of(content@, k))) by {
            assert(search_item_views(items@) =~= search_item_views(before).push(search_item_views(items@).last()));
        }
        i = i + 1;
    }
    search_progress_from(Some(count), truncated, &items)
}

pub open spec fn entry_line(item: (Seq<char>, Seq<char>)) -> Seq<char> {
    item.1 + " "@ + item.0
}

pub open spec fn list_item_views(items: Seq<Option<(String, String)>>) -> Seq<
    Option<(Seq<char>, Seq<char>)>,
> {
    items.map_values(
        |it: Option<(String, String)>|
            match it {
                Some(t) => Some((t.0@, t.1@)),
                None => None,
            },
    )
}

/// A header with the entry count and truncation, one `<kind> <path>` row
/// per shown entry, and a count of the entries not shown beyond twelve;
/// nothing when a shown entry lacks a field.
pub open spec fn list_progress(
    count: Option<usize>,
    truncated: Option<bool>,
    items: Seq<Option<(Seq<char>, Seq<char>)>>,
) -> Option<Seq<char>> {
    match (count, truncated) {
        (Some(n), Some(tr)) => if forall|i: int| 0 <= i < items.len() ==> #[trigger] items[i] is Some {
            let header = "completed: "@ + decimal(n as nat) + " entries; truncated="@ + bool_text(tr);
            let rows = items.map_values(|it: Option<(Seq<char>, Seq<char>)>| entry_line(it.unwrap()));
            let more: Seq<Seq<char>> = if n > 12 {
                seq!["... "@ + decimal((n - 12) as nat) + " more entries"@]
            } else {
                seq![]
            };
            Some(join_lines(seq![header] + rows + more))
        } else {
            None
        },
        _ => None,
    }
}

pub fn list_progress_from(
    count: Option<usize>,
    truncated: Option<bool>,
    items: &Vec<Option<(String, String)>>,
) -> (r: Option<String>)
    ensures
        opt_view(r) == list_progress(count, truncated, list_item_views(items@)),
{
    let ghost iv = list_item_views(items@);
    let (n, tr) = match (count, truncated) {
        (Some(n), Some(tr)) => (n, tr),
        _ => {
            return None;
        },
    };
    let mut header = String::from_str("completed: ");
    append_str(&mut header, decimal_string(n as u64).as_str());
    append_str(&mut header, " entries; truncated=");
    append_str(&mut header, bool_string(tr));
    let ghost header_text = header@;
    let mut lines: Vec<String> = Vec::new();
    assert(views_of(lines@) =~= Seq::<Seq<char>>::empty());
    push_line(&mut lines, header);
    let ghost prefix = views_of(lines@);
    assert(prefix =~= seq![header_text]);
    let ghost rows = iv.map_values(|it: Option<(Seq<char>, Seq<char>)>| entry_line(it.unwrap()));
    let mut i: usize = 0;
    while i < items.len()
        invariant
            iv == list_item_views(items@),
            rows == iv.map_values(|it: Option<(Seq<char>, Seq<char>)>| entry_line(it.unwrap())),
            i <= items@.len(),
            forall|j: int| 0 <= j < i ==> #[trigger] iv[j] is Some,
            views_of(lines@) == prefix + rows.take(i as int),
        decreases items.len() - i,
    {
        match &items[i] {
            Some((path, kind)) => {
                let mut row = owned(kind.as_str());
                append_str(&mut row, " ");
                append_str(&mut row, path.as_str());
                push_line(&mut lines, row);
                assert(rows.take(i + 1) =~= rows.take(i as int).push(rows[i as int]));
            },
            None => {
                assert(!(forall|j: int| 0 <= j < iv.len() ==> #[trigger] iv[j] is Some));
                return None;
            },
        }
        i = i + 1;
    }
    let ghost before_more = views_of(lines@);
    if n > 12 {
        let mut more = String::from_str("... ");
        append_str(&mut more, decimal_string((n - 12) as u64).as_str());
        append_str(&mut more, " more entries");
        push_line(&mut lines, more);
    }
    let joined = join_with_newlines(&lines);
    proof {
        let more: Seq<Seq<char>> = if n > 12 {
            seq!["... "@ + decimal((n - 12) as nat) + " more entries"@]
        } else {
            seq![]
        };
        assert(rows.take(items@.len() as int) =~= rows);
        assert(views_of(lines@) =~= seq![header_text] + rows + more);
    }
    Some(joined)
}

/// Entry `i` of a listing payload, when it has a path and a kind.
pub open spec fn list_item_of(content: Seq<char>, i: int) -> Option<(Seq<char>, Seq<char>)> {
    match (
        json_item_str_field(content, "entries"@, i as usize, "path"@),
        json_item_str_field(content, "entries"@, i as usize, "kind"@),
    ) {
        (Some(p), Some(k)) => Some((p, k)),
        _ => None,
    }
}

pub open spec fn list_progress_of(content: Seq<char>) -> Option<Seq<char>> {
    match json_array_len(content, "entries"@) {
        Some(n) => list_progress(
            Some(n),
            json_bool_field(content, "truncated"@),
            Seq::new(shown(n, 12), |i: int| list_item_of(content, i)),
        ),
        None => None,
    }
}

pub fn native_provider_visible_list_progress(content: &str) -> (r: Option<String>)
    ensures
        opt_view(r) == list_progress_of(content@),
{
    let count = match json_array_len_of(content, "entries") {
        Some(n) => n,
        None => {
            return None;
        },
    };
    let truncated = json_bool_field_of(content, "truncated");
    let limit: usize = if count < 12 {
        count
    } else {
        12
    };
    let mut items: Vec<Option<(String, String)>> = Vec::new();
    let mut i: usize = 0;
    while i < limit
        invariant
            limit == shown(count, 12),
            i <= limit,
            list_item_views(items@) == Seq::new(i as nat, |k: int| list_item_of(content@, k)),
        decreases limit - i,
    {
        let path = json_item_str_field_of(content, "entries", i, "path");
        let kind = json_item_str_field_of(content, "entries", i, "kind");
        let item = match (path, kind) {
            (Some(p), Some(k)) => Some((p, k)),
            _ => None,
        };
        let ghost before = items@;
        items.push(item);
        assert(list_item_views(items@) =~= Seq::new((i + 1) as nat, |k: int| list_item_of(content@, k))) by {
            assert(list_item_views(items@) =~= list_item_views(before).push(list_item_views(items@).last()));
        }
        i = i + 1;
    }
    list_progress_from(Some(count), truncated, &items)
}

// ---------------------------------------------------------------------------
// Shaped rows
// ---------------------------------------------------------------------------

/// The row a completed tool's payload is shown as, for tools whose payload
/// shape is known.
pub open spec fn visible_tool_progress(tool_name: Seq<char>, content: Seq<char>) -> Option<Seq<char>> {
    if tool_name == "read_text_file"@ {
        read_progress_of(content)
    } else if tool_name == "search_project"@ {
        search_progress_of(content)
    } else if tool_name == "list_project_paths"@ {
        list_progress_of(content)
    } else if tool_name == "bash"@ {
        bash_progress_of(content)
    } else if tool_name == "project_path_info"@ {
        path_info_progress_of(content)
    } else {
        None
    }
}

pub fn native_provider_visible_tool_progress_output(tool_name: &str, content: &str) -> (r: Option<
    String,
>)
    ensures
        opt_view(r) == visible_tool_progress(tool_name@, content@),
{
    if str_eq(tool_name, "read_text_file") {
        native_provider_visible_read_progress(content)
    } else if str_eq(tool_name, "search_project") {
        native_provider_visible_search_progress(content)
    } else if str_eq(tool_name, "list_project_paths") {
        native_provider_visible_list_progress(content)
    } else if str_eq(tool_name, "bash") {
        native_provider_visible_bash_progress(content)
    } else if str_eq(tool_name, "project_path_info") {
        native_provider_visible_path_info_progress(content)
    } else {
        None
    }
}

/// The generic row: status, byte count, redaction and truncation, and the
/// reason when one is given.
pub open spec fn redacted_row(
    status: NativeToolOutcome,
    byte_count: usize,
    truncated: bool,
    reason: Option<Seq<char>>,
) -> Seq<char> {
    tool_outcome_label(status) + "; bytes="@ + decimal(byte_count as nat)
        + "; content=redacted; truncated="@ + bool_text(truncated) + match reason {
        Some(r) => if r.len() > 0 {
            "; reason="@ + r
        } else {
            seq![]
        },
        None => seq![],
    }
}

/// A completed result with a known payload shape is shown shaped; a failed
/// one carrying `{error, guidance}` shows those; any other result shows the
/// generic redacted row.
pub open spec fn tool_result_display(
    tool_name: Seq<char>,
    status: NativeToolOutcome,
    content: Option<Seq<char>>,
    byte_count: usize,
    truncated: bool,
    reason: Option<Seq<char>>,
) -> Seq<char> {
    let shaped = match content {
        Some(c) => if status == NativeToolOutcome::Completed {
            visible_tool_progress(tool_name, c)
        } else if status == NativeToolOutcome::Failed {
            failed_progress_of(c)
        } else {
            None
        },
        None => None,
    };
    match shaped {
        Some(d) => d,
        None => redacted_row(status, byte_count, truncated, reason),
    }
}

pub fn native_redacted_tool_row(
    status: NativeToolOutcome,
    byte_count: usize,
    truncated: bool,
    reason: Option<&str>,
) -> (s: String)
    ensures
        s@ == redacted_row(status, byte_count, truncated, opt_str_view(reason)),
{
    let mut s = owned(crate::provider_context::native_tool_outcome_label(status));
    append_str(&mut s, "; bytes=");
    append_str(&mut s, decimal_string(byte_count as u64).as_str());
    append_str(&mut s, "; content=redacted; truncated=");
    append_str(&mut s, bool_string(truncated));
    if let Some(reason) = reason {
        if !reason.is_empty() {
            append_str(&mut s, "; reason=");
            append_str(&mut s, reason);
        }
    }
    s
}

/// The row shown for a finished tool call, live and on resume alike.
pub fn native_tool_result_display(
    tool_name: &str,
    status: NativeToolOutcome,
    content: Option<&str>,
    byte_count: usize,
    truncated: bool,
    reason: Option<&str>,
) -> (s: String)
    ensures
        s@ == tool_result_display(
            tool_name@,
            status,
            opt_str_view(content),
            byte_count,
            truncated,
            opt_str_view(reason),
        ),
{
    if let Some(content) = content {
        if status == NativeToolOutcome::Completed {
            if let Some(display) = native_provider_visible_tool_progress_output(tool_name, content) {
                return display;
            }
        } else if status == NativeToolOutcome::Failed {
            if let Some(display) = native_provider_visible_failed_progress(content) {
                return display;
            }
        }
    }
    native_redacted_tool_row(status, byte_count, truncated, reason)
}

// ---------------------------------------------------------------------------
// Tool call previews
// ---------------------------------------------------------------------------

/// Characters a tool call preview keeps.
pub const MAX_TOOL_CALL_PREVIEW_CHARS: usize = 80;

/// The argument a tool's preview shows.
pub open spec fn preview_argument(tool_name: Seq<char>) -> Option<Seq<char>> {
    if tool_name == "read_text_file"@ || tool_name == "project_path_info"@ || tool_name
        == "list_project_paths"@ {
        Some("path"@)
    } else if tool_name == "search_project"@ {
        Some("query"@)
    } else if tool_name == "bash"@ {
        Some("command"@)
    } else {
        None
    }
}

/// The trimmed first line of the argument, cut to 80 characters, with
/// `...` when the trimmed argument holds more; nothing for an empty line.
pub open spec fn call_preview(value: Option<Seq<char>>) -> Option<Seq<char>> {
    match value {
        Some(v) => {
            let ls = lines_of(v);
            let first = trim(
                if ls.len() > 0 {
                    ls[0]
                } else {
                    seq![]
                },
            );
            if first.len() == 0 {
                None
            } else {
                let preview = if first.len() <= 80 {
                    first
                } else {
                    first.subrange(0, 80)
                };
                Some(
                    if trim(v).len() > preview.len() {
                        preview + "..."@
                    } else {
                        preview
                    },
                )
            }
        },
        None => None,
    }
}

pub fn call_preview_from(value: Option<&str>) -> (r: Option<String>)
    ensures
        opt_view(r) == call_preview(opt_str_view(value)),
{
    let value = match value {
        Some(v) => v,
        None => {
            return None;
        },
    };
    let lines = lines_of_str(value);
    assert(views_of(lines@) == lines_of(value@));
    let first = if lines.len() > 0 {
        trimmed(lines[0].as_str())
    } else {
        trimmed("")
    };
    proof {
        if lines@.len() == 0 {
            assert(""@ =~= Seq::<char>::empty()) by {
                reveal_strlit("");
            }
        }
    }
    let chars = chars_of(first.as_str());
    if chars.len() == 0 {
        return None;
    }
    let keep: usize = if chars.len() <= MAX_TOOL_CALL_PREVIEW_CHARS {
        chars.len()
    } else {
        MAX_TOOL_CALL_PREVIEW_CHARS
    };
    let mut preview = string_of_range(&chars, 0, keep);
    assert(chars@.len() <= 80 ==> chars@.subrange(0, keep as int) =~= chars@);
    let whole = chars_of(trimmed(value).as_str());
    if whole.len() > keep {
        append_str(&mut preview, "...");
    }
    Some(preview)
}

pub open spec fn tool_call_preview(tool_name: Seq<char>, arguments: Seq<char>) -> Option<Seq<char>> {
    match preview_argument(tool_name) {
        Some(key) => call_preview(json_str_field(arguments, key)),
        None => None,
    }
}

/// The short preview shown next to a tool call: the reviewed argument for
/// review-gated tools, the primary target for read-only tools. `arguments`
/// is the call's JSON argument object.
pub fn native_provider_tool_call_preview(tool_name: &str, arguments: &str) -> (r: Option<String>)
    ensures
        opt_view(r) == tool_call_preview(tool_name@, arguments@),
{
    let key = if str_eq(tool_name, "read_text_file") || str_eq(tool_name, "project_path_info")
        || str_eq(tool_name, "list_project_paths") {
        "path"
    } else if str_eq(tool_name, "search_project") {
        "query"
    } else if str_eq(tool_name, "bash") {
        "command"
    } else {
        return None;
    };
    let value = json_str_field_of(arguments, key);
    call_preview_from(opt_ref(&value))
}

// ---------------------------------------------------------------------------
// Stored summaries of read-only results
// ---------------------------------------------------------------------------

/// `search_project matches=<n> truncated=<b>` or
/// `list_project_paths entries=<n> truncated=<b>`; nothing for other tools
/// or payloads without those fields.
pub open spec fn content_count_summary(tool_name: Seq<char>, content: Seq<char>) -> Option<Seq<char>> {
    if tool_name == "search_project"@ {
        match (json_array_len(content, "matches"@), json_bool_field(content, "truncated"@)) {
            (Some(n), Some(t)) => Some(
                "search_project matches="@ + decimal(n as nat) + " truncated="@ + bool_text(t),
            ),
            _ => None,
        }
    } else if tool_name == "list_project_paths"@ {
        match (json_array_len(content, "entries"@), json_bool_field(content, "truncated"@)) {
            (Some(n), Some(t)) => Some(
                "list_project_paths entries="@ + decimal(n as nat) + " truncated="@ + bool_text(t),
            ),
            _ => None,
        }
    } else {
        None
    }
}

fn count_summary_text(prefix: &str, count: Option<usize>, truncated: Option<bool>) -> (r: Option<
    String,
>)
    ensures
        match (count, truncated) {
            (Some(n), Some(t)) => r is Some && r.unwrap()@ == prefix@ + decimal(n as nat)
                + " truncated="@ + bool_text(t),
            _ => r is None,
        },
{
    match (count, truncated) {
        (Some(n), Some(t)) => {
            let mut s = owned(prefix);
            append_str(&mut s, decimal_string(n as u64).as_str());
            append_str(&mut s, " truncated=");
            append_str(&mut s, bool_string(t));
            Some(s)
        },
        _ => None,
    }
}

pub fn native_provider_content_result_count_summary(tool_name: &str, content: &str) -> (r: Option<
    String,
>)
    ensures
        opt_view(r) == content_count_summary(tool_name@, content@),
{
    if str_eq(tool_name, "search_project") {
        let count = json_array_len_of(content, "matches");
        let truncated = json_bool_field_of(content, "truncated");
        count_summary_text("search_project matches=", count, truncated)
    } else if str_eq(tool_name, "list_project_paths") {
        let count = json_array_len_of(content, "entries");
        let truncated = json_bool_field_of(content, "truncated");
        count_summary_text("list_project_paths entries=", count, truncated)
    } else {
        None
    }
}

/// What a read-only tool execution produced: its summary text (for search
/// and listing, the JSON payload), size, redaction and truncation.
#[derive(Debug, Clone, PartialEq, Eq)]
pub struct NativeToolExecutionResult {
    pub summary: String,
    pub byte_count: usize,
    pub redacted: bool,
    pub truncated: bool,
}

/// Read results are stored as redacted; search and listing results as
/// their counts when readable, redacted otherwise; other tools keep their
/// summary unredacted.
pub open spec fn readonly_summary_text(tool_name: Seq<char>, summary: Seq<char>) -> Seq<char> {
    if tool_name == "read_text_file"@ {
        "read_text_file result redacted"@
    } else if tool_name == "search_project"@ {
        match content_count_summary(tool_name, summary) {
            Some(s) => s,
            None => "search_project result redacted"@,
        }
    } else if tool_name == "list_project_paths"@ {
        match content_count_summary(tool_name, summary) {
            Some(s) => s,
            None => "list_project_paths result redacted"@,
        }
    } else {
        summary
    }
}

pub fn native_provider_readonly_tool_result_summary(
    tool_name: &str,
    execution: &NativeToolExecutionResult,
) -> (s: NativeToolPayloadSummary)
    ensures
        s.summary@ == readonly_summary_text(tool_name@, execution.summary@),
        s.byte_count == execution.byte_count,
        s.truncated == execution.truncated,
        s.redacted == (tool_name@ == "read_text_file"@ || tool_name@ == "search_project"@
            || tool_name@ == "list_project_paths"@),
{
    let read = str_eq(tool_name, "read_text_file");
    let search = str_eq(tool_name, "search_project");
    let list = str_eq(tool_name, "list_project_paths");
    let summary = if read {
        String::from_str("read_text_file result redacted")
    } else if search {
        match native_provider_content_result_count_summary(tool_name, execution.summary.as_str()) {
            Some(s) => s,
            None => String::from_str("search_project result redacted"),
        }
    } else if list {
        match native_provider_content_result_count_summary(tool_name, execution.summary.as_str()) {
            Some(s) => s,
            None => String::from_str("list_project_paths result redacted"),
        }
    } else {
        execution.summary.clone()
    };
    NativeToolPayloadSummary {
        summary,
        byte_count: execution.byte_count,
        redacted: read || search || list,
        truncated: execution.truncated,
    }
}

/// The result of one provider tool call as the provider sees it.
#[derive(Debug, Clone, PartialEq, Eq)]
pub struct NativeProviderToolResult {
    pub tool_request_id: String,
    pub provider_call_id: Option<String>,
    pub status: NativeToolOutcome,
    pub byte_count: usize,
    pub content: String,
    pub redacted: bool,
    pub truncated: bool,
    pub reason: Option<String>,
}

/// The live progress row of a tool result: the shared result display of
/// its content.
pub fn native_provider_tool_progress_output(tool_name: &str, result: &NativeProviderToolResult) -> (s:
    String)
    ensures
        s@ == tool_result_display(
            tool_name@,
            result.status,
            Some(result.content@),
            result.byte_count,
            result.truncated,
            opt_view(result.reason),
        ),
{
    native_tool_result_display(
        tool_name,
        result.status,
        Some(result.content.as_str()),
        result.byte_count,
        result.truncated,
        opt_ref(&result.reason),
    )
}

} // verus!
