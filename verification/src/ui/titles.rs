//! Text of the table titles and badges: what each title says about the
//! row count and the lens's filter, the Records Lens status badge, and the
//! header's pause control.
use vstd::prelude::*;
use vstd::string::*;
use crate::app::{App, ConfirmState, FilterEdit};
use crate::modes::{RecordsSortMode, SchemaSortMode, SortMode, Tab};
use crate::snapshot::{AdminCommand, RecordEntry, RecordingKind};
use crate::text::{decimal, push_decimal, push_signed_decimal, push_str, signed_decimal, views};
use crate::ui::format::{bytes_text, human_bytes, human_uptime, uptime_text};

verus! {

/// The Micro Lens table title: `Activity (N)` without a filter; while the
/// filter is edited, the live term with a block cursor and `shown/total`;
/// with a committed filter, the term and `shown/total`.
pub open spec fn activity_title_text(shown: nat, total: nat, filter: Seq<char>, editing: bool) -> Seq<char> {
    if editing {
        "Activity  /"@ + filter + "\u{2588}  "@ + decimal(shown) + "/"@ + decimal(total)
    } else if filter.len() == 0 {
        "Activity ("@ + decimal(total) + ")"@
    } else {
        "Activity  filter: "@ + filter + "  "@ + decimal(shown) + "/"@ + decimal(total)
    }
}

pub fn activity_title(shown: usize, total: usize, filter: &FilterEdit) -> (r: String)
    ensures
        r@ == activity_title_text(shown as nat, total as nat, filter.text@, filter.editing),
{
    let mut t = String::new();
    if filter.editing {
        push_str(&mut t, "Activity  /");
        push_str(&mut t, filter.text.as_str());
        push_str(&mut t, "\u{2588}  ");
        push_decimal(&mut t, shown as u128);
        push_str(&mut t, "/");
        push_decimal(&mut t, total as u128);
    } else if filter.text.as_str().unicode_len() == 0 {
        push_str(&mut t, "Activity (");
        push_decimal(&mut t, total as u128);
        push_str(&mut t, ")");
    } else {
        push_str(&mut t, "Activity  filter: ");
        push_str(&mut t, filter.text.as_str());
        push_str(&mut t, "  ");
        push_decimal(&mut t, shown as u128);
        push_str(&mut t, "/");
        push_decimal(&mut t, total as u128);
    }
    t
}

/// The Records Lens title: the live filter with a cursor while editing;
/// with a committed filter the term, the number of matches and the sort;
/// otherwise the number of items and the sort.
pub open spec fn records_title_text(shown: nat, filter: Seq<char>, editing: bool, sort: Seq<char>) -> Seq<char> {
    if editing {
        " Records Lens [filter: "@ + filter + "_\u{2588}] "@
    } else if filter.len() > 0 {
        " Records Lens [filter: \""@ + filter + "\" \u{2014} "@ + decimal(shown) + " matching] (sort: "@ + sort
            + ") "@
    } else {
        " Records Lens ("@ + decimal(shown) + " items) (sort: "@ + sort + ") "@
    }
}

/// The Records Lens sort as its title names it.
pub open spec fn records_sort_text(sort: RecordsSortMode) -> Seq<char> {
    match sort {
        RecordsSortMode::StartedDesc => "started (newest)"@,
        RecordsSortMode::StartedAsc => "started (oldest)"@,
        RecordsSortMode::SizeDesc => "size (largest)"@,
        RecordsSortMode::NameAsc => "name (A-Z)"@,
    }
}

pub fn records_title(shown: usize, filter: &FilterEdit, sort: RecordsSortMode) -> (r: String)
    ensures
        r@ == records_title_text(shown as nat, filter.text@, filter.editing, records_sort_text(sort)),
{
    let label = sort.label();
    let mut t = String::new();
    if filter.editing {
        push_str(&mut t, " Records Lens [filter: ");
        push_str(&mut t, filter.text.as_str());
        push_str(&mut t, "_\u{2588}] ");
    } else if filter.text.as_str().unicode_len() > 0 {
        push_str(&mut t, " Records Lens [filter: \"");
        push_str(&mut t, filter.text.as_str());
        push_str(&mut t, "\" \u{2014} ");
        push_decimal(&mut t, shown as u128);
        push_str(&mut t, " matching] (sort: ");
        push_str(&mut t, label);
        push_str(&mut t, ") ");
    } else {
        push_str(&mut t, " Records Lens (");
        push_decimal(&mut t, shown as u128);
        push_str(&mut t, " items) (sort: ");
        push_str(&mut t, label);
        push_str(&mut t, ") ");
    }
    t
}

/// The Progress Lens title, shaped like the Records Lens title without a
/// sort.
pub open spec fn progress_title_text(shown: nat, filter: Seq<char>, editing: bool) -> Seq<char> {
    if editing {
        " Progress Lens [filter: "@ + filter + "_\u{2588}] "@
    } else if filter.len() > 0 {
        " Progress Lens [filter: \""@ + filter + "\" \u{2014} "@ + decimal(shown) + " matching] "@
    } else {
        " Progress Lens ("@ + decimal(shown) + " in-flight operations) "@
    }
}

pub fn progress_title(shown: usize, filter: &FilterEdit) -> (r: String)
    ensures
        r@ == progress_title_text(shown as nat, filter.text@, filter.editing),
{
    let mut t = String::new();
    if filter.editing {
        push_str(&mut t, " Progress Lens [filter: ");
        push_str(&mut t, filter.text.as_str());
        push_str(&mut t, "_\u{2588}] ");
    } else if filter.text.as_str().unicode_len() > 0 {
        push_str(&mut t, " Progress Lens [filter: \"");
        push_str(&mut t, filter.text.as_str());
        push_str(&mut t, "\" \u{2014} ");
        push_decimal(&mut t, shown as u128);
        push_str(&mut t, " matching] ");
    } else {
        push_str(&mut t, " Progress Lens (");
        push_decimal(&mut t, shown as u128);
        push_str(&mut t, " in-flight operations) ");
    }
    t
}

/// The status column of a Records Lens row: a live recording, a finished
/// recording, or a snapshot bookmark.
pub open spec fn status_badge_text(entry: RecordEntry) -> Seq<char> {
    if entry.is_active {
        "\u{25cf} REC"@
    } else {
        match entry.kind {
            RecordingKind::Recording => "REC"@,
            RecordingKind::Bookmark => "BOOKMARK"@,
        }
    }
}

pub fn status_badge(entry: &RecordEntry) -> (r: &'static str)
    ensures
        r@ == status_badge_text(*entry),
{
    if entry.is_active {
        "\u{25cf} REC"
    } else {
        match entry.kind {
            RecordingKind::Recording => "REC",
            RecordingKind::Bookmark => "BOOKMARK",
        }
    }
}

/// An optional text, `—` when absent.
pub open spec fn or_dash(v: Option<String>) -> Seq<char> {
    match v {
        Some(t) => t@,
        None => "\u{2014}"@,
    }
}

/// The cells of one Records Lens row: status, target, file name, size,
/// frames, start, end (`recording...` while live) and length (`live...`
/// while live and not known).
pub open spec fn record_cells_text(e: RecordEntry) -> Seq<Seq<char>> {
    seq![
        status_badge_text(e),
        e.target@,
        e.filename@,
        bytes_text((e.size_bytes as i64) as int),
        match e.frame_count {
            Some(c) => decimal(c as nat),
            None => "\u{2014}"@,
        },
        or_dash(e.started_at),
        if e.is_active { "recording..."@ } else { or_dash(e.ended_at) },
        match e.duration_text {
            Some(d) => d@,
            None => if e.is_active { "live..."@ } else { "\u{2014}"@ },
        },
    ]
}

fn text_or_dash(v: &Option<String>) -> (r: String)
    ensures
        r@ == or_dash(*v),
{
    let mut t = String::new();
    match v {
        Some(x) => push_str(&mut t, x.as_str()),
        None => push_str(&mut t, "\u{2014}"),
    }
    t
}

fn copied(s: &str) -> (r: String)
    ensures
        r@ == s@,
{
    let mut t = String::new();
    push_str(&mut t, s);
    t
}

pub fn record_cells(e: &RecordEntry) -> (r: Vec<String>)
    ensures
        views(r@) == record_cells_text(*e),
{
    let mut cells: Vec<String> = Vec::new();
    cells.push(copied(status_badge(e)));
    cells.push(copied(e.target.as_str()));
    cells.push(copied(e.filename.as_str()));
    #[verifier::truncate]
    let size = e.size_bytes as i64;
    cells.push(human_bytes(size));
    let frames = match e.frame_count {
        Some(c) => {
            let mut t = String::new();
            push_decimal(&mut t, c as u128);
            t
        },
        None => copied("\u{2014}"),
    };
    cells.push(frames);
    cells.push(text_or_dash(&e.started_at));
    let ended = if e.is_active { copied("recording...") } else { text_or_dash(&e.ended_at) };
    cells.push(ended);
    let length = match &e.duration_text {
        Some(d) => copied(d.as_str()),
        None => if e.is_active { copied("live...") } else { copied("\u{2014}") },
    };
    cells.push(length);
    assert(views(cells@) =~= record_cells_text(*e));
    cells
}

/// The header's pause control: the key hint while live, the loud
/// `PAUSED` indicator with the resume hint while frozen.
pub fn pause_indicator(paused: bool) -> (r: &'static str)
    ensures
        r@ == (if paused {
            "\u{25ae}\u{25ae} PAUSED \u{b7} Space: resume "@
        } else {
            "Space: pause "@
        }),
{
    if paused {
        "\u{25ae}\u{25ae} PAUSED \u{b7} Space: resume "
    } else {
        "Space: pause "
    }
}

/// The header line: program version, server version and host, server
/// uptime, and connections in use out of the maximum.
pub open spec fn header_text(a: App, version: Seq<char>) -> Seq<char> {
    let s = *a.snapshot;
    " pg_lens v"@ + version + " \u{2502} PG "@ + s.server_version@ + " @ "@ + a.host@ + " \u{2502} up "@
        + uptime_text(s.uptime_secs as nat) + " \u{2502} "@ + signed_decimal(s.connections_total as int) + "/"@
        + signed_decimal(s.max_connections as int) + " conns"@
}

pub fn header(app: &App, version: &str) -> (r: String)
    ensures
        r@ == header_text(*app, version@),
{
    let s = &app.snapshot;
    let mut out = String::new();
    push_str(&mut out, " pg_lens v");
    push_str(&mut out, version);
    push_str(&mut out, " \u{2502} PG ");
    push_str(&mut out, s.server_version.as_str());
    push_str(&mut out, " @ ");
    push_str(&mut out, app.host.as_str());
    push_str(&mut out, " \u{2502} up ");
    let up = human_uptime(s.uptime_secs);
    push_str(&mut out, up.as_str());
    push_str(&mut out, " \u{2502} ");
    push_signed_decimal(&mut out, s.connections_total);
    push_str(&mut out, "/");
    push_signed_decimal(&mut out, s.max_connections);
    push_str(&mut out, " conns");
    out
}

/// The status bar's row counter: `i/len` for a selection on a non-empty
/// table, `-` otherwise.
/// How old the data on screen is: whole seconds since the snapshot was
/// stamped (`0s ago` if the clock reads earlier than the stamp), or
/// `waiting` before the first snapshot.
pub open spec fn staleness_text(stamp: Option<u64>, now_ms: u64) -> Seq<char> {
    match stamp {
        Some(at) => decimal((if now_ms >= at { ((now_ms - at) / 1000) as nat } else { 0 })) + "s ago"@,
        None => "waiting"@,
    }
}

/// The status bar's freshness readout: `data: ` and the staleness.
pub fn staleness(stamp: Option<u64>, now_ms: u64) -> (r: String)
    ensures
        r@ == "data: "@ + staleness_text(stamp, now_ms),
{
    let mut t = String::new();
    push_str(&mut t, "data: ");
    match stamp {
        Some(at) => {
            let secs: u64 = if now_ms >= at { (now_ms - at) / 1000 } else { 0 };
            push_decimal(&mut t, secs as u128);
            push_str(&mut t, "s ago");
        },
        None => push_str(&mut t, "waiting"),
    }
    assert(t@ =~= "data: "@ + staleness_text(stamp, now_ms));
    t
}

pub open spec fn row_counter(selected: Option<usize>, len: nat) -> Seq<char> {
    match selected {
        Some(i) => if len > 0 {
            decimal(i as nat + 1) + "/"@ + decimal(len)
        } else {
            "-"@
        },
        None => "-"@,
    }
}

pub open spec fn schema_sort_text(m: SchemaSortMode) -> Seq<char> {
    match m {
        SchemaSortMode::TotalSize => "size"@,
        SchemaSortMode::DeadTuples => "dead"@,
        SchemaSortMode::BloatPct => "bloat%"@,
        SchemaSortMode::SeqScans => "seq"@,
        SchemaSortMode::Growth => "\u{394}1h"@,
    }
}

pub open spec fn activity_sort_text(m: SortMode) -> Seq<char> {
    match m {
        SortMode::Duration => "duration"@,
        SortMode::State => "state"@,
        SortMode::Pid => "pid"@,
    }
}

/// The key hints of the status bar, up to the refresh interval: the row
/// counter and sort follow the Schema Lens on that lens and the Micro Lens
/// everywhere else; the Micro Lens shows its admin keys in place of the
/// detail hint; the Schema Lens adds its recollect hint.
pub open spec fn statusbar_keys_text(a: App) -> Seq<char> {
    let schema = a.active_tab == Tab::SchemaLens;
    let (selected, len, sort) = if schema {
        (
            a.cursors.schema,
            match (*a.snapshot).schema {
                Some(sd) => sd.tables@.len(),
                None => 0nat,
            },
            schema_sort_text(a.sort.schema),
        )
    } else {
        (a.cursors.activity, (*a.snapshot).activity@.len(), activity_sort_text(a.sort.activity))
    };
    " q/Esc: quit \u{2502} Tab: lens \u{2502} j/k: row "@ + row_counter(selected, len) + (if a.active_tab
        == Tab::MicroLens {
        " \u{2502} c: cancel \u{b7} K: kill"@
    } else {
        " \u{2502} Enter: detail"@
    }) + " \u{2502} s: sort="@ + sort + (if schema {
        " \u{2502} R: recollect"@
    } else {
        ""@
    })
}

fn push_row_counter(out: &mut String, selected: Option<usize>, len: usize)
    ensures
        final(out)@ == old(out)@ + row_counter(selected, len as nat),
{
    match selected {
        Some(i) => {
            if len > 0 {
                push_decimal(out, i as u128 + 1);
                push_str(out, "/");
                push_decimal(out, len as u128);
            } else {
                push_str(out, "-");
            }
        },
        None => push_str(out, "-"),
    }
}

pub fn statusbar_keys(app: &App) -> (r: String)
    ensures
        r@ == statusbar_keys_text(*app),
{
    let schema = app.active_tab == Tab::SchemaLens;
    let mut t = String::new();
    push_str(&mut t, " q/Esc: quit \u{2502} Tab: lens \u{2502} j/k: row ");
    if schema {
        let len = match &app.snapshot.schema {
            Some(sd) => sd.tables.len(),
            None => 0,
        };
        push_row_counter(&mut t, app.cursors.schema, len);
    } else {
        push_row_counter(&mut t, app.cursors.activity, app.snapshot.activity.len());
    }
    if app.active_tab == Tab::MicroLens {
        push_str(&mut t, " \u{2502} c: cancel \u{b7} K: kill");
    } else {
        push_str(&mut t, " \u{2502} Enter: detail");
    }
    push_str(&mut t, " \u{2502} s: sort=");
    if schema {
        push_str(&mut t, app.sort.schema.label());
        push_str(&mut t, " \u{2502} R: recollect");
    } else {
        push_str(&mut t, app.sort.activity.label());
        proof {
            reveal_strlit("");
        }
        assert(t@ =~= t@ + ""@);
    }
    t
}

/// The confirmation modal's question: what will be signalled, to which
/// backend, of which `user@database`.
pub open spec fn confirm_question_text(c: ConfirmState) -> Seq<char> {
    let target = " ("@ + c.username@ + "@"@ + c.database@ + ")?"@;
    match c.command {
        AdminCommand::CancelBackend(pid) => "Cancel query on PID "@ + signed_decimal(pid as int) + target,
        AdminCommand::TerminateBackend(pid) => "Terminate backend PID "@ + signed_decimal(pid as int) + target,
    }
}

pub fn confirm_question(c: &ConfirmState) -> (r: String)
    ensures
        r@ == confirm_question_text(*c),
{
    let mut t = String::new();
    match c.command {
        AdminCommand::CancelBackend(pid) => {
            push_str(&mut t, "Cancel query on PID ");
            push_signed_decimal(&mut t, pid as i64);
        },
        AdminCommand::TerminateBackend(pid) => {
            push_str(&mut t, "Terminate backend PID ");
            push_signed_decimal(&mut t, pid as i64);
        },
    }
    push_str(&mut t, " (");
    push_str(&mut t, c.username.as_str());
    push_str(&mut t, "@");
    push_str(&mut t, c.database.as_str());
    push_str(&mut t, ")?");
    t
}

/// The modal's title, and the warning line only a terminate carries.
pub fn confirm_title(command: AdminCommand) -> (r: (&'static str, Option<&'static str>))
    ensures
        r.0@ == (match command {
            AdminCommand::CancelBackend(_) => " Cancel query "@,
            AdminCommand::TerminateBackend(_) => " Terminate backend "@,
        }),
        match command {
            AdminCommand::CancelBackend(_) => r.1 is None,
            AdminCommand::TerminateBackend(_) => r.1 matches Some(w) && w@ == "The connection will be killed."@,
        },
{
    match command {
        AdminCommand::CancelBackend(_) => (" Cancel query ", None),
        AdminCommand::TerminateBackend(_) => (" Terminate backend ", Some("The connection will be killed.")),
    }
}

/// The Micro Lens placeholder when no row shows: the filter matched
/// nothing, or there is no session at all.
pub open spec fn activity_empty_text(a: App) -> Seq<char> {
    if (*a.snapshot).activity@.len() > 0 && a.filters.micro.text@.len() > 0 {
        "No sessions match \u{201c}"@ + a.filters.micro.text@ + "\u{201d}"@
    } else {
        "No active sessions"@
    }
}

pub fn activity_empty_message(app: &App) -> (r: String)
    ensures
        r@ == activity_empty_text(*app),
{
    let mut out = String::new();
    if app.snapshot.activity.len() > 0 && app.filters.micro.text.as_str().unicode_len() > 0 {
        push_str(&mut out, "No sessions match \u{201c}");
        push_str(&mut out, app.filters.micro.text.as_str());
        push_str(&mut out, "\u{201d}");
    } else {
        push_str(&mut out, "No active sessions");
    }
    out
}

/// The Progress Lens title when no operation shows.
pub open spec fn progress_empty_title_text(filter: Seq<char>, editing: bool) -> Seq<char> {
    if editing {
        " Progress Lens [filter: "@ + filter + "_\u{2588}] "@
    } else if filter.len() > 0 {
        " Progress Lens [filter: \""@ + filter + "\"] "@
    } else {
        " Progress Lens "@
    }
}

pub fn progress_empty_title(filter: &FilterEdit) -> (r: String)
    ensures
        r@ == progress_empty_title_text(filter.text@, filter.editing),
{
    let mut t = String::new();
    if filter.editing {
        push_str(&mut t, " Progress Lens [filter: ");
        push_str(&mut t, filter.text.as_str());
        push_str(&mut t, "_\u{2588}] ");
    } else if filter.text.as_str().unicode_len() > 0 {
        push_str(&mut t, " Progress Lens [filter: \"");
        push_str(&mut t, filter.text.as_str());
        push_str(&mut t, "\"] ");
    } else {
        push_str(&mut t, " Progress Lens ");
    }
    t
}

/// What an empty Progress Lens says when its filter matched nothing;
/// `None` without a filter (the lens then lists the progress views it
/// watches).
pub open spec fn progress_no_match_text(filter: Seq<char>) -> Option<Seq<char>> {
    if filter.len() > 0 {
        Some(" No operations match filter \""@ + filter + "\" (press \\ to clear)"@)
    } else {
        None
    }
}

pub fn progress_no_match(filter: &FilterEdit) -> (r: Option<String>)
    ensures
        match progress_no_match_text(filter.text@) {
            Some(t) => r matches Some(x) && x@ == t,
            None => r is None,
        },
{
    if filter.text.as_str().unicode_len() > 0 {
        let mut t = String::new();
        push_str(&mut t, " No operations match filter \"");
        push_str(&mut t, filter.text.as_str());
        push_str(&mut t, "\" (press \\ to clear)");
        Some(t)
    } else {
        None
    }
}

} // verus!
