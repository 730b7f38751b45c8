//! The per-lens `/` filters: starting an edit, live editing (each
//! keystroke re-filters that lens's table), committing, reverting and
//! clearing.
use vstd::prelude::*;
use crate::app::{
    activity_fresh, lemma_wf_parts, indexes_fresh, progress_fresh, records_fresh, replication_fresh,
    schema_fresh, sequences_fresh, statements_fresh, clamp_result, clamp_selection, resort, resort_indexes, resort_progress,
    resort_records, resort_schema, resort_sequences, resort_statements, snapshot_ok, with_orders,
    App, FilterEdit, Filters, Key, KeyInput, Orders,
};
use crate::keys::{is_ctrl, quit_state};
use crate::modes::{MicroView, SchemaView, Tab};
use crate::text::{push_char, push_str, without_last_char};

verus! {

/// Which lens's filter a key edits.
#[derive(Clone, Copy, Debug, PartialEq, Eq, Structural)]
pub enum FilterLens {
    Micro,
    Schema,
    Query,
    Progress,
    Records,
    Index,
}

#[verifier::opaque]
pub open spec fn filter_of(f: Filters, lens: FilterLens) -> FilterEdit {
    match lens {
        FilterLens::Micro => f.micro,
        FilterLens::Schema => f.schema,
        FilterLens::Query => f.query,
        FilterLens::Progress => f.progress,
        FilterLens::Records => f.records,
        FilterLens::Index => f.index,
    }
}

#[verifier::opaque]
pub open spec fn with_filter(f: Filters, lens: FilterLens, e: FilterEdit) -> Filters {
    match lens {
        FilterLens::Micro => Filters { micro: e, ..f },
        FilterLens::Schema => Filters { schema: e, ..f },
        FilterLens::Query => Filters { query: e, ..f },
        FilterLens::Progress => Filters { progress: e, ..f },
        FilterLens::Records => Filters { records: e, ..f },
        FilterLens::Index => Filters { index: e, ..f },
    }
}

/// The filter being edited, if any (at most one is, by construction; the
/// first in this order wins).
pub open spec fn editing_lens(a: App) -> Option<FilterLens> {
    if a.filters.micro.editing {
        Some(FilterLens::Micro)
    } else if a.filters.schema.editing {
        Some(FilterLens::Schema)
    } else if a.filters.query.editing {
        Some(FilterLens::Query)
    } else if a.filters.progress.editing {
        Some(FilterLens::Progress)
    } else if a.filters.records.editing {
        Some(FilterLens::Records)
    } else if a.filters.index.editing {
        Some(FilterLens::Index)
    } else {
        None
    }
}

/// The filter `/` and `\` act on for the lens on screen: the Micro Lens's
/// Activity view, the Schema Lens's Tables and Sequences views (which
/// share one filter), and the Index, Query, Progress and Records Lenses.
pub open spec fn tab_filter_lens(a: App) -> Option<FilterLens> {
    match a.active_tab {
        Tab::MicroLens => if a.micro_view == MicroView::Activity {
            Some(FilterLens::Micro)
        } else {
            None
        },
        Tab::SchemaLens => if a.schema_view == SchemaView::Tables || a.schema_view == SchemaView::Sequences {
            Some(FilterLens::Schema)
        } else {
            None
        },
        Tab::IndexLens => Some(FilterLens::Index),
        Tab::QueryLens => Some(FilterLens::Query),
        Tab::ProgressLens => Some(FilterLens::Progress),
        Tab::RecordsLens => Some(FilterLens::Records),
        _ => None,
    }
}

/// Only the display orders filtered by `lens` differ.
pub open spec fn lens_orders_only(o1: Orders, o2: Orders, lens: FilterLens) -> bool {
    match lens {
        FilterLens::Micro => o2 == Orders { activity: o2.activity, ..o1 },
        FilterLens::Schema => o2 == Orders { schema: o2.schema, sequences: o2.sequences, ..o1 },
        FilterLens::Query => o2 == Orders { statements: o2.statements, ..o1 },
        FilterLens::Progress => o2 == Orders { progress: o2.progress, ..o1 },
        FilterLens::Records => o2 == Orders { records: o2.records, ..o1 },
        FilterLens::Index => o2 == Orders { index: o2.index, ..o1 },
    }
}

/// `b` is `a` with `lens`'s filter replaced (by the one `b` holds), that
/// lens's table re-filtered and re-sorted, and every cursor clamped.
#[verifier::opaque]
pub open spec fn refiltered(a: App, lens: FilterLens, b: App) -> bool {
    &&& b.filters == with_filter(a.filters, lens, filter_of(b.filters, lens))
    &&& lens_orders_only(a.orders, b.orders, lens)
    &&& b == clamp_result(App { filters: b.filters, orders: b.orders, ..a })
    &&& b.orders_fresh()
}

/// Enter: the edit is committed (the text stays, editing stops).
#[verifier::opaque]
pub open spec fn filter_committed(a: App, b: App) -> bool {
    let lens = editing_lens(a)->0;
    b == App { filters: with_filter(a.filters, lens, FilterEdit { editing: false, ..filter_of(a.filters, lens) }), ..a }
}

/// Esc: the text saved when editing began comes back, editing stops.
#[verifier::opaque]
pub open spec fn filter_reverted(a: App, b: App) -> bool {
    let lens = editing_lens(a)->0;
    let f = filter_of(a.filters, lens);
    let g = filter_of(b.filters, lens);
    refiltered(a, lens, b) && g.text == f.saved && g.saved@ == Seq::<char>::empty() && !g.editing
}

/// Backspace: the last character is deleted.
#[verifier::opaque]
pub open spec fn filter_backspaced(a: App, b: App) -> bool {
    let lens = editing_lens(a)->0;
    let f = filter_of(a.filters, lens);
    let g = filter_of(b.filters, lens);
    refiltered(a, lens, b) && g.text@ == (if f.text@.len() > 0 {
        f.text@.drop_last()
    } else {
        f.text@
    }) && g.saved == f.saved && g.editing == f.editing
}

/// A character is typed.
#[verifier::opaque]
pub open spec fn filter_typed(a: App, c: char, b: App) -> bool {
    let lens = editing_lens(a)->0;
    let f = filter_of(a.filters, lens);
    let g = filter_of(b.filters, lens);
    refiltered(a, lens, b) && g.text@ == f.text@.push(c) && g.saved == f.saved && g.editing == f.editing
}

/// The filter editor's keymap: Enter commits, Esc restores the text saved
/// when editing began, Backspace deletes, any other character (without
/// Ctrl) is typed; Ctrl+C quits; every other key is inert.
pub open spec fn filter_key_result(a: App, k: KeyInput, b: App) -> bool {
    if is_ctrl(k, 'c') {
        b == quit_state(a)
    } else if k.code == Key::Enter {
        filter_committed(a, b)
    } else if k.code == Key::Esc {
        filter_reverted(a, b)
    } else if k.code == Key::Backspace {
        filter_backspaced(a, b)
    } else if k.code is Char && !k.ctrl {
        filter_typed(a, k.code->0, b)
    } else {
        b == a
    }
}

fn get_filter(app: &App, lens: FilterLens) -> (r: &FilterEdit)
    ensures
        *r == filter_of(app.filters, lens),
{
    proof {
        reveal(filter_of);
    }
    match lens {
        FilterLens::Micro => &app.filters.micro,
        FilterLens::Schema => &app.filters.schema,
        FilterLens::Query => &app.filters.query,
        FilterLens::Progress => &app.filters.progress,
        FilterLens::Records => &app.filters.records,
        FilterLens::Index => &app.filters.index,
    }
}

/// Replacing one lens's filter leaves the others as they were.
proof fn lemma_with_filter(f: Filters, lens: FilterLens, e: FilterEdit)
    ensures
        filter_of(with_filter(f, lens, e), lens) == e,
        lens != FilterLens::Micro ==> with_filter(f, lens, e).micro == f.micro,
        lens != FilterLens::Schema ==> with_filter(f, lens, e).schema == f.schema,
        lens != FilterLens::Query ==> with_filter(f, lens, e).query == f.query,
        lens != FilterLens::Progress ==> with_filter(f, lens, e).progress == f.progress,
        lens != FilterLens::Records ==> with_filter(f, lens, e).records == f.records,
        lens != FilterLens::Index ==> with_filter(f, lens, e).index == f.index,
        lens == FilterLens::Micro ==> with_filter(f, lens, e).micro == e,
        lens == FilterLens::Schema ==> with_filter(f, lens, e).schema == e,
        lens == FilterLens::Query ==> with_filter(f, lens, e).query == e,
        lens == FilterLens::Progress ==> with_filter(f, lens, e).progress == e,
        lens == FilterLens::Records ==> with_filter(f, lens, e).records == e,
        lens == FilterLens::Index ==> with_filter(f, lens, e).index == e,
        e.text == filter_of(f, lens).text ==> (
            f.micro.text == with_filter(f, lens, e).micro.text
            && f.schema.text == with_filter(f, lens, e).schema.text
            && f.query.text == with_filter(f, lens, e).query.text
            && f.progress.text == with_filter(f, lens, e).progress.text
            && f.records.text == with_filter(f, lens, e).records.text
            && f.index.text == with_filter(f, lens, e).index.text
        ),
{
    reveal(filter_of);
    reveal(with_filter);
}

fn set_filter(app: &mut App, lens: FilterLens, e: FilterEdit)
    ensures
        *final(app) == (App { filters: with_filter(old(app).filters, lens, e), ..*old(app) }),
{
    proof {
        reveal(with_filter);
    }
    match lens {
        FilterLens::Micro => app.filters.micro = e,
        FilterLens::Schema => app.filters.schema = e,
        FilterLens::Query => app.filters.query = e,
        FilterLens::Progress => app.filters.progress = e,
        FilterLens::Records => app.filters.records = e,
        FilterLens::Index => app.filters.index = e,
    }
}

/// Every display order is fresh but possibly those `lens`'s filter drives.
pub open spec fn orders_fresh_but(a: App, lens: FilterLens) -> bool {
    let s = *a.snapshot;
    &&& (lens != FilterLens::Micro ==> activity_fresh(s, a.filters.micro.text@, a.sort.activity, a.orders.activity@))
    &&& (lens != FilterLens::Schema ==> schema_fresh(
        s,
        a.filters.schema.text@,
        a.schema_show_partitions,
        a.sort.schema,
        a.orders.schema@,
    ))
    &&& (lens != FilterLens::Schema ==> sequences_fresh(s, a.filters.schema.text@, a.orders.sequences@))
    &&& (lens != FilterLens::Index ==> indexes_fresh(s, a.filters.index.text@, a.orders.index@))
    &&& replication_fresh(s, a.orders.replication@)
    &&& (lens != FilterLens::Query ==> statements_fresh(s, a.filters.query.text@, a.sort.statements, a.orders.statements@))
    &&& (lens != FilterLens::Progress ==> progress_fresh(s, a.filters.progress.text@, a.orders.progress@))
    &&& (lens != FilterLens::Records ==> records_fresh(a.records@, a.filters.records.text@, a.sort.records, a.orders.records@))
}

fn resort_micro(app: &mut App)
    requires
        orders_fresh_but(*old(app), FilterLens::Micro),
    ensures
        *final(app) == with_orders(*old(app), final(app).orders),
        lens_orders_only(old(app).orders, final(app).orders, FilterLens::Micro),
        final(app).orders_fresh(),
{
    resort(app);
}

fn resort_schema_lens(app: &mut App)
    requires
        snapshot_ok(*old(app).snapshot),
        orders_fresh_but(*old(app), FilterLens::Schema),
    ensures
        *final(app) == with_orders(*old(app), final(app).orders),
        lens_orders_only(old(app).orders, final(app).orders, FilterLens::Schema),
        final(app).orders_fresh(),
{
    resort_schema(app);
    resort_sequences(app);
}

fn resort_query(app: &mut App)
    requires
        orders_fresh_but(*old(app), FilterLens::Query),
    ensures
        *final(app) == with_orders(*old(app), final(app).orders),
        lens_orders_only(old(app).orders, final(app).orders, FilterLens::Query),
        final(app).orders_fresh(),
{
    resort_statements(app);
}

fn resort_progress_lens(app: &mut App)
    requires
        orders_fresh_but(*old(app), FilterLens::Progress),
    ensures
        *final(app) == with_orders(*old(app), final(app).orders),
        lens_orders_only(old(app).orders, final(app).orders, FilterLens::Progress),
        final(app).orders_fresh(),
{
    resort_progress(app);
}

fn resort_records_lens(app: &mut App)
    requires
        orders_fresh_but(*old(app), FilterLens::Records),
    ensures
        *final(app) == with_orders(*old(app), final(app).orders),
        lens_orders_only(old(app).orders, final(app).orders, FilterLens::Records),
        final(app).orders_fresh(),
{
    resort_records(app);
}

fn resort_index_lens(app: &mut App)
    requires
        orders_fresh_but(*old(app), FilterLens::Index),
    ensures
        *final(app) == with_orders(*old(app), final(app).orders),
        lens_orders_only(old(app).orders, final(app).orders, FilterLens::Index),
        final(app).orders_fresh(),
{
    resort_indexes(app);
}

/// Re-filters and re-sorts the tables `lens`'s filter drives.
fn resort_for(app: &mut App, lens: FilterLens)
    requires
        snapshot_ok(*old(app).snapshot),
        orders_fresh_but(*old(app), lens),
    ensures
        *final(app) == with_orders(*old(app), final(app).orders),
        lens_orders_only(old(app).orders, final(app).orders, lens),
        final(app).orders_fresh(),
{
    match lens {
        FilterLens::Micro => resort_micro(app),
        FilterLens::Schema => resort_schema_lens(app),
        FilterLens::Query => resort_query(app),
        FilterLens::Progress => resort_progress_lens(app),
        FilterLens::Records => resort_records_lens(app),
        FilterLens::Index => resort_index_lens(app),
    }
}

fn put_filter(app: &mut App, lens: FilterLens, e: FilterEdit)
    requires
        old(app).wf(),
    ensures
        *final(app) == (App { filters: with_filter(old(app).filters, lens, e), ..*old(app) }),
        filter_of(final(app).filters, lens) == e,
        orders_fresh_but(*final(app), lens),
{
    proof {
        lemma_wf_parts(*old(app));
    }
    set_filter(app, lens, e);
    proof {
        lemma_with_filter(old(app).filters, lens, e);
    }
}

/// Replaces `lens`'s filter with `e`, then re-filters and clamps.
fn refilter(app: &mut App, lens: FilterLens, e: FilterEdit)
    requires
        old(app).wf(),
    ensures
        refiltered(*old(app), lens, *final(app)),
        filter_of(final(app).filters, lens) == e,
        final(app).wf(),
{
    proof {
        lemma_wf_parts(*old(app));
    }
    put_filter(app, lens, e);
    resort_for(app, lens);
    clamp_selection(app);
    proof {
        reveal(refiltered);
        lemma_with_filter(old(app).filters, lens, e);
    }
    proof {
        lemma_wf_parts(*app);
    }
}

fn copy_str(s: &String) -> (r: String)
    ensures
        r == *s,
{
    s.clone()
}

/// `/`: starts editing `lens`'s filter, remembering its text for Esc.
pub open spec fn edit_started(a: App, lens: FilterLens) -> App {
    let f = filter_of(a.filters, lens);
    App { filters: with_filter(a.filters, lens, FilterEdit { saved: f.text, editing: true, ..f }), ..a }
}

pub(crate) fn start_edit(app: &mut App, lens: FilterLens)
    requires
        old(app).wf(),
    ensures
        *final(app) == edit_started(*old(app), lens),
        final(app).wf(),
{
    let f = get_filter(app, lens);
    let e = FilterEdit { text: copy_str(&f.text), saved: copy_str(&f.text), editing: true };
    set_filter(app, lens, e);
    proof {
        lemma_with_filter(old(app).filters, lens, e);
    }
}

fn commit_edit(app: &mut App, lens: FilterLens)
    requires
        old(app).wf(),
        editing_lens(*old(app)) == Some(lens),
    ensures
        final(app).wf(),
        filter_committed(*old(app), *final(app)),
{
    proof {
        reveal(filter_committed);
    }
    let f = get_filter(app, lens);
    let e = FilterEdit { text: copy_str(&f.text), saved: copy_str(&f.saved), editing: false };
    set_filter(app, lens, e);
    proof {
        lemma_with_filter(old(app).filters, lens, e);
    }
}

/// `\`: clears `lens`'s committed filter.
pub open spec fn filter_cleared(a: App, lens: FilterLens, b: App) -> bool {
    let f = filter_of(a.filters, lens);
    let g = filter_of(b.filters, lens);
    refiltered(a, lens, b) && g.text@ == Seq::<char>::empty() && g.saved == f.saved && g.editing == f.editing
}

pub(crate) fn clear_filter(app: &mut App, lens: FilterLens)
    requires
        old(app).wf(),
    ensures
        filter_cleared(*old(app), lens, *final(app)),
        final(app).wf(),
{
    let f = get_filter(app, lens);
    let e = FilterEdit { text: String::new(), saved: copy_str(&f.saved), editing: f.editing };
    refilter(app, lens, e);
}

fn revert_edit(app: &mut App, lens: FilterLens)
    requires
        old(app).wf(),
        editing_lens(*old(app)) == Some(lens),
    ensures
        filter_reverted(*old(app), *final(app)),
        final(app).wf(),
{
    proof {
        reveal(filter_reverted);
    }
    let f = get_filter(app, lens);
    let e = FilterEdit { text: copy_str(&f.saved), saved: String::new(), editing: false };
    refilter(app, lens, e);
}

fn delete_last(app: &mut App, lens: FilterLens)
    requires
        old(app).wf(),
        editing_lens(*old(app)) == Some(lens),
    ensures
        filter_backspaced(*old(app), *final(app)),
        final(app).wf(),
{
    proof {
        reveal(filter_backspaced);
    }
    let f = get_filter(app, lens);
    let e = FilterEdit { text: without_last_char(f.text.as_str()), saved: copy_str(&f.saved), editing: f.editing };
    refilter(app, lens, e);
}

fn type_char(app: &mut App, lens: FilterLens, c: char)
    requires
        old(app).wf(),
        editing_lens(*old(app)) == Some(lens),
    ensures
        filter_typed(*old(app), c, *final(app)),
        final(app).wf(),
{
    proof {
        reveal(filter_typed);
    }
    let f = get_filter(app, lens);
    let mut t = String::new();
    push_str(&mut t, f.text.as_str());
    push_char(&mut t, c);
    let e = FilterEdit { text: t, saved: copy_str(&f.saved), editing: f.editing };
    refilter(app, lens, e);
}

fn active_filter_lens(app: &App) -> (r: Option<FilterLens>)
    ensures
        r == editing_lens(*app),
{
    if app.filters.micro.editing {
        Some(FilterLens::Micro)
    } else if app.filters.schema.editing {
        Some(FilterLens::Schema)
    } else if app.filters.query.editing {
        Some(FilterLens::Query)
    } else if app.filters.progress.editing {
        Some(FilterLens::Progress)
    } else if app.filters.records.editing {
        Some(FilterLens::Records)
    } else if app.filters.index.editing {
        Some(FilterLens::Index)
    } else {
        None
    }
}

pub(crate) fn tab_filter(app: &App) -> (r: Option<FilterLens>)
    ensures
        r == tab_filter_lens(*app),
{
    match app.active_tab {
        Tab::MicroLens => if app.micro_view == MicroView::Activity {
            Some(FilterLens::Micro)
        } else {
            None
        },
        Tab::SchemaLens => if app.schema_view == SchemaView::Tables || app.schema_view == SchemaView::Sequences {
            Some(FilterLens::Schema)
        } else {
            None
        },
        Tab::IndexLens => Some(FilterLens::Index),
        Tab::QueryLens => Some(FilterLens::Query),
        Tab::ProgressLens => Some(FilterLens::Progress),
        Tab::RecordsLens => Some(FilterLens::Records),
        _ => None,
    }
}

pub(crate) fn filter_text_empty(app: &App, lens: FilterLens) -> (r: bool)
    ensures
        r == (filter_of(app.filters, lens).text@.len() == 0),
{
    get_filter(app, lens).text.as_str().unicode_len() == 0
}

pub(crate) fn editing_any(app: &App) -> (r: bool)
    ensures
        r == (editing_lens(*app) is Some),
{
    active_filter_lens(app).is_some()
}

fn quit_now(app: &mut App)
    requires
        old(app).wf(),
    ensures
        *final(app) == quit_state(*old(app)),
        final(app).wf(),
{
    app.should_quit = true;
}

pub(crate) fn handle_filter_key(app: &mut App, k: KeyInput)
    requires
        old(app).wf(),
        editing_lens(*old(app)) is Some,
    ensures
        filter_key_result(*old(app), k, *final(app)),
        final(app).wf(),
{
    let lens = active_filter_lens(app).unwrap();
    if k.code == Key::Char('c') && k.ctrl {
        quit_now(app);
    } else if k.code == Key::Enter {
        commit_edit(app, lens);
    } else if k.code == Key::Esc {
        revert_edit(app, lens);
    } else if k.code == Key::Backspace {
        delete_last(app, lens);
    } else {
        match k.code {
            Key::Char(c) => {
                if !k.ctrl {
                    type_char(app, lens, c);
                }
            },
            _ => {},
        }
    }
}

} // verus!
