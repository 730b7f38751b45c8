//! The dashboard's top-level keymap (no overlay open, no filter being
//! edited), checked in a fixed precedence order, and the routing of a key
//! event to the overlay that owns input.
use vstd::prelude::*;
use crate::app::{App, HostRequest, Key, KeyInput, ADMIN_FEEDBACK_TICKS};
use crate::dashboard::{
    ask_host, copy_requested, cycle_schema_view, db_picker_opened, delete_prompted,
    detail_scrolled_down, detail_scrolled_up, host_asked, micro_view_toggled, open_db_picker,
    open_help, pane_swapped, prompt_delete, psql_requested, recording_toggled, records_rescanned,
    refresh_faster, refresh_slower, request_copy, request_psql, request_schema_refresh,
    rescan_records, schema_refresh_requested, schema_view_cycled, scroll_detail_down,
    scroll_detail_up, sequences_toggled, slow_down, speed_up, swap_pane, switch_to, tab_switched,
    toggle_micro_view, toggle_recording, toggle_sequences, toggle_waits, waits_toggled,
};
use crate::enter_esc::{confirm_opened, enter_result, esc_result, open_confirm, press_enter, press_esc};
use crate::filtering::{
    clear_filter, edit_started, editing_any, editing_lens, filter_cleared, filter_key_result,
    filter_of, filter_text_empty, handle_filter_key, start_edit, tab_filter, tab_filter_lens,
};
use crate::keys::{
    confirm_key_result, db_picker_key_result, delete_key_result, handle_confirm_key,
    handle_db_picker_key, handle_delete_record_confirm_key, handle_help_key, handle_picker_key, help_key_result,
    is_ctrl, is_down, is_up, picker_key_result, quit_state,
};
use crate::lens_keys::{
    cross_to_index, cross_to_query, cycle_sort, index_jumped, partitions_toggled, query_jumped,
    sort_cycled, toggle_partitions,
};
use crate::modes::{tab_after, tab_at, tab_before, MicroView, SchemaView, Tab};
use crate::navigation::{
    change_speed, end_result, go_end, go_home, home_result, left_result, loop_toggled,
    move_selection, press_space, right_result, selection_moved, space_result, speed_changed,
    step_back, step_forward, toggle_loop,
};

verus! {

/// Keys that quit, leave, confirm, open detail or switch lenses.
pub open spec fn lens_key_result(a: App, k: KeyInput, b: App) -> bool {
    let c = k.code;
    if c == Key::Char('q') {
        b == quit_state(a)
    } else if c == Key::Esc {
        esc_result(a, b)
    } else if is_ctrl(k, 'c') {
        b == quit_state(a)
    } else if c == Key::Char('c') {
        confirm_opened(a, false, b)
    } else if c == Key::Char('K') {
        confirm_opened(a, true, b)
    } else if c == Key::Enter {
        enter_result(a, b)
    } else if c == Key::Tab {
        tab_switched(a, tab_after(a.active_tab), b)
    } else if c == Key::BackTab {
        tab_switched(a, tab_before(a.active_tab), b)
    } else if c is Char && '1' <= c->0 && c->0 <= '9' {
        match tab_at((c->0 as int) - ('1' as int)) {
            Some(t) => if t != a.active_tab {
                tab_switched(a, t, b)
            } else {
                b == a
            },
            None => b == a,
        }
    } else if c == Key::Backspace {
        match a.previous_tab {
            Some(p) => tab_switched(a, p, b),
            None => b == a,
        }
    } else {
        view_key_result(a, k, b)
    }
}

/// Keys that edit filters, toggle panels and sub-views, and jump lenses.
pub open spec fn view_key_result(a: App, k: KeyInput, b: App) -> bool {
    let c = k.code;
    let tab = a.active_tab;
    if c == Key::Char('/') {
        match tab_filter_lens(a) {
            Some(l) => b == edit_started(a, l),
            None => b == a,
        }
    } else if c == Key::Char('\\') {
        match tab_filter_lens(a) {
            Some(l) => if filter_of(a.filters, l).text@.len() > 0 {
                filter_cleared(a, l, b)
            } else {
                b == a
            },
            None => b == a,
        }
    } else if c == Key::Char('w') && tab == Tab::MicroLens && a.micro_view == MicroView::Activity {
        b == waits_toggled(a)
    } else if c == Key::Char('v') && tab == Tab::SchemaLens {
        b == schema_view_cycled(a)
    } else if c == Key::Char('p') && tab == Tab::SchemaLens && a.schema_view == SchemaView::Tables {
        partitions_toggled(a, b)
    } else if (c == Key::Char('p') || c == Key::Char('o')) && tab == Tab::BlocksLens {
        b == pane_swapped(a)
    } else if c == Key::Char('b') && tab != Tab::BlocksLens {
        tab_switched(a, Tab::BlocksLens, b)
    } else if c == Key::Char('x') && tab == Tab::SchemaLens && a.schema_view == SchemaView::Tables {
        query_jumped(a, b)
    } else if c == Key::Char('i') && tab == Tab::SchemaLens && a.schema_view == SchemaView::Tables {
        index_jumped(a, b)
    } else if c == Key::Char('S') && tab == Tab::SchemaLens {
        b == sequences_toggled(a)
    } else if c == Key::Char('I') && tab == Tab::MicroLens {
        b == micro_view_toggled(a)
    } else {
        action_key_result(a, k, b)
    }
}

/// Keys that queue work: copy, delete, rescan, database switch, psql,
/// help.
pub open spec fn action_key_result(a: App, k: KeyInput, b: App) -> bool {
    let c = k.code;
    let tab = a.active_tab;
    if c == Key::Char('y') {
        copy_requested(a, b)
    } else if (c == Key::Char('x') || c == Key::Delete) && tab == Tab::RecordsLens {
        delete_prompted(a, b)
    } else if (c == Key::Char('b') || c == Key::Char('B')) && tab == Tab::RecordsLens {
        records_rescanned(a, b)
    } else if c == Key::Char('d') {
        db_picker_opened(a, b)
    } else if c == Key::Char('!') {
        psql_requested(a, b)
    } else if c == Key::Char('?') {
        b == App { help_open: true, ..a }
    } else {
        motion_key_result(a, k, b)
    }
}

/// Keys that move cursors, scroll the table detail, sort and pause.
pub open spec fn motion_key_result(a: App, k: KeyInput, b: App) -> bool {
    let c = k.code;
    let over_detail = a.detail_open && a.active_tab == Tab::SchemaLens && a.schema_view == SchemaView::Tables;
    if is_up(k) && over_detail {
        b == detail_scrolled_up(a)
    } else if is_down(k) && over_detail {
        b == detail_scrolled_down(a)
    } else if is_up(k) {
        selection_moved(a, -1, b)
    } else if is_down(k) {
        selection_moved(a, 1, b)
    } else if c == Key::PageUp {
        selection_moved(a, -10, b)
    } else if c == Key::PageDown {
        selection_moved(a, 10, b)
    } else if c == Key::Home || c == Key::Char('g') {
        home_result(a, b)
    } else if c == Key::End || c == Key::Char('G') {
        end_result(a, b)
    } else if c == Key::Char('s') {
        sort_cycled(a, b)
    } else if c == Key::Char(' ') {
        space_result(a, b)
    } else {
        misc_key_result(a, k, b)
    }
}

/// Schema refresh, recording, export, replay stepping, looping and speed,
/// and the poll interval.
pub open spec fn misc_key_result(a: App, k: KeyInput, b: App) -> bool {
    let c = k.code;
    if c == Key::Char('B') {
        b == schema_refresh_requested(a)
    } else if c == Key::Char('R') || is_ctrl(k, 'r') {
        recording_toggled(a, b)
    } else if c == Key::Char('E') {
        host_asked(a, HostRequest::ExportSnapshot, b)
    } else if c == Key::Left {
        left_result(a, b)
    } else if c == Key::Right {
        right_result(a, b)
    } else if c == Key::Char('l') || c == Key::Char('L') {
        loop_toggled(a, b)
    } else if c == Key::Char('[') {
        speed_changed(a, false, b)
    } else if c == Key::Char(']') {
        speed_changed(a, true, b)
    } else if c == Key::Char('+') || c == Key::Char('=') {
        b == App { refresh_interval_ms: refresh_slower(a.refresh_interval_ms), ..a }
    } else if c == Key::Char('-') {
        b == App { refresh_interval_ms: refresh_faster(a.refresh_interval_ms), ..a }
    } else {
        b == a
    }
}

fn misc_key(app: &mut App, k: KeyInput)
    requires
        old(app).wf(),
        old(app).counters_ok(),
    ensures
        misc_key_result(*old(app), k, *final(app)),
        final(app).wf(),
{
    let c = k.code;
    if c == Key::Char('B') {
        request_schema_refresh(app);
    } else if c == Key::Char('R') || (c == Key::Char('r') && k.ctrl) {
        toggle_recording(app);
    } else if c == Key::Char('E') {
        ask_host(app, HostRequest::ExportSnapshot);
    } else if c == Key::Left {
        step_back(app);
    } else if c == Key::Right {
        step_forward(app);
    } else if c == Key::Char('l') || c == Key::Char('L') {
        toggle_loop(app);
    } else if c == Key::Char('[') {
        change_speed(app, false);
    } else if c == Key::Char(']') {
        change_speed(app, true);
    } else if c == Key::Char('+') || c == Key::Char('=') {
        slow_down(app);
    } else if c == Key::Char('-') {
        speed_up(app);
    }
}

fn motion_key(app: &mut App, k: KeyInput)
    requires
        old(app).wf(),
        old(app).counters_ok(),
    ensures
        motion_key_result(*old(app), k, *final(app)),
        final(app).wf(),
{
    let c = k.code;
    let up = c == Key::Up || c == Key::Char('k');
    let down = c == Key::Down || c == Key::Char('j');
    let over_detail = app.detail_open && app.active_tab == Tab::SchemaLens && app.schema_view == SchemaView::Tables;
    if up && over_detail {
        scroll_detail_up(app);
    } else if down && over_detail {
        scroll_detail_down(app);
    } else if up {
        move_selection(app, -1);
    } else if down {
        move_selection(app, 1);
    } else if c == Key::PageUp {
        move_selection(app, -10);
    } else if c == Key::PageDown {
        move_selection(app, 10);
    } else if c == Key::Home || c == Key::Char('g') {
        go_home(app);
    } else if c == Key::End || c == Key::Char('G') {
        go_end(app);
    } else if c == Key::Char('s') {
        cycle_sort(app);
    } else if c == Key::Char(' ') {
        press_space(app);
    } else {
        misc_key(app, k);
    }
}

fn action_key(app: &mut App, k: KeyInput)
    requires
        old(app).wf(),
        old(app).counters_ok(),
    ensures
        action_key_result(*old(app), k, *final(app)),
        final(app).wf(),
{
    let c = k.code;
    let tab = app.active_tab;
    if c == Key::Char('y') {
        request_copy(app);
    } else if (c == Key::Char('x') || c == Key::Delete) && tab == Tab::RecordsLens {
        prompt_delete(app);
    } else if (c == Key::Char('b') || c == Key::Char('B')) && tab == Tab::RecordsLens {
        rescan_records(app);
    } else if c == Key::Char('d') {
        open_db_picker(app);
    } else if c == Key::Char('!') {
        request_psql(app);
    } else if c == Key::Char('?') {
        open_help(app);
    } else {
        motion_key(app, k);
    }
}

fn view_key(app: &mut App, k: KeyInput)
    requires
        old(app).wf(),
        old(app).counters_ok(),
    ensures
        view_key_result(*old(app), k, *final(app)),
        final(app).wf(),
{
    let c = k.code;
    let tab = app.active_tab;
    if c == Key::Char('/') {
        match tab_filter(app) {
            Some(l) => start_edit(app, l),
            None => {},
        }
    } else if c == Key::Char('\\') {
        match tab_filter(app) {
            Some(l) => {
                if !filter_text_empty(app, l) {
                    clear_filter(app, l);
                }
            },
            None => {},
        }
    } else if c == Key::Char('w') && tab == Tab::MicroLens && app.micro_view == MicroView::Activity {
        toggle_waits(app);
    } else if c == Key::Char('v') && tab == Tab::SchemaLens {
        cycle_schema_view(app);
    } else if c == Key::Char('p') && tab == Tab::SchemaLens && app.schema_view == SchemaView::Tables {
        toggle_partitions(app);
    } else if (c == Key::Char('p') || c == Key::Char('o')) && tab == Tab::BlocksLens {
        swap_pane(app);
    } else if c == Key::Char('b') && tab != Tab::BlocksLens {
        switch_to(app, Tab::BlocksLens);
    } else if c == Key::Char('x') && tab == Tab::SchemaLens && app.schema_view == SchemaView::Tables {
        cross_to_query(app);
    } else if c == Key::Char('i') && tab == Tab::SchemaLens && app.schema_view == SchemaView::Tables {
        cross_to_index(app);
    } else if c == Key::Char('S') && tab == Tab::SchemaLens {
        toggle_sequences(app);
    } else if c == Key::Char('I') && tab == Tab::MicroLens {
        toggle_micro_view(app);
    } else {
        action_key(app, k);
    }
}

fn quit(app: &mut App)
    requires
        old(app).wf(),
    ensures
        *final(app) == quit_state(*old(app)),
        final(app).wf(),
{
    app.should_quit = true;
}

fn digit_tab(app: &mut App, d: char)
    requires
        old(app).wf(),
        '1' <= d <= '9',
    ensures
        match tab_at((d as int) - ('1' as int)) {
            Some(t) => if t != old(app).active_tab {
                tab_switched(*old(app), t, *final(app))
            } else {
                *final(app) == *old(app)
            },
            None => *final(app) == *old(app),
        },
        final(app).wf(),
{
    match Tab::from_index((d as usize) - ('1' as usize)) {
        Some(t) => {
            if t != app.active_tab {
                switch_to(app, t);
            }
        },
        None => {},
    }
}

fn go_back(app: &mut App)
    requires
        old(app).wf(),
    ensures
        match old(app).previous_tab {
            Some(p) => tab_switched(*old(app), p, *final(app)),
            None => *final(app) == *old(app),
        },
        final(app).wf(),
{
    match app.previous_tab {
        Some(p) => switch_to(app, p),
        None => {},
    }
}

pub(crate) fn lens_key(app: &mut App, k: KeyInput)
    requires
        old(app).wf(),
        old(app).counters_ok(),
    ensures
        lens_key_result(*old(app), k, *final(app)),
        final(app).wf(),
{
    let c = k.code;
    if c == Key::Char('q') {
        quit(app);
    } else if c == Key::Esc {
        press_esc(app);
    } else if c == Key::Char('c') && k.ctrl {
        quit(app);
    } else if c == Key::Char('c') {
        open_confirm(app, false);
    } else if c == Key::Char('K') {
        open_confirm(app, true);
    } else if c == Key::Enter {
        press_enter(app);
    } else if c == Key::Tab {
        let t = app.active_tab.next();
        switch_to(app, t);
    } else if c == Key::BackTab {
        let t = app.active_tab.prev();
        switch_to(app, t);
    } else if c == Key::Backspace {
        go_back(app);
    } else {
        match c {
            Key::Char(d) => {
                if '1' <= d && d <= '9' {
                    digit_tab(app, d);
                } else {
                    view_key(app, k);
                }
            },
            _ => view_key(app, k),
        }
    }
}

/// Where a key goes: releases are ignored; the service picker, the help
/// overlay, the admin confirmation, the delete confirmation, the database
/// picker and the filter editor, in that order, own input while open;
/// otherwise the top-level keymap applies.
pub open spec fn key_result(a: App, k: KeyInput, b: App) -> bool {
    if !k.press {
        b == a
    } else if a.picker is Some {
        picker_key_result(a, k, b)
    } else if a.help_open {
        help_key_result(a, k, b)
    } else if a.confirm is Some {
        confirm_key_result(a, k, b)
    } else if a.delete_record_target is Some {
        delete_key_result(a, k, b)
    } else if a.db_picker is Some {
        db_picker_key_result(a, k, b)
    } else if editing_lens(a) is Some {
        filter_key_result(a, k, b)
    } else {
        lens_key_result(a, k, b)
    }
}

pub(crate) fn handle_key(app: &mut App, k: KeyInput)
    requires
        old(app).wf(),
        old(app).counters_ok(),
    ensures
        key_result(*old(app), k, *final(app)),
        final(app).wf(),
{
    if !k.press {
        return;
    }
    if app.picker.is_some() {
        handle_picker_key(app, k);
    } else if app.help_open {
        handle_help_key(app, k);
    } else if app.confirm.is_some() {
        handle_confirm_key(app, k);
    } else if app.delete_record_target.is_some() {
        handle_delete_record_confirm_key(app, k);
    } else if app.db_picker.is_some() {
        handle_db_picker_key(app, k);
    } else if editing_any(app) {
        handle_filter_key(app, k);
    } else {
        lens_key(app, k);
    }
}

} // verus!
