use kawaii_dash::app::App;
use kawaii_dash::driver::{command_for_key, Command, Flow, InputPoll, Key, ScanPoll};
use kawaii_dash::scan::{copy_ies, Bss, Ie};
use kawaii_dash::widgets::bss_table::{compare_bss, signed_with_unit, sort_by_column};
use kawaii_dash::widgets::{
    BssTable, BssTableColumnHeader, BssTableState, IeTable, IeTableColumnHeader, IeTableState,
    TableSortOrder,
};

fn ie(id: u32) -> Ie {
    Ie {
        id,
        labels: vec![id.to_string(), format!("element {}", id), "2 B".to_string()],
        fields: vec![format!("field of {}", id)],
    }
}

fn bss(id: u64, signal: i32, ies: Vec<Ie>) -> Bss {
    Bss {
        bssid: id,
        ssid: None,
        channel_number: 1,
        channel_width: 0,
        band: 0,
        center_freq_mhz: 2412,
        signal_dbm: signal,
        wifi_protocols: 0,
        labels: vec![format!("addr {}", id), String::new(), "1".to_string()],
        ies,
    }
}

fn named(id: u64, name: Option<&str>) -> Bss {
    let mut b = bss(id, -50, vec![]);
    b.ssid = name.map(|n| n.as_bytes().to_vec());
    b
}

fn ids(t: &BssTableState) -> Vec<u64> {
    t.records_in_order().iter().map(|b| b.bssid).collect()
}

fn ie_ids(t: &IeTableState) -> Vec<u32> {
    t.ies().iter().map(|e| e.id).collect()
}

#[test]
fn signal_sort_follows_raw_comparator() {
    let mut t = BssTableState::new();
    t.set_scan_results(vec![bss(1, -40, vec![]), bss(2, -60, vec![])]);
    t.sort(BssTableColumnHeader::Signal, TableSortOrder::Descending);
    assert_eq!(ids(&t), vec![2, 1]);
    assert_eq!(t.selected(), Some(0));
    t.sort(BssTableColumnHeader::Signal, TableSortOrder::Ascending);
    assert_eq!(ids(&t), vec![1, 2]);
    assert_eq!(t.selected(), Some(0));
    assert_eq!(t.selected_bss().unwrap().bssid, 1);
}

#[test]
fn replace_without_selected_id_selects_first() {
    let mut t = BssTableState::new();
    t.set_scan_results(vec![bss(1, -40, vec![]), bss(2, -60, vec![])]);
    t.select_next();
    assert_eq!(t.selected_bss().unwrap().bssid, 2);
    t.set_scan_results(vec![bss(3, -50, vec![]), bss(1, -40, vec![])]);
    assert_eq!(ids(&t), vec![1, 3]);
    assert_eq!(t.selected(), Some(0));
}

#[test]
fn replace_keeps_selected_id() {
    let mut t = BssTableState::new();
    t.set_scan_results(vec![bss(5, -40, vec![]), bss(7, -60, vec![]), bss(9, -70, vec![])]);
    t.select_next();
    assert_eq!(t.selected_bss().unwrap().bssid, 7);
    t.set_scan_results(vec![bss(9, -70, vec![]), bss(2, -1, vec![]), bss(7, -30, vec![])]);
    assert_eq!(ids(&t), vec![2, 7, 9]);
    assert_eq!(t.selected(), Some(1));
    assert_eq!(t.selected_bss().unwrap().signal_dbm, -30);
}

#[test]
fn replace_with_empty_clears_selection() {
    let mut t = BssTableState::new();
    assert_eq!(t.selected(), None);
    t.set_scan_results(vec![bss(1, -40, vec![])]);
    assert_eq!(t.selected(), Some(0));
    t.set_scan_results(vec![]);
    assert_eq!(t.selected(), None);
    assert_eq!(t.len(), 0);
    assert!(t.selected_bss().is_none());
}

#[test]
fn selection_stops_at_both_ends() {
    let mut t = BssTableState::new();
    t.select_next();
    t.select_previous();
    assert_eq!(t.selected(), None);
    t.set_scan_results(vec![bss(1, 0, vec![]), bss(2, 0, vec![]), bss(3, 0, vec![])]);
    t.select_previous();
    assert_eq!(t.selected(), Some(0));
    t.select_next();
    t.select_next();
    assert_eq!(t.selected(), Some(2));
    t.select_next();
    assert_eq!(t.selected(), Some(2));
    t.select_previous();
    assert_eq!(t.selected(), Some(1));
}

#[test]
fn sort_is_stable_on_equal_keys() {
    let mut v = vec![bss(4, -50, vec![]), bss(1, -60, vec![]), bss(3, -50, vec![]), bss(2, -50, vec![])];
    sort_by_column(&mut v, BssTableColumnHeader::Signal, TableSortOrder::Descending);
    let got: Vec<u64> = v.iter().map(|b| b.bssid).collect();
    assert_eq!(got, vec![1, 4, 3, 2]);
    sort_by_column(&mut v, BssTableColumnHeader::Signal, TableSortOrder::Ascending);
    let got: Vec<u64> = v.iter().map(|b| b.bssid).collect();
    assert_eq!(got, vec![4, 3, 2, 1]);
}

#[test]
fn ssid_sort_puts_missing_names_first() {
    let mut v = vec![named(1, Some("beta")), named(2, None), named(3, Some("alpha")), named(4, Some("al"))];
    sort_by_column(&mut v, BssTableColumnHeader::Ssid, TableSortOrder::Descending);
    let got: Vec<u64> = v.iter().map(|b| b.bssid).collect();
    assert_eq!(got, vec![2, 4, 3, 1]);
}

#[test]
fn columns_without_key_sort_by_address() {
    let mut v = vec![bss(9, 0, vec![]), bss(3, 0, vec![]), bss(5, 0, vec![])];
    sort_by_column(&mut v, BssTableColumnHeader::MaxRate, TableSortOrder::Descending);
    let got: Vec<u64> = v.iter().map(|b| b.bssid).collect();
    assert_eq!(got, vec![3, 5, 9]);
    let a = bss(1, 0, vec![]);
    let b = bss(2, 0, vec![]);
    assert_eq!(compare_bss(BssTableColumnHeader::Security, TableSortOrder::Descending, &a, &b), -1);
    assert_eq!(compare_bss(BssTableColumnHeader::Security, TableSortOrder::Ascending, &a, &b), 1);
    assert_eq!(compare_bss(BssTableColumnHeader::Frequency, TableSortOrder::Ascending, &a, &b), 0);
}

#[test]
fn rows_follow_records_and_columns() {
    let mut t = BssTableState::new();
    t.set_scan_results(vec![bss(2, 0, vec![]), bss(1, 0, vec![])]);
    let rows = t.rows();
    assert_eq!(rows.len(), 2);
    assert_eq!(rows[0].len(), 10);
    assert_eq!(rows[0][0], "addr 1");
    assert_eq!(rows[0][2], "1");
    assert_eq!(rows[0][3], "");
    assert_eq!(rows[0][5], "2412 MHz");
    assert_eq!(rows[0][6], "0 dBm");
    assert_eq!(rows[0][8], "None");
    assert_eq!(rows[0][9], "0.0 Mbps");
    assert_eq!(rows[1][0], "addr 2");
    assert_eq!(t.header().len(), 10);
    assert_eq!(t.header()[6], BssTableColumnHeader::Signal);
    assert_eq!(BssTableColumnHeader::WiFiProtocols.title(), "Wi-Fi Protocols");
    assert_eq!(BssTableColumnHeader::MaxRate.index(), 9);
    assert_eq!(t.sorting(), (BssTableColumnHeader::Bssid, TableSortOrder::Descending));
    let _ = BssTable::new();
}

#[test]
fn focus_flags_toggle() {
    let mut t = BssTableState::new();
    assert!(!t.is_focused());
    t.focus();
    assert!(t.is_focused());
    t.unfocus();
    assert!(!t.is_focused());
    let mut d = IeTableState::default();
    d.focus();
    assert!(d.is_focused());
    d.unfocus();
    assert!(!d.is_focused());
}

#[test]
fn detail_selection_falls_to_first_when_id_missing() {
    let mut d = IeTableState::new();
    d.set_ies(&[ie(10), ie(20), ie(30)]);
    d.select_next();
    d.select_next();
    assert_eq!(d.selected(), Some(2));
    d.set_ies(&[ie(40), ie(10)]);
    assert_eq!(d.selected(), Some(0));
    assert_eq!(ie_ids(&d), vec![40, 10]);
}

#[test]
fn detail_selection_follows_id_and_keeps_order() {
    let mut d = IeTableState::new();
    d.set_ies(&[ie(10), ie(20), ie(30)]);
    d.select_next();
    d.set_ies(&[ie(30), ie(5), ie(20)]);
    assert_eq!(ie_ids(&d), vec![30, 5, 20]);
    assert_eq!(d.selected(), Some(2));
    assert_eq!(d.selected_ie().unwrap().id, 20);
    d.select_next();
    assert_eq!(d.selected(), Some(2));
    d.select_previous();
    d.select_previous();
    d.select_previous();
    assert_eq!(d.selected(), Some(0));
    d.set_ies(&[]);
    assert_eq!(d.selected(), None);
    assert!(d.selected_ie().is_none());
}

#[test]
fn detail_rows_use_element_labels() {
    let mut d = IeTableState::new();
    d.set_ies(&[ie(7)]);
    assert_eq!(d.rows()[0], vec!["7".to_string(), "element 7".to_string(), "2 B".to_string()]);
    assert_eq!(d.header()[1], IeTableColumnHeader::Element);
    assert_eq!(IeTableColumnHeader::Length.title(), "Length");
    assert_eq!(IeTableColumnHeader::Id.index(), 0);
    assert_eq!(d.len(), 1);
    let _ = IeTable::new();
}

#[test]
fn copied_elements_equal_their_source() {
    let src = vec![ie(1), ie(2)];
    let copy = copy_ies(&src);
    assert_eq!(copy.len(), 2);
    assert_eq!(copy[1].id, 2);
    assert_eq!(copy[1].labels, src[1].labels);
    assert_eq!(copy[0].fields, src[0].fields);
}

#[test]
fn app_detail_follows_primary_selection() {
    let mut app = App::new();
    assert!(app.bss_table().is_focused());
    assert!(!app.ie_table().is_focused());
    app.update_scan_results(vec![bss(2, 0, vec![ie(3)]), bss(1, 0, vec![ie(1), ie(2)])]);
    assert_eq!(ie_ids(app.ie_table()), vec![1, 2]);
    app.select_next();
    assert_eq!(app.bss_table().selected(), Some(1));
    assert_eq!(ie_ids(app.ie_table()), vec![3]);
    app.sort_bss_table(BssTableColumnHeader::Bssid, TableSortOrder::Ascending);
    assert_eq!(ids(app.bss_table()), vec![2, 1]);
    assert_eq!(ie_ids(app.ie_table()), vec![3]);
    app.select_previous();
    assert_eq!(ie_ids(app.ie_table()), vec![3]);
    app.update_scan_results(vec![]);
    assert_eq!(app.bss_table().selected(), None);
    assert_eq!(ie_ids(app.ie_table()), Vec::<u32>::new());
}

#[test]
fn app_moves_detail_selection_when_detail_focused() {
    let mut app = App::default();
    app.update_scan_results(vec![bss(1, 0, vec![ie(1), ie(2), ie(3)])]);
    app.focus_next();
    assert!(!app.bss_table().is_focused());
    assert!(app.ie_table().is_focused());
    app.select_next();
    app.select_next();
    assert_eq!(app.ie_table().selected(), Some(2));
    assert_eq!(app.bss_table().selected(), Some(0));
    app.select_previous();
    assert_eq!(app.ie_table().selected(), Some(1));
    app.reset_ie_table();
    assert_eq!(app.ie_table().selected(), Some(1));
}

#[test]
fn cycle_focus_twice_restores_focus() {
    let mut app = App::new();
    app.focus_next();
    app.focus_next();
    assert!(app.bss_table().is_focused());
    assert!(!app.ie_table().is_focused());
}

#[test]
fn key_bindings() {
    assert_eq!(command_for_key(Key::Char('q')), Command::Quit);
    assert_eq!(
        command_for_key(Key::Char('b')),
        Command::Sort(BssTableColumnHeader::Bssid, TableSortOrder::Descending)
    );
    assert_eq!(
        command_for_key(Key::Char('s')),
        Command::Sort(BssTableColumnHeader::Ssid, TableSortOrder::Descending)
    );
    assert_eq!(command_for_key(Key::Up), Command::SelectPrevious);
    assert_eq!(command_for_key(Key::Down), Command::SelectNext);
    assert_eq!(command_for_key(Key::Enter), Command::CycleFocus);
    assert_eq!(command_for_key(Key::Char('x')), Command::Ignore);
    assert_eq!(command_for_key(Key::Other), Command::Ignore);
}

#[test]
fn polls_decide_the_flow() {
    let mut app = App::new();
    assert_eq!(app.on_scan(ScanPoll::Empty), Flow::Continue);
    assert_eq!(app.on_scan(ScanPoll::Snapshot(vec![bss(1, 0, vec![]), bss(2, 0, vec![])])), Flow::Redraw);
    assert_eq!(app.bss_table().len(), 2);
    assert_eq!(app.on_input(InputPoll::Empty), Flow::Continue);
    assert_eq!(app.on_input(InputPoll::NotAKey), Flow::Continue);
    assert_eq!(app.on_input(InputPoll::Pressed(Key::Down)), Flow::Redraw);
    assert_eq!(app.bss_table().selected(), Some(1));
    assert_eq!(app.on_input(InputPoll::Pressed(Key::Char('z'))), Flow::Continue);
    assert_eq!(app.on_input(InputPoll::Pressed(Key::Char('b'))), Flow::Redraw);
    assert_eq!(app.bss_table().selected(), Some(0));
    assert_eq!(app.on_input(InputPoll::Pressed(Key::Enter)), Flow::Redraw);
    assert!(app.ie_table().is_focused());
    assert_eq!(app.on_input(InputPoll::Pressed(Key::Char('q'))), Flow::Quit);
    assert_eq!(app.on_input(InputPoll::Disconnected), Flow::Quit);
    assert_eq!(app.on_scan(ScanPoll::Disconnected), Flow::Quit);
}

#[test]
fn detail_moves_over_repeated_ids() {
    let mut app = App::new();
    app.update_scan_results(vec![bss(1, 0, vec![ie(5), ie(5), ie(7)])]);
    app.focus_next();
    assert_eq!(app.ie_table().selected(), Some(0));
    app.select_next();
    assert_eq!(app.ie_table().selected(), Some(1));
    app.select_next();
    assert_eq!(app.ie_table().selected(), Some(2));
    app.select_previous();
    assert_eq!(app.ie_table().selected(), Some(1));
    app.select_previous();
    assert_eq!(app.ie_table().selected(), Some(0));
}

#[test]
fn detail_selection_stays_on_same_index_with_same_id() {
    let mut d = IeTableState::new();
    d.set_ies(&[ie(5), ie(5), ie(9)]);
    d.select_next();
    d.set_ies(&[ie(5), ie(5)]);
    assert_eq!(d.selected(), Some(1));
    d.set_ies(&[ie(9), ie(4), ie(5)]);
    assert_eq!(d.selected(), Some(2));
}

#[test]
fn numeric_cells_are_written_in_decimal() {
    let mut b = bss(1, -67, vec![]);
    b.center_freq_mhz = 5180;
    let mut c = bss(2, -7, vec![]);
    c.center_freq_mhz = 0;
    let mut t = BssTableState::new();
    t.set_scan_results(vec![b, c]);
    let rows = t.rows();
    assert_eq!(rows[0][5], "5180 MHz");
    assert_eq!(rows[0][6], "-67 dBm");
    assert_eq!(rows[1][5], "0 MHz");
    assert_eq!(rows[1][6], "-7 dBm");
    assert_eq!(signed_with_unit(-2147483648, " dBm"), "-2147483648 dBm");
    assert_eq!(signed_with_unit(4294967295, " MHz"), "4294967295 MHz");
    assert_eq!(signed_with_unit(10, ""), "10");
}
