use layer_browser::app::AppState;
use layer_browser::model::Header;

fn sample_records() -> Vec<Header> {
    vec![
        Header::from(1, None, String::from("tcp_syn"), String::from("t0")),
        Header::from(2, Some(7), String::from("tcp_ack"), String::from("t1")),
        Header::from(3, None, String::from("udp_ping"), String::from("t2")),
    ]
}

#[test]
fn header_from_keeps_fields() {
    let h = Header::from(9, Some(4), String::from("abc"), String::from("now"));
    assert_eq!(h.rowid, 9);
    assert_eq!(h.session_id, Some(4));
    assert_eq!(h.name, "abc");
    assert_eq!(h.timestamp, "now");
}

#[test]
fn empty_filter_keeps_every_record() {
    let mut st = AppState::new(sample_records()).unwrap();
    st.filter("").unwrap();
    assert_eq!(st.filtered_indexes, vec![0, 1, 2]);
}

#[test]
fn filter_keeps_matching_records_in_order() {
    let mut st = AppState::new(sample_records()).unwrap();
    st.filter("tcp").unwrap();
    assert_eq!(st.filtered_indexes, vec![0, 1]);
    st.filter("udp").unwrap();
    assert_eq!(st.filtered_indexes, vec![2]);
    st.filter("n").unwrap();
    assert_eq!(st.filtered_indexes, vec![0, 2]);
}

#[test]
fn filter_with_no_match_is_empty() {
    let mut st = AppState::new(sample_records()).unwrap();
    st.filter("zzz").unwrap();
    assert_eq!(st.filtered_indexes, Vec::<usize>::new());
}

#[test]
fn narrower_filter_is_subset() {
    let mut st = AppState::new(sample_records()).unwrap();
    st.filter("tcp").unwrap();
    let wide = st.filtered_indexes.clone();
    st.filter("tcp_s").unwrap();
    let narrow = st.filtered_indexes.clone();
    assert_eq!(narrow, vec![0]);
    assert!(narrow.iter().all(|i| wide.contains(i)));
}

#[test]
fn matches_filter_is_substring_containment() {
    let st = AppState::new(sample_records()).unwrap();
    assert!(st.matches_filter("tcp_syn", "syn"));
    assert!(st.matches_filter("tcp_syn", ""));
    assert!(!st.matches_filter("tcp_syn", "Syn"));
    assert!(!st.matches_filter("tcp", "tcp_syn"));
}

#[test]
fn update_state_derives_scroll_from_row_height() {
    let mut st = AppState::new(sample_records()).unwrap();
    st.update_state(2);
    assert_eq!(st.selected_index, 2);
    assert_eq!(st.state.selected, Some(2));
    assert_eq!(st.scroll_state.position, 8);
}

#[test]
fn scrollbar_length_counts_rows_after_the_first() {
    let st = AppState::new(sample_records()).unwrap();
    assert_eq!(st.scroll_state.content_length, 8);
    let empty = AppState::new(Vec::new()).unwrap();
    assert_eq!(empty.scroll_state.content_length, 0);
}

#[test]
fn next_then_previous_returns_to_start() {
    let mut st = AppState::new(sample_records()).unwrap();
    st.filter("").unwrap();
    st.update_state(1);
    st.next_row().unwrap();
    st.previous_row().unwrap();
    assert_eq!(st.selected_index, 1);
}

#[test]
fn full_lap_of_next_returns_to_start() {
    let mut st = AppState::new(sample_records()).unwrap();
    st.filter("").unwrap();
    st.update_state(1);
    for _ in 0..st.filtered_indexes.len() {
        st.next_row().unwrap();
    }
    assert_eq!(st.selected_index, 1);
}

#[test]
fn next_row_wraps_to_top() {
    let mut st = AppState::new(sample_records()).unwrap();
    st.filter("").unwrap();
    st.update_state(2);
    st.next_row().unwrap();
    assert_eq!(st.selected_index, 0);
}

#[test]
fn previous_row_wraps_to_bottom() {
    let mut st = AppState::new(sample_records()).unwrap();
    st.filter("").unwrap();
    st.previous_row().unwrap();
    assert_eq!(st.selected_index, 2);
}

#[test]
fn moves_on_empty_view_stay_at_top() {
    let mut st = AppState::new(sample_records()).unwrap();
    st.filter("zzz").unwrap();
    st.next_row().unwrap();
    assert_eq!(st.selected_index, 0);
    st.previous_row().unwrap();
    assert_eq!(st.selected_index, 0);
}

#[test]
fn get_filtered_data_projects_the_view() {
    let mut st = AppState::new(sample_records()).unwrap();
    st.filter("tcp").unwrap();
    let rows = st.get_filtered_data().unwrap();
    assert_eq!(rows.len(), 2);
    assert_eq!(rows[0].name, "tcp_syn");
    assert_eq!(rows[1].name, "tcp_ack");
}

#[test]
fn selection_resolves_through_the_view() {
    let mut st = AppState::new(sample_records()).unwrap();
    st.filter("tcp").unwrap();
    st.update_state(1);
    assert_eq!(st.get_data().unwrap(), Some(2));
}

#[test]
fn second_resolve_is_a_cache_hit() {
    let mut st = AppState::new(sample_records()).unwrap();
    st.filter("").unwrap();
    let mut fetches = 0;
    for _ in 0..2 {
        if let Some(id) = st.get_data().unwrap() {
            fetches += 1;
            st.store_payload(id, format!("payload-{id}"));
        }
    }
    assert_eq!(fetches, 1);
    assert_eq!(st.cached, Some((1, String::from("payload-1"))));
}

#[test]
fn selection_change_invalidates_the_cache() {
    let mut st = AppState::new(sample_records()).unwrap();
    st.filter("").unwrap();
    let first = st.get_data().unwrap().unwrap();
    st.store_payload(first, String::from("one"));
    st.update_state(2);
    assert_eq!(st.get_data().unwrap(), Some(3));
}

#[test]
fn empty_view_clears_cache_and_owes_nothing() {
    let mut st = AppState::new(Vec::new()).unwrap();
    st.filter("anything").unwrap();
    assert_eq!(st.get_data().unwrap(), None);
    assert_eq!(st.cached, None);
}

#[test]
fn nonempty_list_empty_match_owes_nothing() {
    let mut st = AppState::new(sample_records()).unwrap();
    st.filter("").unwrap();
    let id = st.get_data().unwrap().unwrap();
    st.store_payload(id, String::from("kept"));
    st.filter("zzz").unwrap();
    assert_eq!(st.get_data().unwrap(), None);
    assert_eq!(st.cached, None);
}

#[test]
fn stale_selection_falls_back_to_last_filtered_row() {
    let mut st = AppState::new(sample_records()).unwrap();
    st.filter("tcp").unwrap();
    st.update_state(5);
    assert_eq!(st.get_data().unwrap(), Some(2));
}

#[test]
fn refresh_replaces_the_record_list() {
    let mut st = AppState::new(sample_records()).unwrap();
    st.filter("").unwrap();
    let shorter = vec![Header::from(8, None, String::from("icmp_echo"), String::from("t9"))];
    st.refresh(shorter).unwrap();
    assert_eq!(st.items.len(), 1);
    st.filter("").unwrap();
    assert_eq!(st.filtered_indexes, vec![0]);
    assert_eq!(st.get_data().unwrap(), Some(8));
}
