use bar_utilities::workspaces::{
    format_window_line, format_workspace_line, open_windows_table, WorkspaceSnapshot, WorkspaceWindow,
};

fn snap(id: i32, windows: u16) -> WorkspaceSnapshot {
    WorkspaceSnapshot { id, windows }
}

#[test]
fn open_windows_has_ten_ascending_entries() {
    let snaps = vec![snap(7, 1), snap(3, 2), snap(1, 5)];
    let table = open_windows_table(&snaps);
    assert_eq!(table.len(), 10);
    for (i, entry) in table.iter().enumerate() {
        assert_eq!(entry.id, i as i32 + 1);
    }
    assert_eq!(table[0].windows, 5);
    assert_eq!(table[2].windows, 2);
    assert_eq!(table[6].windows, 1);
    for i in [1usize, 3, 4, 5, 7, 8, 9] {
        assert_eq!(table[i].windows, 0);
    }
}

#[test]
fn open_windows_only_workspace_two() {
    let table = open_windows_table(&vec![snap(2, 4)]);
    let mut expected = Vec::new();
    for id in 1..=10 {
        expected.push(WorkspaceWindow { id, windows: if id == 2 { 4 } else { 0 } });
    }
    assert_eq!(table, expected);
}

#[test]
fn open_windows_with_no_snapshots() {
    let table = open_windows_table(&Vec::new());
    assert_eq!(table.len(), 10);
    assert!(table.iter().all(|e| e.windows == 0));
}

#[test]
fn open_windows_ignores_ids_outside_the_table() {
    let table = open_windows_table(&vec![snap(11, 3), snap(-99, 2), snap(0, 1), snap(10, 6)]);
    assert_eq!(table[9], WorkspaceWindow { id: 10, windows: 6 });
    assert_eq!(table.iter().map(|e| e.windows).sum::<i32>(), 6);
}

#[test]
fn open_windows_later_snapshot_of_an_id_wins() {
    let table = open_windows_table(&vec![snap(4, 2), snap(4, 9)]);
    assert_eq!(table[3].windows, 9);
}

#[test]
fn open_windows_largest_count() {
    let table = open_windows_table(&vec![snap(5, u16::MAX)]);
    assert_eq!(table[4].windows, 65535);
}

#[test]
fn workspace_line_is_the_id() {
    assert_eq!(format_workspace_line(3), "3");
    assert_eq!(format_workspace_line(0), "0");
    assert_eq!(format_workspace_line(10), "10");
    assert_eq!(format_workspace_line(-99), "-99");
    assert_eq!(format_workspace_line(i32::MAX), "2147483647");
    assert_eq!(format_workspace_line(i32::MIN), "-2147483648");
}

#[test]
fn window_line_is_class_or_desktop() {
    assert_eq!(format_window_line(None), "Desktop");
    assert_eq!(format_window_line(Some("firefox".to_string())), "firefox");
    assert_eq!(format_window_line(Some(String::new())), "");
}
