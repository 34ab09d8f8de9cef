//! Workspace and window lines: the active workspace, the active window's
//! class, and the table of window counts of workspaces one to ten.
use vstd::prelude::*;

use crate::text::{decimal_text, int_text};

verus! {

/// What the window manager reports of one workspace.
#[derive(Clone, Copy, Debug, PartialEq, Eq, Structural)]
pub struct WorkspaceSnapshot {
    pub id: i32,
    pub windows: u16,
}

/// One entry of the open-windows table.
#[derive(Clone, Copy, Debug, PartialEq, Eq, Structural)]
pub struct WorkspaceWindow {
    pub id: i32,
    pub windows: i32,
}

/// The number of workspaces that the table lists.
pub const TABLE_SIZE: i32 = 10;

/// The window count that snapshots give a workspace: that of the last
/// snapshot with its id, or zero where none has it.
pub open spec fn windows_for(snaps: Seq<WorkspaceSnapshot>, id: int) -> int
    decreases snaps.len(),
{
    if snaps.len() == 0 {
        0
    } else if snaps.last().id == id {
        snaps.last().windows as int
    } else {
        windows_for(snaps.drop_last(), id)
    }
}

/// Whether some snapshot has the given id.
pub open spec fn reported(snaps: Seq<WorkspaceSnapshot>, id: int) -> bool {
    exists|j: int| 0 <= j < snaps.len() && snaps[j].id == id
}

/// A workspace that no snapshot reports has no windows.
pub proof fn unreported_workspace_has_no_windows(snaps: Seq<WorkspaceSnapshot>, id: int)
    requires
        !reported(snaps, id),
    ensures
        windows_for(snaps, id) == 0,
    decreases snaps.len(),
{
    if snaps.len() > 0 {
        assert(snaps.last() == snaps[snaps.len() - 1]);
        assert(!reported(snaps.drop_last(), id)) by {
            if reported(snaps.drop_last(), id) {
                let j = choose|j: int| 0 <= j < snaps.len() - 1 && snaps.drop_last()[j].id == id;
                assert(snaps[j].id == id);
            }
        }
        unreported_workspace_has_no_windows(snaps.drop_last(), id);
    }
}

/// Where no two snapshots share an id, each workspace gets the count of its
/// own snapshot, wherever that snapshot stands among the others.
pub proof fn reported_workspace_has_its_count(snaps: Seq<WorkspaceSnapshot>, j: int)
    requires
        0 <= j < snaps.len(),
        forall|a: int, b: int|
            0 <= a < snaps.len() && 0 <= b < snaps.len() && a != b ==> #[trigger] snaps[a].id
                != #[trigger] snaps[b].id,
    ensures
        windows_for(snaps, snaps[j].id as int) == snaps[j].windows,
    decreases snaps.len(),
{
    let last = snaps.len() - 1;
    if j < last {
        assert(snaps[last].id != snaps[j].id);
        let init = snaps.drop_last();
        assert(init[j] == snaps[j]);
        assert forall|a: int, b: int|
            0 <= a < init.len() && 0 <= b < init.len() && a != b implies #[trigger] init[a].id
                != #[trigger] init[b].id by {
            assert(init[a] == snaps[a] && init[b] == snaps[b]);
        }
        reported_workspace_has_its_count(init, j);
    }
}

/// The window count of one workspace, as `windows_for` states.
fn windows_on(snaps: &Vec<WorkspaceSnapshot>, id: i32) -> (r: i32)
    ensures
        r == windows_for(snaps@, id as int),
{
    let mut w: i32 = 0;
    let mut j: usize = 0;
    while j < snaps.len()
        invariant
            j <= snaps@.len(),
            w == windows_for(snaps@.take(j as int), id as int),
        decreases snaps@.len() - j,
    {
        assert(snaps@.take(j + 1).drop_last() =~= snaps@.take(j as int));
        if snaps[j].id == id {
            w = snaps[j].windows as i32;
        }
        j = j + 1;
    }
    assert(snaps@.take(j as int) =~= snaps@);
    w
}

/// The open-windows table: workspaces one to ten in ascending order, whatever
/// order the snapshots come in, each with the count that the snapshots give it
/// and zero where none reports it.
pub fn open_windows_table(snaps: &Vec<WorkspaceSnapshot>) -> (r: Vec<WorkspaceWindow>)
    ensures
        r@.len() == 10,
        forall|i: int|
            0 <= i < 10 ==> (#[trigger] r@[i]).id == i + 1 && r@[i].windows == windows_for(
                snaps@,
                i + 1,
            ),
        forall|i: int| 0 <= i < 10 && !reported(snaps@, i + 1) ==> (#[trigger] r@[i]).windows == 0,
{
    let mut r: Vec<WorkspaceWindow> = Vec::new();
    let mut id: i32 = 1;
    while id <= TABLE_SIZE
        invariant
            1 <= id <= 11,
            r@.len() == id - 1,
            forall|i: int|
                0 <= i < r@.len() ==> (#[trigger] r@[i]).id == i + 1 && r@[i].windows
                    == windows_for(snaps@, i + 1),
        decreases 11 - id,
    {
        r.push(WorkspaceWindow { id, windows: windows_on(snaps, id) });
        id = id + 1;
    }
    assert forall|i: int| 0 <= i < 10 && !reported(snaps@, i + 1) implies (
    #[trigger] r@[i]).windows == 0 by {
        unreported_workspace_has_no_windows(snaps@, i + 1);
    }
    r
}

/// The active workspace's line: its id in base ten.
pub fn format_workspace_line(id: i32) -> (r: String)
    ensures
        r@ == int_text(id as int),
{
    decimal_text(id)
}

/// The active window's line: its class, or `Desktop` when no window is active.
pub fn format_window_line(class: Option<String>) -> (r: String)
    ensures
        r@ == match class {
            Some(c) => c@,
            None => "Desktop"@,
        },
{
    match class {
        Some(c) => c,
        None => String::from_str("Desktop"),
    }
}

} // verus!
