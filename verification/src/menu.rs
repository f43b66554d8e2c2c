use vstd::prelude::*;

use crate::mode::Mode;

verus! {

/// Command id of the "US International" menu entry.
pub const ID_US: usize = 1;
/// Command id of the "Português ABNT2" menu entry.
pub const ID_ABNT: usize = 2;
/// Command id of the "Exit" menu entry.
pub const ID_EXIT: usize = 11;
/// Command id of the "About KeyFlag" menu entry.
pub const ID_ABOUT: usize = 12;
/// Command id of the "Check for updates…" menu entry.
pub const ID_UPDATE: usize = 13;

/// One line of the tray's context menu.
#[derive(Clone, Copy, PartialEq, Eq, Debug)]
pub enum MenuItem {
    /// A selectable entry with its command id and label.
    Entry { id: usize, label: &'static str },
    /// A separator line.
    Separator,
}

/// The tray menu, top to bottom.
pub open spec fn tray_menu_spec() -> Seq<MenuItem> {
    seq![
        MenuItem::Entry { id: ID_US, label: "US International" },
        MenuItem::Entry { id: ID_ABNT, label: "Português ABNT2" },
        MenuItem::Separator,
        MenuItem::Entry { id: ID_ABOUT, label: "About KeyFlag" },
        MenuItem::Entry { id: ID_UPDATE, label: "Check for updates…" },
        MenuItem::Separator,
        MenuItem::Entry { id: ID_EXIT, label: "Exit" },
    ]
}

/// The items of the tray's context menu, in order.
pub fn tray_menu() -> (items: Vec<MenuItem>)
    ensures
        items@ == tray_menu_spec(),
{
    let items = vec![
        MenuItem::Entry { id: ID_US, label: "US International" },
        MenuItem::Entry { id: ID_ABNT, label: "Português ABNT2" },
        MenuItem::Separator,
        MenuItem::Entry { id: ID_ABOUT, label: "About KeyFlag" },
        MenuItem::Entry { id: ID_UPDATE, label: "Check for updates…" },
        MenuItem::Separator,
        MenuItem::Entry { id: ID_EXIT, label: "Exit" },
    ];
    assert(items@ =~= tray_menu_spec());
    items
}

/// The command id shown as the checked radio item for `mode`.
pub open spec fn active_menu_id_spec(mode: Mode) -> usize {
    match mode {
        Mode::UsIntl => ID_US,
        Mode::Abnt2 => ID_ABNT,
    }
}

/// The radio item to check: the entry of the current mode.
pub fn active_menu_id(mode: Mode) -> (id: usize)
    ensures
        id == active_menu_id_spec(mode),
{
    if mode == Mode::UsIntl {
        ID_US
    } else {
        ID_ABNT
    }
}

/// What the user asked for from the tray menu.
#[derive(Clone, Copy, PartialEq, Eq, Structural, Debug)]
pub enum TrayCommand {
    /// Switch the enforced layout.
    Select(Mode),
    /// Show the About window.
    About,
    /// Look for a newer release.
    CheckForUpdates,
    /// Remove the tray icon and quit.
    Exit,
    /// The menu was dismissed, or returned an id that means nothing.
    Nothing,
}

/// The command for the id the menu returned (0 when it was dismissed).
pub open spec fn tray_command_spec(cmd: usize) -> TrayCommand {
    if cmd == ID_US {
        TrayCommand::Select(Mode::UsIntl)
    } else if cmd == ID_ABNT {
        TrayCommand::Select(Mode::Abnt2)
    } else if cmd == ID_ABOUT {
        TrayCommand::About
    } else if cmd == ID_UPDATE {
        TrayCommand::CheckForUpdates
    } else if cmd == ID_EXIT {
        TrayCommand::Exit
    } else {
        TrayCommand::Nothing
    }
}

/// Maps the id returned by the tray menu to the command to carry out.
pub fn tray_command(cmd: usize) -> (command: TrayCommand)
    ensures
        command == tray_command_spec(cmd),
{
    if cmd == ID_US {
        TrayCommand::Select(Mode::UsIntl)
    } else if cmd == ID_ABNT {
        TrayCommand::Select(Mode::Abnt2)
    } else if cmd == ID_ABOUT {
        TrayCommand::About
    } else if cmd == ID_UPDATE {
        TrayCommand::CheckForUpdates
    } else if cmd == ID_EXIT {
        TrayCommand::Exit
    } else {
        TrayCommand::Nothing
    }
}

/// Choosing the checked entry keeps the current mode: the radio item shown
/// for a mode selects that same mode.
pub proof fn lemma_active_entry_selects_mode(mode: Mode)
    ensures
        tray_command_spec(active_menu_id_spec(mode)) == TrayCommand::Select(mode),
{
}

/// Every entry of the menu does something, each a different thing, and a
/// dismissed menu (id 0) does nothing.
pub proof fn lemma_menu_entries_are_commands()
    ensures
        forall|i: int|
            0 <= i < tray_menu_spec().len() && (#[trigger] tray_menu_spec()[i] is Entry)
                ==> tray_command_spec(tray_menu_spec()[i]->id) != TrayCommand::Nothing,
        forall|i: int, j: int|
            0 <= i < tray_menu_spec().len() && 0 <= j < tray_menu_spec().len() && i != j && (
            #[trigger] tray_menu_spec()[i] is Entry) && (#[trigger] tray_menu_spec()[j] is Entry)
                ==> tray_command_spec(tray_menu_spec()[i]->id) != tray_command_spec(
                tray_menu_spec()[j]->id,
            ),
        tray_command_spec(0) == TrayCommand::Nothing,
{
    let m = tray_menu_spec();
    assert(m[0] == MenuItem::Entry { id: ID_US, label: "US International" });
    assert(m[1] == MenuItem::Entry { id: ID_ABNT, label: "Português ABNT2" });
    assert(m[2] == MenuItem::Separator);
    assert(m[3] == MenuItem::Entry { id: ID_ABOUT, label: "About KeyFlag" });
    assert(m[4] == MenuItem::Entry { id: ID_UPDATE, label: "Check for updates…" });
    assert(m[5] == MenuItem::Separator);
    assert(m[6] == MenuItem::Entry { id: ID_EXIT, label: "Exit" });
    assert forall|i: int, j: int|
        0 <= i < m.len() && 0 <= j < m.len() && i != j && (#[trigger] m[i] is Entry) && (
        #[trigger] m[j] is Entry) implies tray_command_spec(m[i]->id) != tray_command_spec(
        m[j]->id,
    ) by {
        assert(i == 0 || i == 1 || i == 3 || i == 4 || i == 6);
        assert(j == 0 || j == 1 || j == 3 || j == 4 || j == 6);
    }
}

} // verus!
