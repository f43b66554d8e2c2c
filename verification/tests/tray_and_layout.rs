use keyflag::layout::{
    enforce_step, layouts_to_unload, preload_plan, ApplyStep, EnforceAction, EnforceEvent,
    Enforcer,
};
use keyflag::menu::{
    active_menu_id, tray_command, tray_menu, MenuItem, TrayCommand, ID_ABNT, ID_ABOUT, ID_EXIT,
    ID_UPDATE, ID_US,
};
use keyflag::mode::Mode;
use keyflag::tray::{
    badge_color, badge_label, brand_color, brand_label, main_action, tooltip, tooltip_field,
    tray_click_opens_menu, MainAction, TrayIconSlot, WM_TRAY,
};
use keyflag::wide::le_bytes;

#[test]
fn badges_and_tooltips() {
    assert_eq!(badge_label(Mode::UsIntl), "US");
    assert_eq!(badge_label(Mode::Abnt2), "BR");
    assert_eq!(badge_color(Mode::UsIntl), 37 | (99 << 8) | (235 << 16));
    assert_eq!(badge_color(Mode::Abnt2), 22 | (163 << 8) | (74 << 16));
    assert_eq!(brand_color(), 79 | (70 << 8) | (229 << 16));
    assert_eq!(brand_label(), "K");
    assert_eq!(tooltip(Mode::UsIntl), "KeyFlag — US International");
    assert_eq!(tooltip(Mode::Abnt2), "KeyFlag — Português ABNT2");
    let field = tooltip_field(Mode::Abnt2);
    let expected: Vec<u16> = "KeyFlag — Português ABNT2".encode_utf16().collect();
    assert_eq!(field.len(), 128);
    assert_eq!(&field[..expected.len()], &expected[..]);
    assert!(field[expected.len()..].iter().all(|&u| u == 0));
}

#[test]
fn icon_slot_hands_back_each_replaced_icon() {
    let mut slot = TrayIconSlot::new();
    assert_eq!(slot.replace(11), None);
    assert_eq!(slot.replace(22), Some(11));
    assert_eq!(slot.replace(0), Some(22));
    assert_eq!(slot.replace(33), None);
}

#[test]
fn hidden_window_dispatch() {
    assert_eq!(main_action(0xC123, 0xC123), MainAction::RestoreTrayIcon);
    assert_eq!(main_action(0, 0), MainAction::Default);
    assert_eq!(main_action(0x0002, 0xC123), MainAction::Quit);
    assert_eq!(main_action(0x0113, 0xC123), MainAction::Enforce);
    assert_eq!(main_action(WM_TRAY, 0xC123), MainAction::TrayNotification);
    assert_eq!(main_action(0x0200, 0xC123), MainAction::Default);
}

#[test]
fn tray_clicks_open_the_menu() {
    assert!(tray_click_opens_menu(0x0202));
    assert!(tray_click_opens_menu(0x0205));
    assert!(tray_click_opens_menu(0x007B));
    assert!(tray_click_opens_menu(0x0003_0202));
    assert!(!tray_click_opens_menu(0x0201));
    assert!(!tray_click_opens_menu(0x0200));
}

#[test]
fn menu_layout_and_commands() {
    let items = tray_menu();
    assert_eq!(items.len(), 7);
    assert_eq!(items[0], MenuItem::Entry { id: ID_US, label: "US International" });
    assert_eq!(items[1], MenuItem::Entry { id: ID_ABNT, label: "Português ABNT2" });
    assert_eq!(items[2], MenuItem::Separator);
    assert_eq!(items[4], MenuItem::Entry { id: ID_UPDATE, label: "Check for updates…" });
    assert_eq!(items[6], MenuItem::Entry { id: ID_EXIT, label: "Exit" });
    assert_eq!(active_menu_id(Mode::UsIntl), ID_US);
    assert_eq!(active_menu_id(Mode::Abnt2), ID_ABNT);
    assert_eq!(tray_command(ID_US), TrayCommand::Select(Mode::UsIntl));
    assert_eq!(tray_command(ID_ABNT), TrayCommand::Select(Mode::Abnt2));
    assert_eq!(tray_command(ID_ABOUT), TrayCommand::About);
    assert_eq!(tray_command(ID_UPDATE), TrayCommand::CheckForUpdates);
    assert_eq!(tray_command(ID_EXIT), TrayCommand::Exit);
    assert_eq!(tray_command(0), TrayCommand::Nothing);
    assert_eq!(tray_command(3), TrayCommand::Nothing);
    for mode in [Mode::UsIntl, Mode::Abnt2] {
        assert_eq!(tray_command(active_menu_id(mode)), TrayCommand::Select(mode));
    }
}

#[test]
fn unload_keeps_only_the_target() {
    let list = vec![1, 0, 5, 7, 9];
    assert_eq!(layouts_to_unload(5, &list, 4), vec![1, 7]);
    assert_eq!(layouts_to_unload(5, &list, 5), vec![1, 7, 9]);
    assert_eq!(layouts_to_unload(5, &list, 100), vec![1, 7, 9]);
    assert_eq!(layouts_to_unload(5, &list, 0), Vec::<isize>::new());
    assert_eq!(layouts_to_unload(5, &list, -3), Vec::<isize>::new());
    assert_eq!(layouts_to_unload(0, &list, 5), Vec::<isize>::new());
    assert_eq!(layouts_to_unload(-2, &vec![-2, 3], 2), vec![3]);
}

fn units(s: &str) -> Vec<u16> {
    s.encode_utf16().collect()
}

#[test]
fn preload_list_holds_the_single_layout() {
    let present = vec![
        units("1"),
        units("2"),
        units("10"),
        units("abc"),
        units("01"),
        units(""),
        units("3x"),
        units("27"),
    ];
    let plan = preload_plan(Mode::UsIntl, &present);
    assert_eq!(plan.keep_name, vec![0x31, 0]);
    let klid: Vec<u16> = "00020409\0".encode_utf16().collect();
    assert_eq!(plan.keep_data, le_bytes(&klid));
    assert_eq!(plan.keep_data.len(), 18);
    assert_eq!(
        plan.stale_names,
        vec![units("2\0"), units("10\0"), units("01\0"), units("27\0")]
    );
    let abnt = preload_plan(Mode::Abnt2, &vec![units("1")]);
    let klid: Vec<u16> = "00010416\0".encode_utf16().collect();
    assert_eq!(abnt.keep_data, le_bytes(&klid));
    assert!(abnt.stale_names.is_empty());
    let many: Vec<Vec<u16>> = (1..=12).map(|i| units(&i.to_string())).collect();
    let plan = preload_plan(Mode::Abnt2, &many);
    let expected: Vec<Vec<u16>> = (2..=12).map(|i| units(&format!("{}\0", i))).collect();
    assert_eq!(plan.stale_names, expected);
}

#[test]
fn snap_back_steps() {
    assert_eq!(enforce_step(0, EnforceEvent::Start), EnforceAction::Done);
    assert_eq!(enforce_step(0x409, EnforceEvent::Start), EnforceAction::QueryForeground);
    assert_eq!(enforce_step(0x409, EnforceEvent::Foreground(false)), EnforceAction::Done);
    assert_eq!(enforce_step(0x409, EnforceEvent::Foreground(true)), EnforceAction::QueryThread);
    assert_eq!(enforce_step(0x409, EnforceEvent::Thread(0)), EnforceAction::Done);
    assert_eq!(enforce_step(0x409, EnforceEvent::Thread(77)), EnforceAction::QueryLayout);
    assert_eq!(enforce_step(0x409, EnforceEvent::Layout(0x409)), EnforceAction::Done);
    assert_eq!(enforce_step(0x409, EnforceEvent::Layout(0x416)), EnforceAction::SwitchTo(0x409));
}

#[test]
fn applying_a_mode() {
    let mut e = Enforcer::new(Mode::UsIntl);
    assert_eq!(e.target(), 0);
    assert_eq!(e.enforce_step(EnforceEvent::Start), EnforceAction::Done);
    assert_eq!(e.select(Mode::Abnt2), "00010416");
    assert_eq!(e.mode(), Mode::Abnt2);
    let steps = e.layout_loaded(0x416);
    assert_eq!(
        steps,
        vec![
            ApplyStep::SetDefaultInputLanguage,
            ApplyStep::ActivateLayout,
            ApplyStep::BroadcastToWindows,
            ApplyStep::EnforceNow,
            ApplyStep::UnloadOthers,
            ApplyStep::PersistPreload,
            ApplyStep::RefreshTray,
        ]
    );
    assert_eq!(e.target(), 0x416);
    assert_eq!(e.enforce_step(EnforceEvent::Layout(0x409)), EnforceAction::SwitchTo(0x416));
    assert_eq!(e.layout_loaded(0), vec![ApplyStep::RefreshTray]);
    assert_eq!(e.enforce_step(EnforceEvent::Start), EnforceAction::Done);
}
