use keyflag::geometry::{
    about_layout, body_font, button_font, button_paint, button_width, centered_origin,
    close_btn_rect, close_paint, dialog_body_measure_rect, dialog_buttons, dialog_height,
    dialog_layout, in_rect, link_hit_rect, lparam_point, screen_center, starts_drag,
    window_background, work_area_center, Rect, Stroke,
};
use keyflag::text::{ends_with_exe, find_exe_asset, json_string, ver_tuple};
use keyflag::update::{
    about_url, download_failed_dialog, installer_arguments, installer_file_name, offline_dialog,
    release_api_url, release_file_name, update_check, update_prompt, update_report, update_step,
    version_not_newer, UpdateAction, UpdateCheck, UpdateEvent, UpdateFlow,
};
use keyflag::window::{
    raise_step, AboutClick, AboutWindow, DialogWindow, RaiseAction, RaiseEvent, VK_ESCAPE,
    VK_RETURN,
};

fn r(left: i32, top: i32, right: i32, bottom: i32) -> Rect {
    Rect { left, top, right, bottom }
}

#[test]
fn hit_testing_excludes_right_and_bottom_edges() {
    let rc = r(10, 20, 30, 40);
    assert!(in_rect(rc, 10, 20));
    assert!(in_rect(rc, 29, 39));
    assert!(!in_rect(rc, 30, 25));
    assert!(!in_rect(rc, 15, 40));
    assert!(!in_rect(rc, 9, 25));
    assert!(!in_rect(Rect::empty(), 0, 0));
}

#[test]
fn close_button_and_drag_strip() {
    assert_eq!(close_btn_rect(440), r(394, 0, 440, 36));
    assert!(starts_drag(10, 50, 440));
    assert!(!starts_drag(400, 10, 440));
    assert!(starts_drag(400, 40, 440));
    assert!(!starts_drag(10, 92, 440));
    let p = close_paint(440, false);
    assert_eq!(p.rect, r(394, 0, 440, 36));
    assert_eq!(p.fill, None);
    assert_eq!(p.pen, 180 | (186 << 8) | (198 << 16));
    assert_eq!(p.first, Stroke { from_x: 412, from_y: 13, to_x: 423, to_y: 24 });
    assert_eq!(p.second, Stroke { from_x: 422, from_y: 13, to_x: 411, to_y: 24 });
    let hot = close_paint(440, true);
    assert_eq!(hot.fill, Some(196 | (43 << 8) | (43 << 16)));
    assert_eq!(hot.pen, 0x00FF_FFFF);
}

#[test]
fn mouse_points_are_signed_words() {
    assert_eq!(lparam_point((300 << 16) | 25), (25, 300));
    assert_eq!(lparam_point((300 << 16) | 0xFFFB), (-5, 300));
    assert_eq!(lparam_point(0xFFFF_FFFF), (-1, -1));
    assert_eq!(lparam_point(-1), (-1, -1));
    assert_eq!(lparam_point(0x7FFF_8000), (-32768, 32767));
}

#[test]
fn centring() {
    assert_eq!(work_area_center(r(0, 0, 1920, 1040)), Some((960, 520)));
    assert_eq!(work_area_center(r(-1920, 0, 0, 1080)), Some((-960, 540)));
    assert_eq!(work_area_center(r(0, 0, 0, 0)), None);
    assert_eq!(work_area_center(r(5, 0, 3, 10)), None);
    assert_eq!(screen_center(1921, 1081), (960, 540));
    assert_eq!(centered_origin(960, 520, 440, 260), (740, 390));
    assert_eq!(centered_origin(-3, 0, 5, 3), (-5, -1));
}

#[test]
fn dialog_metrics() {
    assert_eq!(dialog_height(10), 248);
    assert_eq!(dialog_height(70), 248);
    assert_eq!(dialog_height(71), 249);
    assert_eq!(dialog_height(200), 378);
    assert_eq!(button_width(10), 116);
    assert_eq!(button_width(80), 116);
    assert_eq!(button_width(81), 117);
    assert_eq!(button_width(100), 136);
    assert_eq!(dialog_body_measure_rect(), r(0, 0, 374, 0));
    assert_eq!(button_font().height, 17);
    assert_eq!(button_font().weight, 600);
    assert_eq!(body_font().weight, 400);
    assert_eq!(window_background(), 24 | (27 << 8) | (35 << 16));
}

#[test]
fn dialog_button_layout() {
    let client = r(0, 0, 430, 248);
    let (p, s) = dialog_buttons(client, 116, Some(140));
    assert_eq!(p, r(286, 194, 402, 228));
    assert_eq!(s, r(134, 194, 274, 228));
    let (p1, s1) = dialog_buttons(client, 116, None);
    assert_eq!(p1, r(286, 194, 402, 228));
    assert_eq!(s1, Rect::empty());
    let b = button_paint(286, 194, 116, true);
    assert_eq!(b.rect, r(286, 194, 402, 228));
    assert_eq!(b.fill, 56 | (118 << 8) | (240 << 16));
    assert_eq!(b.text, 0x00FF_FFFF);
    let plain = button_paint(0, 0, 116, false);
    assert_eq!(plain.fill, 48 | (52 << 8) | (62 << 16));
    assert_eq!(plain.pen, 74 | (80 << 8) | (92 << 16));
}

#[test]
fn about_and_dialog_text_layout() {
    let l = about_layout(r(0, 0, 440, 260));
    assert_eq!((l.icon_x, l.icon_y, l.icon_size), (28, 34, 56));
    assert_eq!(l.title.rect, r(102, 36, 412, 68));
    assert_eq!(l.title.font.height, 27);
    assert_eq!(l.version.rect, r(102, 70, 412, 94));
    assert_eq!(l.tagline.rect, r(28, 116, 412, 144));
    assert_eq!(l.description.rect, r(28, 146, 412, 174));
    assert_eq!(l.link.rect, r(28, 220, 412, 246));
    assert!(l.link.font.underline);
    assert_eq!(link_hit_rect(r(0, 0, 440, 260), 200, 20), r(28, 220, 228, 240));
    let d = dialog_layout(r(0, 0, 430, 300));
    assert_eq!((d.icon_x, d.icon_y, d.icon_size), (28, 30, 48));
    assert_eq!(d.heading.rect, r(92, 38, 402, 74));
    assert_eq!(d.body.rect, r(28, 96, 402, 236));
}

#[test]
fn about_window_interaction() {
    let mut w = AboutWindow::new();
    assert_eq!(w.click(0, 0), AboutClick::Nothing);
    let p = w.painted(r(0, 0, 440, 260), 200, 20);
    assert_eq!(p.rect, r(394, 0, 440, 36));
    assert_eq!(w.click(400, 10), AboutClick::Hide);
    assert_eq!(w.click(100, 225), AboutClick::OpenLink);
    assert_eq!(w.click(300, 225), AboutClick::Nothing);
    assert!(w.shows_hand(100, 225));
    assert!(w.shows_hand(400, 10));
    assert!(!w.shows_hand(200, 150));
    assert_eq!(w.pointer_moved(400, 10), Some(r(394, 0, 440, 36)));
    assert!(w.close_hot);
    assert_eq!(w.pointer_moved(401, 11), None);
    assert_eq!(w.pointer_moved(10, 10), Some(r(394, 0, 440, 36)));
    assert!(!w.close_hot);
    assert!(AboutWindow::key_hides(VK_ESCAPE));
    assert!(!AboutWindow::key_hides(VK_RETURN));
}

#[test]
fn dialog_primary_click_accepts() {
    let mut d = DialogWindow::new();
    d.open(true);
    let paint = d.painted(r(0, 0, 430, 248), 60, 104);
    assert_eq!(paint.primary.rect, r(286, 194, 402, 228));
    assert_eq!(paint.secondary.map(|b| b.rect), Some(r(134, 194, 274, 228)));
    assert!(!d.is_decided());
    assert!(!d.click(10, 10));
    assert!(!d.is_decided());
    assert!(d.click(300, 200));
    assert!(d.is_decided());
    assert!(d.accepted());
}

#[test]
fn dialog_secondary_and_close_dismiss() {
    let mut d = DialogWindow::new();
    d.open(true);
    d.painted(r(0, 0, 430, 248), 60, 104);
    assert!(d.click(200, 200));
    assert!(d.is_decided());
    assert!(!d.accepted());
    d.open(true);
    assert!(d.click(420, 5));
    assert!(!d.accepted());
    d.open(false);
    d.painted(r(0, 0, 430, 248), 10, 0);
    assert!(!d.click(200, 200));
    assert!(!d.shows_hand(200, 200));
    assert!(d.shows_hand(300, 200));
}

#[test]
fn dialog_keys_and_closing() {
    let mut d = DialogWindow::new();
    d.open(false);
    assert!(!d.key(0x41));
    assert!(d.key(VK_RETURN));
    assert!(d.accepted());
    d.close_requested();
    assert!(d.accepted());
    d.open(false);
    assert!(d.key(VK_ESCAPE));
    assert!(!d.accepted());
    d.open(false);
    d.close_requested();
    assert!(d.is_decided());
    assert!(!d.accepted());
}

#[test]
fn dialog_hover() {
    let mut d = DialogWindow::new();
    d.open(false);
    d.painted(r(0, 0, 430, 248), 10, 0);
    assert_eq!(d.pointer_moved(420, 5), Some(r(384, 0, 430, 36)));
    assert_eq!(d.pointer_moved(421, 6), None);
    assert_eq!(d.pointer_moved(0, 100), Some(r(384, 0, 430, 36)));
    d.open(false);
    assert!(!d.close_hot);
}

#[test]
fn raising_the_menu_owner() {
    assert_eq!(raise_step(5, RaiseEvent::Raised(true)), RaiseAction::Done);
    assert_eq!(raise_step(5, RaiseEvent::Raised(false)), RaiseAction::QueryForeground);
    assert_eq!(raise_step(5, RaiseEvent::Foreground(false)), RaiseAction::Done);
    assert_eq!(raise_step(5, RaiseEvent::Foreground(true)), RaiseAction::QueryThread);
    assert_eq!(raise_step(5, RaiseEvent::Thread(0)), RaiseAction::Done);
    assert_eq!(raise_step(5, RaiseEvent::Thread(5)), RaiseAction::Done);
    assert_eq!(raise_step(5, RaiseEvent::Thread(9)), RaiseAction::BorrowInput(9));
}

#[test]
fn json_scan() {
    let body = r#"{"url": "x", "tag_name": "v0.2.46", "name": "KeyFlag"}"#;
    assert_eq!(json_string(body, "tag_name"), Some("v0.2.46".to_string()));
    assert_eq!(json_string(body, "name"), Some("KeyFlag".to_string()));
    assert_eq!(json_string(body, "missing"), None);
    assert_eq!(json_string(r#"{"tag_name":"ação"}"#, "tag_name"), Some("ação".to_string()));
    assert_eq!(json_string(r#"{"tag_name": 5}"#, "tag_name"), None);
    assert_eq!(json_string(r#"{"tag_name" "x"}"#, "tag_name"), None);
    assert_eq!(json_string(r#"{"tag_name": ""}"#, "tag_name"), Some(String::new()));
    assert_eq!(json_string(r#"{"a": 1, "b": "c"}"#, "a"), Some("b".to_string()));
}

#[test]
fn version_parsing() {
    assert_eq!(ver_tuple("v1.2.3"), (1, 2, 3));
    assert_eq!(ver_tuple("  v0.2.46\n"), (0, 2, 46));
    assert_eq!(ver_tuple("0.2.46"), (0, 2, 46));
    assert_eq!(ver_tuple("1.2"), (1, 2, 0));
    assert_eq!(ver_tuple("1.x.3"), (1, 0, 3));
    assert_eq!(ver_tuple("1.2.3-beta.4"), (1, 2, 3));
    assert_eq!(ver_tuple("2.0-rc1"), (2, 0, 0));
    assert_eq!(ver_tuple("vv2"), (2, 0, 0));
    assert_eq!(ver_tuple(""), (0, 0, 0));
    assert_eq!(ver_tuple("+1.2"), (0, 1, 2));
    assert_eq!(ver_tuple("99999999999.1"), (0, 1, 0));
    assert_eq!(ver_tuple("4294967295.4294967296"), (4294967295, 0, 0));
    assert_eq!(ver_tuple(" 1 . 2 .3"), (1, 2, 3));
    assert_eq!(ver_tuple("V1.2.3"), (0, 2, 3));
    assert_eq!(ver_tuple("\u{3000}v7.8.9\u{2003}"), (7, 8, 9));
    assert_eq!(ver_tuple("007.010.000"), (7, 10, 0));
}

#[test]
fn version_comparison() {
    assert!(version_not_newer((1, 2, 3), (1, 2, 3)));
    assert!(version_not_newer((1, 2, 3), (1, 3, 0)));
    assert!(!version_not_newer((1, 2, 4), (1, 2, 3)));
    assert!(!version_not_newer((2, 0, 0), (1, 9, 9)));
}

#[test]
fn installer_asset_is_found_case_insensitively() {
    let body = r#"{"assets": [
        {"browser_download_url": "https://x/KeyFlag.zip"},
        {"browser_download_url": "https://x/KeyFlag-Setup.EXE"},
        {"browser_download_url": "https://x/other.exe"}]}"#;
    assert_eq!(find_exe_asset(body), Some("https://x/KeyFlag-Setup.EXE".to_string()));
    let none = r#"{"assets": [{"browser_download_url": "https://x/a.zip"}]}"#;
    assert_eq!(find_exe_asset(none), None);
    assert_eq!(find_exe_asset("{}"), None);
}

#[test]
fn update_decisions() {
    let no_tag = r#"{"assets": []}"#;
    assert!(matches!(update_check(no_tag, "0.2.0"), UpdateCheck::Unreadable));
    let empty_tag = r#"{"tag_name": ""}"#;
    assert!(matches!(update_check(empty_tag, "0.2.0"), UpdateCheck::Unreadable));
    let old = r#"{"tag_name": "v0.1.9"}"#;
    match update_check(old, "0.2.0") {
        UpdateCheck::UpToDate { latest } => assert_eq!(latest, "v0.1.9"),
        _ => panic!("expected up to date"),
    }
    let same = r#"{"tag_name": "v0.2.0"}"#;
    assert!(matches!(update_check(same, "0.2.0"), UpdateCheck::UpToDate { .. }));
    let newer = r#"{"tag_name": "v0.3.0", "assets": [{"browser_download_url": "https://x/a.zip"}]}"#;
    match update_check(newer, "0.2.0") {
        UpdateCheck::NoInstaller { latest } => assert_eq!(latest, "v0.3.0"),
        _ => panic!("expected no installer"),
    }
    let full = r#"{"tag_name": "v0.3.0", "assets": [{"browser_download_url": "https://x/Setup.exe"}]}"#;
    match update_check(full, "0.2.0") {
        UpdateCheck::Available { latest, installer } => {
            assert_eq!(latest, "v0.3.0");
            assert_eq!(installer, "https://x/Setup.exe");
        }
        _ => panic!("expected an update"),
    }
}

#[test]
fn update_texts() {
    assert_eq!(
        release_api_url(1700000000),
        "https://api.github.com/repos/gabrielchaves6/keyflag/releases/latest?_=1700000000"
    );
    assert_eq!(
        release_api_url(0),
        "https://api.github.com/repos/gabrielchaves6/keyflag/releases/latest?_=0"
    );
    assert_eq!(release_file_name(), "keyflag_release.json");
    assert_eq!(installer_file_name(), "KeyFlag-Setup.exe");
    assert_eq!(installer_arguments(), "/VERYSILENT /SUPPRESSMSGBOXES /NORESTART");
    assert_eq!(about_url(), "https://github.com/gabrielchaves6/keyflag");
    let off = offline_dialog();
    assert_eq!(off.heading, "Sem conexão");
    assert_eq!(off.primary, "OK");
    assert_eq!(off.secondary, "");
    assert_eq!(download_failed_dialog().heading, "Falha no download");
    let up = update_report(&UpdateCheck::UpToDate { latest: "v1.0.0".to_string() }).unwrap();
    assert_eq!(up.heading, "Tudo atualizado");
    assert_eq!(up.body, "Você já está na versão mais recente (v1.0.0).");
    let ni = update_report(&UpdateCheck::NoInstaller { latest: "v2".to_string() }).unwrap();
    assert_eq!(
        ni.body,
        "A versão v2 está disponível, mas o instalador não foi encontrado no release."
    );
    let un = update_report(&UpdateCheck::Unreadable).unwrap();
    assert_eq!(un.heading, "Não foi possível verificar");
    assert!(update_report(&UpdateCheck::Available {
        latest: "v2".to_string(),
        installer: "u".to_string()
    })
    .is_none());
    let q = update_prompt("v0.3.0", "0.2.0");
    assert_eq!(q.heading, "Atualização disponível");
    assert_eq!(q.primary, "Atualizar agora");
    assert_eq!(q.secondary, "Depois");
    assert_eq!(
        q.body,
        "A versão v0.3.0 está disponível (você tem v0.2.0).\n\nAtualizar agora? O KeyFlag será reiniciado automaticamente — sem assistente de instalação."
    );
}

#[test]
fn exe_suffix() {
    assert!(ends_with_exe("https://x/setup.exe"));
    assert!(ends_with_exe(".exe"));
    assert!(!ends_with_exe("exe"));
    assert!(!ends_with_exe("setup.EXE"));
    assert!(!ends_with_exe("setup.exe.zip"));
}

#[test]
fn versions_compare_by_number() {
    assert!(!version_not_newer(ver_tuple("v0.10.0"), ver_tuple("0.9.9")));
    assert!(version_not_newer(ver_tuple("0.9.9"), ver_tuple("v0.10.0")));
    assert_eq!(ver_tuple(" v12.0.7-rc.1 "), (12, 0, 7));
}

fn dialog_heading(a: &UpdateAction) -> Option<String> {
    match a {
        UpdateAction::Report(d) | UpdateAction::Ask(d) => Some(d.heading.clone()),
        _ => None,
    }
}

const NEWER: &str = r#"{"tag_name": "v0.3.0", "assets": [{"browser_download_url": "https://x/Setup.exe"}]}"#;

#[test]
fn update_flow_installs_after_consent_and_download() {
    let mut flow = UpdateFlow::new("0.2.0");
    match update_step(&mut flow, UpdateEvent::Start(42)) {
        UpdateAction::DownloadRelease(url) => assert_eq!(
            url,
            "https://api.github.com/repos/gabrielchaves6/keyflag/releases/latest?_=42"
        ),
        _ => panic!("expected a release download"),
    }
    assert!(matches!(update_step(&mut flow, UpdateEvent::ReleaseDownloaded(true)), UpdateAction::ReadRelease));
    let ask = update_step(&mut flow, UpdateEvent::ReleaseRead(NEWER.to_string()));
    assert!(matches!(ask, UpdateAction::Ask(_)));
    assert_eq!(dialog_heading(&ask), Some("Atualização disponível".to_string()));
    match update_step(&mut flow, UpdateEvent::Answered(true)) {
        UpdateAction::DownloadInstaller(url) => assert_eq!(url, "https://x/Setup.exe"),
        _ => panic!("expected an installer download"),
    }
    assert!(!flow.is_finished());
    assert!(matches!(
        update_step(&mut flow, UpdateEvent::InstallerDownloaded(true)),
        UpdateAction::RunInstallerAndQuit
    ));
    assert!(flow.is_finished());
    assert!(matches!(update_step(&mut flow, UpdateEvent::Answered(true)), UpdateAction::Ignore));
}

#[test]
fn update_flow_offline_only_reports() {
    let mut flow = UpdateFlow::new("0.2.0");
    update_step(&mut flow, UpdateEvent::Start(1));
    let a = update_step(&mut flow, UpdateEvent::ReleaseDownloaded(false));
    assert_eq!(dialog_heading(&a), Some("Sem conexão".to_string()));
    assert!(flow.is_finished());
    assert!(matches!(
        update_step(&mut flow, UpdateEvent::ReleaseRead(NEWER.to_string())),
        UpdateAction::Ignore
    ));
}

#[test]
fn update_flow_declined_or_failed() {
    let mut flow = UpdateFlow::new("0.2.0");
    update_step(&mut flow, UpdateEvent::Start(1));
    update_step(&mut flow, UpdateEvent::ReleaseDownloaded(true));
    update_step(&mut flow, UpdateEvent::ReleaseRead(NEWER.to_string()));
    assert!(matches!(update_step(&mut flow, UpdateEvent::Answered(false)), UpdateAction::Stop));
    assert!(flow.is_finished());

    let mut flow = UpdateFlow::new("0.2.0");
    update_step(&mut flow, UpdateEvent::Start(1));
    update_step(&mut flow, UpdateEvent::ReleaseDownloaded(true));
    update_step(&mut flow, UpdateEvent::ReleaseRead(NEWER.to_string()));
    update_step(&mut flow, UpdateEvent::Answered(true));
    let a = update_step(&mut flow, UpdateEvent::InstallerDownloaded(false));
    assert_eq!(dialog_heading(&a), Some("Falha no download".to_string()));
    assert!(flow.is_finished());
}

#[test]
fn update_flow_reports_when_nothing_to_install() {
    let mut flow = UpdateFlow::new("0.3.0");
    assert!(matches!(update_step(&mut flow, UpdateEvent::ReleaseDownloaded(true)), UpdateAction::Ignore));
    update_step(&mut flow, UpdateEvent::Start(1));
    update_step(&mut flow, UpdateEvent::ReleaseDownloaded(true));
    let a = update_step(&mut flow, UpdateEvent::ReleaseRead(NEWER.to_string()));
    assert_eq!(dialog_heading(&a), Some("Tudo atualizado".to_string()));
    assert!(flow.is_finished());
}
