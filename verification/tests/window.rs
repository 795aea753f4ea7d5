use launcher::window::{
    bring_window_to_front, is_app_window, is_excluded_class, title_matches, title_runs_on,
    wait_for_window, Activation, ShowCommand, WaitStep, WindowInfo, WINDOW_POLL_INTERVAL_MS,
    WINDOW_WAIT_CEILING_MS,
};

fn window(title: &str, class_name: &str) -> WindowInfo {
    WindowInfo {
        title: title.to_string(),
        class_name: class_name.to_string(),
        minimized: false,
        foreground: false,
    }
}

#[test]
fn title_boundary_matching() {
    assert!(title_matches("AppName", "AppName"));
    assert!(!title_matches("AppName", "AppNameViewer"));
    assert!(title_matches("AppName", "AppName - Document"));
}

#[test]
fn title_followed_by_other_text_does_not_match() {
    assert!(!title_matches("AppName", "AppName.html \u{2014} Editor"));
    assert!(!title_matches("AppName", "AppName-Document"));
    assert!(!title_matches("AppName", "AppName2"));
    assert!(!title_matches("AppName", "AppName\u{3000}x"));
}

#[test]
fn title_followed_by_white_space_matches() {
    assert!(title_matches("AppName", "AppName "));
    assert!(title_matches("AppName", "AppName\tx"));
    assert!(title_matches("AppName", "AppName\nx"));
    assert!(title_matches("AppName", "AppName (2)"));
}

#[test]
fn title_must_hold_the_name() {
    assert!(!title_matches("AppName", ""));
    assert!(!title_matches("AppName", "Other"));
    assert!(!title_matches("AppName", "appname"));
    assert!(!title_matches("AppName", "AppNam"));
    assert!(title_matches("AppName", "About AppName"));
}

#[test]
fn installer_titles_are_excluded() {
    assert!(!title_matches("AppName", "Setup - AppName"));
    assert!(!title_matches("AppName", "Setup - AppName 1.2"));
    assert!(!title_matches("AppName", "Setup - AppNameX"));
    assert!(title_matches("AppName", "Setup -  AppName"));
    assert!(title_matches("AppName", "My Setup - AppName"));
}

#[test]
fn runs_on_only_after_a_prefix() {
    assert!(title_runs_on(b"App", b"Apple"));
    assert!(!title_runs_on(b"App", b"App"));
    assert!(!title_runs_on(b"App", b"App le"));
    assert!(!title_runs_on(b"App", b"An Apple"));
    assert!(!title_runs_on(b"App", b"Ap"));
}

#[test]
fn file_manager_classes_are_excluded() {
    assert!(is_excluded_class("CabinetWClass"));
    assert!(is_excluded_class("ExploreWClass"));
    assert!(!is_excluded_class("CabinetWClass2"));
    assert!(!is_excluded_class("cabinetwclass"));
    assert!(!is_excluded_class(""));
    assert!(!is_excluded_class("Chrome_WidgetWin_1"));
}

#[test]
fn app_window_needs_title_and_class() {
    assert!(is_app_window(&window("YakuLingo", "Chrome_WidgetWin_1")));
    assert!(is_app_window(&window("YakuLingo - Translate", "")));
    assert!(!is_app_window(&window("YakuLingo", "CabinetWClass")));
    assert!(!is_app_window(&window("YakuLingo", "ExploreWClass")));
    assert!(!is_app_window(&window("YakuLingo.html - Editor", "Notepad")));
    assert!(!is_app_window(&window("Setup - YakuLingo", "TWizardForm")));
    assert!(!is_app_window(&window("", "Chrome_WidgetWin_1")));
    assert!(!is_app_window(&window("Editor", "Notepad")));
}

#[test]
fn first_genuine_window_is_picked() {
    let windows = vec![
        window("", "Progman"),
        window("YakuLingo", "CabinetWClass"),
        window("YakuLingoViewer", "X"),
        window("Setup - YakuLingo", "TWizardForm"),
        window("YakuLingo", "Chrome_WidgetWin_1"),
        window("YakuLingo - second", "Chrome_WidgetWin_1"),
    ];
    assert_eq!(
        bring_window_to_front(&windows),
        Some(Activation { index: 4, show: ShowCommand::Show, request_foreground: true })
    );
}

#[test]
fn minimized_window_is_restored() {
    let mut w = window("YakuLingo", "Chrome_WidgetWin_1");
    w.minimized = true;
    assert_eq!(
        bring_window_to_front(&vec![w]),
        Some(Activation { index: 0, show: ShowCommand::Restore, request_foreground: true })
    );
}

#[test]
fn foreground_window_is_not_asked_for_focus() {
    let mut w = window("YakuLingo", "Chrome_WidgetWin_1");
    w.foreground = true;
    assert_eq!(
        bring_window_to_front(&vec![window("x", "y"), w]),
        Some(Activation { index: 1, show: ShowCommand::Show, request_foreground: false })
    );
}

#[test]
fn no_window_gives_none() {
    assert_eq!(bring_window_to_front(&Vec::new()), None);
    assert_eq!(
        bring_window_to_front(&vec![window("Editor", "Notepad"), window("YakuLingo", "CabinetWClass")]),
        None
    );
}

#[test]
fn wait_for_window_steps() {
    assert_eq!(WINDOW_WAIT_CEILING_MS, 30_000);
    assert_eq!(WINDOW_POLL_INTERVAL_MS, 100);
    assert_eq!(wait_for_window(0, None), WaitStep::Probe);
    assert_eq!(wait_for_window(29_999, None), WaitStep::Probe);
    assert_eq!(wait_for_window(30_000, None), WaitStep::Finish);
    assert_eq!(wait_for_window(u64::MAX, None), WaitStep::Finish);
    assert_eq!(wait_for_window(0, Some(true)), WaitStep::Finish);
    assert_eq!(wait_for_window(0, Some(false)), WaitStep::Sleep { millis: 100 });
    assert_eq!(wait_for_window(40_000, Some(false)), WaitStep::Sleep { millis: 100 });
}

#[test]
fn wait_for_window_gives_up_after_the_ceiling() {
    let mut waited = 0u64;
    let mut looks = 0u32;
    loop {
        match wait_for_window(waited, None) {
            WaitStep::Probe => looks += 1,
            WaitStep::Finish => break,
            WaitStep::Sleep { .. } => panic!("no sleep before a look"),
        }
        match wait_for_window(waited, Some(false)) {
            WaitStep::Sleep { millis } => waited += millis,
            other => panic!("unexpected step {:?}", other),
        }
    }
    assert_eq!(looks, 300);
    assert_eq!(waited, 30_000);
}
