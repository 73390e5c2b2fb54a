use winfo::error::{ExcludeReason, WindowError};
use winfo::filter::{
    filter_executable, is_blacklisted_window, is_microsoft_internal_exe, is_self_exe,
    FilterDecision,
};
use winfo::helper::{
    file_name_of_path, get_exe, get_thread_proc_id, get_title, get_window_class, get_window_info,
    ProcessInfo,
};

fn units_of(s: &str) -> Vec<u16> {
    s.encode_utf16().collect()
}

fn no_fields() -> (
    Option<String>,
    Option<String>,
    Option<String>,
    Option<String>,
    Option<bool>,
    Option<String>,
) {
    (None, None, None, None, None, None)
}

#[test]
fn filter_rules_in_order() {
    let blacklist = vec!["game.exe".to_string(), "explorer.exe".to_string()];
    // A system name stays excluded even when blacklisted too.
    assert_eq!(
        filter_executable(&"explorer.exe".to_string(), true, &blacklist),
        FilterDecision::ExcludedSystem
    );
    assert_eq!(
        filter_executable(&"obs64.exe".to_string(), true, &blacklist),
        FilterDecision::ExcludedSelf
    );
    assert_eq!(
        filter_executable(&"obs64.exe".to_string(), false, &blacklist),
        FilterDecision::ExcludedSelf
    );
    assert_eq!(
        filter_executable(&"game.exe".to_string(), true, &blacklist),
        FilterDecision::ExcludedBlacklist
    );
    // The blacklist is ignored outside game-capture mode.
    assert_eq!(
        filter_executable(&"game.exe".to_string(), false, &blacklist),
        FilterDecision::Eligible
    );
    assert_eq!(
        filter_executable(&"editor.exe".to_string(), true, &blacklist),
        FilterDecision::Eligible
    );
}

#[test]
fn filter_predicates() {
    assert!(is_microsoft_internal_exe(&"TextInputHost.exe".to_string()));
    assert!(!is_microsoft_internal_exe(&"textinputhost.exe".to_string()));
    assert!(!is_microsoft_internal_exe(&"notepad.exe".to_string()));
    assert!(is_self_exe(&"obs64.exe".to_string()));
    assert!(!is_self_exe(&"obs32.exe".to_string()));
    let blacklist = vec!["a.exe".to_string(), "b.exe".to_string()];
    assert!(is_blacklisted_window(&"b.exe".to_string(), &blacklist));
    assert!(!is_blacklisted_window(&"c.exe".to_string(), &blacklist));
    assert!(!is_blacklisted_window(&"a.exe".to_string(), &Vec::new()));
}

#[test]
fn base_name_extraction() {
    let name = |p: &str| file_name_of_path(&p.to_string());
    assert_eq!(name("C:\\Windows\\notepad.exe").unwrap(), "notepad.exe");
    assert_eq!(name("C:/tools/app.exe").unwrap(), "app.exe");
    assert_eq!(name("bare.exe").unwrap(), "bare.exe");
    assert_eq!(name("C:\\Windows\\"), None);
    assert_eq!(name(""), None);
}

#[test]
fn thread_proc_id_decision() {
    assert_eq!(get_thread_proc_id(0, 1234), Err(WindowError::InvalidHandle));
    assert_eq!(
        get_thread_proc_id(77, 1234),
        Ok(ProcessInfo { process_id: 1234, thread_id: 77 })
    );
}

#[test]
fn identity_resolution_failures() {
    // A zero process id: the handle went stale between discovery and query.
    assert_eq!(get_exe(0, true, Some(&units_of("x"))), Err(WindowError::InvalidHandle));
    assert_eq!(get_exe(10, false, None), Err(WindowError::AccessDenied));
    assert_eq!(get_exe(10, true, None), Err(WindowError::ResourceUnavailable));
    let mut path = units_of("C:\\apps\\tool.exe");
    path.push(0);
    path.push(0x58);
    assert_eq!(get_exe(10, true, Some(&path)).unwrap(), (10, "C:\\apps\\tool.exe".to_string()));
}

#[test]
fn title_and_class_decisions() {
    let mut text = units_of("My Window");
    text.push(0);
    assert_eq!(get_title(9, 9, &text).unwrap(), "My Window");
    assert_eq!(get_title(0, 9, &text), Err(WindowError::ResourceUnavailable));
    assert_eq!(get_title(9, 0, &text), Err(WindowError::ResourceUnavailable));
    assert_eq!(get_window_class(5, &units_of("Edit")).unwrap(), "Edit");
    assert_eq!(get_window_class(0, &units_of("Edit")), Err(WindowError::ResourceUnavailable));
}

#[test]
fn aggregation_produces_complete_record() {
    let identity = Ok((4242, "C:\\apps\\editor.exe".to_string()));
    let info = get_window_info(
        0x90001,
        identity,
        false,
        &Vec::new(),
        Some("Untitled - editor".to_string()),
        Some("EditorMain".to_string()),
        Some("The Editor".to_string()),
        Some("\\\\.\\DISPLAY1".to_string()),
        Some(false),
        Some("editor.exe --restore".to_string()),
    )
    .unwrap();
    assert_eq!(info.handle, 0x90001);
    assert_eq!(info.pid, 4242);
    assert_eq!(info.full_exe, "C:\\apps\\editor.exe");
    assert_eq!(info.exe, "editor.exe");
    assert_eq!(info.obs_id, "");
    assert_eq!(info.title.as_deref(), Some("Untitled - editor"));
    assert_eq!(info.class.as_deref(), Some("EditorMain"));
    assert_eq!(info.product_name.as_deref(), Some("The Editor"));
    assert_eq!(info.monitor.as_deref(), Some("\\\\.\\DISPLAY1"));
    assert_eq!(info.intersects, Some(false));
    assert_eq!(info.cmd_line.as_deref(), Some("editor.exe --restore"));
}

#[test]
fn aggregation_excludes_self_in_both_modes() {
    for is_game in [false, true] {
        let identity = Ok((7, "C:\\obs\\obs64.exe".to_string()));
        let (t, c, p, m, i, l) = no_fields();
        let r = get_window_info(1, identity, is_game, &Vec::new(), t, c, p, m, i, l);
        assert_eq!(r, Err(WindowError::Excluded(ExcludeReason::SelfProcess)));
    }
}

#[test]
fn aggregation_excludes_system_processes() {
    for is_game in [false, true] {
        let identity = Ok((8, "C:\\Windows\\explorer.exe".to_string()));
        let (t, c, p, m, i, l) = no_fields();
        let r = get_window_info(2, identity, is_game, &Vec::new(), t, c, p, m, i, l);
        assert_eq!(r, Err(WindowError::Excluded(ExcludeReason::SystemProcess)));
    }
}

#[test]
fn aggregation_blacklist_is_mode_sensitive() {
    let blacklist = vec!["game.exe".to_string()];
    let (t, c, p, m, i, l) = no_fields();
    let game_mode = get_window_info(
        3,
        Ok((9, "D:\\games\\game.exe".to_string())),
        true,
        &blacklist,
        t,
        c,
        p,
        m,
        i,
        l,
    );
    assert_eq!(game_mode, Err(WindowError::Excluded(ExcludeReason::Blacklisted)));

    let (t, c, p, m, i, l) = no_fields();
    let window_mode = get_window_info(
        3,
        Ok((9, "D:\\games\\game.exe".to_string())),
        false,
        &blacklist,
        t,
        c,
        p,
        m,
        i,
        l,
    );
    let info = window_mode.unwrap();
    assert_eq!(info.exe, "game.exe");
}

#[test]
fn aggregation_propagates_identity_failure() {
    for e in [
        WindowError::InvalidHandle,
        WindowError::AccessDenied,
        WindowError::ResourceUnavailable,
    ] {
        let (t, c, p, m, i, l) = no_fields();
        let r = get_window_info(4, Err(e), false, &Vec::new(), t, c, p, m, i, l);
        assert_eq!(r, Err(e));
    }
}

#[test]
fn aggregation_rejects_path_without_base_name() {
    let (t, c, p, m, i, l) = no_fields();
    let r = get_window_info(
        5,
        Ok((11, "C:\\apps\\".to_string())),
        false,
        &Vec::new(),
        t,
        c,
        p,
        m,
        i,
        l,
    );
    assert_eq!(r, Err(WindowError::ResourceUnavailable));
}

#[test]
fn aggregation_fields_are_independent() {
    // The same window, once with every optional query failed and once with
    // all of them answered: both are eligible records.
    let (t, c, p, m, i, l) = no_fields();
    let bare = get_window_info(
        6,
        Ok((12, "C:\\x\\tool.exe".to_string())),
        true,
        &Vec::new(),
        t,
        c,
        p,
        m,
        i,
        l,
    )
    .unwrap();
    assert_eq!(bare.exe, "tool.exe");
    assert_eq!(bare.title, None);
    assert_eq!(bare.cmd_line, None);

    let full = get_window_info(
        6,
        Ok((12, "C:\\x\\tool.exe".to_string())),
        true,
        &Vec::new(),
        Some("t".to_string()),
        Some("c".to_string()),
        Some("p".to_string()),
        Some("m".to_string()),
        Some(true),
        Some("l".to_string()),
    )
    .unwrap();
    assert_eq!(full.exe, "tool.exe");
    assert_eq!(full.title.as_deref(), Some("t"));
}

#[test]
fn aggregation_is_idempotent() {
    let make = || {
        get_window_info(
            7,
            Ok((13, "C:\\x\\tool.exe".to_string())),
            false,
            &vec!["other.exe".to_string()],
            Some("title".to_string()),
            None,
            Some("product".to_string()),
            Some("\\\\.\\DISPLAY2".to_string()),
            Some(true),
            None,
        )
    };
    let first = make().unwrap();
    let second = make().unwrap();
    assert_eq!(first, second);
}

#[test]
fn unicode_paths_resolve() {
    let path = "C:\\Programme\\Übersicht.exe".to_string();
    assert_eq!(file_name_of_path(&path).unwrap(), "Übersicht.exe");
    let mut units: Vec<u16> = path.encode_utf16().collect();
    units.push(0);
    let (pid, decoded) = get_exe(5, true, Some(&units)).unwrap();
    assert_eq!(pid, 5);
    assert_eq!(decoded, path);
}
