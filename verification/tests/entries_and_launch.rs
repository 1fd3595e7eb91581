use dock_launcher::entry::{command_args_of, is_shown, DesktopEntryInfo};
use dock_launcher::launch::{
    exec_arguments, find_launcher, handle_click, startup_notification_id, ClickAction, LaunchCommand, Launcher,
};
use dock_launcher::plan::{icon_file_to_check, plan_launcher, prepare_launcher, try_exec_program, LauncherPlan};

fn entry() -> DesktopEntryInfo {
    DesktopEntryInfo {
        name: Some("Editor".to_string()),
        hidden: None,
        no_display: None,
        only_show_in: None,
        icon: Some("editor".to_string()),
        try_exec: None,
        command: Some("edit %F --new".to_string()),
        path: None,
        startup_notify: None,
        startup_wm_class: None,
    }
}

fn strings(v: &[&str]) -> Vec<String> {
    v.iter().map(|s| s.to_string()).collect()
}

#[test]
fn hidden_and_restricted_entries_are_not_shown() {
    assert!(is_shown(&entry()));
    assert!(!is_shown(&DesktopEntryInfo { hidden: Some(true), ..entry() }));
    assert!(is_shown(&DesktopEntryInfo { hidden: Some(false), ..entry() }));
    assert!(!is_shown(&DesktopEntryInfo { no_display: Some(true), ..entry() }));
    assert!(!is_shown(&DesktopEntryInfo { only_show_in: Some(2), ..entry() }));
    assert!(is_shown(&DesktopEntryInfo { only_show_in: Some(0), ..entry() }));
}

#[test]
fn field_codes_are_expanded() {
    let icon = Some("/icons/ed.png".to_string());
    assert_eq!(
        command_args_of("ed %f %F %u %U %d %D %n %N %v %m -x", "/apps/ed.desktop", "Ed", &icon),
        strings(&["ed", "-x"])
    );
    assert_eq!(
        command_args_of("ed %k %c %i", "/apps/ed.desktop", "Ed", &icon),
        strings(&["ed", "/apps/ed.desktop", "Ed", "--icon", "/icons/ed.png"])
    );
    assert_eq!(command_args_of("ed %i", "/p", "Ed", &None), strings(&["ed", "--icon", ""]));
}

#[test]
fn other_words_pass_through_unchanged() {
    assert_eq!(command_args_of("a  b %x %% %kk", "/p", "n", &None), strings(&["a", "", "b", "%x", "%%", "%kk"]));
    assert_eq!(command_args_of("", "/p", "n", &None), strings(&[""]));
}

#[test]
fn plan_takes_the_found_icon_and_the_exec_line() {
    let found = Some("/icons/editor.svg".to_string());
    let e = DesktopEntryInfo {
        path: Some("/work".to_string()),
        startup_notify: Some(true),
        startup_wm_class: Some("Ed".to_string()),
        ..entry()
    };
    let plan = plan_launcher(&e, "Editor", "/apps/editor.desktop", &found, true, false).unwrap();
    assert_eq!(plan.icon_path, "/icons/editor.svg");
    assert_eq!(plan.args, strings(&["edit", "--new"]));
    assert_eq!(plan.startup_notify, Some(true));
    assert_eq!(plan.startup_wm_class, Some("Ed".to_string()));
    assert_eq!(plan.working_directory, Some("/work".to_string()));
}

#[test]
fn plan_falls_back_to_the_printer_icon() {
    let e = entry();
    let p = plan_launcher(&e, "Editor", "/d", &None, true, false).unwrap();
    assert_eq!(p.icon_path, "printer.png");
    let p = plan_launcher(&e, "Editor", "/d", &Some(String::new()), true, false).unwrap();
    assert_eq!(p.icon_path, "printer.png");
    let p = plan_launcher(&e, "Editor", "/d", &Some(String::new()), true, true).unwrap();
    assert_eq!(p.icon_path, "editor");
}

#[test]
fn try_exec_and_missing_exec_rule_entries_out() {
    let e = DesktopEntryInfo { try_exec: Some("edit-helper --probe".to_string()), ..entry() };
    assert!(plan_launcher(&e, "Editor", "/d", &None, false, false).is_none());
    assert!(plan_launcher(&e, "Editor", "/d", &None, true, false).is_some());
    let no_exec = DesktopEntryInfo { command: None, ..entry() };
    assert!(plan_launcher(&no_exec, "Editor", "/d", &None, true, true).is_none());
    // A TryExec of only dropped codes names no program: nothing is looked up.
    let empty_try = DesktopEntryInfo { try_exec: Some("%f".to_string()), ..entry() };
    assert!(plan_launcher(&empty_try, "Editor", "/d", &None, false, false).is_some());
}

#[test]
fn prepare_looks_programs_up() {
    let e = DesktopEntryInfo {
        try_exec: Some("surely-no-such-program-xq7 --x".to_string()),
        ..entry()
    };
    assert!(prepare_launcher(&e, "Editor", "/d", &None).is_none());
    let e = DesktopEntryInfo { try_exec: Some("/bin/sh".to_string()), ..entry() };
    let plan = prepare_launcher(&e, "Editor", "/d", &None).unwrap();
    assert_eq!(plan.args, strings(&["edit", "--new"]));
    let e = DesktopEntryInfo { icon: Some("/".to_string()), ..entry() };
    let plan = prepare_launcher(&e, "Editor", "/d", &Some(String::new())).unwrap();
    assert_eq!(plan.icon_path, "/");
}

fn launcher(window: u32, args: &[&str], notify: Option<bool>) -> Launcher {
    Launcher::new(
        window,
        LauncherPlan {
            icon_path: "i.png".to_string(),
            args: strings(args),
            startup_notify: notify,
            startup_wm_class: None,
            working_directory: Some("/home".to_string()),
        },
    )
}

#[test]
fn find_launcher_takes_the_first_match() {
    let ls = vec![launcher(5, &["a"], None), launcher(7, &["b"], None), launcher(7, &["c"], None)];
    assert_eq!(find_launcher(&ls, 7), Some(1));
    assert_eq!(find_launcher(&ls, 5), Some(0));
    assert_eq!(find_launcher(&ls, 9), None);
}

#[test]
fn startup_id_has_host_pid_and_time() {
    let host = format!("{:?}", "myhost");
    assert_eq!(
        startup_notification_id(&host, 1234, 98765).unwrap(),
        "DESKTOP_STARTUP_ID=\"myhost\"+1234+_TIME98765"
    );
    for (pid, time) in [(0u32, 0u32), (9, 10), (u32::MAX, 1000000007)] {
        assert_eq!(
            startup_notification_id(&host, pid, time).unwrap(),
            format!("DESKTOP_STARTUP_ID={}+{}+_TIME{}", host, pid, time)
        );
    }
}

#[test]
fn startup_id_must_fit_its_buffer() {
    // 19 + 1 + 1 + 6 + 1 bytes around the host name.
    let fits = "h".repeat(280 - 28);
    assert_eq!(startup_notification_id(&fits, 0, 0).unwrap().len(), 280);
    let too_long = "h".repeat(280 - 27);
    assert!(startup_notification_id(&too_long, 0, 0).is_none());
    let wide = "é".repeat(126);
    assert!(startup_notification_id(&wide, 0, 0).is_some());
    let wider = "é".repeat(127);
    assert!(startup_notification_id(&wider, 0, 0).is_none());
}

#[test]
fn first_button_launches_through_env() {
    let ls = vec![launcher(5, &["xterm", "-e", "top"], None), launcher(6, &["ed"], Some(true))];
    match handle_click(&ls, 1, 5, 42) {
        ClickAction::Launch(c) => {
            assert_eq!(c.program, "env");
            assert_eq!(c.args, strings(&["xterm", "-e", "top"]));
            assert_eq!(c.working_directory, Some("/home".to_string()));
            assert_eq!(c.startup_time, None);
        },
        _ => panic!("expected a launch"),
    }
    match handle_click(&ls, 1, 6, 42) {
        ClickAction::Launch(c) => {
            assert_eq!(c.startup_time, Some(42));
            assert_eq!(
                exec_arguments(&c, "\"h\"", 7),
                Some(strings(&["DESKTOP_STARTUP_ID=\"h\"+7+_TIME42", "ed"]))
            );
        },
        _ => panic!("expected a launch"),
    }
}

#[test]
fn other_buttons_are_ignored() {
    let ls = vec![launcher(5, &["a"], None)];
    assert!(matches!(handle_click(&ls, 3, 5, 0), ClickAction::Ignore));
    assert!(matches!(handle_click(&ls, 2, 99, 0), ClickAction::Ignore));
}

#[test]
fn arguments_without_startup_notification_are_the_commands() {
    let c = LaunchCommand {
        program: "env".to_string(),
        args: strings(&["a", "b"]),
        working_directory: None,
        startup_time: None,
    };
    assert_eq!(exec_arguments(&c, &"x".repeat(300), 1), Some(strings(&["a", "b"])));
}

#[test]
fn overlong_startup_id_gives_no_arguments() {
    let c = LaunchCommand {
        program: "env".to_string(),
        args: strings(&["a"]),
        working_directory: None,
        startup_time: Some(0),
    };
    assert_eq!(exec_arguments(&c, &"x".repeat(300), 1), None);
}

#[test]
fn lookups_get_the_first_try_exec_argument_and_the_icon_name() {
    let e = DesktopEntryInfo { try_exec: Some("%f helper --probe".to_string()), ..entry() };
    assert_eq!(try_exec_program(&e, "Editor", "/d", &None), Some("helper".to_string()));
    assert_eq!(try_exec_program(&entry(), "Editor", "/d", &None), None);
    let only_codes = DesktopEntryInfo { try_exec: Some("%f".to_string()), ..entry() };
    assert_eq!(try_exec_program(&only_codes, "Editor", "/d", &None), None);
    assert_eq!(icon_file_to_check(&entry(), &Some(String::new())), Some("editor".to_string()));
    assert_eq!(icon_file_to_check(&entry(), &Some("/x.png".to_string())), None);
    assert_eq!(icon_file_to_check(&entry(), &None), None);
    let no_exec = DesktopEntryInfo { command: None, ..entry() };
    assert_eq!(icon_file_to_check(&no_exec, &Some(String::new())), None);
}
