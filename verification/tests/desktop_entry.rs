use amos_tauri::desktop_entry::{argv, env_prefix, is_entry_file_name, parse, DesktopFileScan, MAX_SCAN_DEPTH, MAX_SCAN_FILES};

const ENTRY: &str = "\
# a comment
[Desktop Entry]
Type=Application
Name=Files
Name[zh_CN]=文件
Exec=nautilus %U
Icon=system-file-manager
Categories=System;Utility;
";

#[test]
fn parses_the_plain_keys_and_ignores_localized_ones() {
    let e = parse(ENTRY).expect("a well-formed entry parses");
    assert_eq!(e.name, "Files", "the localized Name must not win");
    assert_eq!(e.command, "nautilus %U");
    assert_eq!(e.icon.as_deref(), Some("system-file-manager"));
    assert_eq!(e.category.as_deref(), Some("System"), "first category only");
    assert_eq!(e.entry_type.as_deref(), Some("Application"));
    assert!(e.is_launchable_app());
}

#[test]
fn refuses_entries_that_are_not_launchable() {
    assert!(
        parse("Name=x\nExec=y\n").is_none(),
        "no [Desktop Entry] group"
    );
    assert!(parse("[Desktop Entry]\nExec=y\n").is_none(), "no Name");
    assert!(parse("[Desktop Entry]\nName=x\n").is_none(), "no Exec");

    let link = parse("[Desktop Entry]\nType=Link\nName=Site\nExec=x\n").expect("parses");
    assert!(!link.is_launchable_app());
    let hidden = parse("[Desktop Entry]\nName=Gone\nExec=x\nNoDisplay=true\n").expect("parses");
    assert!(!hidden.is_launchable_app());
    let deleted = parse("[Desktop Entry]\nName=Gone\nExec=x\nHidden=TRUE\n").expect("parses");
    assert!(!deleted.is_launchable_app());
    let shown = parse("[Desktop Entry]\nName=Here\nExec=x\nNoDisplay=false\n").expect("parses");
    assert!(shown.is_launchable_app());
}

#[test]
fn stops_at_the_group_boundary() {
    let text =
        "[Desktop Entry]\nName=Real\nExec=real\n\n[Desktop Action new]\nName=Fake\nExec=fake\n";
    let e = parse(text).expect("parses");
    assert_eq!(e.name, "Real");
    assert_eq!(e.command, "real");
}

#[test]
fn argv_drops_field_codes_keeps_quoted_tokens_and_unescapes() {
    let a = argv("nautilus %U").expect("program");
    assert_eq!(a.program, "nautilus");
    assert_eq!(
        a.args,
        Vec::<String>::new(),
        "%U must not be passed through"
    );

    let b =
        argv("/usr/bin/foo --open \"My File.txt\" 'x y' %f --literal=100%%").expect("program");
    assert_eq!(b.program, "/usr/bin/foo");
    assert_eq!(
        b.args,
        vec!["--open", "My File.txt", "x y", "--literal=100%"],
        "quotes group, %% is a literal %, %f is dropped"
    );

    let win = argv("wine \"C:\\Program Files\\App\\app.exe\"").expect("program");
    assert_eq!(win.program, "wine");
    assert_eq!(win.args, vec!["C:\\Program Files\\App\\app.exe"]);
    let escaped = argv("wine C:\\\\App\\\\app.exe").expect("program");
    assert_eq!(
        escaped.args,
        vec!["C:\\App\\app.exe"],
        "`\\\\` really is one backslash"
    );

    assert!(argv("   ").is_none(), "nothing to run");
    assert!(argv("%U").is_none(), "only a field code is nothing to run");
}

#[test]
fn env_prefix_splits_the_variables_wine_entries_carry() {
    let raw = argv(
        "env WINEPREFIX=\"/home/me/.wine\" WINEDEBUG=-all wine start /unix /home/me/a.exe",
    )
    .expect("program");
    let (vars, rest) = env_prefix(&raw);
    assert_eq!(
        vars,
        vec![
            ("WINEPREFIX".to_string(), "/home/me/.wine".to_string()),
            ("WINEDEBUG".to_string(), "-all".to_string())
        ],
        "the quoted prefix survives as one value"
    );
    assert_eq!(rest.program, "wine");
    assert_eq!(rest.args, vec!["start", "/unix", "/home/me/a.exe"]);

    let plain = argv("firefox").expect("program");
    let (vars, rest) = env_prefix(&plain);
    assert!(vars.is_empty());
    assert_eq!(rest, plain);

    let only_vars = argv("env FOO=bar").expect("program");
    let (vars, rest) = env_prefix(&only_vars);
    assert_eq!(vars, vec![("FOO".to_string(), "bar".to_string())]);
    assert_eq!(rest.program, "env");
}

#[test]
fn only_files_with_the_desktop_extension_are_entries() {
    assert!(is_entry_file_name("x.desktop"));
    assert!(is_entry_file_name("org.gnome.Files.DESKTOP"));
    assert!(!is_entry_file_name(".desktop"), "a dot file has no extension");
    assert!(!is_entry_file_name("desktop"));
    assert!(!is_entry_file_name("x.desktop.bak"));
    assert!(!is_entry_file_name("x."));
}

#[test]
fn the_walk_is_bounded_by_depth_and_reports_what_it_left_out() {
    let mut scan = DesktopFileScan::new();
    // Directories at depths 0..=4 may be descended; a fifth level is reported.
    for depth in 0..MAX_SCAN_DEPTH {
        assert!(scan.visit_dir(depth));
    }
    assert!(!scan.visit_dir(MAX_SCAN_DEPTH));
    assert_eq!(scan.skipped_depth, 1);
    scan.visit_file("/a/x.desktop".into(), "x.desktop");
    scan.visit_file("/a/readme".into(), "readme");
    assert_eq!(scan.files, vec!["/a/x.desktop".to_string()]);
    scan.unreadable();
    assert_eq!(scan.unreadable_dirs, 1);
}

#[test]
fn the_walk_counts_files_past_the_cap_instead_of_dropping_them_silently() {
    let mut scan = DesktopFileScan::new();
    for i in 0..MAX_SCAN_FILES + 3 {
        scan.visit_file(format!("/apps/{i}.desktop"), &format!("{i}.desktop"));
    }
    assert_eq!(scan.files.len(), MAX_SCAN_FILES);
    assert_eq!(scan.skipped_cap, 3);
}
