use gsteng::vscode::cli::{
    candidate_paths, goto_location, parse_extension_list, running_instances, tars_workspace_settings, HostOs, SettingValue,
    VSCodeCLI,
};

#[test]
fn path_must_be_detected_first() {
    let cli = VSCodeCLI::new();
    assert_eq!(
        cli.get_vscode_path().unwrap_err(),
        "VS Code path not detected. Run detect_installation() first."
    );
    assert!(cli.open_command("/p", false).is_err());
    assert!(cli.list_extensions_command().is_err());
}

#[test]
fn commands_after_detection() {
    let mut cli = VSCodeCLI::new();
    let msg = cli.record_detection("/usr/bin/code", "1.90.0\nabc\nx64");
    assert!(msg.contains("Version: 1.90.0\n"));
    assert_eq!(cli.get_vscode_path().unwrap(), "/usr/bin/code");
    let open = cli.open_command("/p", true).unwrap();
    assert_eq!(open.command, "/usr/bin/code");
    assert_eq!(open.args, vec!["/p", "--new-window"]);
    let install = cli.install_extension_command("rust-lang.rust-analyzer").unwrap();
    assert_eq!(install.args, vec!["--install-extension", "rust-lang.rust-analyzer"]);
    let goto = cli.goto_command("main.rs", 10, Some(4)).unwrap();
    assert_eq!(goto.args, vec!["--goto", "main.rs:10:4"]);
    let diff = cli.diff_command("a", "b").unwrap();
    assert_eq!(diff.args, vec!["--diff", "a", "b"]);
}

#[test]
fn detection_without_version_says_unknown() {
    let mut cli = VSCodeCLI::new();
    assert!(cli.record_detection("code", "").contains("Version: Unknown"));
}

#[test]
fn goto_locations() {
    assert_eq!(goto_location("f.rs", 3, None), "f.rs:3");
    assert_eq!(goto_location("f.rs", 3, Some(7)), "f.rs:3:7");
}

#[test]
fn extension_listing_is_trimmed() {
    assert_eq!(parse_extension_list("  a.b \n\nc.d\n"), vec!["a.b", "c.d"]);
    assert!(parse_extension_list("").is_empty());
}

#[test]
fn running_instances_from_a_listing() {
    let listing = "1 bash\n2 /usr/share/code/code --type=renderer\n3 Code Helper\n";
    assert_eq!(running_instances(listing).len(), 2);
}

#[test]
fn candidate_locations() {
    assert_eq!(candidate_paths(HostOs::OtherUnix)[1], "/usr/bin/code");
    assert_eq!(candidate_paths(HostOs::Windows).len(), 5);
    assert_eq!(candidate_paths(HostOs::MacOs)[0], "code");
}

#[test]
fn workspace_settings_table() {
    let settings = tars_workspace_settings();
    assert_eq!(settings.len(), 18);
    assert_eq!(settings[0].0, "editor.fontSize");
    assert!(matches!(settings[0].1, SettingValue::Number(14)));
    assert!(matches!(&settings[4].1, SettingValue::Numbers(v) if *v == vec![80, 120]));
    assert!(matches!(&settings[7].1, SettingValue::Flags(v) if v.len() == 2 && v[1].0 == "source.organizeImports"));
    assert!(matches!(settings[14].1, SettingValue::Flag(false)));
    assert_eq!(settings[17].0, "terminal.integrated.cursorBlinking");
}
