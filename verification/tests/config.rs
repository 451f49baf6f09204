use hyprmux::editor::{choose_editor, editor_argv, editor_command, editor_words, event_touches_config, WatchEvent, WatchKind};

#[test]
fn editor_words_reads_bare_command() {
    assert_eq!(editor_words("nvim --clean"), ["nvim", "--clean"]);
}

#[test]
fn editor_words_reads_quoted_command() {
    assert_eq!(editor_words("'/opt/my editor/bin/edit' --wait"), ["/opt/my editor/bin/edit", "--wait"]);
}

#[test]
fn editor_launch_passes_the_path_as_its_own_argument() {
    let argv = editor_argv("nvim", r"C:\Users\me\rozi\config.toml".to_string());
    assert_eq!(argv, ["nvim".to_string(), r"C:\Users\me\rozi\config.toml".to_string()]);
}

#[test]
fn editor_launch_keeps_spaced_paths_unquoted() {
    let argv = editor_argv("code -w", "/home/me/my dir/config.toml".to_string());
    assert_eq!(argv, ["code".to_string(), "-w".to_string(), "/home/me/my dir/config.toml".to_string()]);
}

#[test]
fn editor_words_keeps_an_empty_quoted_word_and_joins_quoted_parts() {
    assert_eq!(editor_words("\"\" a\"b c\"d"), ["", "ab cd"]);
    assert!(editor_words("   ").is_empty());
}

#[test]
fn the_editor_falls_back_past_blank_values() {
    assert_eq!(choose_editor(Some("  ".into()), Some("hx".into())), "hx");
    assert_eq!(choose_editor(None, None), "vi");
    assert_eq!(choose_editor(Some("nvim".into()), Some("hx".into())), "nvim");
    assert_eq!(editor_command("'/opt/my editor/bin/edit' --wait"), "/opt/my editor/bin/edit");
    assert_eq!(editor_command(""), "");
}

#[test]
fn only_writes_to_the_config_file_wake_the_watcher() {
    let target = Some("config.toml".to_string());
    let saved = WatchEvent { kind: WatchKind::Modify, file_names: vec![Some("config.toml".into())] };
    assert!(event_touches_config(&saved, &target));
    let other = WatchEvent { kind: WatchKind::Create, file_names: vec![Some("themes.toml".into()), None] };
    assert!(!event_touches_config(&other, &target));
    let removed = WatchEvent { kind: WatchKind::Remove, file_names: vec![Some("config.toml".into())] };
    assert!(!event_touches_config(&removed, &target));
    assert!(!event_touches_config(&saved, &None));
}
