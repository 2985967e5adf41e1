use scribe_client::hook_setup::{
    claude_is_stale, claude_needs_setup, codex_needs_setup, failure_text, needs_claude_setup,
    needs_codex_setup, pi_extension_resource_dir, pi_integration_enabled,
    repair_ai_hooks_on_startup, repair_pi_extension_if_enabled, run_setup_script,
    validate_pi_extension_resource_dir, AiIntegrationConfig, AiIntegrationToggle, FileRead,
    PackageDir, PiView, ScriptRun, StartupView,
};

#[test]
fn claude_missing_scribe_hook_needs_repair() {
    let settings = r#"{"hooks":{"Stop":[{"hooks":[{"command":"node /tmp/quill.js"}]}]}}"#;
    assert!(needs_claude_setup(
        settings,
        "/Applications/Scribe.app/Contents/Resources/ai-hook-assistant.sh",
        "/Applications/Scribe.app/Contents/Resources/ai-hook-statusline.sh",
    ));
}

#[test]
fn claude_stop_only_hook_needs_session_end_repair() {
    let settings = r#"{
        "hooks":{"Stop":[{"hooks":[{"command":"/Applications/Scribe.app/Contents/Resources/ai-hook-assistant.sh stop"}]}]},
        "statusLine":{"type":"command","command":"node /tmp/custom.js"}
    }"#;
    assert!(needs_claude_setup(
        settings,
        "/Applications/Scribe.app/Contents/Resources/ai-hook-assistant.sh",
        "/Applications/Scribe.app/Contents/Resources/ai-hook-statusline.sh",
    ));
}

#[test]
fn claude_session_end_hook_with_custom_statusline_is_fresh() {
    let settings = r#"{
        "hooks":{"SessionEnd":[{"hooks":[{"command":"/Applications/Scribe.app/Contents/Resources/ai-hook-assistant.sh session_end"}]}]},
        "statusLine":{"type":"command","command":"node /tmp/custom.js"}
    }"#;
    assert!(!needs_claude_setup(
        settings,
        "/Applications/Scribe.app/Contents/Resources/ai-hook-assistant.sh",
        "/Applications/Scribe.app/Contents/Resources/ai-hook-statusline.sh",
    ));
}

#[test]
fn claude_missing_statusline_without_custom_one_needs_repair() {
    let settings = r#"{
        "hooks":{"Stop":[{"hooks":[{"command":"/Applications/Scribe.app/Contents/Resources/ai-hook-assistant.sh stop"}]}]}
    }"#;
    assert!(needs_claude_setup(
        settings,
        "/Applications/Scribe.app/Contents/Resources/ai-hook-assistant.sh",
        "/Applications/Scribe.app/Contents/Resources/ai-hook-statusline.sh",
    ));
}

#[test]
fn claude_stale_scribe_statusline_needs_repair() {
    let settings = r#"{
        "hooks":{"Stop":[{"hooks":[{"command":"/Applications/Scribe.app/Contents/Resources/ai-hook-assistant.sh stop"}]}]},
        "statusLine":{"type":"command","command":"/Applications/Old Scribe.app/Contents/Resources/ai-hook-statusline.sh"}
    }"#;
    assert!(needs_claude_setup(
        settings,
        "/Applications/Scribe.app/Contents/Resources/ai-hook-assistant.sh",
        "/Applications/Scribe.app/Contents/Resources/ai-hook-statusline.sh",
    ));
}

#[test]
fn codex_stop_only_hook_needs_session_end_repair() {
    let config = r#"[[hooks.Stop]]
[[hooks.Stop.hooks]]
command = "\"/Applications/Scribe.app/Contents/Resources/ai-hook-codex.sh\" stop"
"#;
    assert!(needs_codex_setup(
        Some(config),
        None,
        "/Applications/Scribe.app/Contents/Resources/ai-hook-codex.sh",
    ));
}

#[test]
fn codex_session_end_hook_in_config_is_fresh() {
    let config = r#"[[hooks.SessionEnd]]
[[hooks.SessionEnd.hooks]]
command = "\"/Applications/Scribe.app/Contents/Resources/ai-hook-codex.sh\" session_end"
"#;
    assert!(!needs_codex_setup(
        Some(config),
        None,
        "/Applications/Scribe.app/Contents/Resources/ai-hook-codex.sh",
    ));
}

#[test]
fn codex_without_scribe_hook_needs_repair() {
    let config = r#"[[hooks.Stop]]
[[hooks.Stop.hooks]]
command = "node /tmp/quill.js"
"#;
    assert!(needs_codex_setup(
        Some(config),
        None,
        "/Applications/Scribe.app/Contents/Resources/ai-hook-codex.sh",
    ));
}

// ---- the extension for Pi ----

#[test]
fn pi_integration_defaults_enabled_and_respects_toggle() {
    let mut config = AiIntegrationConfig::default();
    assert!(pi_integration_enabled(&config));

    config.pi = AiIntegrationToggle::new(false);
    assert!(!pi_integration_enabled(&config));
}

fn package(path: &str, has_extension: bool, has_setup: bool) -> PackageDir {
    PackageDir { path: path.to_owned(), has_extension, has_setup }
}

#[test]
fn packaged_pi_assets_must_both_exist() {
    let dir = "/tmp/scribe-pi-assets";
    let source_error = validate_pi_extension_resource_dir(&package(dir, false, false))
        .expect_err("source is missing");
    assert!(source_error.contains("pi-extension.ts"));

    let setup_error = validate_pi_extension_resource_dir(&package(dir, true, false))
        .expect_err("setup is missing");
    assert!(setup_error.contains("setup-pi-extension.sh"));

    assert_eq!(
        validate_pi_extension_resource_dir(&package(dir, true, true)).expect("assets valid"),
        dir
    );
}

fn pi(on: bool) -> PiView {
    PiView {
        config: Ok(AiIntegrationConfig { pi: AiIntegrationToggle::new(on) }),
        prefix: None,
        bundled: None,
        share: Some(package("/usr/share/scribe", true, true)),
    }
}

#[test]
fn pi_is_repaired_where_it_is_wanted_and_packaged() {
    let run = repair_pi_extension_if_enabled(&pi(true)).unwrap().unwrap();
    assert_eq!(run.script, "/usr/share/scribe/setup-pi-extension.sh");
    assert_eq!(run.source_flag, "--extension-source");
    assert_eq!(run.resources_dir, "/usr/share/scribe");
    assert_eq!(repair_pi_extension_if_enabled(&pi(false)), Ok(None));
    let unpackaged = PiView { share: None, ..pi(true) };
    assert_eq!(repair_pi_extension_if_enabled(&unpackaged), Ok(None));
    let broken = PiView { config: Err("bad toml".into()), ..pi(true) };
    assert_eq!(repair_pi_extension_if_enabled(&broken), Err("bad toml".into()));
}

#[test]
fn named_package_directories_go_first() {
    let view = PiView {
        prefix: Some(package("/opt/x", true, true)),
        bundled: Some(package("/bundle", true, true)),
        ..pi(true)
    };
    assert_eq!(pi_extension_resource_dir(&view), Ok(Some("/opt/x".into())));
    let bundled = PiView { bundled: Some(package("/bundle", false, true)), ..pi(true) };
    assert_eq!(
        pi_extension_resource_dir(&bundled),
        Err("packaged Pi integration asset is missing: /bundle/pi-extension.ts".into())
    );
}

// ---- at startup ----

fn startup() -> StartupView {
    StartupView {
        macos: true,
        dev: false,
        resources: Some("/app/Resources".into()),
        home: Some("/home/u".into()),
        tool: "assistant".into(),
        has_claude: true,
        claude_settings: FileRead::Missing,
        has_codex: true,
        codex_config: FileRead::Missing,
        codex_hooks: FileRead::Missing,
        pi: pi(true),
    }
}

#[test]
fn missing_settings_are_repaired_in_order() {
    let repair = repair_ai_hooks_on_startup(&startup());
    let scripts: Vec<_> = repair.runs.iter().map(|run| run.script.as_str()).collect();
    assert_eq!(
        scripts,
        vec!["/app/Resources/setup-assistant-hooks.sh", "/app/Resources/setup-codex-hooks.sh"]
    );
    assert!(repair.runs.iter().all(|run| run.source_flag == "--hook-source"));
    assert_eq!(repair.trouble, None);
    assert!(repair.pi.unwrap().is_some());
}

#[test]
fn trouble_with_one_tool_does_not_reach_pi() {
    let view = StartupView {
        claude_settings: FileRead::Failed { error: "denied".into() },
        ..startup()
    };
    let repair = repair_ai_hooks_on_startup(&view);
    assert!(repair.runs.is_empty());
    assert_eq!(
        repair.trouble.as_deref(),
        Some("failed to read /home/u/.assistant/settings.json: denied")
    );
    assert!(repair.pi.unwrap().is_some());

    let view = StartupView { home: None, ..startup() };
    assert_eq!(repair_ai_hooks_on_startup(&view).trouble.as_deref(), Some("HOME is not set"));

    let view = StartupView { codex_hooks: FileRead::Failed { error: "e".into() }, ..startup() };
    let repair = repair_ai_hooks_on_startup(&view);
    assert_eq!(repair.runs.len(), 1);
    assert_eq!(
        repair.trouble.as_deref(),
        Some("failed to read /home/u/.codex/hooks.json: e")
    );
}

#[test]
fn nothing_is_run_elsewhere() {
    for view in [
        StartupView { macos: false, ..startup() },
        StartupView { dev: true, ..startup() },
        StartupView { resources: None, ..startup() },
    ] {
        let repair = repair_ai_hooks_on_startup(&view);
        assert!(repair.runs.is_empty());
        assert!(repair.trouble.is_none());
    }
    let view = StartupView { has_claude: false, has_codex: false, ..startup() };
    assert!(repair_ai_hooks_on_startup(&view).runs.is_empty());
}

#[test]
fn settings_are_read_with_their_directories() {
    assert_eq!(claude_needs_setup("t", "/d", &FileRead::Missing, "/r"), Ok(true));
    let config = FileRead::Failed { error: "e".into() };
    assert_eq!(
        codex_needs_setup("/d", &config, &FileRead::Missing, "/r"),
        Err("failed to read /d/config.toml: e".into())
    );
    let hooked = FileRead::Contents("x /r/ai-hook-codex.sh session_end\n".into());
    assert_eq!(codex_needs_setup("/d", &FileRead::Missing, &hooked, "/r"), Ok(false));
}

#[test]
fn settings_that_are_not_json_are_repaired() {
    assert!(needs_claude_setup("h session_end", "h", "s"));
    assert!(needs_claude_setup("", "h", "s"));
    // JSON, but not an object: there is no status line in it.
    assert!(needs_claude_setup("\"h session_end\"", "h", "other"));
    assert!(!needs_claude_setup("\"h session_end\"", "h", "h"));
}

#[test]
fn repair_goes_by_the_given_keys() {
    let keys = Some(vec!["statusLine".to_owned()]);
    assert!(!claude_is_stale(&keys, "h session_end", "h", "s!"));
    assert!(claude_is_stale(&Some(Vec::new()), "h session_end", "h", "s!"));
    assert!(claude_is_stale(&None, "h session_end", "h", "h"));
    assert!(claude_is_stale(&keys, "h session_end ai-hook-statusline.sh", "h", "s!"));
    assert!(claude_is_stale(&keys, "h\nsession_end", "h", "h"));
}

#[test]
fn runs_are_put_into_words() {
    let ended = |success, code, stdout: &[u8], stderr: &[u8]| ScriptRun::Ended {
        success,
        code,
        stdout: stdout.to_vec(),
        stderr: stderr.to_vec(),
    };
    assert_eq!(
        run_setup_script("/s", &ended(true, Some(0), b" ok \n", b"")),
        Ok(("ok".into(), "".into()))
    );
    assert_eq!(
        run_setup_script("/s", &ended(false, Some(-2), b"", b" bad\n")),
        Err("/s exited with code -2 (stdout: <empty>; stderr: bad)".into())
    );
    assert_eq!(
        run_setup_script("/s", &ended(false, None, b"\xff", b"")),
        Err("/s exited with signal (stdout: \u{fffd}; stderr: <empty>)".into())
    );
    assert_eq!(
        run_setup_script("/s", &ScriptRun::Missing),
        Err("setup script /s is missing".into())
    );
    assert_eq!(
        run_setup_script("/s", &ScriptRun::NotLaunched { error: "e".into() }),
        Err("failed to launch /s: e".into())
    );
    assert_eq!(
        failure_text("/s", Some(7), "out", "err"),
        "/s exited with code 7 (stdout: out; stderr: err)"
    );
}
