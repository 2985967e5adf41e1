use scribe_client::color::{
    bold_to_bright, resolve_cell_colors, resolve_color, CellFlags, Color, ColorSource, NamedColor,
    Rgb,
};
use scribe_client::config::{
    is_relevant_config_event_path, is_relevant_event, AppearanceConfig, ChangeKind, ClientConfig,
    ConfigChangeSignal, ConfigRuntime,
};
use scribe_client::divider::{
    collect_dividers, hit_test_divider, start_drag, Axis, Cut, LayoutNode, PaneId, Ratio,
    SplitDirection,
};
use scribe_client::fonts::{family_or_default, TERMINAL_FONT_FAMILY};
use scribe_client::keybindings::{Bindings, KeyMatch, KeybindingsConfig};

// ---- colours ----

const PLAIN: CellFlags = CellFlags { bold: false, inverse: false, hidden: false, dim: false };

#[test]
fn bold_to_bright_promotes_standard_colors_only() {
    assert_eq!(bold_to_bright(Color::Named(NamedColor::Red)), Color::Named(NamedColor::BrightRed));
    assert_eq!(
        bold_to_bright(Color::Named(NamedColor::Foreground)),
        Color::Named(NamedColor::BrightForeground)
    );
    assert_eq!(bold_to_bright(Color::Indexed(3)), Color::Indexed(11));
    // Already-bright and true colour pass through.
    assert_eq!(bold_to_bright(Color::Indexed(12)), Color::Indexed(12));
    let spec = Color::Spec(Rgb { r: 1, g: 2, b: 3 });
    assert_eq!(bold_to_bright(spec), spec);
}

#[test]
fn bold_cell_uses_bright_foreground() {
    let cell = resolve_cell_colors(
        Color::Named(NamedColor::Foreground),
        Color::Named(NamedColor::Background),
        CellFlags { bold: true, ..PLAIN },
    );
    assert_eq!(cell.fg, ColorSource::BrightForeground);
    assert_eq!(cell.bg, ColorSource::Background);
}

#[test]
fn inverse_flag_swaps_fg_and_bg() {
    let fg_in = Color::Indexed(1);
    let bg_in = Color::Indexed(4);
    let cell = resolve_cell_colors(fg_in, bg_in, CellFlags { inverse: true, ..PLAIN });
    assert_eq!(cell.fg, resolve_color(bg_in));
    assert_eq!(cell.bg, resolve_color(fg_in));
}

#[test]
fn hidden_flag_masks_foreground() {
    let cell = resolve_cell_colors(
        Color::Indexed(1),
        Color::Indexed(4),
        CellFlags { hidden: true, ..PLAIN },
    );
    assert_eq!(cell.fg, cell.bg);
}

#[test]
fn dim_flag_dims_foreground_only() {
    let cell = resolve_cell_colors(
        Color::Indexed(1),
        Color::Indexed(4),
        CellFlags { dim: true, ..PLAIN },
    );
    assert!(cell.dim_fg);
    assert_eq!(cell.fg, resolve_color(Color::Indexed(1)));
    assert_eq!(cell.bg, resolve_color(Color::Indexed(4)));
}

#[test]
fn combined_color_flags_preserve_order_and_alpha() {
    let bright = ColorSource::BrightForeground;
    let foreground = ColorSource::Foreground;
    let background = ColorSource::Background;
    for (flags, expected_fg, expected_bg) in [
        (CellFlags { bold: true, dim: true, ..PLAIN }, bright, background),
        (CellFlags { inverse: true, dim: true, ..PLAIN }, background, foreground),
        (CellFlags { hidden: true, dim: true, ..PLAIN }, background, background),
        (CellFlags { bold: true, inverse: true, hidden: true, dim: true }, bright, bright),
    ] {
        let cell = resolve_cell_colors(
            Color::Named(NamedColor::Foreground),
            Color::Named(NamedColor::Background),
            flags,
        );
        assert_eq!(cell.fg, expected_fg);
        assert_eq!(cell.bg, expected_bg);
        assert!(cell.dim_fg);
    }
}

#[test]
fn semantic_colours_come_from_the_theme() {
    assert_eq!(resolve_color(Color::Named(NamedColor::Cursor)), ColorSource::Foreground);
    assert_eq!(resolve_color(Color::Named(NamedColor::DimForeground)), ColorSource::DimForeground);
    assert_eq!(
        resolve_color(Color::Named(NamedColor::Blue)),
        ColorSource::Palette(Color::Named(NamedColor::Blue))
    );
}

// ---- fonts ----

#[test]
fn missing_primary_uses_bundled_font_not_a_proportional_ui_fallback() {
    let available = vec!["Noto Sans".to_owned(), TERMINAL_FONT_FAMILY.to_owned()];
    assert_eq!(family_or_default("uninstalled custom font", &available), TERMINAL_FONT_FAMILY);
    assert_eq!(family_or_default("jetbrains mono", &available), TERMINAL_FONT_FAMILY);
    assert_eq!(
        family_or_default("Noto Sans", &available),
        "Noto Sans",
        "do not override an explicitly available user choice"
    );
    assert_eq!(family_or_default("missing", &Vec::new()), TERMINAL_FONT_FAMILY);
}

#[test]
fn families_keep_the_spelling_of_the_platform() {
    let available = vec!["Fira Code".to_owned(), "FIRA CODE".to_owned()];
    assert_eq!(family_or_default("fira code", &available), "Fira Code");
}

// ---- dividers ----

fn leaf(value: u64) -> Box<LayoutNode> {
    Box::new(LayoutNode::Leaf(PaneId { value }))
}

fn half() -> Ratio {
    Ratio { bits: 0.5f32.to_bits() }
}

#[test]
fn nested_splits_yield_one_divider_per_split_node() {
    let inner = LayoutNode::Split {
        direction: SplitDirection::Vertical,
        ratio: half(),
        first: leaf(2),
        second: leaf(3),
    };
    let node = LayoutNode::Split {
        direction: SplitDirection::Horizontal,
        ratio: half(),
        first: leaf(1),
        second: Box::new(inner),
    };
    let dividers = collect_dividers(&node);
    assert_eq!(dividers.len(), 2);
    assert!(dividers[0].parent.is_empty());
    assert_eq!(dividers[0].first_pane, PaneId { value: 1 });
    assert_eq!(
        dividers[1].parent,
        vec![Cut { direction: SplitDirection::Horizontal, ratio: half(), second: true }]
    );
    assert_eq!(dividers[1].first_pane, PaneId { value: 2 });
    assert!(collect_dividers(&LayoutNode::Leaf(PaneId { value: 1 })).is_empty());
}

#[test]
fn drags_go_along_the_axis_of_the_split() {
    for (direction, axis) in
        [(SplitDirection::Horizontal, Axis::X), (SplitDirection::Vertical, Axis::Y)]
    {
        let node = LayoutNode::Split { direction, ratio: half(), first: leaf(1), second: leaf(2) };
        let drag = start_drag(&collect_dividers(&node)[0]);
        assert_eq!(drag.axis, axis);
        assert_eq!(drag.direction, direction);
        assert_eq!(drag.first_pane, PaneId { value: 1 });
    }
    assert_eq!(hit_test_divider(&[false, true, true]), Some(1));
    assert_eq!(hit_test_divider(&[false]), None);
}

// ---- the configuration ----

#[test]
fn watcher_relevance_matches_config_and_theme_paths() {
    let dir = "/home/user/.config/scribe";
    assert!(is_relevant_config_event_path(&format!("{dir}/config.toml")));
    assert!(is_relevant_config_event_path(&format!("{dir}/themes/my-theme.toml")));
    assert!(!is_relevant_config_event_path(&format!("{dir}/other.txt")));
}

#[test]
fn relevance_goes_by_whole_parts_of_a_path() {
    assert!(!is_relevant_config_event_path("/a/config.toml.swp"));
    assert!(!is_relevant_config_event_path("/a/xconfig.toml"));
    assert!(!is_relevant_config_event_path("/a/config.toml/b"));
    assert!(is_relevant_config_event_path("/a/config.toml/"));
    assert!(is_relevant_config_event_path("themes"));
    assert!(!is_relevant_config_event_path(""));
    let paths = vec!["/a/x".to_owned(), "/a/config.toml".to_owned()];
    assert!(is_relevant_event(ChangeKind::Modify, &paths));
    assert!(is_relevant_event(ChangeKind::Create, &paths));
    assert!(!is_relevant_event(ChangeKind::Other, &paths));
    assert!(!is_relevant_event(ChangeKind::Modify, &paths[..1]));
}

#[test]
fn change_signal_collapses_a_save_burst_into_one_reload() {
    let mut signal = ConfigChangeSignal::new();
    let mut seen = signal.generation();

    // Nothing written yet: no reload is due.
    assert!(!signal.take_change(&mut seen));

    // One editor save fires several notify events (delete, create, modify).
    signal.signal();
    signal.signal();
    signal.signal();

    // They collapse into exactly one reload, and the flag then clears.
    assert!(signal.take_change(&mut seen));
    assert!(!signal.take_change(&mut seen));
}

#[test]
fn change_counters_go_round() {
    let mut signal = ConfigChangeSignal { generation: u64::MAX };
    let mut seen = u64::MAX;
    signal.signal();
    assert!(signal.take_change(&mut seen));
    assert_eq!(seen, 0);
}

fn keys(palette: &str) -> KeybindingsConfig {
    let none = Vec::new;
    KeybindingsConfig {
        split_vertical: none(),
        split_horizontal: none(),
        close_pane: none(),
        cycle_pane: none(),
        focus_left: none(),
        focus_right: none(),
        focus_up: none(),
        focus_down: none(),
        equalize: none(),
        workspace_split_vertical: none(),
        workspace_split_horizontal: none(),
        workspace_focus_left: none(),
        workspace_focus_right: none(),
        workspace_focus_up: none(),
        workspace_focus_down: none(),
        new_tab: none(),
        new_claude_tab: none(),
        new_claude_resume_tab: none(),
        new_codex_tab: none(),
        new_codex_resume_tab: none(),
        new_pi_tab: none(),
        close_tab: none(),
        next_tab: none(),
        prev_tab: none(),
        select_tab_1: none(),
        select_tab_2: none(),
        select_tab_3: none(),
        select_tab_4: none(),
        select_tab_5: none(),
        select_tab_6: none(),
        select_tab_7: none(),
        select_tab_8: none(),
        select_tab_9: none(),
        copy: none(),
        paste: none(),
        scroll_up: none(),
        scroll_down: none(),
        scroll_top: none(),
        scroll_bottom: none(),
        find: none(),
        prompt_jump_up: none(),
        prompt_jump_down: none(),
        jump_to_failure: none(),
        zoom_in: none(),
        zoom_out: none(),
        zoom_reset: none(),
        new_window: none(),
        command_palette: vec![palette.to_owned()],
        settings: none(),
        word_left: none(),
        word_right: none(),
        delete_word_backward: none(),
        delete_word_backward_ctrl: none(),
        delete_word_forward: none(),
        line_start: none(),
        line_end: none(),
    }
}

fn look(font: &str, font_size: f32, theme: &str, opacity: f32) -> AppearanceConfig {
    AppearanceConfig {
        font: font.to_owned(),
        font_size_bits: font_size.to_bits(),
        theme: theme.to_owned(),
        opacity_bits: opacity.to_bits(),
    }
}

#[test]
fn runtime_reloads_only_after_the_watcher_signals() {
    let mut runtime = ConfigRuntime::detached(ClientConfig {
        appearance: look("JetBrains Mono", 14.0, "minimal-dark", 1.0),
        bindings: Bindings::parse(&keys("ctrl+shift+p")),
    });
    assert_eq!(runtime.config.appearance.theme, "minimal-dark");

    // No watcher event yet, so the foreground poll must not reload.
    assert!(!runtime.take_pending());

    // The watcher fires; the foreground now has a reload to run.
    runtime.signal();
    assert!(runtime.take_pending());

    // Applying the edited file swaps every live surface in one step.
    let plan = runtime.reload(look("Fira Code", 18.0, "dracula", 0.85), &keys("ctrl+shift+o"));
    assert!(plan.theme_changed());
    assert!(plan.font_changed());
    assert!(plan.opacity_changed());
    assert!(plan.any_changed());
    assert_eq!(runtime.config.appearance.theme, "dracula");
    assert_eq!(runtime.config.appearance.font, "Fira Code");
    assert!((f32::from_bits(runtime.config.appearance.opacity_bits) - 0.85).abs() < f32::EPSILON);

    // The new palette combo is live without a restart.
    let combo = runtime.config.bindings.command_palette.first().expect("palette combo parsed");
    assert_eq!(combo.key, KeyMatch::Character('o'));

    // The signal was consumed by the earlier poll: no second reload is queued.
    assert!(!runtime.take_pending());
}

#[test]
fn reload_reapplies_theme_font_and_keybindings() {
    let split = |combo: &str| KeybindingsConfig {
        split_vertical: vec![combo.to_owned()],
        ..keys("ctrl+shift+p")
    };
    let mut client = ClientConfig {
        appearance: look("JetBrains Mono", 14.0, "minimal-dark", 1.0),
        bindings: Bindings::parse(&split("ctrl+shift+d")),
    };
    let old_split = format!("{:?}", client.bindings.split_vertical);
    let plan = client.reload(look("Fira Code", 18.0, "dracula", 1.0), &split("ctrl+shift+e"));

    // Theme reapplied live.
    assert!(plan.theme_changed());
    assert_eq!(client.appearance.theme, "dracula");

    // Font metrics reapplied live (drives a layout resize downstream).
    assert!(plan.font_changed());
    assert_eq!(client.appearance.font, "Fira Code");
    assert!((f32::from_bits(client.appearance.font_size_bits) - 18.0).abs() < f32::EPSILON);

    // Keybindings reapplied live: the old combo no longer matches, the new one
    // does.
    let new_split = &client.bindings.split_vertical;
    assert_ne!(format!("{new_split:?}"), old_split);
    let new_binding = new_split.first().expect("has binding");
    assert!(new_binding.modifiers.control && new_binding.modifiers.shift);
    assert_eq!(new_binding.key, KeyMatch::Character('e'));

    assert!(plan.any_changed());
}

#[test]
fn reload_with_only_opacity_change_is_scoped() {
    let mut client = ClientConfig {
        appearance: look("JetBrains Mono", 14.0, "minimal-dark", 1.0),
        bindings: Bindings::parse(&keys("ctrl+shift+p")),
    };
    let plan = client
        .reload(look("JetBrains Mono", 14.0, "minimal-dark", 0.8), &keys("ctrl+shift+p"));
    assert!(plan.opacity_changed());
    assert!(!plan.theme_changed());
    assert!(!plan.font_changed());
}

#[test]
fn reload_with_no_changes_reports_nothing() {
    let mut client = ClientConfig {
        appearance: look("JetBrains Mono", 14.0, "minimal-dark", 1.0),
        bindings: Bindings::parse(&keys("ctrl+shift+p")),
    };
    let plan = client
        .reload(look("JetBrains Mono", 14.0, "minimal-dark", 1.0), &keys("ctrl+shift+p"));
    assert!(!plan.any_changed());
}
