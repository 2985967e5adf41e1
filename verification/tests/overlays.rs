use scribe_client::command_palette::{
    base_entries, build_entries, choose_entry, filter_entries, matching_entries, next_place,
    prev_place, profile_entries, scene, CommandPaletteEntry, CommandPaletteEvent,
    CommandPaletteView, PaletteAction, MAX_VISIBLE_ITEMS,
};
use scribe_client::context_menu::{
    build_menu_items, smart_selection_context_action, smart_selection_menu_item, ContextMenuAction,
    ContextMenuEvent, ContextMenuRequest, ContextMenuView, MenuItem, MenuRow,
    ResolvedSmartSelectionAction, SmartSelectionActionKind,
};
use scribe_client::protocol::AutomationAction;

// ---- the command palette ----

#[test]
fn base_entries_lead_with_settings_and_end_with_remote_connect() {
    let entries = base_entries("Assistant");
    assert_eq!(entries.first().unwrap().label, "Open Settings");
    let last = entries.last().unwrap();
    assert_eq!(last.label, "Connect to remote machine…");
    assert_eq!(last.action, PaletteAction::OpenRemoteConnect);
}

#[test]
fn workspace_move_actions_are_visible() {
    let entries = base_entries("Assistant");
    let moves: Vec<_> = entries
        .iter()
        .filter(|entry| entry.label.starts_with("Move workspace"))
        .map(|entry| (entry.label.as_str(), entry.action.same()))
        .collect();
    assert_eq!(
        moves,
        vec![
            ("Move workspace to new window", PaletteAction::MoveWorkspaceToNewWindow),
            ("Move workspace left", PaletteAction::MoveWorkspaceLeft),
            ("Move workspace right", PaletteAction::MoveWorkspaceRight),
            ("Move workspace up", PaletteAction::MoveWorkspaceUp),
            ("Move workspace down", PaletteAction::MoveWorkspaceDown),
        ]
    );
}

#[test]
fn update_row_is_appended_only_when_an_update_is_available() {
    let none = build_entries("Assistant", None, &[], None);
    assert!(none.iter().all(|e| !e.label.starts_with("Update Scribe")));

    let some = build_entries("Assistant", Some("9.9.9"), &[], None);
    let update = some.iter().find(|e| e.label == "Update Scribe to v9.9.9").unwrap();
    assert_eq!(update.action, PaletteAction::Automation(AutomationAction::OpenUpdateDialog));
}

#[test]
fn profile_rows_tag_the_active_profile() {
    let names = vec!["work".to_owned(), "home".to_owned()];
    let rows = profile_entries(&names, Some("home"));
    assert_eq!(rows[0].label, "Switch Profile: work");
    assert_eq!(rows[1].label, "Switch Profile: home (active)");
    assert_eq!(
        rows[1].action,
        PaletteAction::Automation(AutomationAction::SwitchProfile { name: "home".into() })
    );
}

#[test]
fn filter_is_case_insensitive_substring_and_empty_keeps_all() {
    let entries = base_entries("Assistant");
    let all = filter_entries(&entries, "   ");
    assert_eq!(all.len(), entries.len());

    let split = filter_entries(&entries, "SPLIT");
    assert_eq!(split.len(), 2);
    assert!(split.iter().all(|e| e.label.to_lowercase().contains("split")));
}

fn palette() -> CommandPaletteView {
    CommandPaletteView::new(build_entries(
        "Assistant",
        Some("1.2.3"),
        &["work".to_owned()],
        Some("work"),
    ))
}

#[test]
fn typing_filters_and_paste_strips_control_chars() {
    let mut view = palette();
    view.push_char('s');
    view.push_char('e');
    assert_eq!(view.query(), "se");
    assert!(view.filtered().iter().all(|e| e.label.to_lowercase().contains("se")));
    // Pasting a multi-line payload collapses to non-control chars.
    view.push_str("t\nti\tng");
    assert_eq!(view.query(), "setting");
}

#[test]
fn selection_wraps_and_confirm_emits_the_action() {
    let mut view = palette();
    view.push_str("split");
    view.next_item(); // -> index 1
    view.next_item(); // wraps -> index 0
    assert_eq!(view.selected_index(), 0);
    assert_eq!(
        view.confirm(),
        Some(CommandPaletteEvent::Execute(PaletteAction::Automation(
            AutomationAction::SplitVertical
        )))
    );
}

#[test]
fn selection_goes_back_round_the_start() {
    let mut view = palette();
    let last = view.filtered().len() - 1;
    view.prev_item();
    assert_eq!(view.selected_index(), last);
    view.prev_item();
    assert_eq!(view.selected_index(), last - 1);
    view.next_item();
    view.next_item();
    assert_eq!(view.selected_index(), 0);
}

#[test]
fn confirm_on_empty_filter_is_a_noop() {
    let mut view = palette();
    view.push_str("zzzznomatch");
    assert_eq!(view.confirm(), None);
}

#[test]
fn set_entries_resets_query_and_selection() {
    let mut view = palette();
    view.push_str("split");
    view.next_item();
    view.set_entries(vec![CommandPaletteEntry::automation("Only", AutomationAction::NewTab)]);
    assert_eq!(view.query(), "");
    assert_eq!(view.selected_index(), 0);
    assert_eq!(view.filtered().len(), 1);
}

#[test]
fn letters_beyond_ascii_are_lowered_too() {
    let entries = vec![CommandPaletteEntry::automation("ÄPFEL", AutomationAction::NewTab)];
    assert_eq!(filter_entries(&entries, "äpf").len(), 1);
    assert_eq!(filter_entries(&entries, "apf").len(), 0);
}

#[test]
fn matching_goes_by_the_given_names() {
    let entries = base_entries("Assistant");
    let names: Vec<String> = entries.iter().map(|_| "x".to_owned()).collect();
    assert_eq!(matching_entries(&entries, &names, "x").len(), entries.len());
    assert_eq!(matching_entries(&entries, &names, "y").len(), 0);
}

#[test]
fn places_go_round() {
    assert_eq!(next_place(0, 0), 0);
    assert_eq!(next_place(2, 3), 0);
    assert_eq!(prev_place(0, 3), 2);
    assert_eq!(prev_place(2, 3), 1);
    assert_eq!(prev_place(0, 0), 0);
    assert_eq!(next_place(usize::MAX, 2), 0);
}

#[test]
fn dismissing_the_palette_starts_it_afresh() {
    let mut view = palette();
    view.push_str("split");
    view.next_item();
    assert_eq!(view.dismiss(), CommandPaletteEvent::Dismissed);
    assert_eq!(view.query(), "");
    assert_eq!(view.selected_index(), 0);
    view.push_char('x');
    view.pop_char();
    view.pop_char();
    assert_eq!(view.query(), "");
}

#[test]
fn clicking_a_command_selects_and_chooses_it() {
    let mut view = palette();
    let event = view.click(1);
    assert_eq!(view.selected_index(), 1);
    assert_eq!(
        event,
        Some(CommandPaletteEvent::Execute(PaletteAction::Automation(AutomationAction::OpenFind)))
    );
    assert_eq!(choose_entry(&base_entries("Assistant"), 99), None);
}

#[test]
fn a_palette_shows_its_first_commands_or_that_there_are_none() {
    let mut view = palette();
    let shown = view.render();
    assert!(shown.invites);
    assert_eq!(shown.query, "Type a command or profile name");
    assert_eq!(shown.rows.len(), MAX_VISIBLE_ITEMS);
    assert!(shown.rows[0].selected && !shown.rows[1].selected);
    assert!(shown.nothing.is_none());

    view.push_str("zzzz");
    let empty = view.render();
    assert!(!empty.invites);
    assert_eq!(empty.query, "zzzz");
    assert!(empty.rows.is_empty());
    assert_eq!(empty.nothing.as_deref(), Some("No matching commands"));
    assert_eq!(scene(&[], "", 0).rows.len(), 0);
}

// ---- the context menu ----

fn labels(items: &[MenuItem]) -> Vec<String> {
    items.iter().map(|i| i.label.clone()).collect()
}

#[test]
fn head_is_copy_paste_select_all_with_copy_gated_on_selection() {
    let no_sel = build_menu_items(ContextMenuRequest::default());
    assert_eq!(labels(&no_sel), ["Copy", "Paste", "Select All"]);
    assert!(!no_sel[0].enabled, "Copy is disabled without a selection");
    assert!(no_sel[1].enabled && no_sel[2].enabled);

    let with_sel =
        build_menu_items(ContextMenuRequest { has_selection: true, ..Default::default() });
    assert!(with_sel[0].enabled, "Copy is enabled with a selection");
}

#[test]
fn osc8_uri_takes_open_url_precedence_and_adds_copy_entry() {
    let items = build_menu_items(ContextMenuRequest {
        url: Some("http://heuristic".into()),
        osc8_uri: Some("mailto:a@b.dev".into()),
        ..Default::default()
    });
    // "Open URL" carries the OSC 8 URI via OpenOsc8Url, not the heuristic URL.
    let open = items.iter().find(|i| i.label == "Open URL").unwrap();
    assert_eq!(open.action, ContextMenuAction::OpenOsc8Url("mailto:a@b.dev".into()));
    // The copy-hyperlink entry is appended.
    let copy = items.iter().find(|i| i.label == "Copy hyperlink address").unwrap();
    assert_eq!(copy.action, ContextMenuAction::CopyHyperlinkAddress("mailto:a@b.dev".into()));
}

#[test]
fn heuristic_url_used_when_no_osc8_uri() {
    let items = build_menu_items(ContextMenuRequest {
        url: Some("http://heuristic".into()),
        ..Default::default()
    });
    let open = items.iter().find(|i| i.label == "Open URL").unwrap();
    assert_eq!(open.action, ContextMenuAction::OpenUrl("http://heuristic".into()));
    assert!(items.iter().all(|i| i.label != "Copy hyperlink address"));
}

#[test]
fn smart_selection_actions_append_and_drop_empty_parameters() {
    let run = smart_selection_menu_item(ResolvedSmartSelectionAction {
        label: "IP: Run Command".into(),
        kind: SmartSelectionActionKind::RunCommand,
        parameter: "ping 1.1.1.1".into(),
    });
    assert!(run.is_some());
    // An empty expanded parameter drops the row entirely.
    let empty = smart_selection_menu_item(ResolvedSmartSelectionAction {
        label: "Nope".into(),
        kind: SmartSelectionActionKind::OpenUrl,
        parameter: String::new(),
    });
    assert!(empty.is_none());

    let items = build_menu_items(ContextMenuRequest {
        file_path: Some("/etc/hosts".into()),
        smart_actions: run.into_iter().collect(),
        ..Default::default()
    });
    // File entry then the smart action come after the fixed head.
    let names = labels(&items);
    assert_eq!(names.last().unwrap(), "IP: Run Command");
    assert!(names.contains(&"Open File".to_owned()));
}

#[test]
fn clicking_an_enabled_item_emits_its_action() {
    let menu =
        ContextMenuView::new(ContextMenuRequest { has_selection: true, ..Default::default() });
    // Index 0 == Copy, enabled because a selection exists.
    assert_eq!(menu.activate(0), Some(ContextMenuEvent::Selected(ContextMenuAction::Copy)));
}

#[test]
fn clicking_a_disabled_item_is_a_noop() {
    let menu = ContextMenuView::new(ContextMenuRequest::default());
    // Copy is disabled without a selection.
    assert_eq!(menu.activate(0), None);
    assert_eq!(menu.activate(99), None);
}

#[test]
fn dismiss_emits_dismissed() {
    let mut menu = ContextMenuView::new(ContextMenuRequest::default());
    assert_eq!(menu.items().len(), 3);
    assert_eq!(menu.dismiss(), ContextMenuEvent::Dismissed);
    assert!(menu.items().is_empty());
}

#[test]
fn every_rule_has_its_action() {
    let cases = [
        (SmartSelectionActionKind::OpenFile, ContextMenuAction::OpenFile("p".into())),
        (SmartSelectionActionKind::OpenUrl, ContextMenuAction::OpenUrl("p".into())),
        (SmartSelectionActionKind::RunCommand, ContextMenuAction::RunCommand("p".into())),
        (SmartSelectionActionKind::RunCoprocess, ContextMenuAction::RunCoprocess("p".into())),
        (SmartSelectionActionKind::SendText, ContextMenuAction::SendText("p".into())),
        (
            SmartSelectionActionKind::RunCommandInWindow,
            ContextMenuAction::RunCommandInWindow("p".into()),
        ),
        (SmartSelectionActionKind::Copy, ContextMenuAction::CopyText("p".into())),
    ];
    for (kind, action) in cases {
        assert_eq!(smart_selection_context_action(kind, "p".into()), action);
    }
}

#[test]
fn a_divider_stands_before_the_first_item_that_opens() {
    let menu = ContextMenuView::new(ContextMenuRequest {
        url: Some("http://a".into()),
        file_path: Some("/b".into()),
        ..Default::default()
    });
    assert_eq!(
        menu.render(),
        vec![
            MenuRow::Item { index: 0, enabled: false },
            MenuRow::Item { index: 1, enabled: true },
            MenuRow::Item { index: 2, enabled: true },
            MenuRow::Divider,
            MenuRow::Item { index: 3, enabled: true },
            MenuRow::Item { index: 4, enabled: true },
        ]
    );
    let plain = ContextMenuView::new(ContextMenuRequest::default());
    assert!(!plain.render().contains(&MenuRow::Divider));
}
