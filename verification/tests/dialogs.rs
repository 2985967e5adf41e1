use scribe_client::dialog::{
    button_colors, caret_preview, truncate_for_display, AnyDialog, ButtonTone, ClipboardDialog,
    ClipboardDialogAction, CloseAction, CloseDialog, DialogColor, DialogEvent, DialogOutcome,
    DialogView, DisallowedSchemeAction, DisallowedSchemeDialog, LanApprovalAction,
    LanApprovalCopy, LanApprovalDialog, ParkedPaste, PasteConfirmationAction,
    PasteConfirmationDialog, PasteRisk, UpdateAction, UpdateDialog, UpdateDialogKind,
};
use scribe_client::clipboard_dialog;
use scribe_client::dialog_grid::{dialog_grid_units, dialog_units_in_extent, Draw, GridColor};
use scribe_client::disallowed_scheme_dialog;
use scribe_client::protocol::{
    ClipboardDecision, ClipboardOp, ClipboardSelection, PromptId, SessionId,
};

fn paste(text: &str, has_line_break: bool, has_control: bool) -> PasteConfirmationDialog {
    PasteConfirmationDialog::new(ParkedPaste {
        text: text.to_owned(),
        risk: PasteRisk { has_line_break, has_control },
    })
}

fn every_dialog() -> Vec<AnyDialog> {
    vec![
        AnyDialog::Close(CloseDialog::new(2)),
        AnyDialog::Update(UpdateDialog::new_install("1.2.3".to_owned())),
        AnyDialog::Update(UpdateDialog::new_restart_required("1.2.3".to_owned())),
        AnyDialog::Paste(paste("a\nb", true, false)),
        AnyDialog::Clipboard(ClipboardDialog::new(
            PromptId { value: 9 },
            ClipboardOp::Write,
            ClipboardSelection::Primary,
            Some("secret".to_owned()),
        )),
        AnyDialog::DisallowedScheme(DisallowedSchemeDialog::new(
            "file:///etc/passwd".to_owned(),
            "file".to_owned(),
        )),
        AnyDialog::LanApproval(
            LanApprovalDialog::new(4, "d".into(), "w".into(), "n".into(), false),
            LanApprovalCopy {
                title: "Approve?".into(),
                body: vec!["line".into()],
                decline: "Decline".into(),
                approve: "Approve".into(),
            },
        ),
    ]
}

#[test]
fn confirming_a_fresh_dialog_is_the_safe_answer() {
    for dialog in every_dialog() {
        assert_eq!(dialog.confirm(), dialog.cancel());
    }
}

#[test]
fn focus_goes_round_every_dialog() {
    for mut dialog in every_dialog() {
        let start = dialog.focused();
        dialog.focus_next();
        dialog.focus_prev();
        assert_eq!(dialog.focused(), start);
        for _ in 0..dialog.button_count() {
            dialog.focus_next();
        }
        assert_eq!(dialog.focused(), start);
        assert_eq!(dialog.spec().buttons.len(), dialog.button_count());
        assert!(dialog.action_at(dialog.button_count()).is_none());
    }
}

#[test]
fn close_dialog_tells_what_is_lost() {
    let spec = AnyDialog::Close(CloseDialog::new(3)).spec();
    assert_eq!(spec.title, "Close Scribe");
    assert_eq!(spec.body.last().unwrap(), "  3 active session(s) will be lost.");
    assert_eq!(spec.buttons[1].label, "Kill Window");
    assert_eq!(spec.buttons[1].tone, ButtonTone::Danger);
    assert_eq!(spec.focused, 2);
    assert_eq!(AnyDialog::Close(CloseDialog::new(0)).spec().body.len(), 7);
    let dialog = AnyDialog::Close(CloseDialog::new(0));
    assert_eq!(dialog.action_at(0), Some(DialogOutcome::Close(CloseAction::QuitAll)));
}

#[test]
fn update_dialogs_name_their_version() {
    let install = UpdateDialog::new_install("2.0".to_owned());
    assert_eq!(install.kind(), UpdateDialogKind::InstallAvailable);
    let spec = AnyDialog::Update(install).spec();
    assert_eq!(spec.title, "Update Available");
    assert_eq!(spec.body[0], "Version 2.0 is ready to install.");
    let restart = AnyDialog::Update(UpdateDialog::new_restart_required("2.0".to_owned()));
    assert_eq!(restart.spec().body[0], "Version 2.0 has been installed.");
    assert_eq!(restart.cancel(), DialogOutcome::Update(UpdateAction::Secondary));
    assert_eq!(restart.action_at(0), Some(DialogOutcome::Update(UpdateAction::Primary)));
}

#[test]
fn paste_reasons_are_told() {
    let reason = |text: &str, lines: bool, controls: bool| {
        AnyDialog::Paste(paste(text, lines, controls)).spec().body[0].clone()
    };
    assert_eq!(reason("a\nb\nc", true, false), "3 lines");
    assert_eq!(reason("a", true, false), "1 line");
    assert_eq!(reason("a\n\u{1b}b", true, true), "2 lines · 1 control character");
    assert_eq!(reason("\u{1b}\u{7}\n", true, true), "2 lines · 2 control characters");
    assert_eq!(reason("\u{7}", false, true), "contains a control character");
    assert_eq!(reason("\u{7}\u{7}", false, true), "contains control characters");
    assert_eq!(reason("plain", false, false), "risky paste");
}

#[test]
fn parked_pastes_come_back_as_they_were() {
    assert_eq!(paste("a\u{1b}\nb", true, true).into_parked_paste().text, "a\u{1b}\nb");
    let dialog = AnyDialog::Paste(paste("x", true, false));
    assert_eq!(dialog.cancel(), DialogOutcome::Paste(PasteConfirmationAction::Cancel));
    assert_eq!(
        dialog.action_at(1),
        Some(DialogOutcome::Paste(PasteConfirmationAction::Paste))
    );
}

#[test]
fn previews_show_control_characters_in_caret_notation() {
    assert_eq!(caret_preview("a\u{1b}[31m\tb\u{7f}"), vec!["a^[[31m  b^?"]);
    assert_eq!(caret_preview("\u{0}\u{9b}"), vec!["^@\\u{9B}"]);
    assert_eq!(caret_preview("a\r"), vec!["a^M"]);
    assert_eq!(caret_preview(""), vec![""]);
    for byte in 0u32..0xa0 {
        let c = char::from_u32(byte).unwrap();
        for line in caret_preview(&format!("x{c}y")) {
            assert!(line.chars().all(|shown| !shown.is_control()), "U+{byte:04X}");
        }
    }
}

#[test]
fn previews_are_cut_short() {
    let nine = (0..9).map(|n| format!("line {n}")).collect::<Vec<_>>().join("\n");
    let shown = caret_preview(&nine);
    assert_eq!(shown.len(), 9);
    assert_eq!(shown[8], "… (+1 more line)");
    let many = vec!["x"; 20].join("\n");
    assert_eq!(caret_preview(&many)[8], "… (+12 more lines)");
    let long = caret_preview(&"y".repeat(200));
    assert_eq!(long[0].chars().count(), 56);
    assert!(long[0].contains("..."));
}

#[test]
fn fitted_texts_keep_both_ends() {
    assert_eq!(truncate_for_display("abcdefghij", 8), "abc...ij");
    assert_eq!(truncate_for_display("abcdefghij", 10), "abcdefghij");
    assert_eq!(truncate_for_display("abcdefghij", 3), "abc");
    assert_eq!(truncate_for_display("äöüßéèàçñø", 7), "äö...ñø");
}

#[test]
fn clipboard_prompts_say_what_is_wanted() {
    let dialog = ClipboardDialog::new(
        PromptId { value: 9 },
        ClipboardOp::Read,
        ClipboardSelection::Primary,
        None,
    );
    assert_eq!(dialog.request_id(), PromptId { value: 9 });
    assert_eq!(dialog.op(), ClipboardOp::Read);
    let any = AnyDialog::Clipboard(dialog);
    let spec = any.spec();
    assert_eq!(spec.title, "Allow clipboard read?");
    assert_eq!(spec.body[0], "A program in this terminal wants to read the primary selection.");
    assert_eq!(spec.body.len(), 3);
    assert_eq!(any.cancel(), DialogOutcome::Clipboard(ClipboardDialogAction::DenyOnce));
    assert_eq!(ClipboardDialogAction::AlwaysAllow.decision(), ClipboardDecision::AlwaysAllow);
    assert_eq!(ClipboardDialogAction::AllowOnce.decision(), ClipboardDecision::AllowOnce);
    assert_eq!(ClipboardDialogAction::DenyOnce.decision(), ClipboardDecision::DenyOnce);
    assert_eq!(ClipboardDialogAction::AlwaysDeny.decision(), ClipboardDecision::AlwaysDeny);
}

#[test]
fn scheme_prompts_keep_the_whole_link() {
    let uri = format!("ssh://{}", "x".repeat(100));
    let dialog = DisallowedSchemeDialog::new(uri.clone(), "ssh".to_owned());
    let any = AnyDialog::DisallowedScheme(dialog);
    let spec = any.spec();
    assert_eq!(spec.body[0], "Scheme `ssh:` is normally blocked.");
    assert_eq!(spec.body[4].chars().count(), 56);
    assert_eq!(
        any.action_at(1),
        Some(DialogOutcome::DisallowedScheme(DisallowedSchemeAction::OpenAnyway))
    );
    let again = DisallowedSchemeDialog::new(uri.clone(), "ssh".to_owned());
    assert_eq!(again.into_pending_uri(), uri);
}

#[test]
fn views_tell_what_was_chosen() {
    let mut view = DialogView::new(AnyDialog::Paste(paste("a\n", true, false)));
    assert_eq!(
        view.confirm(),
        DialogEvent::Chosen(DialogOutcome::Paste(PasteConfirmationAction::Cancel))
    );
    assert_eq!(view.dismiss(), view.confirm());
    assert_eq!(
        view.activate(1),
        Some(DialogEvent::Chosen(DialogOutcome::Paste(PasteConfirmationAction::Paste)))
    );
    assert_eq!(view.activate(2), None);
    assert!(view.hover(1));
    assert!(!view.hover(1));
    let scene = view.render();
    assert_eq!(scene.title, "Confirm Paste");
    assert_eq!(scene.body[1], None);
    assert!(scene.buttons[0].focused && !scene.buttons[1].focused);
    assert_eq!(scene.buttons[1].ground, DialogColor::ButtonActive);
    view.focus_next();
    assert_eq!(
        view.confirm(),
        DialogEvent::Chosen(DialogOutcome::Paste(PasteConfirmationAction::Paste))
    );
}

#[test]
fn buttons_are_coloured_by_their_tone() {
    assert_eq!(
        button_colors(ButtonTone::Danger, false),
        (DialogColor::DangerText, DialogColor::Button)
    );
    assert_eq!(
        button_colors(ButtonTone::Accent, true),
        (DialogColor::ButtonActiveText, DialogColor::Accent)
    );
}

#[test]
fn lan_prompts_decline_by_default() {
    let dialog = LanApprovalDialog::new(4, "d".into(), "w".into(), "n".into(), true);
    assert_eq!(dialog.request_id(), 4);
    let copy = LanApprovalCopy {
        title: "t".into(),
        body: vec!["a".into(), "b".into()],
        decline: "no".into(),
        approve: "yes".into(),
    };
    let any = AnyDialog::LanApproval(dialog, copy);
    assert_eq!(any.spec().body, vec!["a", "b"]);
    assert_eq!(any.confirm(), DialogOutcome::LanApproval(LanApprovalAction::Decline));
    assert_eq!(any.action_at(1), Some(DialogOutcome::LanApproval(LanApprovalAction::Approve)));
}

// ---- on the grid ----

fn clipboard() -> clipboard_dialog::ClipboardDialog {
    clipboard_dialog::ClipboardDialog::new(
        PromptId { value: 1 },
        SessionId { value: 2 },
        ClipboardOp::Write,
        ClipboardSelection::Clipboard,
        Some("payload".to_owned()),
    )
}

#[test]
fn the_clipboard_prompt_denies_by_default_and_goes_round() {
    let mut dialog = clipboard();
    assert_eq!(dialog.request_id(), PromptId { value: 1 });
    assert_eq!(dialog.session_id(), SessionId { value: 2 });
    assert_eq!(dialog.op(), ClipboardOp::Write);
    let mut seen = Vec::new();
    for _ in 0..4 {
        seen.push(dialog.confirm());
        dialog.focus_next();
    }
    assert_eq!(
        seen,
        vec![
            ClipboardDialogAction::DenyOnce,
            ClipboardDialogAction::AlwaysDeny,
            ClipboardDialogAction::AllowOnce,
            ClipboardDialogAction::AlwaysAllow,
        ]
    );
    assert_eq!(dialog.confirm(), ClipboardDialogAction::DenyOnce);
    dialog.focus_prev();
    assert_eq!(dialog.confirm(), ClipboardDialogAction::AlwaysAllow);
}

#[test]
fn the_clipboard_prompt_is_clicked_and_hovered() {
    let mut dialog = clipboard();
    assert_eq!(dialog.click(&[false, false, true, false]), Some(ClipboardDialogAction::AllowOnce));
    assert_eq!(dialog.click(&[false; 4]), None);
    assert!(dialog.update_hover(&[false, true, false, false]));
    assert!(!dialog.update_hover(&[false, true, false, false]));
    assert!(dialog.update_hover(&[false; 4]));
}

#[test]
fn the_clipboard_prompt_is_laid_out() {
    let plan = clipboard().build_instances(200);
    assert_eq!(plan.cols, 84);
    assert_eq!(plan.rows, 17);
    assert_eq!(clipboard().build_instances(80).cols, 80);
    assert_eq!(clipboard().build_instances(10).cols, 76);
    assert_eq!(
        plan.draws[..4],
        [Draw::Backdrop, Draw::Panel, Draw::TopEdge, Draw::BottomEdge]
    );
    let buttons: Vec<_> = plan
        .draws
        .iter()
        .filter_map(|draw| match draw {
            Draw::Button { index, row, col, cols, ground } => {
                Some((*index, *row, *col, *cols, *ground))
            }
            _ => None,
        })
        .collect();
    // 78 usable columns, 58 taken by the buttons, 20 left: 6 between each two.
    assert_eq!(
        buttons,
        vec![
            (0, 13, 3, 13, GridColor::ButtonActiveBg),
            (1, 13, 22, 15, GridColor::ButtonBg),
            (2, 13, 43, 14, GridColor::ButtonBg),
            (3, 13, 63, 16, GridColor::ButtonBg),
        ]
    );
    // The title has 22 columns, so it begins at (84 - 22) / 2.
    assert!(plan.draws.contains(&Draw::Glyph {
        ch: 'A',
        row: 2,
        col: 31,
        fg: GridColor::TitleFg,
        bg: GridColor::DialogBg
    }));
    assert!(plan.draws.contains(&Draw::Rule { at: 11 }));
}

#[test]
fn the_scheme_prompt_is_laid_out() {
    let mut dialog = disallowed_scheme_dialog::DisallowedSchemeDialog::new(
        "ftp://x".to_owned(),
        "ftp".to_owned(),
    );
    let plan = dialog.build_instances(64);
    assert_eq!((plan.cols, plan.rows), (64, 16));
    assert_eq!(dialog.build_instances(0).cols, 46);
    assert_eq!(dialog.confirm(), DisallowedSchemeAction::Cancel);
    dialog.focus_next();
    assert_eq!(dialog.confirm(), DisallowedSchemeAction::OpenAnyway);
    dialog.focus_prev();
    assert_eq!(dialog.confirm(), DisallowedSchemeAction::Cancel);
    assert_eq!(dialog.click(&[false, true]), Some(DisallowedSchemeAction::OpenAnyway));
    assert_eq!(dialog.click(&[true, false]), Some(DisallowedSchemeAction::Cancel));
    assert_eq!(dialog.click(&[false, false]), None);
    assert!(dialog.update_hover(&[true, false]));
    assert_eq!(dialog.into_pending_uri(), "ftp://x");
}

#[test]
fn cells_in_an_extent_are_counted() {
    assert_eq!(dialog_units_in_extent(|n| n as f32 * 8.0 <= 640.0), 80);
    assert_eq!(dialog_units_in_extent(|n| n as f32 * 8.0 <= 639.0), 79);
    assert_eq!(dialog_units_in_extent(|_| false), 0);
    assert_eq!(dialog_units_in_extent(|_| true), 65_535);
    assert_eq!(dialog_grid_units(70_000), u16::MAX);
    assert_eq!(dialog_grid_units(7), 7);
}
