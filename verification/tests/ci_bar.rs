use scribe_client::ci_bar::{
    axis_basis_points, cell_name_color, duration_label, fill_color, render, tone_color,
    trace_row_element, underline_color, ActionCluster, BarEdge, CiActionMode, CiBarModel,
    CiBarRender, CiColor, CiJob, CiJobStep, CiRunBars, CiRunConclusion, CiRunDelta, CiRunDetails,
    CiRunState, CiRunStatus, CiTone, CiTraceModel, CiWorkflowRun, CiWorkflowStatus, LiveDot,
    TraceCellKind, TracePanelElement, MAX_CI_TRACKED_HEADS,
};

const ROOT: &str = "/work/scribe";

fn workflow(
    run_id: u64,
    name: &str,
    status: CiWorkflowStatus,
    conclusion: Option<CiRunConclusion>,
) -> CiWorkflowRun {
    CiWorkflowRun {
        run_id,
        name: name.to_owned(),
        status,
        conclusion,
        started_at_epoch_secs: Some(100),
        updated_at_epoch_secs: Some(160),
    }
}

fn state(rollup: CiRunStatus, stale: bool) -> CiRunState {
    let (status, conclusion) = match rollup {
        CiRunStatus::Queued => (CiWorkflowStatus::Queued, None),
        CiRunStatus::Running => (CiWorkflowStatus::InProgress, None),
        CiRunStatus::Success => (CiWorkflowStatus::Completed, Some(CiRunConclusion::Success)),
        CiRunStatus::Failure => (CiWorkflowStatus::Completed, Some(CiRunConclusion::Failure)),
        CiRunStatus::Cancelled => (CiWorkflowStatus::Completed, Some(CiRunConclusion::Cancelled)),
    };
    CiRunState {
        repository: "acme/scribe".to_owned(),
        head_sha: "0123456789abcdef".to_owned(),
        branch: "main".to_owned(),
        workflows: vec![workflow(42, "quality", status, conclusion)],
        rollup,
        stale,
    }
}

fn job(
    job_id: u64,
    workflow_name: &str,
    name: &str,
    state: (CiWorkflowStatus, Option<CiRunConclusion>),
    execution: (Option<u64>, Option<u64>, &str),
) -> CiJob {
    let (status, conclusion) = state;
    let (started_at_epoch_secs, completed_at_epoch_secs, step) = execution;
    CiJob {
        job_id,
        workflow_run_id: 42,
        workflow_name: workflow_name.to_owned(),
        name: name.to_owned(),
        status,
        conclusion,
        started_at_epoch_secs,
        completed_at_epoch_secs,
        steps: vec![CiJobStep { name: step.to_owned(), status, conclusion }],
    }
}

fn heads(bars: &CiRunBars) -> Vec<String> {
    bars.get(ROOT).iter().map(|run| run.head_sha.clone()).collect::<Vec<_>>()
}

#[test]
fn every_aggregate_state_has_a_non_color_signifier() {
    let cases = [
        (CiRunStatus::Queued, false, "queued", "◌", TraceCellKind::Queued),
        (CiRunStatus::Running, false, "running", "◐", TraceCellKind::Active),
        (CiRunStatus::Success, false, "passed", "✓", TraceCellKind::Success),
        (CiRunStatus::Failure, false, "failed", "✕", TraceCellKind::Failure),
        (CiRunStatus::Cancelled, false, "cancelled", "⊘", TraceCellKind::Cancelled),
        (CiRunStatus::Running, true, "stale", "!", TraceCellKind::Active),
    ];

    for (rollup, stale, word, glyph, cell_kind) in cases {
        let model = CiBarModel::build(&state(rollup, stale), 220, true);
        assert_eq!(model.state_word, word);
        assert_eq!(model.state_glyph, glyph);
        assert_eq!(model.cells[0].kind, cell_kind);
        assert!(!model.cells[0].glyph.is_empty());
        assert_eq!(model.motion, rollup == CiRunStatus::Running && !stale);
        assert!(model.accessibility_label.contains(word));
    }
}

#[test]
fn head_qualified_clears_preserve_newer_runs() {
    let mut bars = CiRunBars::new();
    let mut current = state(CiRunStatus::Running, false);
    current.head_sha = "head-b".to_owned();
    bars.apply(ROOT, CiRunDelta::Put(current));

    bars.apply(ROOT, CiRunDelta::Cleared { head_sha: "head-a".to_owned() });
    assert_eq!(heads(&bars), ["head-b"]);

    bars.apply(ROOT, CiRunDelta::Cleared { head_sha: "head-b".to_owned() });
    assert!(bars.get("/work/scribe").is_empty());
}

#[test]
fn running_heads_stack_while_finished_heads_make_way() {
    let mut bars = CiRunBars::new();
    let mut finished = state(CiRunStatus::Failure, false);
    finished.head_sha = "head-a".to_owned();
    bars.apply(ROOT, CiRunDelta::Put(finished));
    for head in ["head-b", "head-c"] {
        let mut running = state(CiRunStatus::Running, false);
        running.head_sha = head.to_owned();
        bars.apply(ROOT, CiRunDelta::Put(running));
    }
    assert_eq!(heads(&bars), ["head-c", "head-b"], "a finished head must not survive a push");

    for head in ["head-d", "head-e"] {
        let mut running = state(CiRunStatus::Running, false);
        running.head_sha = head.to_owned();
        bars.apply(ROOT, CiRunDelta::Put(running));
    }
    assert_eq!(
        heads(&bars),
        ["head-e", "head-d", "head-c"],
        "stacked bands stop at MAX_CI_TRACKED_HEADS, retiring the oldest"
    );

    let mut refreshed = state(CiRunStatus::Success, false);
    refreshed.head_sha = "head-d".to_owned();
    bars.apply(ROOT, CiRunDelta::Put(refreshed));
    assert_eq!(heads(&bars), ["head-e", "head-d", "head-c"], "an update must not reorder");
}

#[test]
fn owner_actions_stay_local() {
    let run = state(CiRunStatus::Running, false);
    let owner = CiBarModel::build(&run, 220, true);
    assert_eq!(owner.action_mode, CiActionMode::Owner);
    assert_eq!(owner.open_url.as_deref(), Some("https://github.com/acme/scribe/actions/runs/42"));

    let viewer = CiBarModel::build(&run, 220, false);
    assert_eq!(viewer.action_mode, CiActionMode::ReadOnly);
    assert!(viewer.open_url.is_none());
}

#[test]
fn long_traces_keep_actionable_cells() {
    let mut run = state(CiRunStatus::Running, false);
    run.workflows = (0..7)
        .map(|id| {
            workflow(
                id,
                &format!("done-{id}"),
                CiWorkflowStatus::Completed,
                Some(CiRunConclusion::Success),
            )
        })
        .chain([
            workflow(70, "broken", CiWorkflowStatus::Completed, Some(CiRunConclusion::Failure)),
            workflow(71, "live", CiWorkflowStatus::InProgress, None),
        ])
        .collect();

    let model = CiBarModel::build(&run, 220, true);
    assert_eq!(
        model.cells.iter().map(|cell| cell.name.as_str()).collect::<Vec<_>>(),
        ["broken", "live"]
    );
    assert_eq!(model.hidden_cells, 7);
}

#[test]
fn trace_panel_uses_one_minute_axis_and_non_color_job_cues() {
    let details = CiRunDetails {
        head_sha: "head-a".to_owned(),
        jobs: vec![
            job(
                1,
                "quality",
                "rust-linux",
                (CiWorkflowStatus::Completed, Some(CiRunConclusion::Success)),
                (Some(100), Some(160), "just test"),
            ),
            job(
                2,
                "quality",
                "rust-macos",
                (CiWorkflowStatus::InProgress, None),
                (Some(115), None, "cargo clippy --workspace"),
            ),
            job(3, "docs", "lat-check", (CiWorkflowStatus::Queued, None), (None, None, "queued")),
        ],
    };

    let model = CiTraceModel::build(&details, 220, false);

    assert_eq!(model.axis_labels, ["0m", "1m", "2m", "3m", "4m"]);
    assert_eq!((model.rows[0].left, model.rows[0].width), (0, 2_500));
    assert_eq!((model.rows[1].left, model.rows[1].width), (625, 4_375));
    assert_eq!((model.rows[2].left, model.rows[2].width), (5_000, 2_500));
    assert_eq!(
        model
            .rows
            .iter()
            .map(|row| (row.glyph, row.state_word, row.current_step.as_str(), row.elapsed.as_str()))
            .collect::<Vec<_>>(),
        [
            ("✓", "passed", "just test", "1m 00s"),
            ("◐", "running", "cargo clippy --workspace", "1m 45s"),
            ("◌", "queued", "queued", "—"),
        ]
    );
    assert!(model.rows.iter().all(|row| row.accessibility_label.contains(row.state_word)));
    assert!(model.motion);

    let stale = CiTraceModel::build(&details, 220, true);
    assert!(!stale.motion);
}

#[test]
fn detail_snapshots_are_head_qualified() {
    let mut bars = CiRunBars::new();
    let current = state(CiRunStatus::Running, false);
    let head = current.head_sha.clone();
    bars.apply(ROOT, CiRunDelta::Put(current));

    bars.apply_details(
        ROOT,
        CiRunDetails { head_sha: "older-head".to_owned(), jobs: Vec::new() },
    );
    assert!(bars.details(ROOT, &head).is_none());

    bars.apply_details(ROOT, CiRunDetails { head_sha: head.clone(), jobs: Vec::new() });
    assert!(bars.details(ROOT, &head).is_some());

    bars.apply(ROOT, CiRunDelta::Cleared { head_sha: head.clone() });
    assert!(bars.details(ROOT, &head).is_none());
}

#[test]
fn roots_are_kept_apart() {
    let mut bars = CiRunBars::new();
    bars.apply("/a", CiRunDelta::Put(state(CiRunStatus::Running, false)));
    assert_eq!(bars.get("/a").len(), 1);
    assert!(bars.get("/b").is_empty());
}

#[test]
fn tracked_heads_never_pass_the_limit() {
    let mut bars = CiRunBars::new();
    for n in 0..20 {
        let mut running = state(CiRunStatus::Running, false);
        running.head_sha = format!("head-{n}");
        bars.apply(ROOT, CiRunDelta::Put(running));
        assert!(bars.get(ROOT).len() <= MAX_CI_TRACKED_HEADS);
        assert_eq!(bars.get(ROOT)[0].head_sha, format!("head-{n}"));
    }
}

#[test]
fn durations_are_told_in_minutes_and_seconds() {
    assert_eq!(duration_label(60), "1m 00s");
    assert_eq!(duration_label(105), "1m 45s");
}

#[test]
fn places_on_the_axis_are_ten_thousandths() {
    assert_eq!(axis_basis_points(15, 240), 625);
    assert_eq!(axis_basis_points(240, 240), 10_000);
    assert_eq!(axis_basis_points(999, 240), 10_000);
    assert_eq!(axis_basis_points(0, 240), 0);
}

#[test]
fn rows_are_drawn_with_their_bars() {
    let details = CiRunDetails {
        head_sha: "head-a".to_owned(),
        jobs: vec![
            job(
                1,
                "quality",
                "rust-linux",
                (CiWorkflowStatus::Completed, Some(CiRunConclusion::Success)),
                (Some(100), Some(160), "just test"),
            ),
            job(
                2,
                "quality",
                "rust-macos",
                (CiWorkflowStatus::InProgress, None),
                (Some(115), None, "clippy"),
            ),
            job(3, "docs", "lat-check", (CiWorkflowStatus::Queued, None), (None, None, "queued")),
        ],
    };
    let model = CiTraceModel::build(&details, 220, false);
    let drawn: Vec<_> =
        model.rows.iter().map(|row| trace_row_element(row, &model, true)).collect();
    assert_eq!(drawn[0].title, "✓ rust-linux");
    assert_eq!(drawn[0].workflow_name, "quality");
    assert_eq!(drawn[0].bar.caption, "✓ just test");
    assert_eq!((drawn[0].bar.left, drawn[0].bar.width), (0, 2_500));
    assert_eq!(drawn[0].elapsed, "1m 00s");
    assert_eq!(drawn[0].grid_steps, 4);
    assert_eq!(
        drawn.iter().map(|row| (row.bar.fill, row.bar.text, row.bar.edge)).collect::<Vec<_>>(),
        [
            (Some(CiColor::Success), CiColor::Text, BarEdge::Hidden),
            (Some(CiColor::Running), CiColor::Text, BarEdge::Moving),
            (None, CiColor::Muted, BarEdge::Hidden),
        ]
    );
    assert_eq!(trace_row_element(&model.rows[1], &model, false).bar.edge, BarEdge::Still);
    let stale = CiTraceModel::build(&details, 220, true);
    assert_eq!(trace_row_element(&stale.rows[1], &stale, true).bar.edge, BarEdge::Still);
}

#[test]
fn bars_are_labelled() {
    let model = CiBarModel::build(&state(CiRunStatus::Running, false), 220, true);
    assert_eq!(
        model.toggle_label(true),
        format!("{}. CI job trace is expanded", model.accessibility_label)
    );
    assert!(model.toggle_label(false).ends_with(" collapsed"));
    assert_eq!(model.hidden_label(), None);
    assert_eq!(
        model.metadata_label(),
        format!(" @ {} · {}", model.short_sha, model.elapsed)
    );
    let mut long = state(CiRunStatus::Running, false);
    long.workflows = (0..9)
        .map(|id| workflow(id, "w", CiWorkflowStatus::Completed, Some(CiRunConclusion::Success)))
        .chain([workflow(70, "live", CiWorkflowStatus::InProgress, None)])
        .collect();
    let model = CiBarModel::build(&long, 220, true);
    assert_eq!(model.hidden_label(), Some(format!("+{}", model.hidden_cells)));
}

#[test]
fn states_have_their_colours() {
    assert_eq!(tone_color(CiTone::Stale), CiColor::Stale);
    assert_eq!(underline_color(CiTone::Failure), (CiColor::Failure, 60));
    assert_eq!(underline_color(CiTone::Stale), (CiColor::Stale, 50));
    assert_eq!(underline_color(CiTone::Success), (CiColor::Accent, 55));
    assert_eq!(cell_name_color(TraceCellKind::Active), CiColor::Text);
    assert_eq!(cell_name_color(TraceCellKind::Cancelled), CiColor::Muted);
    assert_eq!(fill_color(TraceCellKind::Queued), None);
    assert_eq!(fill_color(TraceCellKind::Cancelled), Some(CiColor::Cancelled));
}

#[test]
fn bars_are_laid_out() {
    let running = CiBarModel::build(&state(CiRunStatus::Running, false), 220, true);
    let how = CiBarRender { expanded: false, animated: true, can_open: true, can_dismiss: false };
    let scene = render(&running, None, how);
    assert_eq!(scene.state, (running.state_glyph, running.state_word, CiColor::Running));
    assert_eq!(scene.cells.len(), 1);
    assert_eq!(scene.cells[0].name, "quality");
    assert_eq!(scene.cells[0].name_color, CiColor::Text);
    assert_eq!(scene.cells[0].dot, LiveDot::Pulsing);
    assert_eq!(scene.cells[0].track, Some(CiColor::Running));
    assert!(scene.cells[0].shimmers);
    assert_eq!(scene.branch, "main");
    assert_eq!(scene.underline, (CiColor::Accent, 55));
    assert_eq!(scene.actions, ActionCluster::Buttons { open: true, dismiss: false });
    assert!(scene.panel.is_none());

    let stale = CiBarModel::build(&state(CiRunStatus::Running, true), 220, false);
    let scene = render(&stale, None, CiBarRender { expanded: true, ..how });
    assert_eq!(scene.cells[0].dot, LiveDot::Still);
    assert!(!scene.cells[0].shimmers);
    assert_eq!(scene.actions, ActionCluster::Viewing);
    assert!(matches!(
        scene.panel,
        Some(TracePanelElement::Loading { text: "loading job trace…", .. })
    ));

    let details = CiRunDetails { head_sha: "head-a".to_owned(), jobs: Vec::new() };
    let trace = CiTraceModel::build(&details, 220, false);
    let scene = render(&running, Some(&trace), CiBarRender { expanded: true, ..how });
    match scene.panel {
        Some(TracePanelElement::Trace { accessibility_label, axis_labels, rows }) => {
            assert_eq!(accessibility_label, "CI job trace, 0 jobs");
            assert_eq!(axis_labels, trace.axis_labels);
            assert!(rows.is_empty());
        }
        _ => panic!("no trace"),
    }
}

#[test]
fn spellings_of_one_root_are_one_root() {
    let mut bars = CiRunBars::new();
    bars.apply("/work/scribe", CiRunDelta::Put(state(CiRunStatus::Running, false)));
    for root in ["/work/scribe/", "/work//scribe", "/work/./scribe"] {
        assert_eq!(bars.get(root).len(), 1, "{root}");
    }
    assert!(bars.get("work/scribe").is_empty());
    let head_sha = "0123456789abcdef".to_owned();
    bars.apply_details("/work/scribe/", CiRunDetails { head_sha, jobs: Vec::new() });
    assert!(bars.details("/work/scribe", "0123456789abcdef").is_some());
    let head_sha = "0123456789abcdef".to_owned();
    bars.apply("/work/scribe/.", CiRunDelta::Cleared { head_sha });
    assert!(bars.get("/work/scribe").is_empty());
    assert!(bars.details("/work/scribe", "0123456789abcdef").is_none());
}
