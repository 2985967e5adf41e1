//! Repairing the bundled integrations with coding tools at startup: which of them
//! need it, which scripts do it, and what their runs came to. One of the tools goes by
//! a name that its files are called after.

use vstd::prelude::*;

use crate::server_process::signed;
use crate::text::{
    chars_of, contains, from_utf8_lossy, lines, lines_of, lossy, occurs_in, push_decimal,
    push_text, str_eq, string_of, strings, texts, trim, trimmed,
};

verus! {

// ---- What the tools' settings say ----

/// Whether a line registers a hook for the end of a session.
pub open spec fn registers(line: Seq<char>, hook: Seq<char>) -> bool {
    occurs_in(hook, line) && occurs_in("session_end"@, line)
}

/// Whether settings register a hook for the end of a session.
pub open spec fn has_hook(contents: Seq<char>, hook: Seq<char>) -> bool {
    exists|i: int|
        0 <= i < lines(contents).len() && registers(#[trigger] lines(contents)[i], hook)
}

/// Whether settings register a hook for the end of a session.
fn has_session_end_hook(contents: &str, expected_hook: &str) -> (r: bool)
    ensures
        r == has_hook(contents@, expected_hook@),
{
    let chars = chars_of(contents);
    let all = lines_of(chars.as_slice());
    let hook = chars_of(expected_hook);
    let event = chars_of("session_end");
    let ghost model = lines(contents@);
    proof {
        assert(texts(all@).len() == all@.len());
    }
    let mut i: usize = 0;
    while i < all.len()
        invariant
            i <= all@.len(),
            model == texts(all@),
            model == lines(contents@),
            model.len() == all@.len(),
            hook@ == expected_hook@,
            event@ == "session_end"@,
            forall|k: int| 0 <= k < i ==> !registers(#[trigger] model[k], expected_hook@),
        decreases all@.len() - i,
    {
        let line = all[i].as_slice();
        proof {
            assert(model[i as int] == line@);
        }
        if contains(line, hook.as_slice()) && contains(line, event.as_slice()) {
            proof {
                assert(registers(model[i as int], expected_hook@));
            }
            return true;
        }
        i += 1;
    }
    false
}

/// The keys at the top of a JSON text; none where it holds something else than an
/// object, and nothing where it is not JSON.
pub uninterp spec fn json_keys(text: Seq<char>) -> Option<Seq<Seq<char>>>;

/// `serde_json::from_str` reads a text as JSON; where it is an object, these are its
/// keys. That is a function of the text alone. Which texts are JSON is not stated.
#[verifier::external_body]
fn json_root_keys(text: &str) -> (r: Option<Vec<String>>)
    ensures
        match (r, json_keys(text@)) {
            (Some(keys), Some(names)) => strings(keys@) == names,
            (None, None) => true,
            _ => false,
        },
{
    match serde_json::from_str::<serde_json::Value>(text) {
        Ok(serde_json::Value::Object(root)) => Some(root.keys().cloned().collect()),
        Ok(_) => Some(Vec::new()),
        Err(_) => None,
    }
}

/// Whether the named tool's settings need repair: they are not JSON, or the hook is missing,
/// or the status line is missing or an outdated one of ours. A status line of the
/// user's own stays.
pub open spec fn claude_stale(
    keys: Option<Seq<Seq<char>>>,
    contents: Seq<char>,
    hook: Seq<char>,
    statusline: Seq<char>,
) -> bool {
    match keys {
        None => true,
        Some(names) => {
            ||| !has_hook(contents, hook)
            ||| !occurs_in(statusline, contents) && (!names.contains("statusLine"@) || occurs_in(
                "ai-hook-statusline.sh"@,
                contents,
            ))
        },
    }
}

fn has_key(keys: &Vec<String>, key: &str) -> (r: bool)
    ensures
        r == strings(keys@).contains(key@),
{
    let mut i: usize = 0;
    while i < keys.len()
        invariant
            i <= keys@.len(),
            forall|k: int| 0 <= k < i ==> (#[trigger] keys@[k])@ != key@,
        decreases keys@.len() - i,
    {
        if str_eq(keys[i].as_str(), key) {
            proof {
                assert(strings(keys@)[i as int] == key@);
            }
            return true;
        }
        i += 1;
    }
    proof {
        assert forall|k: int| 0 <= k < strings(keys@).len() implies (#[trigger] strings(keys@)[k])
            != key@ by {
            assert(keys@[k]@ != key@);
        }
    }
    false
}

/// Whether the named tool's settings need repair; the keys at the top of the settings
/// are given.
pub fn claude_is_stale(
    keys: &Option<Vec<String>>,
    contents: &str,
    expected_hook: &str,
    expected_statusline: &str,
) -> (r: bool)
    ensures
        r == claude_stale(
            match *keys {
                Some(names) => Some(strings(names@)),
                None => None,
            },
            contents@,
            expected_hook@,
            expected_statusline@,
        ),
{
    let names = match keys {
        Some(names) => names,
        None => {
            return true;
        },
    };
    if !has_session_end_hook(contents, expected_hook) {
        return true;
    }
    let text = chars_of(contents);
    let current = chars_of(expected_statusline);
    let ours = chars_of("ai-hook-statusline.sh");
    let has_current = contains(text.as_slice(), current.as_slice());
    let has_ours = contains(text.as_slice(), ours.as_slice());
    let has_any = has_key(names, "statusLine");
    !has_current && (!has_any || has_ours)
}

/// Whether the named tool's settings need repair.
pub fn needs_claude_setup(contents: &str, expected_hook: &str, expected_statusline: &str) -> (r:
    bool)
    ensures
        r == claude_stale(
            json_keys(contents@),
            contents@,
            expected_hook@,
            expected_statusline@,
        ),
{
    let keys = json_root_keys(contents);
    claude_is_stale(&keys, contents, expected_hook, expected_statusline)
}

/// Whether the hook is registered in a file that may not be there.
pub open spec fn file_has_hook(contents: Option<Seq<char>>, hook: Seq<char>) -> bool {
    match contents {
        Some(text) => has_hook(text, hook),
        None => false,
    }
}

/// What a file amounts to that may not be there.
pub open spec fn text_view(contents: Option<&str>) -> Option<Seq<char>> {
    match contents {
        Some(text) => Some(text@),
        None => None,
    }
}

/// Whether Codex's settings need repair: the hook is in neither of its two files.
pub fn needs_codex_setup(
    config_contents: Option<&str>,
    hooks_contents: Option<&str>,
    expected_hook: &str,
) -> (r: bool)
    ensures
        r == (!file_has_hook(text_view(config_contents), expected_hook@) && !file_has_hook(
            text_view(hooks_contents),
            expected_hook@,
        )),
{
    let in_config = match config_contents {
        Some(text) => has_session_end_hook(text, expected_hook),
        None => false,
    };
    let in_hooks = match hooks_contents {
        Some(text) => has_session_end_hook(text, expected_hook),
        None => false,
    };
    !in_config && !in_hooks
}

/// A tool whose settings hold the hook and the status line is left alone.
pub proof fn fresh_settings_are_left_alone(
    keys: Seq<Seq<char>>,
    contents: Seq<char>,
    hook: Seq<char>,
    statusline: Seq<char>,
)
    requires
        has_hook(contents, hook),
        occurs_in(statusline, contents),
    ensures
        !claude_stale(Some(keys), contents, hook, statusline),
{
}

/// A status line of the user's own is left alone.
pub proof fn own_status_lines_are_left_alone(
    keys: Seq<Seq<char>>,
    contents: Seq<char>,
    hook: Seq<char>,
    statusline: Seq<char>,
)
    requires
        has_hook(contents, hook),
        keys.contains("statusLine"@),
        !occurs_in("ai-hook-statusline.sh"@, contents),
    ensures
        !claude_stale(Some(keys), contents, hook, statusline),
{
}

// ---- What to run ----

/// A file in a directory.
pub open spec fn in_dir(dir: Seq<char>, name: Seq<char>) -> Seq<char> {
    if dir.len() == 0 || dir.last() == '/' {
        dir + name
    } else {
        dir + "/"@ + name
    }
}

/// A file in a directory.
fn join_path(dir: &str, name: &str) -> (r: String)
    ensures
        r@ == in_dir(dir@, name@),
{
    let chars = chars_of(dir);
    let mut path = dir.to_owned();
    if chars.len() > 0 && chars[chars.len() - 1] != '/' {
        push_text(&mut path, "/");
    }
    push_text(&mut path, name);
    path
}

/// A run of a setup script: the script, how it is told where the bundled files are,
/// and where they are.
#[derive(Debug, PartialEq, Eq)]
pub struct SetupRun {
    pub script: String,
    pub source_flag: String,
    pub resources_dir: String,
}

/// What a run amounts to.
#[verifier::ext_equal]
pub struct RunModel {
    pub script: Seq<char>,
    pub source_flag: Seq<char>,
    pub resources_dir: Seq<char>,
}

impl View for SetupRun {
    type V = RunModel;

    open spec fn view(&self) -> RunModel {
        RunModel {
            script: self.script@,
            source_flag: self.source_flag@,
            resources_dir: self.resources_dir@,
        }
    }
}

/// The run of a script among the bundled files.
pub open spec fn run_of(resources: Seq<char>, script: Seq<char>, flag: Seq<char>) -> RunModel {
    RunModel { script: in_dir(resources, script), source_flag: flag, resources_dir: resources }
}

fn setup_run(resources_dir: &str, script: &str, source_flag: &str) -> (r: SetupRun)
    ensures
        r@ == run_of(resources_dir@, script@, source_flag@),
{
    SetupRun {
        script: join_path(resources_dir, script),
        source_flag: source_flag.to_owned(),
        resources_dir: resources_dir.to_owned(),
    }
}

/// The hook of the named tool among the bundled files.
pub open spec fn hook_file(tool: Seq<char>) -> Seq<char> {
    "ai-hook-"@ + tool + ".sh"@
}

/// The setup script of the named tool among the bundled files.
pub open spec fn setup_file(tool: Seq<char>) -> Seq<char> {
    "setup-"@ + tool + "-hooks.sh"@
}

fn named_file(front: &str, tool: &str, back: &str) -> (r: String)
    ensures
        r@ == front@ + tool@ + back@,
{
    let mut name = front.to_owned();
    push_text(&mut name, tool);
    push_text(&mut name, back);
    name
}

/// What reading a file came to.
#[derive(Debug)]
pub enum FileRead {
    Contents(String),
    Missing,
    Failed { error: String },
}

/// That a file could not be read, in words.
pub open spec fn unreadable(path: Seq<char>, error: Seq<char>) -> Seq<char> {
    "failed to read "@ + path + ": "@ + error
}

fn unreadable_text(path: &str, error: &str) -> (r: String)
    ensures
        r@ == unreadable(path@, error@),
{
    let mut text = "failed to read ".to_owned();
    push_text(&mut text, path);
    push_text(&mut text, ": ");
    push_text(&mut text, error);
    text
}

/// Whether the named tool needs repair, from reading its settings. Settings that are
/// not there do.
pub open spec fn claude_wants(
    tool: Seq<char>,
    dir: Seq<char>,
    settings: FileRead,
    resources: Seq<char>,
) -> Result<bool, Seq<char>> {
    match settings {
        FileRead::Contents(text) => Ok(
            claude_stale(
                json_keys(text@),
                text@,
                in_dir(resources, hook_file(tool)),
                in_dir(resources, "ai-hook-statusline.sh"@),
            ),
        ),
        FileRead::Missing => Ok(true),
        FileRead::Failed { error } => Err(unreadable(in_dir(dir, "settings.json"@), error@)),
    }
}

/// What a result amounts to.
pub open spec fn result_view(r: Result<bool, String>) -> Result<bool, Seq<char>> {
    match r {
        Ok(b) => Ok(b),
        Err(text) => Err(text@),
    }
}

/// Whether the named tool needs repair, from reading its settings.
pub fn claude_needs_setup(
    tool: &str,
    claude_dir: &str,
    settings: &FileRead,
    resources_dir: &str,
) -> (r: Result<bool, String>)
    ensures
        result_view(r) == claude_wants(tool@, claude_dir@, *settings, resources_dir@),
{
    match settings {
        FileRead::Contents(text) => {
            let file = named_file("ai-hook-", tool, ".sh");
            let hook = join_path(resources_dir, file.as_str());
            let statusline = join_path(resources_dir, "ai-hook-statusline.sh");
            Ok(needs_claude_setup(text.as_str(), hook.as_str(), statusline.as_str()))
        },
        FileRead::Missing => Ok(true),
        FileRead::Failed { error } => {
            let path = join_path(claude_dir, "settings.json");
            Err(unreadable_text(path.as_str(), error.as_str()))
        },
    }
}

/// The contents of a file that may not be there.
pub open spec fn contents_of(read: FileRead) -> Option<Seq<char>> {
    match read {
        FileRead::Contents(text) => Some(text@),
        _ => None,
    }
}

/// Whether Codex needs repair, from reading its two files.
pub open spec fn codex_wants(
    dir: Seq<char>,
    config: FileRead,
    hooks: FileRead,
    resources: Seq<char>,
) -> Result<bool, Seq<char>> {
    let hook = in_dir(resources, "ai-hook-codex.sh"@);
    match (config, hooks) {
        (FileRead::Failed { error }, _) => Err(unreadable(in_dir(dir, "config.toml"@), error@)),
        (_, FileRead::Failed { error }) => Err(unreadable(in_dir(dir, "hooks.json"@), error@)),
        _ => Ok(
            !file_has_hook(contents_of(config), hook) && !file_has_hook(contents_of(hooks), hook),
        ),
    }
}

fn contents_ref(read: &FileRead) -> (r: Option<&str>)
    ensures
        text_view(r) == contents_of(*read),
{
    match read {
        FileRead::Contents(text) => Some(text.as_str()),
        _ => None,
    }
}

/// Whether Codex needs repair, from reading its two files.
pub fn codex_needs_setup(
    codex_dir: &str,
    config: &FileRead,
    hooks: &FileRead,
    resources_dir: &str,
) -> (r: Result<bool, String>)
    ensures
        result_view(r) == codex_wants(codex_dir@, *config, *hooks, resources_dir@),
{
    if let FileRead::Failed { error } = config {
        let path = join_path(codex_dir, "config.toml");
        return Err(unreadable_text(path.as_str(), error.as_str()));
    }
    if let FileRead::Failed { error } = hooks {
        let path = join_path(codex_dir, "hooks.json");
        return Err(unreadable_text(path.as_str(), error.as_str()));
    }
    let hook = join_path(resources_dir, "ai-hook-codex.sh");
    Ok(needs_codex_setup(contents_ref(config), contents_ref(hooks), hook.as_str()))
}

// ---- The extension for Pi ----

/// Whether an integration is wanted.
#[derive(Debug, Clone, Copy, PartialEq, Eq, Structural)]
pub struct AiIntegrationToggle {
    pub on: bool,
}

impl AiIntegrationToggle {
    pub fn new(on: bool) -> (r: Self)
        ensures
            r.on == on,
    {
        AiIntegrationToggle { on }
    }

    pub fn enabled(&self) -> (r: bool)
        ensures
            r == self.on,
    {
        self.on
    }
}

/// Which integrations are wanted.
#[derive(Debug, Clone, Copy, PartialEq, Eq, Structural)]
pub struct AiIntegrationConfig {
    pub pi: AiIntegrationToggle,
}

impl Default for AiIntegrationConfig {
    /// They are wanted unless they are switched off.
    fn default() -> (r: Self)
        ensures
            r.pi.on,
    {
        AiIntegrationConfig { pi: AiIntegrationToggle::new(true) }
    }
}

/// Whether the integration with Pi is wanted.
pub fn pi_integration_enabled(config: &AiIntegrationConfig) -> (r: bool)
    ensures
        r == config.pi.on,
{
    config.pi.enabled()
}

/// A directory of bundled files, and whether the two that Pi needs are in it.
#[derive(Debug, PartialEq, Eq)]
pub struct PackageDir {
    pub path: String,
    pub has_extension: bool,
    pub has_setup: bool,
}

/// That a bundled file is missing, in words.
pub open spec fn missing_asset(dir: Seq<char>, name: Seq<char>) -> Seq<char> {
    "packaged Pi integration asset is missing: "@ + in_dir(dir, name)
}

/// What a text result amounts to.
pub open spec fn text_result(r: Result<String, String>) -> Result<Seq<char>, Seq<char>> {
    match r {
        Ok(text) => Ok(text@),
        Err(text) => Err(text@),
    }
}

/// A directory of bundled files is good only with both files that Pi needs.
pub open spec fn validated(dir: PackageDir) -> Result<Seq<char>, Seq<char>> {
    if !dir.has_extension {
        Err(missing_asset(dir.path@, "pi-extension.ts"@))
    } else if !dir.has_setup {
        Err(missing_asset(dir.path@, "setup-pi-extension.sh"@))
    } else {
        Ok(dir.path@)
    }
}

/// A directory of bundled files is good only with both files that Pi needs.
pub fn validate_pi_extension_resource_dir(dir: &PackageDir) -> (r: Result<String, String>)
    ensures
        text_result(r) == validated(*dir),
{
    let name = if !dir.has_extension {
        "pi-extension.ts"
    } else if !dir.has_setup {
        "setup-pi-extension.sh"
    } else {
        return Ok(dir.path.clone());
    };
    let path = join_path(dir.path.as_str(), name);
    let mut text = "packaged Pi integration asset is missing: ".to_owned();
    push_text(&mut text, path.as_str());
    Err(text)
}

/// What is known of the extension for Pi.
#[derive(Debug)]
pub struct PiView {
    /// Whether it is wanted, or why that is not known.
    pub config: Result<AiIntegrationConfig, String>,
    /// The directory that `SCRIBE_INSTALL_PREFIX` names.
    pub prefix: Option<PackageDir>,
    /// The directory in the app's bundle, where there is one.
    pub bundled: Option<PackageDir>,
    /// The shared directory of the package, where there is one.
    pub share: Option<PackageDir>,
}

/// The directory of bundled files: the one that is named, or else the bundle's, or
/// else the shared one.
pub open spec fn package_dir(view: PiView) -> Option<PackageDir> {
    match (view.prefix, view.bundled) {
        (Some(dir), _) => Some(dir),
        (None, Some(dir)) => Some(dir),
        (None, None) => view.share,
    }
}

/// The directory of bundled files, where there is one. Without any, the build is not
/// packaged.
pub fn pi_extension_resource_dir(view: &PiView) -> (r: Result<Option<String>, String>)
    ensures
        match (r, package_dir(*view)) {
            (Ok(Some(path)), Some(dir)) => validated(dir) == Ok::<Seq<char>, Seq<char>>(path@),
            (Err(text), Some(dir)) => validated(dir) == Err::<Seq<char>, Seq<char>>(text@),
            (Ok(None), None) => true,
            _ => false,
        },
{
    let dir = match &view.prefix {
        Some(dir) => dir,
        None => match &view.bundled {
            Some(dir) => dir,
            None => match &view.share {
                Some(dir) => dir,
                None => {
                    return Ok(None);
                },
            },
        },
    };
    match validate_pi_extension_resource_dir(dir) {
        Ok(path) => Ok(Some(path)),
        Err(text) => Err(text),
    }
}

/// What is done for Pi: nothing where it is not wanted or the build is not packaged.
pub open spec fn pi_wants(view: PiView) -> Result<Option<RunModel>, Seq<char>> {
    match view.config {
        Err(text) => Err(text@),
        Ok(config) => if !config.pi.on {
            Ok(None)
        } else {
            match package_dir(view) {
                None => Ok(None),
                Some(dir) => match validated(dir) {
                    Err(text) => Err(text),
                    Ok(path) => Ok(
                        Some(run_of(path, "setup-pi-extension.sh"@, "--extension-source"@)),
                    ),
                },
            }
        },
    }
}

/// What a plan for one tool amounts to.
pub open spec fn plan_view(plan: Result<Option<SetupRun>, String>) -> Result<
    Option<RunModel>,
    Seq<char>,
> {
    match plan {
        Ok(Some(run)) => Ok(Some(run@)),
        Ok(None) => Ok(None),
        Err(text) => Err(text@),
    }
}

/// What is done for Pi.
pub fn repair_pi_extension_if_enabled(view: &PiView) -> (r: Result<Option<SetupRun>, String>)
    ensures
        plan_view(r) == pi_wants(*view),
{
    match &view.config {
        Err(text) => Err(text.clone()),
        Ok(config) => {
            if !pi_integration_enabled(config) {
                return Ok(None);
            }
            match pi_extension_resource_dir(view) {
                Ok(Some(dir)) => Ok(
                    Some(
                        setup_run(dir.as_str(), "setup-pi-extension.sh", "--extension-source"),
                    ),
                ),
                Ok(None) => Ok(None),
                Err(text) => Err(text),
            }
        },
    }
}

// ---- At startup ----

/// What is known at startup.
#[derive(Debug)]
pub struct StartupView {
    pub macos: bool,
    /// Whether this is a build for development.
    pub dev: bool,
    /// The directory of bundled files in the app.
    pub resources: Option<String>,
    pub home: Option<String>,
    /// The name of the tool that goes by one.
    pub tool: String,
    /// Whether there are settings of that tool at all.
    pub has_claude: bool,
    pub claude_settings: FileRead,
    /// Whether there are settings of Codex at all.
    pub has_codex: bool,
    pub codex_config: FileRead,
    pub codex_hooks: FileRead,
    pub pi: PiView,
}

/// What is done at startup.
#[derive(Debug)]
pub struct StartupRepair {
    /// The runs for the named tool and for Codex, in order. One that fails keeps the
    /// rest from being run.
    pub runs: Vec<SetupRun>,
    /// Why there are no more of them, where something went wrong.
    pub trouble: Option<String>,
    /// What is done for Pi, whatever becomes of the others.
    pub pi: Result<Option<SetupRun>, String>,
}

/// What the repair of the two tools amounts to: the runs, and what went wrong.
#[verifier::ext_equal]
pub struct HookModel {
    pub runs: Seq<RunModel>,
    pub trouble: Option<Seq<char>>,
}

/// The runs for the two tools, where the bundled files and the home directory are
/// known.
pub open spec fn hooks_want(view: StartupView, resources: Seq<char>, home: Seq<char>) -> HookModel {
    let claude_dir = in_dir(home, "."@ + view.tool@);
    let codex_dir = in_dir(home, ".codex"@);
    let named = if view.has_claude {
        claude_wants(view.tool@, claude_dir, view.claude_settings, resources)
    } else {
        Ok(false)
    };
    let codex = if view.has_codex {
        codex_wants(codex_dir, view.codex_config, view.codex_hooks, resources)
    } else {
        Ok(false)
    };
    match named {
        Err(text) => HookModel { runs: Seq::empty(), trouble: Some(text) },
        Ok(first) => {
            let before = if first {
                seq![run_of(resources, setup_file(view.tool@), "--hook-source"@)]
            } else {
                Seq::empty()
            };
            match codex {
                Err(text) => HookModel { runs: before, trouble: Some(text) },
                Ok(second) => HookModel {
                    runs: if second {
                        before.push(run_of(resources, "setup-codex-hooks.sh"@, "--hook-source"@))
                    } else {
                        before
                    },
                    trouble: None,
                },
            }
        },
    }
}

/// The runs for the two tools. There are none on other platforms, in a build for
/// development or without bundled files.
pub open spec fn startup_wants(view: StartupView) -> HookModel {
    if !view.macos || view.dev {
        HookModel { runs: Seq::empty(), trouble: None }
    } else {
        match (view.resources, view.home) {
            (None, _) => HookModel { runs: Seq::empty(), trouble: None },
            (Some(_), None) => HookModel {
                runs: Seq::empty(),
                trouble: Some("HOME is not set"@),
            },
            (Some(resources), Some(home)) => hooks_want(view, resources@, home@),
        }
    }
}

/// What runs amount to.
pub open spec fn run_models(runs: Seq<SetupRun>) -> Seq<RunModel> {
    Seq::new(runs.len(), |i: int| runs[i]@)
}

/// What the repair of the two tools amounts to.
pub open spec fn hook_model(runs: Vec<SetupRun>, trouble: Option<String>) -> HookModel {
    HookModel {
        runs: run_models(runs@),
        trouble: match trouble {
            Some(text) => Some(text@),
            None => None,
        },
    }
}

fn repair_hooks(view: &StartupView, resources: &str, home: &str) -> (r: (
    Vec<SetupRun>,
    Option<String>,
))
    ensures
        hook_model(r.0, r.1) == hooks_want(*view, resources@, home@),
{
    let dir_name = named_file(".", view.tool.as_str(), "");
    proof {
        reveal_strlit("");
        assert(dir_name@ =~= "."@ + view.tool@);
    }
    let claude_dir = join_path(home, dir_name.as_str());
    let codex_dir = join_path(home, ".codex");
    let mut runs: Vec<SetupRun> = Vec::new();
    let ghost wanted = hooks_want(*view, resources@, home@);
    let named = if view.has_claude {
        claude_needs_setup(
            view.tool.as_str(),
            claude_dir.as_str(),
            &view.claude_settings,
            resources,
        )
    } else {
        Ok(false)
    };
    match named {
        Err(text) => {
            proof {
                assert(run_models(runs@) =~= wanted.runs);
            }
            return (runs, Some(text));
        },
        Ok(first) => {
            if first {
                let script = named_file("setup-", view.tool.as_str(), "-hooks.sh");
                runs.push(setup_run(resources, script.as_str(), "--hook-source"));
            }
        },
    }
    let codex = if view.has_codex {
        codex_needs_setup(
            codex_dir.as_str(),
            &view.codex_config,
            &view.codex_hooks,
            resources,
        )
    } else {
        Ok(false)
    };
    match codex {
        Err(text) => {
            proof {
                assert(run_models(runs@) =~= wanted.runs);
            }
            (runs, Some(text))
        },
        Ok(second) => {
            if second {
                runs.push(setup_run(resources, "setup-codex-hooks.sh", "--hook-source"));
            }
            proof {
                assert(run_models(runs@) =~= wanted.runs);
            }
            (runs, None)
        },
    }
}

fn repair_ai_hooks_on_startup_inner(view: &StartupView) -> (r: (Vec<SetupRun>, Option<String>))
    ensures
        hook_model(r.0, r.1) == startup_wants(*view),
{
    let none: Vec<SetupRun> = Vec::new();
    proof {
        assert(run_models(none@) =~= Seq::<RunModel>::empty());
    }
    if !view.macos || view.dev {
        return (none, None);
    }
    match (&view.resources, &view.home) {
        (None, _) => (none, None),
        (Some(_), None) => (none, Some("HOME is not set".to_owned())),
        (Some(resources), Some(home)) => repair_hooks(view, resources.as_str(), home.as_str()),
    }
}

/// What is done at startup. Trouble with one tool never keeps Pi from being repaired.
pub fn repair_ai_hooks_on_startup(view: &StartupView) -> (r: StartupRepair)
    ensures
        hook_model(r.runs, r.trouble) == startup_wants(*view),
        plan_view(r.pi) == pi_wants(view.pi),
{
    let (runs, trouble) = repair_ai_hooks_on_startup_inner(view);
    StartupRepair { runs, trouble, pi: repair_pi_extension_if_enabled(&view.pi) }
}

// ---- What a run came to ----

/// A run of a script.
#[derive(Debug)]
pub enum ScriptRun {
    /// There is no such script.
    Missing,
    /// It could not be run.
    NotLaunched { error: String },
    /// It ended; without a code where a signal ended it.
    Ended { success: bool, code: Option<i32>, stdout: Vec<u8>, stderr: Vec<u8> },
}

/// A text, or that there is none.
pub open spec fn or_empty(text: Seq<char>) -> Seq<char> {
    if text.len() == 0 {
        "<empty>"@
    } else {
        text
    }
}

/// How a script ended, in words.
pub open spec fn ending(code: Option<i32>) -> Seq<char> {
    match code {
        Some(code) => "code "@ + signed(code as int),
        None => "signal"@,
    }
}

/// That a script failed, in words.
pub open spec fn failed_run(
    script: Seq<char>,
    code: Option<i32>,
    stdout: Seq<char>,
    stderr: Seq<char>,
) -> Seq<char> {
    script + " exited with "@ + ending(code) + " (stdout: "@ + or_empty(stdout) + "; stderr: "@
        + or_empty(stderr) + ")"@
}

fn push_or_empty(text: &mut String, part: &str)
    ensures
        final(text)@ == old(text)@ + or_empty(part@),
{
    if part.is_empty() {
        push_text(text, "<empty>");
    } else {
        push_text(text, part);
    }
}

/// That a script failed, in words.
pub fn failure_text(script: &str, code: Option<i32>, stdout: &str, stderr: &str) -> (r: String)
    ensures
        r@ == failed_run(script@, code, stdout@, stderr@),
{
    let mut text = script.to_owned();
    push_text(&mut text, " exited with ");
    let ghost before = text@;
    match code {
        Some(code) => {
            push_text(&mut text, "code ");
            let value: i64 = code as i64;
            if value < 0 {
                push_text(&mut text, "-");
                push_decimal(&mut text, (-value) as u64);
            } else {
                push_decimal(&mut text, value as u64);
            }
        },
        None => {
            push_text(&mut text, "signal");
        },
    }
    proof {
        assert(text@ =~= before + ending(code));
    }
    push_text(&mut text, " (stdout: ");
    push_or_empty(&mut text, stdout);
    push_text(&mut text, "; stderr: ");
    push_or_empty(&mut text, stderr);
    push_text(&mut text, ")");
    proof {
        assert(text@ =~= failed_run(script@, code, stdout@, stderr@));
    }
    text
}

/// What a run of a script came to: what it wrote, without white space at the ends, or
/// what went wrong.
pub open spec fn run_result(script: Seq<char>, run: ScriptRun) -> Result<
    (Seq<char>, Seq<char>),
    Seq<char>,
> {
    match run {
        ScriptRun::Missing => Err("setup script "@ + script + " is missing"@),
        ScriptRun::NotLaunched { error } => Err(
            "failed to launch "@ + script + ": "@ + error@,
        ),
        ScriptRun::Ended { success, code, stdout, stderr } => if success {
            Ok((trim(lossy(stdout@)), trim(lossy(stderr@))))
        } else {
            Err(failed_run(script, code, trim(lossy(stdout@)), trim(lossy(stderr@))))
        },
    }
}

fn trimmed_text(bytes: &Vec<u8>) -> (r: String)
    ensures
        r@ == trim(lossy(bytes@)),
{
    let text = from_utf8_lossy(bytes.as_slice());
    let chars = chars_of(text.as_str());
    string_of(trimmed(chars.as_slice()))
}

/// What a run of a script came to.
pub fn run_setup_script(script: &str, run: &ScriptRun) -> (r: Result<(String, String), String>)
    ensures
        match (r, run_result(script@, *run)) {
            (Ok((out, err)), Ok((a, b))) => out@ == a && err@ == b,
            (Err(text), Err(words)) => text@ == words,
            _ => false,
        },
{
    match run {
        ScriptRun::Missing => {
            let mut text = "setup script ".to_owned();
            push_text(&mut text, script);
            push_text(&mut text, " is missing");
            Err(text)
        },
        ScriptRun::NotLaunched { error } => {
            let mut text = "failed to launch ".to_owned();
            push_text(&mut text, script);
            push_text(&mut text, ": ");
            push_text(&mut text, error.as_str());
            Err(text)
        },
        ScriptRun::Ended { success, code, stdout, stderr } => {
            let out = trimmed_text(stdout);
            let err = trimmed_text(stderr);
            if *success {
                Ok((out, err))
            } else {
                Err(failure_text(script, *code, out.as_str(), err.as_str()))
            }
        },
    }
}

/// Nothing is run for the two tools but on a packaged macOS build.
pub proof fn other_platforms_are_left_alone(view: StartupView)
    requires
        !view.macos || view.dev || view.resources is None,
    ensures
        startup_wants(view).runs.len() == 0,
        startup_wants(view).trouble is None,
{
}

/// At most one script is run for each tool, and that of the named one comes first.
pub proof fn scripts_run_once(view: StartupView)
    ensures
        startup_wants(view).runs.len() <= 2,
        view.resources matches Some(resources) ==> {
            let runs = startup_wants(view).runs;
            let named = run_of(resources@, setup_file(view.tool@), "--hook-source"@);
            let codex = run_of(resources@, "setup-codex-hooks.sh"@, "--hook-source"@);
            &&& runs.len() == 2 ==> runs == seq![named, codex]
            &&& runs.len() == 1 ==> runs[0] == named || runs[0] == codex
        },
{
    if let Some(resources) = view.resources {
        let runs = startup_wants(view).runs;
        let named = run_of(resources@, setup_file(view.tool@), "--hook-source"@);
        let codex = run_of(resources@, "setup-codex-hooks.sh"@, "--hook-source"@);
        if runs.len() == 2 {
            assert(runs =~= seq![named, codex]);
        }
    }
}

/// A hook counts only where one line registers both it and the end of a session.
pub proof fn hooks_are_registered_on_one_line(contents: Seq<char>, hook: Seq<char>, i: int)
    ensures
        0 <= i < lines(contents).len() && occurs_in(hook, lines(contents)[i]) && occurs_in(
            "session_end"@,
            lines(contents)[i],
        ) ==> has_hook(contents, hook),
        (forall|k: int|
            0 <= k < lines(contents).len() ==> !occurs_in(hook, #[trigger] lines(contents)[k])
                || !occurs_in("session_end"@, lines(contents)[k])) ==> !has_hook(contents, hook),
{
    if 0 <= i < lines(contents).len() && occurs_in(hook, lines(contents)[i]) && occurs_in(
        "session_end"@,
        lines(contents)[i],
    ) {
        assert(registers(lines(contents)[i], hook));
    }
}

/// Settings are set up anew where they cannot be read, where the hook is missing, where
/// there is no status line, and where the status line is an older one of ours.
pub proof fn stale_settings_are_set_up_anew(
    keys: Seq<Seq<char>>,
    contents: Seq<char>,
    hook: Seq<char>,
    statusline: Seq<char>,
)
    ensures
        claude_stale(None, contents, hook, statusline),
        !has_hook(contents, hook) ==> claude_stale(Some(keys), contents, hook, statusline),
        !occurs_in(statusline, contents) && !keys.contains("statusLine"@) ==> claude_stale(
            Some(keys),
            contents,
            hook,
            statusline,
        ),
        !occurs_in(statusline, contents) && occurs_in("ai-hook-statusline.sh"@, contents)
            ==> claude_stale(Some(keys), contents, hook, statusline),
{
}

/// A file in a directory is written with exactly one slash between them.
pub proof fn one_slash_stands_between(dir: Seq<char>, name: Seq<char>)
    ensures
        dir.len() > 0 && dir.last() != '/' ==> in_dir(dir, name) == dir + seq!['/'] + name,
        in_dir(dir + seq!['/'], name) == dir + seq!['/'] + name,
        in_dir(Seq::empty(), name) == name,
{
    reveal_strlit("/");
    assert("/"@ =~= seq!['/']);
    assert(Seq::<char>::empty() + name =~= name);
}

/// The hook of Codex may stand in either of its files. It is set up where it stands in
/// neither, and a file that cannot be read is told.
pub proof fn codex_has_two_files(
    dir: Seq<char>,
    config: FileRead,
    hooks: FileRead,
    resources: Seq<char>,
)
    ensures
        ({
            let hook = in_dir(resources, "ai-hook-codex.sh"@);
            let registered = |read: FileRead|
                read matches FileRead::Contents(text) && has_hook(text@, hook);
            let wants = codex_wants(dir, config, hooks, resources);
            &&& config is Failed || hooks is Failed <==> wants is Err
            &&& wants matches Ok(wanted) ==> (wanted <==> !registered(config)
                && !registered(hooks))
            &&& config matches FileRead::Failed { error } ==> wants == Err::<bool, Seq<char>>(
                "failed to read "@ + in_dir(dir, "config.toml"@) + ": "@ + error@,
            )
            &&& !(config is Failed) ==> (hooks matches FileRead::Failed { error } ==> wants
                == Err::<bool, Seq<char>>(
                "failed to read "@ + in_dir(dir, "hooks.json"@) + ": "@ + error@,
            ))
        }),
{
}

/// Settings that are not there are set up, and ones that cannot be read are told.
pub proof fn missing_settings_are_set_up(
    tool: Seq<char>,
    dir: Seq<char>,
    error: String,
    resources: Seq<char>,
)
    ensures
        claude_wants(tool, dir, FileRead::Missing, resources) == Ok::<bool, Seq<char>>(true),
        claude_wants(tool, dir, FileRead::Failed { error }, resources) == Err::<bool, Seq<char>>(
            "failed to read "@ + in_dir(dir, "settings.json"@) + ": "@ + error@,
        ),
{
}

/// The extension of Pi is set up only where it is wanted and packaged: from the named
/// directory, or else the bundled one, or else the shared one. An asset that is missing
/// from there is told, the extension before the script.
pub proof fn pi_is_set_up_from_its_package(view: PiView)
    ensures
        ({
            let dir = if view.prefix is Some {
                view.prefix
            } else if view.bundled is Some {
                view.bundled
            } else {
                view.share
            };
            &&& view.config matches Err(text) ==> pi_wants(view) == Err::<
                Option<RunModel>,
                Seq<char>,
            >(text@)
            &&& view.config matches Ok(config) ==> {
                &&& !config.pi.on || dir is None ==> pi_wants(view) == Ok::<
                    Option<RunModel>,
                    Seq<char>,
                >(None)
                &&& config.pi.on && dir is Some && dir->0.has_extension && dir->0.has_setup
                    ==> pi_wants(view) == Ok::<Option<RunModel>, Seq<char>>(
                    Some(
                        RunModel {
                            script: in_dir(dir->0.path@, "setup-pi-extension.sh"@),
                            source_flag: "--extension-source"@,
                            resources_dir: dir->0.path@,
                        },
                    ),
                )
                &&& config.pi.on && dir is Some && !dir->0.has_extension ==> pi_wants(view)
                    == Err::<Option<RunModel>, Seq<char>>(
                    "packaged Pi integration asset is missing: "@ + in_dir(
                        dir->0.path@,
                        "pi-extension.ts"@,
                    ),
                )
                &&& config.pi.on && dir is Some && dir->0.has_extension && !dir->0.has_setup
                    ==> pi_wants(view) == Err::<Option<RunModel>, Seq<char>>(
                    "packaged Pi integration asset is missing: "@ + in_dir(
                        dir->0.path@,
                        "setup-pi-extension.sh"@,
                    ),
                )
            }
        }),
{
}

/// The named tool comes before Codex. Each is set up where it has settings that want it,
/// and what cannot be found out about one keeps those behind it from being set up.
pub proof fn tools_are_set_up_in_turn(view: StartupView, resources: Seq<char>, home: Seq<char>)
    ensures
        ({
            let named = claude_wants(
                view.tool@,
                in_dir(home, "."@ + view.tool@),
                view.claude_settings,
                resources,
            );
            let codex = codex_wants(
                in_dir(home, ".codex"@),
                view.codex_config,
                view.codex_hooks,
                resources,
            );
            let wants = hooks_want(view, resources, home);
            let first = RunModel {
                script: in_dir(resources, "setup-"@ + view.tool@ + "-hooks.sh"@),
                source_flag: "--hook-source"@,
                resources_dir: resources,
            };
            let second = RunModel {
                script: in_dir(resources, "setup-codex-hooks.sh"@),
                source_flag: "--hook-source"@,
                resources_dir: resources,
            };
            let first_wanted = view.has_claude && named == Ok::<bool, Seq<char>>(true);
            let second_wanted = view.has_codex && codex == Ok::<bool, Seq<char>>(true);
            &&& view.has_claude && named is Err ==> wants.runs.len() == 0 && wants.trouble == Some(
                named->Err_0,
            )
            &&& !(view.has_claude && named is Err) ==> {
                &&& wants.runs.contains(first) || !first_wanted
                &&& wants.trouble is Some <==> view.has_codex && codex is Err
                &&& first_wanted && second_wanted ==> wants.runs == seq![first, second]
                &&& first_wanted && !second_wanted ==> wants.runs == seq![first]
                &&& !first_wanted && second_wanted ==> wants.runs == seq![second]
                &&& !first_wanted && !second_wanted ==> wants.runs.len() == 0
            }
        }),
{
    let wants = hooks_want(view, resources, home);
    let first = run_of(resources, setup_file(view.tool@), "--hook-source"@);
    if wants.runs.len() > 0 && wants.runs[0] == first {
        assert(wants.runs.contains(first));
    }
}

/// On a Mac, outside development, the tools are set up as they want it; without a home
/// directory that is told.
pub proof fn macs_are_set_up(view: StartupView)
    requires
        view.macos,
        !view.dev,
        view.resources is Some,
    ensures
        view.home is Some ==> startup_wants(view) == hooks_want(
            view,
            view.resources->0@,
            view.home->0@,
        ),
        view.home is None ==> startup_wants(view).runs.len() == 0 && startup_wants(view).trouble
            == Some("HOME is not set"@),
{
}

/// A script that ran well gives what it wrote, trimmed. One that did not is told with its
/// code, or with a signal where it has none, and what it wrote.
pub proof fn script_runs_are_told(
    script: Seq<char>,
    code: Option<i32>,
    stdout: Vec<u8>,
    stderr: Vec<u8>,
    error: String,
)
    ensures
        ({
            let out = trim(lossy(stdout@));
            let err = trim(lossy(stderr@));
            let shown = |text: Seq<char>|
                if text.len() == 0 {
                    "<empty>"@
                } else {
                    text
                };
            let ended = |success: bool|
                run_result(script, ScriptRun::Ended { success, code, stdout, stderr });
            &&& ended(true) == Ok::<(Seq<char>, Seq<char>), Seq<char>>((out, err))
            &&& ended(false) == Err::<(Seq<char>, Seq<char>), Seq<char>>(
                script + " exited with "@ + (if code is Some {
                    "code "@ + signed(code->0 as int)
                } else {
                    "signal"@
                }) + " (stdout: "@ + shown(out) + "; stderr: "@ + shown(err) + ")"@,
            )
            &&& run_result(script, ScriptRun::Missing) == Err::<
                (Seq<char>, Seq<char>),
                Seq<char>,
            >("setup script "@ + script + " is missing"@)
            &&& run_result(script, ScriptRun::NotLaunched { error }) == Err::<
                (Seq<char>, Seq<char>),
                Seq<char>,
            >("failed to launch "@ + script + ": "@ + error@)
        }),
{
}

} // verus!
