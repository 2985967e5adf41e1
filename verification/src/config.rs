//! Noticing that the configuration changed, and finding out what a changed
//! configuration changes.

use vstd::prelude::*;

use crate::keybindings::{Bindings, KeybindingsConfig};
use crate::path::{components, components_of};
use crate::text::{chars_of, same_chars, str_eq, texts};

verus! {

// ---- Which changes matter ----

/// What happened to a file.
#[derive(Debug, Clone, Copy, PartialEq, Eq, Structural)]
pub enum ChangeKind {
    Create,
    Modify,
    Other,
}

/// Whether a path matters: it is the configuration itself, or something of a theme.
pub open spec fn is_relevant(path: Seq<char>) -> bool {
    let parts = components(path);
    (parts.len() > 0 && parts.last() == "config.toml"@) || parts.contains("themes"@)
}

/// Whether a path matters.
pub fn is_relevant_config_event_path(path: &str) -> (r: bool)
    ensures
        r == is_relevant(path@),
{
    let chars = chars_of(path);
    let parts = components_of(chars.as_slice());
    let ghost model = components(path@);
    let file = chars_of("config.toml");
    let themes = chars_of("themes");
    proof {
        assert(texts(parts@).len() == parts@.len());
    }
    if parts.len() > 0 {
        proof {
            assert(model.last() == parts@[parts@.len() - 1]@);
        }
        if same_chars(parts[parts.len() - 1].as_slice(), file.as_slice()) {
            return true;
        }
    }
    let mut i: usize = 0;
    while i < parts.len()
        invariant
            i <= parts@.len(),
            model == texts(parts@),
            model == components(path@),
            model.len() == parts@.len(),
            themes@ == "themes"@,
            forall|k: int| 0 <= k < i ==> (#[trigger] model[k]) != "themes"@,
        decreases parts@.len() - i,
    {
        proof {
            assert(model[i as int] == parts@[i as int]@);
        }
        if same_chars(parts[i].as_slice(), themes.as_slice()) {
            return true;
        }
        i += 1;
    }
    false
}

/// Whether an event makes the configuration be read again: a file was made or changed
/// that matters.
pub fn is_relevant_event(kind: ChangeKind, paths: &[String]) -> (r: bool)
    ensures
        r == (kind != ChangeKind::Other && exists|i: int|
            0 <= i < paths@.len() && is_relevant((#[trigger] paths@[i])@)),
{
    if let ChangeKind::Other = kind {
        return false;
    }
    let mut i: usize = 0;
    while i < paths.len()
        invariant
            i <= paths@.len(),
            kind != ChangeKind::Other,
            forall|k: int| 0 <= k < i ==> !is_relevant((#[trigger] paths@[k])@),
        decreases paths@.len() - i,
    {
        if is_relevant_config_event_path(paths[i].as_str()) {
            proof {
                assert(is_relevant(paths@[i as int]@));
            }
            return true;
        }
        i += 1;
    }
    false
}

// ---- Noticing ----

/// A counter that moves whenever the configuration changed.
#[derive(Debug)]
pub struct ConfigChangeSignal {
    pub generation: u64,
}

impl ConfigChangeSignal {
    /// Nothing changed yet.
    pub fn new() -> (r: Self)
        ensures
            r.generation == 0,
    {
        ConfigChangeSignal { generation: 0 }
    }

    /// Where the counter is.
    pub fn generation(&self) -> (r: u64)
        ensures
            r == self.generation,
    {
        self.generation
    }

    /// The configuration changed.
    pub fn signal(&mut self)
        ensures
            final(self).generation == signalled(old(self).generation),
    {
        if self.generation == u64::MAX {
            self.generation = 0;
        } else {
            self.generation += 1;
        }
    }

    /// Whether the counter moved since it was last looked at, which it then was.
    pub fn take_change(&self, seen: &mut u64) -> (r: bool)
        ensures
            r == (self.generation != *old(seen)),
            *final(seen) == self.generation,
    {
        let changed = self.generation != *seen;
        *seen = self.generation;
        changed
    }
}

/// The counter after a change.
pub open spec fn signalled(generation: u64) -> u64 {
    if generation == u64::MAX {
        0
    } else {
        (generation + 1) as u64
    }
}

/// The counter after so many changes.
pub open spec fn signalled_times(generation: u64, n: nat) -> u64
    decreases n,
{
    if n == 0 {
        generation
    } else {
        signalled(signalled_times(generation, (n - 1) as nat))
    }
}

proof fn counter_is(generation: u64, n: nat)
    requires
        n <= u64::MAX,
    ensures
        signalled_times(generation, n) == if generation + n <= u64::MAX {
            generation + n
        } else {
            generation + n - u64::MAX - 1
        },
    decreases n,
{
    if n > 0 {
        counter_is(generation, (n - 1) as nat);
    }
}

/// A burst of changes is noticed, however many there are in it (but for as many as
/// the counter has values), and it is noticed once: a second look finds nothing.
pub proof fn a_burst_is_noticed_once(generation: u64, n: nat)
    requires
        0 < n <= u64::MAX,
    ensures
        signalled_times(generation, n) != generation,
{
    counter_is(generation, n);
}

// ---- What changed ----

/// How the window looks. Sizes and shares are the bits of 32-bit floating-point
/// numbers.
#[derive(Debug, PartialEq, Eq)]
pub struct AppearanceConfig {
    pub font: String,
    pub font_size_bits: u32,
    pub theme: String,
    pub opacity_bits: u32,
}

/// A configuration, with its key bindings read.
pub struct ClientConfig {
    pub appearance: AppearanceConfig,
    pub bindings: Bindings,
}

/// What a changed configuration changes.
#[derive(Debug, Clone, Copy, PartialEq, Eq, Structural)]
pub struct ReloadPlan {
    pub theme: bool,
    pub font: bool,
    pub opacity: bool,
}

impl ReloadPlan {
    pub fn theme_changed(&self) -> (r: bool)
        ensures
            r == self.theme,
    {
        self.theme
    }

    pub fn font_changed(&self) -> (r: bool)
        ensures
            r == self.font,
    {
        self.font
    }

    pub fn opacity_changed(&self) -> (r: bool)
        ensures
            r == self.opacity,
    {
        self.opacity
    }

    pub fn any_changed(&self) -> (r: bool)
        ensures
            r == (self.theme || self.font || self.opacity),
    {
        self.theme || self.font || self.opacity
    }
}

/// What one look changes against another.
pub open spec fn differences(before: AppearanceConfig, after: AppearanceConfig) -> ReloadPlan {
    ReloadPlan {
        theme: before.theme@ != after.theme@,
        font: before.font@ != after.font@ || before.font_size_bits != after.font_size_bits,
        opacity: before.opacity_bits != after.opacity_bits,
    }
}

impl ClientConfig {
    /// Takes over a changed configuration; its key bindings are always read anew.
    pub fn reload(&mut self, appearance: AppearanceConfig, keys: &KeybindingsConfig) -> (r:
        ReloadPlan)
        ensures
            r == differences(old(self).appearance, appearance),
            final(self).appearance == appearance,
            final(self).bindings.reads(*keys),
    {
        let plan = ReloadPlan {
            theme: !str_eq(self.appearance.theme.as_str(), appearance.theme.as_str()),
            font: !str_eq(self.appearance.font.as_str(), appearance.font.as_str())
                || self.appearance.font_size_bits != appearance.font_size_bits,
            opacity: self.appearance.opacity_bits != appearance.opacity_bits,
        };
        self.appearance = appearance;
        self.bindings = Bindings::parse(keys);
        plan
    }
}

/// The configuration in use, and whether a change waits to be read.
pub struct ConfigRuntime {
    pub config: ClientConfig,
    pub signal: ConfigChangeSignal,
    /// Where the counter was when it was last looked at.
    pub seen: u64,
}

impl ConfigRuntime {
    /// A configuration of which no change is known.
    pub fn detached(config: ClientConfig) -> (r: Self)
        ensures
            r.config == config,
            r.signal.generation == r.seen,
    {
        let signal = ConfigChangeSignal::new();
        let seen: u64 = signal.generation();
        ConfigRuntime { config, signal, seen }
    }

    /// The configuration changed on disk.
    pub fn signal(&mut self)
        ensures
            final(self).signal.generation == signalled(old(self).signal.generation),
            final(self).config == old(self).config,
            final(self).seen == old(self).seen,
    {
        self.signal.signal();
    }

    /// Whether a change waits to be read; it does not wait any longer then.
    pub fn take_pending(&mut self) -> (r: bool)
        ensures
            r == (old(self).signal.generation != old(self).seen),
            final(self).seen == old(self).signal.generation,
            final(self).signal == old(self).signal,
            final(self).config == old(self).config,
    {
        let mut seen: u64 = self.seen;
        let pending = self.signal.take_change(&mut seen);
        self.seen = seen;
        pending
    }

    /// Takes over a changed configuration.
    pub fn reload(&mut self, appearance: AppearanceConfig, keys: &KeybindingsConfig) -> (r:
        ReloadPlan)
        ensures
            r == differences(old(self).config.appearance, appearance),
            final(self).config.appearance == appearance,
            final(self).config.bindings.reads(*keys),
            final(self).signal == old(self).signal,
            final(self).seen == old(self).seen,
    {
        self.config.reload(appearance, keys)
    }
}

/// A configuration that is read again unchanged changes nothing.
pub proof fn unchanged_looks_change_nothing(look: AppearanceConfig)
    ensures
        differences(look, look) == (ReloadPlan { theme: false, font: false, opacity: false }),
{
}

/// Each part of the look is done again where it changed, and only there.
pub proof fn changed_looks_are_done_again(before: AppearanceConfig, after: AppearanceConfig)
    ensures
        differences(before, after).theme <==> before.theme@ != after.theme@,
        differences(before, after).font <==> before.font@ != after.font@ || before.font_size_bits
            != after.font_size_bits,
        differences(before, after).opacity <==> before.opacity_bits != after.opacity_bits,
{
}

/// A signal counts up by one, and round to zero.
pub proof fn signals_count_up(generation: u64)
    ensures
        generation < u64::MAX ==> signalled(generation) == generation + 1,
        generation == u64::MAX ==> signalled(generation) == 0,
{
}

/// A change matters where the file is the configuration, wherever it is, or lies under a
/// directory of themes.
pub proof fn relevant_paths(path: Seq<char>, i: int)
    ensures
        ({
            let parts = components(path);
            &&& parts.len() > 0 && parts[parts.len() - 1] == "config.toml"@ ==> is_relevant(path)
            &&& 0 <= i < parts.len() && parts[i] == "themes"@ ==> is_relevant(path)
            &&& is_relevant(path) ==> (parts.len() > 0 && parts[parts.len() - 1]
                == "config.toml"@) || exists|k: int|
                0 <= k < parts.len() && #[trigger] parts[k] == "themes"@
        }),
{
}

/// A change is told once: who has asked is told nothing until there is another.
pub proof fn changes_are_told_once(signal: &ConfigChangeSignal, a: bool, b: bool)
    ensures
        forall|first: &mut u64, second: &mut u64|
            #[trigger] call_ensures(ConfigChangeSignal::take_change, (signal, first), a)
                && #[trigger] call_ensures(ConfigChangeSignal::take_change, (signal, second), b)
                && *second == *final(first) ==> {
                &&& !b
                &&& a <==> signal.generation != *first
                &&& *final(second) == signal.generation
            },
        forall|runtime: &mut ConfigRuntime|
            #[trigger] call_ensures(ConfigRuntime::take_pending, (runtime,), a) ==> {
                &&& a <==> runtime.signal.generation != runtime.seen
                &&& final(runtime).seen == runtime.signal.generation
                &&& final(runtime).config == runtime.config
            },
{
}

/// Without a file that matters, or with a change of no known kind, there is no reload.
pub proof fn only_files_that_matter_are_reloaded(kind: ChangeKind, paths: &[String], r: bool)
    requires
        call_ensures(is_relevant_event, (kind, paths), r),
    ensures
        r ==> kind != ChangeKind::Other,
        r ==> exists|k: int| 0 <= k < paths@.len() && is_relevant((#[trigger] paths@[k])@),
{
}

} // verus!
