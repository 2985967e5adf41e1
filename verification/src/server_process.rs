//! The server as a process: which processes run, why one of them is in the way, and
//! what the files say that start it.

use vstd::prelude::*;
use vstd::utf8::{decode_utf8, valid_utf8};

use crate::path::{same_path, same_path_text};
use crate::text::{
    all_white, chars_of, decimal, from_utf8, is_space, is_white_space, leading_space_of, lines,
    lines_of, number_up_to, parse_number, push_decimal, push_text, same_chars, texts, trim,
    trim_start, trimmed, trimmed_start,
};

verus! {

/// How long each old client may take to end after the server was restarted, in
/// seconds.
pub const CLIENT_EXIT_TIMEOUT_SECS: u64 = 15;

/// How long to wait for what the old clients left behind, in seconds.
pub const CLIENT_SETTLE_SECS: u64 = 1;

/// How long a server that was started may take to answer, in seconds.
pub const SERVER_STARTUP_TIMEOUT_SECS: u64 = 5;

/// How long a server that takes over from another may take, in seconds.
pub const SERVER_REFRESH_TIMEOUT_SECS: u64 = 10;

/// How long to wait between two attempts to connect, in milliseconds.
pub const SERVER_RETRY_INTERVAL_MS: u64 = 100;

// ---- What can go wrong ----

/// A number with its sign.
pub open spec fn signed(n: int) -> Seq<char> {
    if n < 0 {
        "-"@ + decimal((-n) as nat)
    } else {
        decimal(n as nat)
    }
}

fn push_signed(text: &mut String, n: i32)
    ensures
        final(text)@ == old(text)@ + signed(n as int),
{
    let value: i64 = n as i64;
    if value < 0 {
        push_text(text, "-");
        push_decimal(text, (-value) as u64);
    } else {
        push_decimal(text, value as u64);
    }
    proof {
        assert(text@ =~= old(text)@ + signed(n as int));
    }
}

/// Numbers with commas between them.
pub open spec fn comma_list(pids: Seq<u32>) -> Seq<char>
    decreases pids.len(),
{
    if pids.len() == 0 {
        Seq::empty()
    } else if pids.len() == 1 {
        decimal(pids[0] as nat)
    } else {
        comma_list(pids.drop_last()) + ", "@ + decimal(pids.last() as nat)
    }
}

/// Numbers with commas between them, in brackets.
pub open spec fn pid_list(pids: Seq<u32>) -> Seq<char> {
    "["@ + comma_list(pids) + "]"@
}

fn push_pids(text: &mut String, pids: &Vec<u32>)
    ensures
        final(text)@ == old(text)@ + pid_list(pids@),
{
    push_text(text, "[");
    let ghost before = text@;
    let mut i: usize = 0;
    proof {
        assert(pids@.take(0) =~= Seq::<u32>::empty());
        assert(text@ =~= before + comma_list(pids@.take(0)));
    }
    while i < pids.len()
        invariant
            i <= pids@.len(),
            text@ == before + comma_list(pids@.take(i as int)),
        decreases pids@.len() - i,
    {
        if i > 0 {
            push_text(text, ", ");
        }
        push_decimal(text, pids[i] as u64);
        i += 1;
        proof {
            assert(pids@.take(i as int).drop_last() =~= pids@.take(i - 1));
            assert(text@ =~= before + comma_list(pids@.take(i as int)));
        }
    }
    push_text(text, "]");
    proof {
        assert(pids@.take(pids@.len() as int) =~= pids@);
        assert(text@ =~= old(text)@ + pid_list(pids@));
    }
}

/// What went wrong with a process.
#[derive(Debug, PartialEq, Eq)]
#[allow(inconsistent_fields)]
pub enum Trouble {
    /// `pgrep` could not be run.
    PgrepFailed { name: String, error: String },
    /// `pgrep` failed.
    PgrepExited { name: String, status: String },
    /// `pgrep` could not be run for the server.
    ServerPgrepFailed { error: String },
    /// Clients outlived the restart.
    ClientsLinger { pids: Vec<u32> },
    /// No new client could be started.
    RelaunchFailed { exe: String, error: String },
    /// The restarted server does not answer.
    NotReadyAfterRestart { secs: u64 },
    /// The server does not answer.
    NotReady { secs: u64 },
    /// A process could not be asked to end.
    SignalFailed { label: String, pid: i32, error: String },
    /// Asking a process to end failed.
    SignalExited { label: String, pid: i32, status: String },
    /// A process could not be made to end.
    KillFailed { label: String, pid: i32, error: String },
    /// Making a process end failed.
    KillExited { label: String, pid: i32, status: String },
    /// A process did not end.
    Lingers { label: String, pid: i32 },
    /// This platform has no restart.
    RestartUnsupported,
    /// This platform has no service to start.
    StartUnsupported,
    /// `systemctl` could not be run.
    SystemctlFailed { error: String },
    /// `systemctl` failed.
    SystemctlExited { status: String },
    /// There is no home directory.
    NoHome { error: String },
    /// The directory of agents could not be made.
    NoAgentsDir { error: String },
    /// The client does not know where it is.
    NoOwnPath { error: String },
    /// The server is not where it should be.
    NoServerFile { path: String },
    /// The server could not be run.
    SpawnFailed { error: String },
    /// The agent's file could not be read.
    PlistUnreadable { path: String, error: String },
    /// The agent's file could not be written.
    PlistUnwritable { path: String, error: String },
    /// The agent could not be loaded.
    BootstrapFailed { error: String },
    /// Loading the agent failed.
    BootstrapExited { status: String },
    /// The agent could not be started.
    KickstartFailed { error: String },
    /// Starting the agent failed.
    KickstartExited { status: String },
    /// It is not known which process answers.
    PeerUnknown { error: String },
    /// It is not known which process answers after a refresh.
    RefreshedPeerUnknown { error: String },
    /// Something else, as it was told.
    Told { words: String },
    /// The restart after a timeout failed.
    RecoveryFailed { error: String },
    /// The server does not answer after that restart.
    RecoveryUnreachable { error: String },
    /// The restart after a handoff failed.
    FallbackFailed { error: String },
    /// The server does not answer after that restart.
    FallbackUnreachable { error: String },
}

impl Trouble {
    /// What went wrong, in words.
    pub open spec fn words(self) -> Seq<char> {
        match self {
            Trouble::PgrepFailed { name, error } => {
                "failed to run pgrep for "@ + name@ + ": "@ + error@
            },
            Trouble::PgrepExited { name, status } => {
                "pgrep -x "@ + name@ + " exited with "@ + status@
            },
            Trouble::ServerPgrepFailed { error } => {
                "failed to run pgrep for server processes: "@ + error@
            },
            Trouble::ClientsLinger { pids } => {
                "old client processes did not exit after server restart: "@ + pid_list(pids@)
            },
            Trouble::RelaunchFailed { exe, error } => {
                "failed to relaunch client "@ + exe@ + ": "@ + error@
            },
            Trouble::NotReadyAfterRestart { secs } => {
                "scribe-server did not become ready within "@
                    + decimal(secs as nat)
                    + "s after deferred restart"@
            },
            Trouble::NotReady { secs } => {
                "scribe-server did not become ready within "@ + decimal(secs as nat) + "s"@
            },
            Trouble::SignalFailed { label, pid, error } => {
                "failed to signal "@ + label@ + " pid "@ + signed(pid as int) + ": "@ + error@
            },
            Trouble::SignalExited { label, pid, status } => {
                "kill "@ + signed(pid as int) + " for "@ + label@ + " exited with "@ + status@
            },
            Trouble::KillFailed { label, pid, error } => {
                "failed to force-kill "@ + label@ + " pid "@ + signed(pid as int) + ": "@ + error@
            },
            Trouble::KillExited { label, pid, status } => {
                "kill -9 "@ + signed(pid as int) + " for "@ + label@ + " exited with "@ + status@
            },
            Trouble::Lingers { label, pid } => {
                "timed out waiting for "@ + label@ + " pid "@ + signed(pid as int) + " to exit"@
            },
            Trouble::RestartUnsupported => {
                "deferred update restart is only supported on macOS and Linux"@
            },
            Trouble::StartUnsupported => "server auto-start not supported on this platform"@,
            Trouble::SystemctlFailed { error } => "failed to run systemctl: "@ + error@,
            Trouble::SystemctlExited { status } => "systemctl start exited with "@ + status@,
            Trouble::NoHome { error } => "HOME not set: "@ + error@,
            Trouble::NoAgentsDir { error } => "failed to create LaunchAgents dir: "@ + error@,
            Trouble::NoOwnPath { error } => "failed to get current exe: "@ + error@,
            Trouble::NoServerFile { path } => "server binary not found at "@ + path@,
            Trouble::SpawnFailed { error } => "failed to spawn scribe-server: "@ + error@,
            Trouble::PlistUnreadable { path, error } => {
                "failed to read launchd plist "@ + path@ + ": "@ + error@
            },
            Trouble::PlistUnwritable { path, error } => {
                "failed to write launchd plist "@ + path@ + ": "@ + error@
            },
            Trouble::BootstrapFailed { error } => "failed to run launchctl bootstrap: "@ + error@,
            Trouble::BootstrapExited { status } => "launchctl bootstrap exited with "@ + status@,
            Trouble::KickstartFailed { error } => "failed to run launchctl kickstart: "@ + error@,
            Trouble::KickstartExited { status } => "launchctl kickstart exited with "@ + status@,
            Trouble::PeerUnknown { error } => "failed to query server peer pid: "@ + error@,
            Trouble::RefreshedPeerUnknown { error } => "failed to query peer pid: "@ + error@,
            Trouble::Told { words } => words@,
            Trouble::RecoveryFailed { error } => {
                "cold-restart recovery after connect timeout failed: "@ + error@
            },
            Trouble::RecoveryUnreachable { error } => {
                "connect after cold-restart recovery failed: "@ + error@
            },
            Trouble::FallbackFailed { error } => {
                "cold-restart fallback after handoff timeout failed: "@ + error@
            },
            Trouble::FallbackUnreachable { error } => {
                "connect after handoff cold-restart failed: "@ + error@
            },
        }
    }

    /// What went wrong, in words.
    pub fn message(&self) -> (r: String)
        ensures
            r@ == self.words(),
    {
        let mut text = String::new();
        match self {
            Trouble::PgrepFailed { name, error } => {
                push_text(&mut text, "failed to run pgrep for ");
                push_text(&mut text, name.as_str());
                push_text(&mut text, ": ");
                push_text(&mut text, error.as_str());
            },
            Trouble::PgrepExited { name, status } => {
                push_text(&mut text, "pgrep -x ");
                push_text(&mut text, name.as_str());
                push_text(&mut text, " exited with ");
                push_text(&mut text, status.as_str());
            },
            Trouble::ServerPgrepFailed { error } => {
                push_text(&mut text, "failed to run pgrep for server processes: ");
                push_text(&mut text, error.as_str());
            },
            Trouble::ClientsLinger { pids } => {
                push_text(&mut text, "old client processes did not exit after server restart: ");
                push_pids(&mut text, pids);
            },
            Trouble::RelaunchFailed { exe, error } => {
                push_text(&mut text, "failed to relaunch client ");
                push_text(&mut text, exe.as_str());
                push_text(&mut text, ": ");
                push_text(&mut text, error.as_str());
            },
            Trouble::NotReadyAfterRestart { secs } => {
                push_text(&mut text, "scribe-server did not become ready within ");
                push_decimal(&mut text, *secs);
                push_text(&mut text, "s after deferred restart");
            },
            Trouble::NotReady { secs } => {
                push_text(&mut text, "scribe-server did not become ready within ");
                push_decimal(&mut text, *secs);
                push_text(&mut text, "s");
            },
            Trouble::SignalFailed { label, pid, error } => {
                push_text(&mut text, "failed to signal ");
                push_text(&mut text, label.as_str());
                push_text(&mut text, " pid ");
                push_signed(&mut text, *pid);
                push_text(&mut text, ": ");
                push_text(&mut text, error.as_str());
            },
            Trouble::SignalExited { label, pid, status } => {
                push_text(&mut text, "kill ");
                push_signed(&mut text, *pid);
                push_text(&mut text, " for ");
                push_text(&mut text, label.as_str());
                push_text(&mut text, " exited with ");
                push_text(&mut text, status.as_str());
            },
            Trouble::KillFailed { label, pid, error } => {
                push_text(&mut text, "failed to force-kill ");
                push_text(&mut text, label.as_str());
                push_text(&mut text, " pid ");
                push_signed(&mut text, *pid);
                push_text(&mut text, ": ");
                push_text(&mut text, error.as_str());
            },
            Trouble::KillExited { label, pid, status } => {
                push_text(&mut text, "kill -9 ");
                push_signed(&mut text, *pid);
                push_text(&mut text, " for ");
                push_text(&mut text, label.as_str());
                push_text(&mut text, " exited with ");
                push_text(&mut text, status.as_str());
            },
            Trouble::Lingers { label, pid } => {
                push_text(&mut text, "timed out waiting for ");
                push_text(&mut text, label.as_str());
                push_text(&mut text, " pid ");
                push_signed(&mut text, *pid);
                push_text(&mut text, " to exit");
            },
            Trouble::RestartUnsupported => {
                push_text(
                    &mut text,
                    "deferred update restart is only supported on macOS and Linux",
                );
            },
            Trouble::StartUnsupported => {
                push_text(&mut text, "server auto-start not supported on this platform");
            },
            Trouble::SystemctlFailed { error } => {
                push_text(&mut text, "failed to run systemctl: ");
                push_text(&mut text, error.as_str());
            },
            Trouble::SystemctlExited { status } => {
                push_text(&mut text, "systemctl start exited with ");
                push_text(&mut text, status.as_str());
            },
            Trouble::NoHome { error } => {
                push_text(&mut text, "HOME not set: ");
                push_text(&mut text, error.as_str());
            },
            Trouble::NoAgentsDir { error } => {
                push_text(&mut text, "failed to create LaunchAgents dir: ");
                push_text(&mut text, error.as_str());
            },
            Trouble::NoOwnPath { error } => {
                push_text(&mut text, "failed to get current exe: ");
                push_text(&mut text, error.as_str());
            },
            Trouble::NoServerFile { path } => {
                push_text(&mut text, "server binary not found at ");
                push_text(&mut text, path.as_str());
            },
            Trouble::SpawnFailed { error } => {
                push_text(&mut text, "failed to spawn scribe-server: ");
                push_text(&mut text, error.as_str());
            },
            Trouble::PlistUnreadable { path, error } => {
                push_text(&mut text, "failed to read launchd plist ");
                push_text(&mut text, path.as_str());
                push_text(&mut text, ": ");
                push_text(&mut text, error.as_str());
            },
            Trouble::PlistUnwritable { path, error } => {
                push_text(&mut text, "failed to write launchd plist ");
                push_text(&mut text, path.as_str());
                push_text(&mut text, ": ");
                push_text(&mut text, error.as_str());
            },
            Trouble::BootstrapFailed { error } => {
                push_text(&mut text, "failed to run launchctl bootstrap: ");
                push_text(&mut text, error.as_str());
            },
            Trouble::BootstrapExited { status } => {
                push_text(&mut text, "launchctl bootstrap exited with ");
                push_text(&mut text, status.as_str());
            },
            Trouble::KickstartFailed { error } => {
                push_text(&mut text, "failed to run launchctl kickstart: ");
                push_text(&mut text, error.as_str());
            },
            Trouble::KickstartExited { status } => {
                push_text(&mut text, "launchctl kickstart exited with ");
                push_text(&mut text, status.as_str());
            },
            Trouble::PeerUnknown { error } => {
                push_text(&mut text, "failed to query server peer pid: ");
                push_text(&mut text, error.as_str());
            },
            Trouble::RefreshedPeerUnknown { error } => {
                push_text(&mut text, "failed to query peer pid: ");
                push_text(&mut text, error.as_str());
            },
            Trouble::Told { words } => {
                push_text(&mut text, words.as_str());
            },
            Trouble::RecoveryFailed { error } => {
                push_text(&mut text, "cold-restart recovery after connect timeout failed: ");
                push_text(&mut text, error.as_str());
            },
            Trouble::RecoveryUnreachable { error } => {
                push_text(&mut text, "connect after cold-restart recovery failed: ");
                push_text(&mut text, error.as_str());
            },
            Trouble::FallbackFailed { error } => {
                push_text(&mut text, "cold-restart fallback after handoff timeout failed: ");
                push_text(&mut text, error.as_str());
            },
            Trouble::FallbackUnreachable { error } => {
                push_text(&mut text, "connect after handoff cold-restart failed: ");
                push_text(&mut text, error.as_str());
            },
        }
        proof {
            assert(text@ =~= self.words());
        }
        text
    }
}

// ---- Which processes run ----

/// The parts of bytes between line ends.
pub open spec fn byte_lines(s: Seq<u8>) -> Seq<Seq<u8>>
    decreases s.len(),
{
    if s.len() == 0 {
        seq![Seq::empty()]
    } else {
        let rest = byte_lines(s.drop_last());
        if s.last() == 10 {
            rest.push(Seq::empty())
        } else {
            rest.drop_last().push(rest.last().push(s.last()))
        }
    }
}

/// The process number that a line stands for: it is text, and a number but for white
/// space at its ends.
pub open spec fn pid_of(line: Seq<u8>) -> Option<nat> {
    if valid_utf8(line) {
        number_up_to(trim(decode_utf8(line)), u32::MAX as nat)
    } else {
        None
    }
}

/// The process numbers of lines; lines that have none are passed over.
pub open spec fn pids_of(lines: Seq<Seq<u8>>) -> Seq<u32>
    decreases lines.len(),
{
    if lines.len() == 0 {
        Seq::empty()
    } else {
        let rest = pids_of(lines.drop_last());
        match pid_of(lines.last()) {
            Some(pid) => rest.push(pid as u32),
            None => rest,
        }
    }
}

fn parse_pid(line: &Vec<u8>) -> (r: Option<u32>)
    ensures
        match (r, pid_of(line@)) {
            (Some(pid), Some(n)) => pid == n,
            (None, None) => true,
            _ => false,
        },
{
    match from_utf8(line.as_slice()) {
        Some(text) => {
            let chars = chars_of(text.as_str());
            parse_number(trimmed(chars.as_slice()), u32::MAX)
        },
        None => None,
    }
}

/// The process numbers in the output of `pgrep`.
pub fn parse_pids(stdout: &[u8]) -> (r: Vec<u32>)
    ensures
        r@ == pids_of(byte_lines(stdout@)),
{
    let mut out: Vec<u32> = Vec::new();
    let mut line: Vec<u8> = Vec::new();
    let mut i: usize = 0;
    proof {
        assert(stdout@.take(0) =~= Seq::<u8>::empty());
        let parts = byte_lines(stdout@.take(0));
        assert(parts.drop_last() =~= Seq::<Seq<u8>>::empty());
        assert(line@ =~= parts.last());
    }
    while i < stdout.len()
        invariant
            i <= stdout@.len(),
            byte_lines(stdout@.take(i as int)).len() > 0,
            line@ == byte_lines(stdout@.take(i as int)).last(),
            out@ == pids_of(byte_lines(stdout@.take(i as int)).drop_last()),
        decreases stdout@.len() - i,
    {
        let ghost before = byte_lines(stdout@.take(i as int));
        let ghost after = byte_lines(stdout@.take(i + 1));
        proof {
            assert(stdout@.take(i + 1).drop_last() =~= stdout@.take(i as int));
        }
        if stdout[i] == 10 {
            proof {
                assert(after.drop_last() =~= before);
            }
            if let Some(pid) = parse_pid(&line) {
                out.push(pid);
            }
            line = Vec::new();
        } else {
            proof {
                assert(after.drop_last() =~= before.drop_last());
            }
            line.push(stdout[i]);
        }
        i += 1;
    }
    proof {
        assert(stdout@.take(stdout@.len() as int) =~= stdout@);
    }
    if let Some(pid) = parse_pid(&line) {
        out.push(pid);
    }
    out
}

/// What a run of a program came to.
#[derive(Debug)]
pub enum Ran {
    /// It could not be run.
    Not { error: String },
    /// It ended: well or not, with a code, and how that is put into words.
    Ended { success: bool, code: Option<i32>, status: String, stdout: Vec<u8> },
}

/// The processes of a name, from a run of `pgrep`. There are none where it ended with
/// code 1.
pub fn listed_process_pids(name: &str, ran: Ran) -> (r: Result<Vec<u32>, Trouble>)
    ensures
        match ran {
            Ran::Not { error } => r matches Err(Trouble::PgrepFailed { name: n, error: e })
                && n@ == name@ && e == error,
            Ran::Ended { success, code, status, stdout } => if success {
                r matches Ok(pids) && pids@ == pids_of(byte_lines(stdout@))
            } else if code == Some(1i32) {
                r matches Ok(pids) && pids@ == Seq::<u32>::empty()
            } else {
                r matches Err(Trouble::PgrepExited { name: n, status: s }) && n@ == name@ && s
                    == status
            },
        },
{
    match ran {
        Ran::Not { error } => Err(Trouble::PgrepFailed { name: name.to_owned(), error }),
        Ran::Ended { success, code, status, stdout } => {
            if success {
                return Ok(parse_pids(stdout.as_slice()));
            }
            match code {
                Some(1) => Ok(Vec::new()),
                _ => Err(Trouble::PgrepExited { name: name.to_owned(), status }),
            }
        },
    }
}

/// The numbers but for one.
pub open spec fn but_for(pids: Seq<u32>, own: u32) -> Seq<u32>
    decreases pids.len(),
{
    if pids.len() == 0 {
        Seq::empty()
    } else {
        let rest = but_for(pids.drop_last(), own);
        if pids.last() == own {
            rest
        } else {
            rest.push(pids.last())
        }
    }
}

/// The processes but for this one.
pub fn other_pids(pids: &[u32], own: u32) -> (r: Vec<u32>)
    ensures
        r@ == but_for(pids@, own),
{
    let mut out: Vec<u32> = Vec::new();
    let mut i: usize = 0;
    proof {
        assert(pids@.take(0) =~= Seq::<u32>::empty());
    }
    while i < pids.len()
        invariant
            i <= pids@.len(),
            out@ == but_for(pids@.take(i as int), own),
        decreases pids@.len() - i,
    {
        proof {
            assert(pids@.take(i + 1).drop_last() =~= pids@.take(i as int));
        }
        if pids[i] != own {
            out.push(pids[i]);
        }
        i += 1;
    }
    proof {
        assert(pids@.take(pids@.len() as int) =~= pids@);
    }
    out
}

/// A client never ends itself: its own process is not among the others.
pub proof fn own_process_is_spared(pids: Seq<u32>, own: u32)
    ensures
        !but_for(pids, own).contains(own),
    decreases pids.len(),
{
    if pids.len() > 0 {
        own_process_is_spared(pids.drop_last(), own);
        let rest = but_for(pids.drop_last(), own);
        assert forall|i: int| 0 <= i < but_for(pids, own).len() implies (#[trigger] but_for(
            pids,
            own,
        )[i]) != own by {
            if i < rest.len() {
                assert(rest.contains(rest[i]));
            }
        }
    }
}

/// Every other process is among the others.
pub proof fn other_processes_are_kept(pids: Seq<u32>, own: u32, pid: u32)
    requires
        pids.contains(pid),
        pid != own,
    ensures
        but_for(pids, own).contains(pid),
    decreases pids.len(),
{
    let k = choose|k: int| 0 <= k < pids.len() && pids[k] == pid;
    let all = but_for(pids, own);
    if k == pids.len() - 1 {
        assert(all[all.len() - 1] == pid);
    } else {
        assert(pids.drop_last()[k] == pid);
        other_processes_are_kept(pids.drop_last(), own, pid);
        let rest = but_for(pids.drop_last(), own);
        let j = choose|j: int| 0 <= j < rest.len() && rest[j] == pid;
        assert(all[j] == pid);
    }
}

/// How many characters a text starts with that are not white space.
pub open spec fn solid(s: Seq<char>) -> nat
    decreases s.len(),
{
    if s.len() > 0 && !is_space(s[0]) {
        1 + solid(s.skip(1))
    } else {
        0
    }
}

proof fn solid_is(s: Seq<char>, n: int)
    requires
        0 <= n <= s.len(),
        forall|i: int| 0 <= i < n ==> !is_space(#[trigger] s[i]),
        n < s.len() ==> is_space(s[n]),
    ensures
        solid(s) == n,
    decreases n,
{
    if n > 0 {
        assert(!is_space(s[0]));
        assert forall|i: int| 0 <= i < n - 1 implies !is_space(#[trigger] s.skip(1)[i]) by {
            assert(s[i + 1] == s.skip(1)[i]);
        }
        solid_is(s.skip(1), n - 1);
    }
}

fn solid_len(s: &[char]) -> (r: usize)
    ensures
        r == solid(s@),
        r <= s@.len(),
{
    let mut i: usize = 0;
    while i < s.len() && !is_white_space(s[i])
        invariant
            i <= s@.len(),
            forall|k: int| 0 <= k < i ==> !is_space(#[trigger] s@[k]),
        decreases s@.len() - i,
    {
        i += 1;
    }
    proof {
        solid_is(s@, i as int);
    }
    i
}

/// The second word of a line; nothing where it has none.
pub open spec fn second_word(line: Seq<char>) -> Seq<char> {
    let first = trim_start(line);
    let second = trim_start(first.skip(solid(first) as int));
    second.take(solid(second) as int)
}

/// Whether a line tells of a process's state.
pub open spec fn tells_state(line: Seq<char>) -> bool {
    line.len() >= 6 && line.take(6) == "State:"@
}

/// The first line that tells of a process's state.
pub open spec fn state_line(all: Seq<Seq<char>>) -> Option<Seq<char>>
    decreases all.len(),
{
    if all.len() == 0 {
        None
    } else if tells_state(all[0]) {
        Some(all[0])
    } else {
        state_line(all.skip(1))
    }
}

/// Whether a process is dead but not yet gone, by its status.
pub open spec fn is_zombie(status: Option<&str>) -> bool {
    match status {
        Some(text) => match state_line(lines(text@)) {
            Some(line) => second_word(line) == "Z"@,
            None => false,
        },
        None => false,
    }
}

/// Whether a process is dead but not yet gone, by its status.
pub fn process_is_zombie(status: Option<&str>) -> (r: bool)
    ensures
        r == is_zombie(status),
{
    let text = match status {
        Some(text) => text,
        None => {
            return false;
        },
    };
    let chars = chars_of(text);
    let all = lines_of(chars.as_slice());
    let ghost model = lines(text@);
    let mark = chars_of("State:");
    let dead = chars_of("Z");
    let mut i: usize = 0;
    proof {
        reveal_strlit("State:");
        assert(texts(all@).len() == all@.len());
        assert(model.skip(0) =~= model);
    }
    while i < all.len()
        invariant
            i <= all@.len(),
            model == texts(all@),
            all@.len() == texts(all@).len(),
            status == Some(text),
            model == lines(text@),
            mark@ == "State:"@,
            mark@.len() == 6,
            dead@ == "Z"@,
            state_line(model) == state_line(model.skip(i as int)),
        decreases all@.len() - i,
    {
        let line = all[i].as_slice();
        proof {
            assert(model.skip(i as int)[0] == all@[i as int]@);
            assert(model.skip(i as int).skip(1) =~= model.skip(i + 1));
        }
        if line.len() >= 6 {
            let front = vstd::slice::slice_subrange(line, 0, 6);
            proof {
                assert(front@ =~= line@.take(6));
            }
            if same_chars(front, mark.as_slice()) {
                let first = trimmed_start(line);
                let n: usize = solid_len(first);
                let rest = vstd::slice::slice_subrange(first, n, first.len());
                proof {
                    assert(rest@ =~= first@.skip(n as int));
                }
                let second = trimmed_start(rest);
                let m: usize = solid_len(second);
                let word = vstd::slice::slice_subrange(second, 0, m);
                proof {
                    assert(word@ =~= second_word(line@));
                }
                return same_chars(word, dead.as_slice());
            }
        }
        i += 1;
    }
    false
}

/// Whether a process is gone, or as good as.
pub fn has_exited(alive: bool, zombie: bool) -> (r: bool)
    ensures
        r == (!alive || zombie),
{
    !alive || zombie
}

/// What a wait for a process to end does next.
#[derive(Debug, Clone, Copy, PartialEq, Eq, Structural)]
pub enum ExitWait {
    /// It is over: the process is gone, or not.
    Over(bool),
    /// Look again after so many milliseconds.
    Again { millis: u64 },
}

/// What a wait for a process to end does next, so long after it began.
pub fn wait_for_process_exit(exited: bool, elapsed_ms: u64, timeout_ms: u64) -> (r: ExitWait)
    ensures
        r == if exited || elapsed_ms >= timeout_ms {
            ExitWait::Over(exited)
        } else {
            ExitWait::Again { millis: 100 }
        },
{
    if exited || elapsed_ms >= timeout_ms {
        ExitWait::Over(exited)
    } else {
        ExitWait::Again { millis: 100 }
    }
}

/// The processes that did not end.
pub open spec fn survivors(pids: Seq<u32>, exited: Seq<bool>) -> Seq<u32>
    decreases pids.len(),
{
    if pids.len() == 0 {
        Seq::empty()
    } else {
        let rest = survivors(pids.drop_last(), exited.drop_last());
        if exited.last() {
            rest
        } else {
            rest.push(pids.last())
        }
    }
}

/// Whether the old clients have ended; of each it is known whether it has.
pub fn tracked_clients_exited(pids: &[u32], exited: &[bool]) -> (r: Result<(), Trouble>)
    requires
        pids@.len() == exited@.len(),
    ensures
        match r {
            Ok(_) => survivors(pids@, exited@).len() == 0,
            Err(trouble) => trouble matches Trouble::ClientsLinger { pids: left } && left@
                == survivors(pids@, exited@) && left@.len() > 0,
        },
{
    let mut left: Vec<u32> = Vec::new();
    let mut i: usize = 0;
    proof {
        assert(pids@.take(0) =~= Seq::<u32>::empty());
    }
    while i < pids.len()
        invariant
            i <= pids@.len(),
            pids@.len() == exited@.len(),
            left@ == survivors(pids@.take(i as int), exited@.take(i as int)),
        decreases pids@.len() - i,
    {
        proof {
            assert(pids@.take(i + 1).drop_last() =~= pids@.take(i as int));
            assert(exited@.take(i + 1).drop_last() =~= exited@.take(i as int));
        }
        if !exited[i] {
            left.push(pids[i]);
        }
        i += 1;
    }
    proof {
        assert(pids@.take(pids@.len() as int) =~= pids@);
        assert(exited@.take(exited@.len() as int) =~= exited@);
    }
    if left.len() > 0 {
        Err(Trouble::ClientsLinger { pids: left })
    } else {
        Ok(())
    }
}

// ---- The service on Linux ----

/// The variables of the environment that the server needs for graphical programs.
pub open spec fn gui_variables() -> Seq<Seq<char>> {
    seq![
        "DISPLAY"@,
        "WAYLAND_DISPLAY"@,
        "XDG_SESSION_TYPE"@,
        "XDG_RUNTIME_DIR"@,
        "DBUS_SESSION_BUS_ADDRESS"@,
        "XAUTHORITY"@,
    ]
}

/// The variables of the environment that the server needs for graphical programs.
pub fn gui_env_vars() -> (r: Vec<&'static str>)
    ensures
        r@.len() == 6,
        forall|i: int| 0 <= i < 6 ==> (#[trigger] r@[i])@ == gui_variables()[i],
{
    let mut out: Vec<&'static str> = Vec::new();
    out.push("DISPLAY");
    out.push("WAYLAND_DISPLAY");
    out.push("XDG_SESSION_TYPE");
    out.push("XDG_RUNTIME_DIR");
    out.push("DBUS_SESSION_BUS_ADDRESS");
    out.push("XAUTHORITY");
    out
}

/// The variables that are set, or those that are not.
pub open spec fn picked(names: Seq<Seq<char>>, is_set: Seq<bool>, wanted: bool) -> Seq<Seq<char>>
    decreases names.len(),
{
    if names.len() == 0 {
        Seq::empty()
    } else {
        let rest = picked(names.drop_last(), is_set.drop_last(), wanted);
        if is_set.last() == wanted {
            rest.push(names.last())
        } else {
            rest
        }
    }
}

/// Texts.
pub open spec fn views(v: Seq<&str>) -> Seq<Seq<char>> {
    Seq::new(v.len(), |i: int| v[i]@)
}

/// Which variables the service takes over and which it forgets; of each it is known
/// whether it is set.
pub fn service_environment(is_set: &[bool]) -> (r: (Vec<&'static str>, Vec<&'static str>))
    requires
        is_set@.len() == 6,
    ensures
        views(r.0@) == picked(gui_variables(), is_set@, true),
        views(r.1@) == picked(gui_variables(), is_set@, false),
{
    let names = gui_env_vars();
    let ghost all = gui_variables();
    let mut present: Vec<&'static str> = Vec::new();
    let mut missing: Vec<&'static str> = Vec::new();
    let mut i: usize = 0;
    proof {
        assert(views(present@) =~= picked(all.take(0), is_set@.take(0), true));
        assert(views(missing@) =~= picked(all.take(0), is_set@.take(0), false));
    }
    while i < 6
        invariant
            i <= 6,
            is_set@.len() == 6,
            names@.len() == 6,
            all == gui_variables(),
            forall|k: int| 0 <= k < 6 ==> (#[trigger] names@[k])@ == all[k],
            views(present@) == picked(all.take(i as int), is_set@.take(i as int), true),
            views(missing@) == picked(all.take(i as int), is_set@.take(i as int), false),
        decreases 6 - i,
    {
        proof {
            assert(all.take(i + 1).drop_last() =~= all.take(i as int));
            assert(is_set@.take(i + 1).drop_last() =~= is_set@.take(i as int));
            assert(names@[i as int]@ == all[i as int]);
        }
        if is_set[i] {
            let ghost before = views(present@);
            present.push(names[i]);
            proof {
                assert(views(present@) =~= before.push(all[i as int]));
            }
        } else {
            let ghost before = views(missing@);
            missing.push(names[i]);
            proof {
                assert(views(missing@) =~= before.push(all[i as int]));
            }
        }
        i += 1;
    }
    proof {
        assert(all.take(6) =~= all);
        assert(is_set@.take(6) =~= is_set@);
    }
    (present, missing)
}

/// What a run of `systemctl` that starts the service came to.
pub fn systemctl_started(ran: Ran) -> (r: Result<(), Trouble>)
    ensures
        r == match ran {
            Ran::Not { error } => Err::<(), Trouble>(Trouble::SystemctlFailed { error }),
            Ran::Ended { success, status, .. } => if success {
                Ok::<(), Trouble>(())
            } else {
                Err::<(), Trouble>(Trouble::SystemctlExited { status })
            },
        },
{
    match ran {
        Ran::Not { error } => Err(Trouble::SystemctlFailed { error }),
        Ran::Ended { success, status, .. } => {
            if success {
                Ok(())
            } else {
                Err(Trouble::SystemctlExited { status })
            }
        },
    }
}

// ---- The agent on macOS ----

/// A character as it stands in the agent's file.
pub open spec fn escaped_char(c: char) -> Seq<char> {
    if c == '&' {
        "&amp;"@
    } else if c == '<' {
        "&lt;"@
    } else if c == '>' {
        "&gt;"@
    } else if c == '"' {
        "&quot;"@
    } else if c == '\'' {
        "&apos;"@
    } else {
        seq![c]
    }
}

/// A text as it stands in the agent's file.
pub open spec fn escaped(value: Seq<char>) -> Seq<char>
    decreases value.len(),
{
    if value.len() == 0 {
        Seq::empty()
    } else {
        escaped(value.drop_last()) + escaped_char(value.last())
    }
}

/// A text as it stands in the agent's file.
pub fn escape_launchd_plist_value(value: &str) -> (r: String)
    ensures
        r@ == escaped(value@),
{
    let chars = chars_of(value);
    let mut out = String::new();
    let mut i: usize = 0;
    proof {
        assert(chars@.take(0) =~= Seq::<char>::empty());
        assert(out@ =~= escaped(chars@.take(0)));
    }
    while i < chars.len()
        invariant
            i <= chars@.len(),
            out@ == escaped(chars@.take(i as int)),
        decreases chars@.len() - i,
    {
        let ghost before = out@;
        let c = chars[i];
        proof {
            assert(chars@.take(i + 1).drop_last() =~= chars@.take(i as int));
        }
        if c == '&' {
            push_text(&mut out, "&amp;");
        } else if c == '<' {
            push_text(&mut out, "&lt;");
        } else if c == '>' {
            push_text(&mut out, "&gt;");
        } else if c == '"' {
            push_text(&mut out, "&quot;");
        } else if c == '\'' {
            push_text(&mut out, "&apos;");
        } else {
            out.push(c);
        }
        i += 1;
        proof {
            assert(out@ =~= before + escaped_char(c));
        }
    }
    proof {
        assert(chars@.take(chars@.len() as int) =~= chars@);
    }
    out
}

/// A character that has a meaning of its own in the agent's file, but for the
/// ampersand.
pub open spec fn is_markup(c: char) -> bool {
    c == '<' || c == '>' || c == '"' || c == '\''
}

/// Nothing in a text can be taken for markup of the agent's file.
pub proof fn escaped_text_has_no_markup(value: Seq<char>)
    ensures
        forall|i: int| 0 <= i < escaped(value).len() ==> !is_markup(#[trigger] escaped(value)[i]),
    decreases value.len(),
{
    if value.len() > 0 {
        escaped_text_has_no_markup(value.drop_last());
        let front = escaped(value.drop_last());
        let back = escaped_char(value.last());
        assert forall|i: int| 0 <= i < escaped(value).len() implies !is_markup(
            #[trigger] escaped(value)[i],
        ) by {
            if i < front.len() {
                assert(escaped(value)[i] == front[i]);
            } else {
                assert(escaped(value)[i] == back[i - front.len()]);
                reveal_strlit("&amp;");
                reveal_strlit("&lt;");
                reveal_strlit("&gt;");
                reveal_strlit("&quot;");
                reveal_strlit("&apos;");
            }
        }
    }
}

/// The agent's file up to its label.
pub open spec fn plist_head() -> Seq<char> {
    "<?xml version=\"1.0\" encoding=\"UTF-8\"?>\n"@
        + "<!DOCTYPE plist PUBLIC \"-//Apple//DTD PLIST 1.0//EN\" "@
        + "\"http://www.apple.com/DTDs/PropertyList-1.0.dtd\">\n"@ + "<plist version=\"1.0\">\n"@
        + "<dict>\n\t<key>Label</key>\n\t<string>"@
}

/// The agent's file between its label and the path of the server.
pub open spec fn plist_middle() -> Seq<char> {
    "</string>\n\n\t<key>ProgramArguments</key>\n\t<array>\n\t\t<string>"@
}

/// The agent's file after the path of the server.
pub open spec fn plist_tail() -> Seq<char> {
    "</string>\n\t</array>\n\n\t<key>KeepAlive</key>\n\t<dict>\n"@
        + "\t\t<key>SuccessfulExit</key>\n\t\t<false/>\n\t</dict>\n\n"@
        + "\t<key>ProcessType</key>\n\t<string>Background</string>\n\n"@
        + "\t<key>ThrottleInterval</key>\n\t<integer>1</integer>\n\n"@
        + "\t<key>StandardOutPath</key>\n\t<string>/dev/null</string>\n\n"@
        + "\t<key>StandardErrorPath</key>\n\t<string>/dev/null</string>\n"@
        + "</dict>\n</plist>\n"@
}

/// What the agent's file says.
pub open spec fn plist(label: Seq<char>, server_exe: Seq<char>) -> Seq<char> {
    plist_head() + escaped(label) + plist_middle() + escaped(server_exe) + plist_tail()
}

/// What the agent's file says.
pub fn launchd_plist_contents(label: &str, server_exe: &str) -> (r: String)
    ensures
        r@ == plist(label@, server_exe@),
{
    let name = escape_launchd_plist_value(label);
    let path = escape_launchd_plist_value(server_exe);
    let mut out = String::new();
    push_text(&mut out, "<?xml version=\"1.0\" encoding=\"UTF-8\"?>\n");
    push_text(&mut out, "<!DOCTYPE plist PUBLIC \"-//Apple//DTD PLIST 1.0//EN\" ");
    push_text(&mut out, "\"http://www.apple.com/DTDs/PropertyList-1.0.dtd\">\n");
    push_text(&mut out, "<plist version=\"1.0\">\n");
    push_text(&mut out, "<dict>\n\t<key>Label</key>\n\t<string>");
    proof {
        assert(out@ =~= plist_head());
    }
    push_text(&mut out, name.as_str());
    push_text(
        &mut out,
        "</string>\n\n\t<key>ProgramArguments</key>\n\t<array>\n\t\t<string>",
    );
    push_text(&mut out, path.as_str());
    let ghost before = out@;
    push_text(&mut out, "</string>\n\t</array>\n\n\t<key>KeepAlive</key>\n\t<dict>\n");
    push_text(&mut out, "\t\t<key>SuccessfulExit</key>\n\t\t<false/>\n\t</dict>\n\n");
    push_text(&mut out, "\t<key>ProcessType</key>\n\t<string>Background</string>\n\n");
    push_text(&mut out, "\t<key>ThrottleInterval</key>\n\t<integer>1</integer>\n\n");
    push_text(&mut out, "\t<key>StandardOutPath</key>\n\t<string>/dev/null</string>\n\n");
    push_text(&mut out, "\t<key>StandardErrorPath</key>\n\t<string>/dev/null</string>\n");
    push_text(&mut out, "</dict>\n</plist>\n");
    proof {
        assert(out@ =~= before + plist_tail());
        assert(out@ =~= plist(label@, server_exe@));
    }
    out
}

/// Whether the agent's file has to be written: it is not there, or says something
/// else.
pub fn plist_is_stale(current: Option<&str>, expected: &str) -> (r: bool)
    ensures
        r == match current {
            Some(contents) => contents@ != expected@,
            None => true,
        },
{
    match current {
        Some(contents) => !crate::text::str_eq(contents, expected),
        None => true,
    }
}

/// The names under which `launchctl` knows a user's domain and the agent in it.
pub fn launchd_names(uid: u32, label: &str) -> (r: (String, String))
    ensures
        r.0@ == "user/"@ + decimal(uid as nat),
        r.1@ == "user/"@ + decimal(uid as nat) + "/"@ + label@,
{
    let mut domain = "user/".to_owned();
    push_decimal(&mut domain, uid as u64);
    let mut service = domain.clone();
    push_text(&mut service, "/");
    push_text(&mut service, label);
    (domain, service)
}

/// What a run of `launchctl bootstrap` came to.
pub fn agent_loaded(ran: Ran) -> (r: Result<(), Trouble>)
    ensures
        r == match ran {
            Ran::Not { error } => Err::<(), Trouble>(Trouble::BootstrapFailed { error }),
            Ran::Ended { success, status, .. } => if success {
                Ok::<(), Trouble>(())
            } else {
                Err::<(), Trouble>(Trouble::BootstrapExited { status })
            },
        },
{
    match ran {
        Ran::Not { error } => Err(Trouble::BootstrapFailed { error }),
        Ran::Ended { success, status, .. } => {
            if success {
                Ok(())
            } else {
                Err(Trouble::BootstrapExited { status })
            }
        },
    }
}

/// What a run of `launchctl kickstart` came to.
pub fn agent_started(ran: Ran) -> (r: Result<(), Trouble>)
    ensures
        r == match ran {
            Ran::Not { error } => Err::<(), Trouble>(Trouble::KickstartFailed { error }),
            Ran::Ended { success, status, .. } => if success {
                Ok::<(), Trouble>(())
            } else {
                Err::<(), Trouble>(Trouble::KickstartExited { status })
            },
        },
{
    match ran {
        Ran::Not { error } => Err(Trouble::KickstartFailed { error }),
        Ran::Ended { success, status, .. } => {
            if success {
                Ok(())
            } else {
                Err(Trouble::KickstartExited { status })
            }
        },
    }
}

// ---- Whether the server that answers is the one that is installed ----

/// A file: its path, and the path that leads to the same file without links and
/// detours, where that is known.
#[derive(Debug, PartialEq, Eq)]
pub struct FilePath {
    pub path: String,
    pub canonical: Option<String>,
}

/// The server that answers.
#[derive(Debug, PartialEq, Eq)]
pub struct ConnectedServerInfo {
    pub pid: i32,
    pub exe_path: Option<FilePath>,
    pub start_time_secs: Option<u64>,
}

impl FilePath {
    /// A path that leads to no file that is known.
    pub fn unresolved(path: &str) -> (r: Self)
        ensures
            r.path@ == path@,
            r.canonical is None,
    {
        FilePath { path: path.to_owned(), canonical: None }
    }

    /// The path that says best which file it is.
    pub open spec fn best(self) -> Seq<char> {
        match self.canonical {
            Some(path) => path@,
            None => self.path@,
        }
    }

    fn best_path(&self) -> (r: &str)
        ensures
            r@ == self.best(),
    {
        match &self.canonical {
            Some(path) => path.as_str(),
            None => self.path.as_str(),
        }
    }
}

/// Whether two paths lead to the same file.
pub fn same_file_path(left: &FilePath, right: &FilePath) -> (r: bool)
    ensures
        r == same_path(left.best(), right.best()),
{
    same_path_text(left.best_path(), right.best_path())
}

/// Why the server that answers is not the one that is installed: it is another file,
/// or the file was changed after the server was started.
pub open spec fn staleness(
    running: ConnectedServerInfo,
    installed: FilePath,
    modified: Option<u64>,
) -> Option<Seq<char>> {
    match (running.exe_path, running.start_time_secs, modified) {
        (Some(exe), _, _) if !same_path(exe.best(), installed.best()) => Some(
            "running server path "@ + exe.path@ + " differs from installed "@ + installed.path@,
        ),
        (_, Some(start), Some(changed)) if changed > start => Some(
            "installed server binary modified at "@ + decimal(changed as nat)
                + " after running server started at "@ + decimal(start as nat),
        ),
        _ => None,
    }
}

/// Why the server that answers is not the one that is installed.
pub fn stale_server_reason(
    running: &ConnectedServerInfo,
    bundled_server_exe: &FilePath,
    bundled_modified_secs: Option<u64>,
) -> (r: Option<String>)
    ensures
        match (r, staleness(*running, *bundled_server_exe, bundled_modified_secs)) {
            (Some(text), Some(words)) => text@ == words,
            (None, None) => true,
            _ => false,
        },
{
    if let Some(exe) = &running.exe_path {
        if !same_file_path(exe, bundled_server_exe) {
            let mut text = "running server path ".to_owned();
            push_text(&mut text, exe.path.as_str());
            push_text(&mut text, " differs from installed ");
            push_text(&mut text, bundled_server_exe.path.as_str());
            return Some(text);
        }
    }
    match (running.start_time_secs, bundled_modified_secs) {
        (Some(start), Some(changed)) => {
            if changed > start {
                let mut text = "installed server binary modified at ".to_owned();
                push_decimal(&mut text, changed);
                push_text(&mut text, " after running server started at ");
                push_decimal(&mut text, start);
                Some(text)
            } else {
                None
            }
        },
        _ => None,
    }
}

// ---- What is read and told of processes ----

/// The cause of a trouble stands at the end of what is told of it.
pub proof fn troubles_tell_their_cause(trouble: Trouble)
    ensures
        ({
            let words = trouble.words();
            let ends_with = |cause: Seq<char>| cause.is_suffix_of(words);
            match trouble {
                Trouble::PgrepFailed { error, .. } => ends_with(error@),
                Trouble::PgrepExited { status, .. } => ends_with(status@),
                Trouble::ServerPgrepFailed { error } => ends_with(error@),
                Trouble::ClientsLinger { pids } => ends_with(pid_list(pids@)),
                Trouble::RelaunchFailed { error, .. } => ends_with(error@),
                Trouble::SignalFailed { error, .. } => ends_with(error@),
                Trouble::SignalExited { status, .. } => ends_with(status@),
                Trouble::KillFailed { error, .. } => ends_with(error@),
                Trouble::KillExited { status, .. } => ends_with(status@),
                Trouble::SystemctlFailed { error } => ends_with(error@),
                Trouble::SystemctlExited { status } => ends_with(status@),
                Trouble::NoHome { error } => ends_with(error@),
                Trouble::NoAgentsDir { error } => ends_with(error@),
                Trouble::NoOwnPath { error } => ends_with(error@),
                Trouble::NoServerFile { path } => ends_with(path@),
                Trouble::SpawnFailed { error } => ends_with(error@),
                Trouble::PlistUnreadable { error, .. } => ends_with(error@),
                Trouble::PlistUnwritable { error, .. } => ends_with(error@),
                Trouble::BootstrapFailed { error } => ends_with(error@),
                Trouble::BootstrapExited { status } => ends_with(status@),
                Trouble::KickstartFailed { error } => ends_with(error@),
                Trouble::KickstartExited { status } => ends_with(status@),
                Trouble::PeerUnknown { error } => ends_with(error@),
                Trouble::RefreshedPeerUnknown { error } => ends_with(error@),
                Trouble::Told { words: told } => words == told@,
                Trouble::RecoveryFailed { error } => ends_with(error@),
                Trouble::RecoveryUnreachable { error } => ends_with(error@),
                Trouble::FallbackFailed { error } => ends_with(error@),
                Trouble::FallbackUnreachable { error } => ends_with(error@),
                _ => true,
            }
        }),
{
    match trouble {
        Trouble::PgrepFailed { name, error } => ends(
            "failed to run pgrep for "@ + name@ + ": "@,
            error@,
        ),
        Trouble::PgrepExited { name, status } => ends(
            "pgrep -x "@ + name@ + " exited with "@,
            status@,
        ),
        Trouble::ServerPgrepFailed { error } => ends(
            "failed to run pgrep for server processes: "@,
            error@,
        ),
        Trouble::ClientsLinger { pids } => ends(
            "old client processes did not exit after server restart: "@,
            pid_list(pids@),
        ),
        Trouble::RelaunchFailed { exe, error } => ends(
            "failed to relaunch client "@ + exe@ + ": "@,
            error@,
        ),
        Trouble::SignalFailed { label, pid, error } => ends(
            "failed to signal "@ + label@ + " pid "@ + signed(pid as int) + ": "@,
            error@,
        ),
        Trouble::SignalExited { label, pid, status } => ends(
            "kill "@ + signed(pid as int) + " for "@ + label@ + " exited with "@,
            status@,
        ),
        Trouble::KillFailed { label, pid, error } => ends(
            "failed to force-kill "@ + label@ + " pid "@ + signed(pid as int) + ": "@,
            error@,
        ),
        Trouble::KillExited { label, pid, status } => ends(
            "kill -9 "@ + signed(pid as int) + " for "@ + label@ + " exited with "@,
            status@,
        ),
        Trouble::SystemctlFailed { error } => ends("failed to run systemctl: "@, error@),
        Trouble::SystemctlExited { status } => ends("systemctl start exited with "@, status@),
        Trouble::NoHome { error } => ends("HOME not set: "@, error@),
        Trouble::NoAgentsDir { error } => ends("failed to create LaunchAgents dir: "@, error@),
        Trouble::NoOwnPath { error } => ends("failed to get current exe: "@, error@),
        Trouble::NoServerFile { path } => ends("server binary not found at "@, path@),
        Trouble::SpawnFailed { error } => ends("failed to spawn scribe-server: "@, error@),
        Trouble::PlistUnreadable { path, error } => ends(
            "failed to read launchd plist "@ + path@ + ": "@,
            error@,
        ),
        Trouble::PlistUnwritable { path, error } => ends(
            "failed to write launchd plist "@ + path@ + ": "@,
            error@,
        ),
        Trouble::BootstrapFailed { error } => ends(
            "failed to run launchctl bootstrap: "@,
            error@,
        ),
        Trouble::BootstrapExited { status } => ends(
            "launchctl bootstrap exited with "@,
            status@,
        ),
        Trouble::KickstartFailed { error } => ends(
            "failed to run launchctl kickstart: "@,
            error@,
        ),
        Trouble::KickstartExited { status } => ends(
            "launchctl kickstart exited with "@,
            status@,
        ),
        Trouble::PeerUnknown { error } => ends("failed to query server peer pid: "@, error@),
        Trouble::RefreshedPeerUnknown { error } => ends("failed to query peer pid: "@, error@),
        Trouble::RecoveryFailed { error } => ends(
            "cold-restart recovery after connect timeout failed: "@,
            error@,
        ),
        Trouble::RecoveryUnreachable { error } => ends(
            "connect after cold-restart recovery failed: "@,
            error@,
        ),
        Trouble::FallbackFailed { error } => ends(
            "cold-restart fallback after handoff timeout failed: "@,
            error@,
        ),
        Trouble::FallbackUnreachable { error } => ends(
            "connect after handoff cold-restart failed: "@,
            error@,
        ),
        _ => {},
    }
}

proof fn ends(front: Seq<char>, cause: Seq<char>)
    ensures
        cause.is_suffix_of(front + cause),
{
    assert(cause =~= (front + cause).skip(front.len() as int));
    assert(cause =~= (front + cause).subrange(
        front.len() as int,
        (front + cause).len() as int,
    ));
}

/// A number below zero has a sign, and others have none.
pub proof fn signs_stand_before_numbers(n: int)
    ensures
        n >= 0 ==> signed(n) == decimal(n as nat),
        n < 0 ==> signed(n) == seq!['-'] + decimal((-n) as nat),
{
    reveal_strlit("-");
    assert("-"@ =~= seq!['-']);
}

/// Numbers of processes are listed in order, in brackets and with commas between them.
pub proof fn processes_are_listed(pids: Seq<u32>, pid: u32)
    ensures
        pid_list(Seq::empty()) == seq!['[', ']'],
        comma_list(seq![pid]) == decimal(pid as nat),
        pids.len() > 0 ==> comma_list(pids.push(pid)) == comma_list(pids) + seq![',', ' ']
            + decimal(pid as nat),
{
    reveal_strlit("[");
    reveal_strlit("]");
    reveal_strlit(", ");
    assert(pid_list(Seq::empty()) =~= seq!['[', ']']);
    assert(pids.push(pid).drop_last() =~= pids);
    assert(", "@ =~= seq![',', ' ']);
}

/// Output is read line by line: a line feed begins a line, and any other byte goes on with
/// the last.
pub proof fn output_is_read_by_lines(s: Seq<u8>, b: u8)
    ensures
        byte_lines(Seq::empty()) == seq![Seq::<u8>::empty()],
        byte_lines(s).len() > 0,
        b == 10 ==> byte_lines(s.push(b)) == byte_lines(s).push(Seq::empty()),
        b != 10 ==> byte_lines(s.push(b)) == byte_lines(s).drop_last().push(
            byte_lines(s).last().push(b),
        ),
    decreases s.len(),
{
    assert(s.push(b).drop_last() =~= s);
    if s.len() > 0 {
        output_is_read_by_lines(s.drop_last(), s.last());
        assert(s.drop_last().push(s.last()) =~= s);
    }
}

/// Of the lines, those that are numbers are the processes, in order; the others are passed
/// over.
pub proof fn processes_are_read_in_order(lines: Seq<Seq<u8>>, line: Seq<u8>)
    ensures
        pids_of(Seq::empty()).len() == 0,
        pids_of(lines.push(line)) == match pid_of(line) {
            Some(pid) => pids_of(lines).push(pid as u32),
            None => pids_of(lines),
        },
        pid_of(line) matches Some(pid) ==> pid <= u32::MAX,
{
    assert(lines.push(line).drop_last() =~= lines);
}

/// The processes but for one's own keep their order.
pub proof fn other_processes_keep_their_order(pids: Seq<u32>, pid: u32, own: u32)
    ensures
        but_for(Seq::empty(), own).len() == 0,
        but_for(pids.push(pid), own) == if pid == own {
            but_for(pids, own)
        } else {
            but_for(pids, own).push(pid)
        },
{
    assert(pids.push(pid).drop_last() =~= pids);
}

/// A process survives where it has not exited, and survivors keep their order.
pub proof fn survivors_have_not_exited(
    pids: Seq<u32>,
    exited: Seq<bool>,
    pid: u32,
    gone: bool,
)
    ensures
        survivors(Seq::empty(), Seq::empty()).len() == 0,
        survivors(pids.push(pid), exited.push(gone)) == if gone {
            survivors(pids, exited)
        } else {
            survivors(pids, exited).push(pid)
        },
{
    assert(pids.push(pid).drop_last() =~= pids);
    assert(exited.push(gone).drop_last() =~= exited);
}

/// A variable is picked where it is set as wanted, and those picked keep their order.
pub proof fn variables_are_picked(
    names: Seq<Seq<char>>,
    is_set: Seq<bool>,
    wanted: bool,
    name: Seq<char>,
    set: bool,
)
    ensures
        picked(Seq::empty(), Seq::empty(), wanted).len() == 0,
        picked(names.push(name), is_set.push(set), wanted) == if set == wanted {
            picked(names, is_set, wanted).push(name)
        } else {
            picked(names, is_set, wanted)
        },
{
    assert(names.push(name).drop_last() =~= names);
    assert(is_set.push(set).drop_last() =~= is_set);
}

/// The second word of a line is what stands between its first and its second white space,
/// whatever stands around it.
pub proof fn second_words(
    w: Seq<char>,
    first: Seq<char>,
    v: Seq<char>,
    second: Seq<char>,
    rest: Seq<char>,
)
    requires
        all_white(w),
        all_white(v),
        v.len() > 0,
        first.len() > 0,
        second.len() > 0,
        forall|i: int| 0 <= i < first.len() ==> !is_space(#[trigger] first[i]),
        forall|i: int| 0 <= i < second.len() ==> !is_space(#[trigger] second[i]),
        rest.len() > 0 ==> is_space(rest[0]),
    ensures
        second_word(w + first + v + second + rest) == second,
{
    let line = w + first + v + second + rest;
    let after_w = first + (v + second + rest);
    assert(line =~= w + after_w);
    assert(after_w[0] == first[0]);
    leading_space_of(w, after_w);
    solid_of(first, v + second + rest);
    assert((v + second + rest)[0] == v[0]);
    let after_first = v + (second + rest);
    assert(after_w.skip(first.len() as int) =~= after_first);
    assert((second + rest)[0] == second[0]);
    leading_space_of(v, second + rest);
    solid_of(second, rest);
    assert((second + rest).take(second.len() as int) =~= second);
}

proof fn solid_of(word: Seq<char>, rest: Seq<char>)
    requires
        forall|i: int| 0 <= i < word.len() ==> !is_space(#[trigger] word[i]),
        rest.len() > 0 ==> is_space(rest[0]),
    ensures
        solid(word + rest) == word.len(),
    decreases word.len(),
{
    let s = word + rest;
    if word.len() > 0 {
        assert(s[0] == word[0]);
        assert(s.skip(1) =~= word.skip(1) + rest);
        solid_of(word.skip(1), rest);
    } else {
        assert(s =~= rest);
    }
}

/// The first line that tells a state is the one that counts.
pub proof fn the_first_state_counts(all: Seq<Seq<char>>, i: int)
    requires
        0 <= i < all.len(),
        all[i].len() >= 6,
        all[i].take(6) == "State:"@,
        forall|k: int| 0 <= k < i ==> (#[trigger] all[k]).len() < 6 || all[k].take(6) != "State:"@,
    ensures
        state_line(all) == Some(all[i]),
    decreases i,
{
    if i > 0 {
        assert(!tells_state(all[0]));
        let rest = all.skip(1);
        assert forall|k: int| 0 <= k < i - 1 implies (#[trigger] rest[k]).len() < 6 || rest[k].take(
            6,
        ) != "State:"@ by {
            assert(rest[k] == all[k + 1]);
        }
        the_first_state_counts(rest, i - 1);
    }
}

/// A process is a zombie where its state is Z, and where nothing tells its state it is
/// none.
pub proof fn zombies_are_told_by_their_state(status: &str, line: Seq<char>)
    ensures
        !is_zombie(None),
        state_line(lines(status@)) is None ==> !is_zombie(Some(status)),
        state_line(lines(status@)) == Some(line) ==> (is_zombie(Some(status)) <==> second_word(line)
            == "Z"@),
{
}

/// The five characters of markup are written out, and all others stay as they are.
pub proof fn markup_is_written_out(value: Seq<char>, c: char)
    ensures
        escaped(Seq::empty()).len() == 0,
        escaped(value.push(c)) == escaped(value) + escaped_char(c),
        escaped_char('&') == "&amp;"@,
        escaped_char('<') == "&lt;"@,
        escaped_char('>') == "&gt;"@,
        escaped_char('"') == "&quot;"@,
        escaped_char('\'') == "&apos;"@,
        c != '&' && c != '<' && c != '>' && c != '"' && c != '\'' ==> escaped_char(c) == seq![c],
{
    assert(value.push(c).drop_last() =~= value);
}

/// A running server is out of date where it runs from another place than the installed
/// one, or where that was changed after it started; and not where neither is known.
pub proof fn servers_are_out_of_date_for_a_reason(
    running: ConnectedServerInfo,
    installed: FilePath,
    modified: Option<u64>,
)
    ensures
        ({
            let elsewhere = running.exe_path is Some && !same_path(
                running.exe_path->0.best(),
                installed.best(),
            );
            let older = running.start_time_secs is Some && modified is Some && modified->0
                > running.start_time_secs->0;
            &&& staleness(running, installed, modified) is Some <==> elsewhere || older
            &&& elsewhere ==> staleness(running, installed, modified) == Some(
                "running server path "@ + running.exe_path->0.path@ + " differs from installed "@
                    + installed.path@,
            )
            &&& !elsewhere && older ==> staleness(running, installed, modified) == Some(
                "installed server binary modified at "@ + decimal(modified->0 as nat)
                    + " after running server started at "@ + decimal(
                    running.start_time_secs->0 as nat,
                ),
            )
        }),
{
}

/// The path that links lead to is preferred to the one that was given.
pub proof fn canonical_paths_are_preferred(file: FilePath)
    ensures
        file.canonical is Some ==> file.best() == file.canonical->0@,
        file.canonical is None ==> file.best() == file.path@,
{
}

/// A search that found nothing ends with one and is no trouble; any other failure is, and
/// says which program was searched for.
pub proof fn searches_that_find_nothing_are_no_trouble(
    name: &str,
    ran: Ran,
    r: Result<Vec<u32>, Trouble>,
)
    requires
        call_ensures(listed_process_pids, (name, ran), r),
    ensures
        ran matches Ran::Ended { success, code, stdout, .. } ==> {
            &&& success ==> (r matches Ok(pids) && pids@ == pids_of(byte_lines(stdout@)))
            &&& !success && code == Some(1i32) ==> (r matches Ok(pids) && pids@.len() == 0)
            &&& !success && code != Some(1i32) ==> (r matches Err(
                Trouble::PgrepExited { name: n, .. },
            ) && n@ == name@)
        },
        ran is Not ==> (r matches Err(Trouble::PgrepFailed { name: n, .. }) && n@ == name@),
{
}

/// A process that is gone ends the wait at once, and so does the end of the time; nothing
/// else does.
pub proof fn waits_for_an_end_are_bounded(
    exited: bool,
    elapsed_ms: u64,
    timeout_ms: u64,
    r: ExitWait,
)
    requires
        call_ensures(wait_for_process_exit, (exited, elapsed_ms, timeout_ms), r),
    ensures
        exited ==> r == ExitWait::Over(true),
        !exited && elapsed_ms >= timeout_ms ==> r == ExitWait::Over(false),
        !exited && elapsed_ms < timeout_ms ==> r == (ExitWait::Again { millis: 100 }),
{
}

/// A program that ran well is no trouble. One that did not run, or not well, is told apart
/// by which program it was.
pub proof fn programs_are_told_apart(
    ran: Ran,
    systemctl: Result<(), Trouble>,
    bootstrap: Result<(), Trouble>,
    kickstart: Result<(), Trouble>,
)
    requires
        call_ensures(systemctl_started, (ran,), systemctl),
        call_ensures(agent_loaded, (ran,), bootstrap),
        call_ensures(agent_started, (ran,), kickstart),
    ensures
        ran matches Ran::Not { error } ==> {
            &&& systemctl == Err::<(), Trouble>(Trouble::SystemctlFailed { error })
            &&& bootstrap == Err::<(), Trouble>(Trouble::BootstrapFailed { error })
            &&& kickstart == Err::<(), Trouble>(Trouble::KickstartFailed { error })
        },
        ran matches Ran::Ended { success, status, .. } ==> if success {
            systemctl is Ok && bootstrap is Ok && kickstart is Ok
        } else {
            &&& systemctl == Err::<(), Trouble>(Trouble::SystemctlExited { status })
            &&& bootstrap == Err::<(), Trouble>(Trouble::BootstrapExited { status })
            &&& kickstart == Err::<(), Trouble>(Trouble::KickstartExited { status })
        },
{
}

/// The description of the agent is written again where it is missing or says anything else.
pub proof fn other_descriptions_are_replaced(current: Option<&str>, expected: &str, r: bool)
    requires
        call_ensures(plist_is_stale, (current, expected), r),
    ensures
        !r <==> (current matches Some(contents) && contents@ == expected@),
{
}

/// The server is told where the screen is, whatever kind of screen it is.
pub proof fn graphical_programs_find_the_screen(r: Vec<&'static str>)
    requires
        call_ensures(gui_env_vars, (), r),
    ensures
        r@.len() == 6,
        r@[0]@ == "DISPLAY"@,
        r@[1]@ == "WAYLAND_DISPLAY"@,
        r@[2]@ == "XDG_SESSION_TYPE"@,
        r@[3]@ == "XDG_RUNTIME_DIR"@,
        r@[4]@ == "DBUS_SESSION_BUS_ADDRESS"@,
        r@[5]@ == "XAUTHORITY"@,
{
}

/// A process is over once it is gone, and also while only its entry is left.
pub proof fn zombies_are_over(alive: bool, zombie: bool, r: bool)
    requires
        call_ensures(has_exited, (alive, zombie), r),
    ensures
        !alive ==> r,
        zombie ==> r,
        alive && !zombie ==> !r,
{
}

/// A variable that is set is taken over, and one that is not is forgotten.
pub proof fn set_variables_are_taken_over(
    names: Seq<Seq<char>>,
    is_set: Seq<bool>,
    wanted: bool,
    i: int,
)
    requires
        names.len() == is_set.len(),
        0 <= i < names.len(),
    ensures
        is_set[i] == wanted ==> picked(names, is_set, wanted).contains(names[i]),
        (forall|k: int| 0 <= k < is_set.len() ==> #[trigger] is_set[k] == wanted) ==> picked(
            names,
            is_set,
            wanted,
        ) == names,
        (forall|k: int| 0 <= k < is_set.len() ==> #[trigger] is_set[k] != wanted) ==> picked(
            names,
            is_set,
            wanted,
        ).len() == 0,
    decreases names.len(),
{
    let n = names.drop_last();
    let s = is_set.drop_last();
    let all = picked(names, is_set, wanted);
    let rest = picked(n, s, wanted);
    assert(is_set.last() == is_set[is_set.len() - 1]);
    assert forall|k: int| 0 <= k < s.len() implies #[trigger] s[k] == is_set[k] by {}
    if n.len() > 0 {
        set_variables_are_taken_over(n, s, wanted, if i < n.len() {
            i
        } else {
            0
        });
    }
    assert(names =~= n.push(names.last()));
    if is_set[i] == wanted {
        if i < n.len() {
            let k = choose|k: int| 0 <= k < rest.len() && rest[k] == n[i];
            assert(all[k] == names[i]);
        } else {
            assert(all[all.len() - 1] == names[i]);
        }
    }
    if n.len() == 0 {
        assert(rest =~= n);
    }
}

} // verus!
