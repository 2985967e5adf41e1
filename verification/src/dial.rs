//! Where a client connects to: the server on this machine, or a peer that its
//! environment names.

use vstd::prelude::*;

use crate::protocol::{ClientMessage, WindowId};
use crate::text::{
    all_white, ascii_lower, chars_of, decimal, eq_ascii_case, find, find_bounds, find_unique,
    is_digit, is_space, number_of_decimal, number_up_to, parse_number, same_but_ascii_case,
    same_chars, split, split_on, str_eq, string_of, texts, trim, trimmed,
    trimming_leaves_the_rest, without_plus,
};

verus! {

/// The port of a peer on the tailnet, where none is named.
pub const REMOTE_DEFAULT_PORT: u16 = 46061;

/// The port of a peer on the local network, where none is named.
pub const LAN_DEFAULT_PORT: u16 = 46062;

/// The port number that a text stands for.
pub open spec fn port_number(s: Seq<char>) -> Option<nat> {
    number_up_to(s, u16::MAX as nat)
}

// ---- Targets ----

/// A peer to dial: a host and a port.
#[verifier::ext_equal]
pub struct Target {
    pub host: Seq<char>,
    pub port: u16,
}

/// The peer that a text names: a host, or a host and a port with one colon between
/// them. A host that has colons of its own is taken as it stands, with the default
/// port, and so is one whose port is no number.
pub open spec fn target_of(raw: Seq<char>, default_port: u16) -> Option<Target> {
    let target = trim(raw);
    let parts = split(target, ':');
    if target.len() == 0 {
        None
    } else if parts.len() == 2 && parts[0].len() > 0 {
        Some(
            Target {
                host: parts[0],
                port: match port_number(parts[1]) {
                    Some(port) => port as u16,
                    None => default_port,
                },
            },
        )
    } else {
        Some(Target { host: target, port: default_port })
    }
}

/// What a host and a port amount to.
pub open spec fn target_view(target: Option<(String, u16)>) -> Option<Target> {
    match target {
        Some((host, port)) => Some(Target { host: host@, port }),
        None => None,
    }
}

/// The peer that a text names.
pub fn parse_dial_target(raw: &str, default_port: u16) -> (r: Option<(String, u16)>)
    ensures
        target_view(r) == target_of(raw@, default_port),
{
    let chars = chars_of(raw);
    let target = trimmed(chars.as_slice());
    if target.len() == 0 {
        return None;
    }
    let parts = split_on(target, ':');
    proof {
        assert(texts(parts@).len() == parts@.len());
    }
    if parts.len() == 2 && parts[0].len() > 0 {
        proof {
            assert(texts(parts@)[0] == parts@[0]@);
            assert(texts(parts@)[1] == parts@[1]@);
        }
        let port: u16 = match parse_number(parts[1].as_slice(), u16::MAX as u32) {
            Some(port) => port as u16,
            None => default_port,
        };
        Some((string_of(parts[0].as_slice()), port))
    } else {
        proof {
            if parts@.len() == 2 {
                assert(texts(parts@)[0] == parts@[0]@);
            }
        }
        Some((string_of(target), default_port))
    }
}

/// The peer that a variable of the environment names, where it is set.
pub open spec fn named_target(raw: Option<&str>, default_port: u16) -> Option<Target> {
    match raw {
        Some(text) => target_of(text@, default_port),
        None => None,
    }
}

/// The peer on the tailnet that `SCRIBE_REMOTE_DIAL` names.
pub fn remote_dial_target(raw: Option<&str>) -> (r: Option<(String, u16)>)
    ensures
        target_view(r) == named_target(raw, REMOTE_DEFAULT_PORT),
{
    match raw {
        Some(text) => parse_dial_target(text, REMOTE_DEFAULT_PORT),
        None => None,
    }
}

/// The peer on the local network that `SCRIBE_LAN_DIAL` names.
pub fn lan_dial_target(raw: Option<&str>) -> (r: Option<(String, u16)>)
    ensures
        target_view(r) == named_target(raw, LAN_DEFAULT_PORT),
{
    match raw {
        Some(text) => parse_dial_target(text, LAN_DEFAULT_PORT),
        None => None,
    }
}

proof fn split_at_one(host: Seq<char>, rest: Seq<char>)
    requires
        !host.contains(':'),
        !rest.contains(':'),
    ensures
        split(host + seq![':'] + rest, ':') == seq![host, rest],
{
    let s = host + seq![':'] + rest;
    assert forall|i: int| 0 <= i < host.len() implies (#[trigger] s[i]) != ':' by {
        assert(host.contains(host[i]));
    }
    find_unique(s, ':', host.len() as int);
    assert(s.take(host.len() as int) =~= host);
    assert(s.skip(host.len() as int + 1) =~= rest);
    assert forall|i: int| 0 <= i < rest.len() implies (#[trigger] rest[i]) != ':' by {
        assert(rest.contains(rest[i]));
    }
    find_unique(rest, ':', rest.len() as int);
    assert(split(rest, ':') == seq![rest]);
    assert(split(s, ':') =~= seq![host, rest]);
}

proof fn trim_of_solid(s: Seq<char>)
    requires
        s.len() > 0,
        !is_space(s[0]),
        !is_space(s.last()),
    ensures
        trim(s) == s,
{
    assert(s.skip(0) =~= s);
    assert(s.take(s.len() as int) =~= s);
}

/// A host without colons and without white space at its ends, written with a port,
/// is read back as that host and that port.
pub proof fn written_targets_are_read_back(host: Seq<char>, port: u16, default_port: u16)
    requires
        host.len() > 0,
        !host.contains(':'),
        !is_space(host[0]),
    ensures
        target_of(host + seq![':'] + decimal(port as nat), default_port) == Some(
            Target { host, port },
        ),
{
    let digits = decimal(port as nat);
    let s = host + seq![':'] + digits;
    number_of_decimal(port as nat);
    assert(is_digit(digits[digits.len() - 1]));
    assert(s.last() == digits.last());
    assert(s[0] == host[0]);
    trim_of_solid(s);
    assert(!digits.contains(':')) by {
        assert forall|i: int| 0 <= i < digits.len() implies (#[trigger] digits[i]) != ':' by {
            assert(is_digit(digits[i]));
        }
    }
    split_at_one(host, digits);
    assert(is_digit(digits[0]));
    assert(without_plus(digits) == digits);
}

/// A host alone is dialled at the default port.
pub proof fn bare_hosts_get_the_default_port(host: Seq<char>, default_port: u16)
    requires
        host.len() > 0,
        !host.contains(':'),
        !is_space(host[0]),
        !is_space(host.last()),
    ensures
        target_of(host, default_port) == Some(Target { host, port: default_port }),
{
    trim_of_solid(host);
    assert forall|i: int| 0 <= i < host.len() implies (#[trigger] host[i]) != ':' by {
        assert(host.contains(host[i]));
    }
    find_unique(host, ':', host.len() as int);
}

/// A host with two colons or more, such as an address of version 6, is dialled as it
/// stands at the default port.
pub proof fn hosts_with_colons_stay_whole(
    front: Seq<char>,
    middle: Seq<char>,
    back: Seq<char>,
    default_port: u16,
)
    requires
        !is_space((front + seq![':'] + middle + seq![':'] + back)[0]),
        !is_space((front + seq![':'] + middle + seq![':'] + back).last()),
    ensures
        target_of(front + seq![':'] + middle + seq![':'] + back, default_port) == Some(
            Target {
                host: front + seq![':'] + middle + seq![':'] + back,
                port: default_port,
            },
        ),
{
    let s = front + seq![':'] + middle + seq![':'] + back;
    trim_of_solid(s);
    assert(s[front.len() as int] == ':');
    assert(s[(front.len() + 1 + middle.len()) as int] == ':');
    parts_at_least(s, front.len() as int, (front.len() + 1 + middle.len()) as int);
}

proof fn parts_at_least(s: Seq<char>, i: int, j: int)
    requires
        0 <= i < j < s.len(),
        s[i] == ':',
        s[j] == ':',
    ensures
        split(s, ':').len() >= 3,
{
    find_bounds(s, ':');
    let n = find(s, ':') as int;
    assert(n <= i) by {
        if n > i {
            assert(s[i] != ':');
        }
    }
    let t = s.skip(n + 1);
    let k = j - n - 1;
    assert(t[k] == ':');
    find_bounds(t, ':');
    let m = find(t, ':') as int;
    assert(m <= k) by {
        if m > k {
            assert(t[k] != ':');
        }
    }
    let u = t.skip(m + 1);
    assert(split(u, ':').len() >= 1);
    assert(split(t, ':') == seq![t.take(m)] + split(u, ':'));
    assert(split(s, ':') == seq![s.take(n)] + split(t, ':'));
}

// ---- Marks in the environment ----

/// Whether a flag is set: its value is `1` or `true`, in any case.
pub open spec fn flag_is_set(value: Option<&str>) -> bool {
    match value {
        Some(text) => trim(text@) == "1"@ || same_but_ascii_case(trim(text@), "true"@),
        None => false,
    }
}

/// Whether a flag of the environment is set.
pub fn env_flag_set(value: Option<&str>) -> (r: bool)
    ensures
        r == flag_is_set(value),
{
    match value {
        Some(text) => {
            let chars = chars_of(text);
            let trimmed_text = trimmed(chars.as_slice());
            let one = chars_of("1");
            let yes = chars_of("true");
            same_chars(trimmed_text, one.as_slice()) || eq_ascii_case(
                trimmed_text,
                yes.as_slice(),
            )
        },
        None => false,
    }
}

/// The text in which a variable names a window, without the white space at its ends;
/// none where it is not set or blank.
pub fn window_text(raw: Option<&str>) -> (r: Option<String>)
    ensures
        match (r, raw) {
            (Some(text), Some(value)) => text@ == trim(value@) && text@.len() > 0,
            (None, Some(value)) => trim(value@).len() == 0,
            (None, None) => true,
            (Some(_), None) => false,
        },
{
    match raw {
        Some(value) => {
            let chars = chars_of(value);
            let text = trimmed(chars.as_slice());
            if text.len() == 0 {
                None
            } else {
                Some(string_of(text))
            }
        },
        None => None,
    }
}

/// Whether a client was started to take its window back.
pub open spec fn wants_reclaim(args: Seq<String>) -> bool {
    exists|i: int| 0 <= i < args.len() && (#[trigger] args[i])@ == "--reclaim"@
}

/// Whether a client was started to take its window back.
pub fn local_takeover_requested(args: &[String]) -> (r: bool)
    ensures
        r == wants_reclaim(args@),
{
    let mut i: usize = 0;
    while i < args.len()
        invariant
            i <= args@.len(),
            forall|k: int| 0 <= k < i ==> (#[trigger] args@[k])@ != "--reclaim"@,
        decreases args@.len() - i,
    {
        if str_eq(args[i].as_str(), "--reclaim") {
            return true;
        }
        i += 1;
    }
    false
}

// ---- How a client starts ----

/// A dial to a peer on the tailnet: where, which window to claim, and whether that
/// may displace another client.
#[derive(Debug)]
pub struct RemoteDial {
    pub host: String,
    pub port: u16,
    pub window_id: Option<WindowId>,
    pub takeover: bool,
}

/// A dial to a peer on the local network.
#[derive(Debug)]
pub struct LanDial {
    pub host: String,
    pub port: u16,
    pub window_id: Option<WindowId>,
    pub takeover: bool,
}

/// What a client finds in its environment.
pub struct StartEnv<'a> {
    /// `SCRIBE_REMOTE_DIAL`.
    pub remote_dial: Option<&'a str>,
    /// `SCRIBE_LAN_DIAL`.
    pub lan_dial: Option<&'a str>,
    /// The window that `SCRIBE_REMOTE_WINDOW` names.
    pub remote_window: Option<WindowId>,
    /// `SCRIBE_REMOTE_TAKEOVER`.
    pub remote_takeover: Option<&'a str>,
    /// The arguments on the command line.
    pub args: &'a [String],
}

/// How a client connects.
#[derive(Debug)]
pub enum Start {
    Remote(RemoteDial),
    Lan(LanDial),
    Local { window_id: Option<WindowId>, takeover: bool },
}

/// The window that is claimed on a peer: the one that is named, or else the client's
/// own.
pub open spec fn claim(named: Option<WindowId>, own: Option<WindowId>) -> Option<WindowId> {
    match named {
        Some(window) => Some(window),
        None => own,
    }
}

/// How a client connects: to a peer on the tailnet where one is named, or else to one
/// on the local network where one is named, or else to the server on this machine.
pub open spec fn starts(start: Start, env: StartEnv, own: Option<WindowId>) -> bool {
    match (
        named_target(env.remote_dial, REMOTE_DEFAULT_PORT),
        named_target(env.lan_dial, LAN_DEFAULT_PORT),
    ) {
        (Some(target), _) => start matches Start::Remote(dial) && dial.host@ == target.host
            && dial.port == target.port && dial.window_id == claim(env.remote_window, own)
            && dial.takeover == flag_is_set(env.remote_takeover),
        (None, Some(target)) => start matches Start::Lan(dial) && dial.host@ == target.host
            && dial.port == target.port && dial.window_id == claim(env.remote_window, own)
            && dial.takeover == flag_is_set(env.remote_takeover),
        (None, None) => start == (Start::Local {
            window_id: own,
            takeover: wants_reclaim(env.args@),
        }),
    }
}

/// How a client connects.
pub fn choose_start(env: &StartEnv, own: Option<WindowId>) -> (r: Start)
    ensures
        starts(r, *env, own),
{
    let window_id = match env.remote_window {
        Some(window) => Some(window),
        None => own,
    };
    if let Some((host, port)) = remote_dial_target(env.remote_dial) {
        let takeover = env_flag_set(env.remote_takeover);
        return Start::Remote(RemoteDial { host, port, window_id, takeover });
    }
    if let Some((host, port)) = lan_dial_target(env.lan_dial) {
        let takeover = env_flag_set(env.remote_takeover);
        return Start::Lan(LanDial { host, port, window_id, takeover });
    }
    Start::Local { window_id: own, takeover: local_takeover_requested(env.args) }
}

/// How a client connects that takes its window back from a remote controller: to the
/// server on this machine, whatever its environment says.
pub fn start_local_takeover(window_id: Option<WindowId>) -> (r: Start)
    ensures
        r == (Start::Local { window_id, takeover: true }),
{
    Start::Local { window_id, takeover: true }
}

/// The message that claims a window. Every one offers clipboard gating.
pub fn hello(window_id: Option<WindowId>, takeover: bool) -> (r: ClientMessage)
    ensures
        r == (ClientMessage::Hello { window_id, clipboard_gating: true, takeover }),
{
    ClientMessage::Hello { window_id, clipboard_gating: true, takeover }
}

/// Without a named peer a client stays on this machine, and only the command line can
/// make it displace another.
pub proof fn unmarked_clients_stay_local(start: Start, env: StartEnv, own: Option<WindowId>)
    requires
        env.remote_dial is None,
        env.lan_dial is None,
        starts(start, env, own),
    ensures
        start == (Start::Local { window_id: own, takeover: wants_reclaim(env.args@) }),
{
}

/// White space around a target is ignored, and a target of nothing else is none.
pub proof fn white_space_around_targets_is_ignored(
    w: Seq<char>,
    target: Seq<char>,
    v: Seq<char>,
    default_port: u16,
)
    requires
        all_white(w),
        all_white(v),
        target.len() > 0 ==> !is_space(target[0]) && !is_space(target.last()),
    ensures
        target_of(w + target + v, default_port) == target_of(target, default_port),
        target.len() == 0 ==> target_of(w + target + v, default_port) is None,
        target.len() > 0 ==> target_of(w + target + v, default_port) is Some,
{
    trimming_leaves_the_rest(w, target, v);
    let none = Seq::<char>::empty();
    trimming_leaves_the_rest(none, target, none);
    assert(none + target + none =~= target);
}

/// A port that is no number up to 65535 is replaced by the default one; a target that
/// starts with its colon has no host to part from and is dialled as it stands.
pub proof fn bad_ports_are_replaced(host: Seq<char>, port: Seq<char>, default_port: u16)
    requires
        !host.contains(':'),
        !port.contains(':'),
        host.len() > 0 ==> !is_space(host[0]),
        port.len() > 0 ==> !is_space(port.last()),
    ensures
        host.len() > 0 && port_number(port) is None ==> target_of(
            host + seq![':'] + port,
            default_port,
        ) == Some(Target { host, port: default_port }),
        host.len() == 0 ==> target_of(host + seq![':'] + port, default_port) == Some(
            Target { host: seq![':'] + port, port: default_port },
        ),
        port.len() == 0 ==> port_number(port) is None,
{
    let s = host + seq![':'] + port;
    trim_of_solid(s);
    split_at_one(host, port);
    if host.len() == 0 {
        assert(s =~= seq![':'] + port);
    }
}

/// A port number is between 0 and 65535.
pub proof fn ports_are_bounded(s: Seq<char>, n: nat)
    ensures
        port_number(s) matches Some(p) ==> p <= 65535,
        n <= 65535 ==> port_number(decimal(n)) == Some(n),
        n > 65535 ==> port_number(decimal(n)) is None,
{
    number_of_decimal(n);
    let d = decimal(n);
    assert(is_digit(d[0]));
    assert(without_plus(d) == d);
}

/// A peer on the tailnet that is named is dialled, whatever else is named; one on the
/// local network only where none on the tailnet is. Each has its default port, claims the
/// named window or else the client's own, and takes control only where asked to.
pub proof fn named_peers_are_dialled(start: Start, env: StartEnv, own: Option<WindowId>)
    requires
        starts(start, env, own),
    ensures
        ({
            let window = if env.remote_window is Some {
                env.remote_window
            } else {
                own
            };
            let remote = named_target(env.remote_dial, 46061);
            let lan = named_target(env.lan_dial, 46062);
            &&& remote is Some <==> start is Remote
            &&& remote is None && lan is Some <==> start is Lan
            &&& start matches Start::Remote(dial) ==> {
                &&& dial.host@ == remote->0.host && dial.port == remote->0.port
                &&& dial.window_id == window
                &&& dial.takeover == flag_is_set(env.remote_takeover)
            }
            &&& start matches Start::Lan(dial) ==> {
                &&& dial.host@ == lan->0.host && dial.port == lan->0.port
                &&& dial.window_id == window
                &&& dial.takeover == flag_is_set(env.remote_takeover)
            }
            &&& start matches Start::Local { window_id, takeover } ==> window_id == own
                && takeover == (exists|i: int|
                0 <= i < env.args@.len() && (#[trigger] env.args@[i])@ == "--reclaim"@)
        }),
{
}

/// A flag is set by `1` and by `true` in any case, and by nothing else.
pub proof fn flags_are_set_by_one_and_true(value: &str, t: Seq<char>)
    requires
        trim(value@) == t,
    ensures
        t == seq!['1'] ==> flag_is_set(Some(value)),
        t.len() == 4 && (t[0] == 't' || t[0] == 'T') && (t[1] == 'r' || t[1] == 'R') && (t[2] == 'u'
            || t[2] == 'U') && (t[3] == 'e' || t[3] == 'E') <==> flag_is_set(Some(value)) && t.len()
            == 4,
        t.len() != 1 && t.len() != 4 ==> !flag_is_set(Some(value)),
        t.len() == 1 && t[0] != '1' ==> !flag_is_set(Some(value)),
        !flag_is_set(None),
{
    reveal_strlit("1");
    reveal_strlit("true");
    let yes = "true"@;
    if t == seq!['1'] {
        assert(t =~= "1"@);
    }
    assert("1"@.len() == 1 && yes.len() == 4);
    assert(yes[0] == 't' && yes[1] == 'r' && yes[2] == 'u' && yes[3] == 'e');
    if t.len() == 4 {
        lower_is(t[0], 't');
        lower_is(t[1], 'r');
        lower_is(t[2], 'u');
        lower_is(t[3], 'e');
        if flag_is_set(Some(value)) {
            assert(ascii_lower(t[0]) == ascii_lower(yes[0]));
            assert(ascii_lower(t[1]) == ascii_lower(yes[1]));
            assert(ascii_lower(t[2]) == ascii_lower(yes[2]));
            assert(ascii_lower(t[3]) == ascii_lower(yes[3]));
        }
    }
}

proof fn lower_is(c: char, small: char)
    requires
        'a' <= small <= 'z',
    ensures
        ascii_lower(small) == small,
        ascii_lower(c) == small <==> c == small || c as u32 + 32 == small as u32,
{
}

/// A greeting names the window that is claimed, says whether it is taken over, and always
/// asks to be asked about the clipboard.
pub proof fn greetings_say_what_is_claimed(
    window_id: Option<WindowId>,
    takeover: bool,
    r: ClientMessage,
    start: Start,
)
    requires
        call_ensures(hello, (window_id, takeover), r),
        call_ensures(start_local_takeover, (window_id,), start),
    ensures
        r matches ClientMessage::Hello { window_id: w, clipboard_gating, takeover: t } && w
            == window_id && clipboard_gating && t == takeover,
        start matches Start::Local { window_id: w, takeover: t } && w == window_id && t,
{
}

/// A window that is named is named without the white space around it; nothing but white
/// space names none.
pub proof fn named_windows_are_trimmed(raw: Option<&str>, r: Option<String>)
    requires
        call_ensures(window_text, (raw,), r),
    ensures
        r is Some <==> (raw matches Some(value) && trim(value@).len() > 0),
        r matches Some(text) ==> raw is Some && text@ == trim(raw->0@),
{
}

} // verus!
