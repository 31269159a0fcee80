//! The compositor IPC client: the control-channel state machine — one
//! disposable connection per command, re-established after every
//! exchange — the command texts of the convenience operations, and the
//! parser for the asynchronous event stream, all pinned down exactly.
use vstd::prelude::*;

use crate::json::{digit_of, digit_val, digits_acc, lemma_digits_acc_concat, lemma_digits_acc_mono};
use crate::strutil::{dec_int, push_i64, str_eq};
use crate::MCPError;

verus! {

/// A workspace as the compositor reports it.
#[derive(Debug, Clone)]
pub struct WorkspaceInfo {
    pub id: i32,
    pub name: String,
}

/// A window as the compositor reports it: position, size, owner
/// workspace and identity.
#[derive(Debug, Clone)]
pub struct HyprlandWindow {
    pub address: String,
    pub at: [i32; 2],
    pub size: [i32; 2],
    pub workspace: WorkspaceInfo,
    pub floating: bool,
    pub monitor: i32,
    pub class: String,
    pub title: String,
    pub pid: i32,
}

/// One event of the compositor's push stream.
#[derive(Debug, Clone)]
pub enum HyprlandEvent {
    Workspace(String),
    ActiveWindow(String, String),
    Fullscreen(bool),
    MonitorAdded(String),
    MonitorRemoved(String),
    CreateWorkspace(i32),
    DestroyWorkspace(i32),
    MoveWorkspace(i32, String),
    OpenWindow(String, String, String, String),
    CloseWindow(String),
    MoveWindow(String, String),
    Urgent(String),
    Minimize(String, bool),
    Other(String, String),
}

/// An event as it appears in specifications.
pub ghost enum EventV {
    Workspace(Seq<char>),
    ActiveWindow(Seq<char>, Seq<char>),
    Fullscreen(bool),
    MonitorAdded(Seq<char>),
    MonitorRemoved(Seq<char>),
    CreateWorkspace(int),
    DestroyWorkspace(int),
    MoveWorkspace(int, Seq<char>),
    OpenWindow(Seq<char>, Seq<char>, Seq<char>, Seq<char>),
    CloseWindow(Seq<char>),
    MoveWindow(Seq<char>, Seq<char>),
    Urgent(Seq<char>),
    Minimize(Seq<char>, bool),
    Other(Seq<char>, Seq<char>),
}

impl View for HyprlandEvent {
    type V = EventV;

    open spec fn view(&self) -> EventV {
        match self {
            HyprlandEvent::Workspace(a) => EventV::Workspace(a@),
            HyprlandEvent::ActiveWindow(a, b) => EventV::ActiveWindow(a@, b@),
            HyprlandEvent::Fullscreen(b) => EventV::Fullscreen(*b),
            HyprlandEvent::MonitorAdded(a) => EventV::MonitorAdded(a@),
            HyprlandEvent::MonitorRemoved(a) => EventV::MonitorRemoved(a@),
            HyprlandEvent::CreateWorkspace(i) => EventV::CreateWorkspace(*i as int),
            HyprlandEvent::DestroyWorkspace(i) => EventV::DestroyWorkspace(*i as int),
            HyprlandEvent::MoveWorkspace(i, a) => EventV::MoveWorkspace(*i as int, a@),
            HyprlandEvent::OpenWindow(a, b, c, d) => EventV::OpenWindow(a@, b@, c@, d@),
            HyprlandEvent::CloseWindow(a) => EventV::CloseWindow(a@),
            HyprlandEvent::MoveWindow(a, b) => EventV::MoveWindow(a@, b@),
            HyprlandEvent::Urgent(a) => EventV::Urgent(a@),
            HyprlandEvent::Minimize(a, b) => EventV::Minimize(a@, *b),
            HyprlandEvent::Other(a, b) => EventV::Other(a@, b@),
        }
    }
}

/// The first position at or after `i` where the two-character record
/// separator begins.
pub open spec fn find_sep(s: Seq<char>, i: int) -> Option<int>
    decreases s.len() - i,
{
    if i < 0 || i + 2 > s.len() {
        None
    } else if s[i] == '>' && s[i + 1] == '>' {
        Some(i)
    } else {
        find_sep(s, i + 1)
    }
}

/// The first position at or after `i` holding the given character.
pub open spec fn find_char(s: Seq<char>, c: char, i: int) -> Option<int>
    decreases s.len() - i,
{
    if i < 0 || i >= s.len() {
        None
    } else if s[i] == c {
        Some(i)
    } else {
        find_char(s, c, i + 1)
    }
}

/// A whole decimal 32-bit integer, optionally signed, as the standard
/// library reads it: any other text, and any out-of-range value, does
/// not parse.
pub open spec fn spec_parse_i32(s: Seq<char>) -> Option<int> {
    if s.len() == 0 {
        None
    } else {
        let neg = s[0] == '-';
        let start: int = if s[0] == '-' || s[0] == '+' {
            1
        } else {
            0
        };
        if start >= s.len() {
            None
        } else if exists|k: int| start <= k < s.len() && digit_val(#[trigger] s[k]) < 0 {
            None
        } else {
            let v = digits_acc(s.subrange(start, s.len() as int), 0);
            if neg {
                if v <= 0x8000_0000 {
                    Some(-v)
                } else {
                    None
                }
            } else {
                if v <= 0x7fff_ffff {
                    Some(v)
                } else {
                    None
                }
            }
        }
    }
}

/// The event denoted by a record's kind tag and payload.  Unknown kinds
/// yield the catch-all; a structured payload with the wrong field count
/// for its kind yields no event.
pub open spec fn event_of(kind: Seq<char>, data: Seq<char>) -> Option<EventV> {
    if kind == "workspace"@ {
        Some(EventV::Workspace(data))
    } else if kind == "activewindow"@ {
        match find_char(data, ',', 0) {
            Some(j) => Some(
                EventV::ActiveWindow(data.subrange(0, j), data.subrange(j + 1, data.len() as int)),
            ),
            None => None,
        }
    } else if kind == "fullscreen"@ {
        Some(EventV::Fullscreen(data == "1"@))
    } else if kind == "monitoradded"@ {
        Some(EventV::MonitorAdded(data))
    } else if kind == "monitorremoved"@ {
        Some(EventV::MonitorRemoved(data))
    } else if kind == "createworkspace"@ {
        match spec_parse_i32(data) {
            Some(v) => Some(EventV::CreateWorkspace(v)),
            None => None,
        }
    } else if kind == "destroyworkspace"@ {
        match spec_parse_i32(data) {
            Some(v) => Some(EventV::DestroyWorkspace(v)),
            None => None,
        }
    } else if kind == "moveworkspace"@ {
        match find_char(data, ',', 0) {
            Some(j) => match spec_parse_i32(data.subrange(0, j)) {
                Some(v) => Some(EventV::MoveWorkspace(v, data.subrange(j + 1, data.len() as int))),
                None => None,
            },
            None => None,
        }
    } else if kind == "openwindow"@ {
        match find_char(data, ',', 0) {
            Some(j1) => match find_char(data, ',', j1 + 1) {
                Some(j2) => match find_char(data, ',', j2 + 1) {
                    Some(j3) => Some(
                        EventV::OpenWindow(
                            data.subrange(0, j1),
                            data.subrange(j1 + 1, j2),
                            data.subrange(j2 + 1, j3),
                            data.subrange(j3 + 1, data.len() as int),
                        ),
                    ),
                    None => None,
                },
                None => None,
            },
            None => None,
        }
    } else if kind == "closewindow"@ {
        Some(EventV::CloseWindow(data))
    } else if kind == "movewindow"@ {
        match find_char(data, ',', 0) {
            Some(j) => Some(
                EventV::MoveWindow(data.subrange(0, j), data.subrange(j + 1, data.len() as int)),
            ),
            None => None,
        }
    } else if kind == "urgent"@ {
        Some(EventV::Urgent(data))
    } else if kind == "minimize"@ {
        match find_char(data, ',', 0) {
            Some(j) => Some(
                EventV::Minimize(
                    data.subrange(0, j),
                    data.subrange(j + 1, data.len() as int) == "1"@,
                ),
            ),
            None => None,
        }
    } else {
        Some(EventV::Other(kind, data))
    }
}

/// The event denoted by one line of the event stream: the kind tag up to
/// the first separator, the payload after it.  A line with no separator
/// is no event.
pub open spec fn parse_event(line: Seq<char>) -> Option<EventV> {
    match find_sep(line, 0) {
        Some(j) => event_of(line.subrange(0, j), line.subrange(j + 2, line.len() as int)),
        None => None,
    }
}

fn find_sep_at(s: &str, len: usize, i: usize) -> (r: Option<usize>)
    requires
        len == s@.len(),
        i <= len,
    ensures
        match r {
            Some(j) => find_sep(s@, i as int) == Some(j as int) && i <= j && j + 2 <= len,
            None => find_sep(s@, i as int) is None,
        },
    decreases len - i,
{
    if i >= len || len - i < 2 {
        return None;
    }
    if s.get_char(i) == '>' && s.get_char(i + 1) == '>' {
        Some(i)
    } else {
        find_sep_at(s, len, i + 1)
    }
}

fn find_char_at(s: &str, len: usize, c: char, i: usize) -> (r: Option<usize>)
    requires
        len == s@.len(),
        i <= len,
    ensures
        match r {
            Some(j) => find_char(s@, c, i as int) == Some(j as int) && i <= j && j < len,
            None => find_char(s@, c, i as int) is None,
        },
    decreases len - i,
{
    if i >= len {
        return None;
    }
    if s.get_char(i) == c {
        Some(i)
    } else {
        find_char_at(s, len, c, i + 1)
    }
}

/// Reads a whole decimal 32-bit integer, as `spec_parse_i32` says.
pub fn parse_i32_str(s: &str) -> (r: Option<i32>)
    ensures
        match r {
            Some(v) => spec_parse_i32(s@) == Some(v as int),
            None => spec_parse_i32(s@) is None,
        },
{
    let len = s.unicode_len();
    if len == 0 {
        return None;
    }
    let c0 = s.get_char(0);
    let neg = c0 == '-';
    let start: usize = if c0 == '-' || c0 == '+' {
        1
    } else {
        0
    };
    if start >= len {
        return None;
    }
    let mut i: usize = start;
    let mut acc: u64 = 0;
    while i < len
        invariant
            start <= i <= len,
            start < len,
            len == s@.len(),
            start == (if s@[0] == '-' || s@[0] == '+' {
                1int
            } else {
                0int
            }),
            forall|k: int| start <= k < i ==> digit_val(#[trigger] s@[k]) >= 0,
            acc == digits_acc(s@.subrange(start as int, i as int), 0),
            acc <= 0x8000_0000u64,
        decreases len - i,
    {
        let ghost pre = s@.subrange(start as int, i as int);
        match digit_of(s.get_char(i)) {
            None => {
                return None;
            },
            Some(d) => {
                let a2 = acc * 10 + d;
                proof {
                    assert(s@.subrange(start as int, i + 1) =~= pre + seq![s@[i as int]]);
                    lemma_digits_acc_concat(pre, seq![s@[i as int]], 0);
                    assert(seq![s@[i as int]].drop_first() =~= Seq::<char>::empty());
                    assert(digits_acc(seq![s@[i as int]].drop_first(), acc * 10 + digit_val(
                        s@[i as int],
                    )) == acc * 10 + digit_val(s@[i as int]));
                    assert(digits_acc(seq![s@[i as int]], acc as int) == acc * 10 + digit_val(
                        s@[i as int],
                    ));
                }
                if a2 > 0x8000_0000u64 {
                    proof {
                        let whole = s@.subrange(start as int, len as int);
                        let rest = s@.subrange(i + 1, len as int);
                        assert(whole =~= s@.subrange(start as int, i + 1) + rest);
                        lemma_digits_acc_concat(s@.subrange(start as int, i + 1), rest, 0);
                        if forall|k: int| start <= k < len ==> digit_val(#[trigger] s@[k]) >= 0 {
                            assert forall|k: int|
                                0 <= k < rest.len() implies digit_val(#[trigger] rest[k]) >= 0 by {
                                assert(rest[k] == s@[i + 1 + k]);
                            }
                            lemma_digits_acc_mono(rest, a2 as int);
                            assert(digits_acc(whole, 0) >= a2 > 0x8000_0000);
                        }
                    }
                    return None;
                }
                acc = a2;
            },
        }
        i = i + 1;
    }
    if neg {
        if acc <= 0x8000_0000u64 {
            let v: i32 = if acc == 0x8000_0000u64 {
                i32::MIN
            } else {
                -(acc as i32)
            };
            Some(v)
        } else {
            None
        }
    } else {
        if acc <= 0x7fff_ffffu64 {
            Some(acc as i32)
        } else {
            None
        }
    }
}

impl HyprlandEvent {
    /// Reads one line of the event stream, exactly as `parse_event`
    /// says: unknown kinds become the catch-all, a payload with the
    /// wrong field count for its kind is dropped.
    pub fn parse(line: &str) -> (r: Option<HyprlandEvent>)
        ensures
            match r {
                Some(e) => parse_event(line@) == Some(e@),
                None => parse_event(line@) is None,
            },
    {
        let len = line.unicode_len();
        let j = match find_sep_at(line, len, 0) {
            None => {
                return None;
            },
            Some(j) => j,
        };
        let kind = line.substring_char(0, j);
        let data = line.substring_char(j + 2, len);
        let dlen = data.unicode_len();
        if str_eq(kind, "workspace") {
            Some(HyprlandEvent::Workspace(data.to_owned()))
        } else if str_eq(kind, "activewindow") {
            match find_char_at(data, dlen, ',', 0) {
                Some(k) => Some(
                    HyprlandEvent::ActiveWindow(
                        data.substring_char(0, k).to_owned(),
                        data.substring_char(k + 1, dlen).to_owned(),
                    ),
                ),
                None => None,
            }
        } else if str_eq(kind, "fullscreen") {
            Some(HyprlandEvent::Fullscreen(str_eq(data, "1")))
        } else if str_eq(kind, "monitoradded") {
            Some(HyprlandEvent::MonitorAdded(data.to_owned()))
        } else if str_eq(kind, "monitorremoved") {
            Some(HyprlandEvent::MonitorRemoved(data.to_owned()))
        } else if str_eq(kind, "createworkspace") {
            match parse_i32_str(data) {
                Some(v) => Some(HyprlandEvent::CreateWorkspace(v)),
                None => None,
            }
        } else if str_eq(kind, "destroyworkspace") {
            match parse_i32_str(data) {
                Some(v) => Some(HyprlandEvent::DestroyWorkspace(v)),
                None => None,
            }
        } else if str_eq(kind, "moveworkspace") {
            match find_char_at(data, dlen, ',', 0) {
                Some(k) => {
                    match parse_i32_str(data.substring_char(0, k)) {
                        Some(v) => Some(
                            HyprlandEvent::MoveWorkspace(
                                v,
                                data.substring_char(k + 1, dlen).to_owned(),
                            ),
                        ),
                        None => None,
                    }
                },
                None => None,
            }
        } else if str_eq(kind, "openwindow") {
            match find_char_at(data, dlen, ',', 0) {
                Some(j1) => match find_char_at(data, dlen, ',', j1 + 1) {
                    Some(j2) => match find_char_at(data, dlen, ',', j2 + 1) {
                        Some(j3) => Some(
                            HyprlandEvent::OpenWindow(
                                data.substring_char(0, j1).to_owned(),
                                data.substring_char(j1 + 1, j2).to_owned(),
                                data.substring_char(j2 + 1, j3).to_owned(),
                                data.substring_char(j3 + 1, dlen).to_owned(),
                            ),
                        ),
                        None => None,
                    },
                    None => None,
                },
                None => None,
            }
        } else if str_eq(kind, "closewindow") {
            Some(HyprlandEvent::CloseWindow(data.to_owned()))
        } else if str_eq(kind, "movewindow") {
            match find_char_at(data, dlen, ',', 0) {
                Some(k) => Some(
                    HyprlandEvent::MoveWindow(
                        data.substring_char(0, k).to_owned(),
                        data.substring_char(k + 1, dlen).to_owned(),
                    ),
                ),
                None => None,
            }
        } else if str_eq(kind, "urgent") {
            Some(HyprlandEvent::Urgent(data.to_owned()))
        } else if str_eq(kind, "minimize") {
            match find_char_at(data, dlen, ',', 0) {
                Some(k) => Some(
                    HyprlandEvent::Minimize(
                        data.substring_char(0, k).to_owned(),
                        str_eq(data.substring_char(k + 1, dlen), "1"),
                    ),
                ),
                None => None,
            }
        } else {
            Some(HyprlandEvent::Other(kind.to_owned(), data.to_owned()))
        }
    }
}

/// The client handle for the compositor's two sockets.  The control
/// channel is request/response per connection: the remote end drops the
/// connection after each exchange, so the client re-establishes it
/// before the next command.  The event channel is long-lived and
/// optional.  The transport performs the socket work and reports it
/// here; the counters make the reconnect discipline observable.
#[derive(Debug, Clone, Copy, PartialEq, Eq, Structural)]
pub struct HyprlandIPC {
    pub control_connected: bool,
    pub event_connected: bool,
    pub reconnects: u64,
    pub commands_exchanged: u64,
}

/// What establishing the control connection does.
pub open spec fn spec_connected(c: HyprlandIPC) -> HyprlandIPC {
    HyprlandIPC {
        control_connected: true,
        event_connected: c.event_connected,
        reconnects: (c.reconnects + 1) as u64,
        commands_exchanged: c.commands_exchanged,
    }
}

/// What completing one command exchange does: the remote end closes the
/// control connection.
pub open spec fn spec_exchanged(c: HyprlandIPC) -> HyprlandIPC {
    HyprlandIPC {
        control_connected: false,
        event_connected: c.event_connected,
        reconnects: c.reconnects,
        commands_exchanged: (c.commands_exchanged + 1) as u64,
    }
}

impl HyprlandIPC {
    /// A fresh handle with nothing connected yet.
    pub fn new() -> (r: HyprlandIPC)
        ensures
            !r.control_connected,
            !r.event_connected,
            r.reconnects == 0,
            r.commands_exchanged == 0,
    {
        HyprlandIPC {
            control_connected: false,
            event_connected: false,
            reconnects: 0,
            commands_exchanged: 0,
        }
    }

    /// Records that the control connection was (re-)established.
    pub fn note_control_connected(&mut self)
        requires
            old(self).reconnects < u64::MAX,
        ensures
            *final(self) == spec_connected(*old(self)),
    {
        self.control_connected = true;
        self.reconnects = self.reconnects + 1;
    }

    /// Records that the long-lived event connection was established.
    pub fn note_event_connected(&mut self)
        ensures
            final(self).event_connected,
            final(self).control_connected == old(self).control_connected,
            final(self).reconnects == old(self).reconnects,
            final(self).commands_exchanged == old(self).commands_exchanged,
    {
        self.event_connected = true;
    }

    /// Records that one command was written and its response read: the
    /// remote end has closed the control connection, so a reconnect is
    /// owed before the next command.
    pub fn command_exchanged(&mut self)
        requires
            old(self).control_connected,
            old(self).commands_exchanged < u64::MAX,
        ensures
            *final(self) == spec_exchanged(*old(self)),
    {
        self.control_connected = false;
        self.commands_exchanged = self.commands_exchanged + 1;
    }

    /// The command text of a dispatcher invocation.
    pub fn dispatch(&self, dispatcher: &str, params: &str) -> (cmd: String)
        ensures
            cmd@ == dispatch_text(dispatcher@, params@),
    {
        if params.unicode_len() == 0 {
            String::from_str("dispatch ").concat(dispatcher)
        } else {
            String::from_str("dispatch ").concat(dispatcher).concat(" ").concat(params)
        }
    }

    /// The command text that sets a configuration keyword.
    pub fn set_keyword(&self, keyword: &str, value: &str) -> (cmd: String)
        ensures
            cmd@ == "keyword "@ + keyword@ + " "@ + value@,
    {
        String::from_str("keyword ").concat(keyword).concat(" ").concat(value)
    }

    /// The command text that reloads the compositor configuration.
    pub fn reload_config(&self) -> (cmd: String)
        ensures
            cmd@ == "reload"@,
    {
        String::from_str("reload")
    }

    /// The command text that closes the focused window.
    pub fn kill_active(&self) -> (cmd: String)
        ensures
            cmd@ == dispatch_text("killactive"@, ""@),
    {
        self.dispatch("killactive", "")
    }

    /// The command text that switches to the numbered workspace.
    pub fn workspace(&self, id: i32) -> (cmd: String)
        ensures
            cmd@ == "dispatch workspace "@ + dec_int(id as int),
    {
        let mut cmd = String::from_str("dispatch workspace ");
        push_i64(&mut cmd, id as i64);
        cmd
    }

    /// The command text that moves the focused window to a workspace.
    pub fn move_to_workspace(&self, id: i32) -> (cmd: String)
        ensures
            cmd@ == "dispatch movetoworkspace "@ + dec_int(id as int),
    {
        let mut cmd = String::from_str("dispatch movetoworkspace ");
        push_i64(&mut cmd, id as i64);
        cmd
    }

    /// The command text that toggles floating on the focused window.
    pub fn toggle_floating(&self) -> (cmd: String)
        ensures
            cmd@ == dispatch_text("togglefloating"@, ""@),
    {
        self.dispatch("togglefloating", "")
    }

    /// The command text that toggles fullscreen on the focused window.
    pub fn toggle_fullscreen(&self) -> (cmd: String)
        ensures
            cmd@ == dispatch_text("fullscreen"@, "0"@),
    {
        self.dispatch("fullscreen", "0")
    }

    /// The command text that moves focus in the given direction.
    pub fn focus_window(&self, direction: &str) -> (cmd: String)
        ensures
            cmd@ == dispatch_text("movefocus"@, direction@),
    {
        self.dispatch("movefocus", direction)
    }

    /// The command text that resizes the focused window.
    pub fn resize_active(&self, x: i32, y: i32) -> (cmd: String)
        ensures
            cmd@ == "dispatch resizeactive "@ + dec_int(x as int) + " "@ + dec_int(y as int),
    {
        let mut cmd = String::from_str("dispatch resizeactive ");
        push_i64(&mut cmd, x as i64);
        cmd.append(" ");
        push_i64(&mut cmd, y as i64);
        cmd
    }

    /// The command text that moves the focused window.
    pub fn move_active(&self, x: i32, y: i32) -> (cmd: String)
        ensures
            cmd@ == "dispatch moveactive "@ + dec_int(x as int) + " "@ + dec_int(y as int),
    {
        let mut cmd = String::from_str("dispatch moveactive ");
        push_i64(&mut cmd, x as i64);
        cmd.append(" ");
        push_i64(&mut cmd, y as i64);
        cmd
    }

    /// The structured query for all windows.
    pub fn windows_query(&self) -> (cmd: String)
        ensures
            cmd@ == "j/clients"@,
    {
        String::from_str("j/clients")
    }

    /// The structured query for all workspaces.
    pub fn workspaces_query(&self) -> (cmd: String)
        ensures
            cmd@ == "j/workspaces"@,
    {
        String::from_str("j/workspaces")
    }

    /// The structured query for all monitors.
    pub fn monitors_query(&self) -> (cmd: String)
        ensures
            cmd@ == "j/monitors"@,
    {
        String::from_str("j/monitors")
    }

    /// The structured query for the focused window.
    pub fn active_window_query(&self) -> (cmd: String)
        ensures
            cmd@ == "j/activewindow"@,
    {
        String::from_str("j/activewindow")
    }
}

/// The command text of a dispatcher invocation: the bare dispatcher, or
/// dispatcher and arguments separated by one space.
pub open spec fn dispatch_text(d: Seq<char>, p: Seq<char>) -> Seq<char> {
    if p.len() == 0 {
        "dispatch "@ + d
    } else {
        "dispatch "@ + d + " "@ + p
    }
}

/// The two well-known socket paths derived from the environment: the
/// control socket and the event socket.  Either missing component is a
/// configuration error, reported without retrying.
pub fn socket_paths(runtime_dir: Option<String>, instance: Option<String>) -> (r: Result<
    (String, String),
    MCPError,
>)
    ensures
        match r {
            Ok(p) => runtime_dir matches Some(d) && instance matches Some(i) && p.0@ == d@
                + "/hypr/"@ + i@ + "/.socket.sock"@ && p.1@ == d@ + "/hypr/"@ + i@
                + "/.socket2.sock"@,
            Err(e) => (runtime_dir is None || instance is None) && (e matches
            MCPError::Configuration(m) && (runtime_dir is None ==> m@ == "XDG_RUNTIME_DIR not set"@)
                && (runtime_dir is Some ==> m@ == "HYPRLAND_INSTANCE_SIGNATURE not set"@)),
        },
{
    let dir = match runtime_dir {
        Some(d) => d,
        None => {
            return Err(MCPError::Configuration(String::from_str("XDG_RUNTIME_DIR not set")));
        },
    };
    let inst = match instance {
        Some(i) => i,
        None => {
            return Err(
                MCPError::Configuration(String::from_str("HYPRLAND_INSTANCE_SIGNATURE not set")),
            );
        },
    };
    let base = dir.concat("/hypr/").concat(inst.as_str());
    let control = base.clone().concat("/.socket.sock");
    let event = base.concat("/.socket2.sock");
    Ok((control, event))
}

/// The reconnect discipline: after a command completes, the control
/// channel is down, and exactly one reconnect makes the next command
/// possible.
pub proof fn lemma_single_reconnect(c0: HyprlandIPC)
    requires
        c0.control_connected,
        c0.reconnects < u64::MAX,
        c0.commands_exchanged < u64::MAX,
    ensures
        ({
            let c1 = spec_exchanged(c0);
            let c2 = spec_connected(c1);
            !c1.control_connected && c2.control_connected && c2.reconnects == c0.reconnects + 1
                && c1.commands_exchanged == c0.commands_exchanged + 1
        }),
{
}

} // verus!
