//! The compositor provider: declares the dispatcher, keyword, query and
//! reload tools, decodes their arguments into the exact command texts of
//! the IPC client, and words their outcomes.  The socket work happens in
//! the embedding program.
use vstd::prelude::*;

use crate::hyprland::{dispatch_text, HyprlandIPC};
use crate::json::{jv_of_pairs, lookup, JsonV, JsonValue};
use crate::registry::{Resource, Tool, ToolArgs};
use crate::MCPError;

verus! {

/// Drives the window compositor over its two sockets.
#[derive(Debug)]
pub struct HyprlandPlugin {
    pub ipc: Option<HyprlandIPC>,
}

fn text_schema(ty: &str, desc: &str) -> (v: JsonValue)
    ensures
        v@ is Obj,
{
    let mut ps: Vec<(String, JsonValue)> = Vec::new();
    ps.push((String::from_str("type"), JsonValue::Str(ty.to_owned())));
    ps.push((String::from_str("description"), JsonValue::Str(desc.to_owned())));
    JsonValue::Obj(ps)
}

fn obj_schema(props: Vec<(String, JsonValue)>, required: Vec<String>) -> (v: JsonValue)
    ensures
        v@ is Obj,
{
    let mut rs: Vec<JsonValue> = Vec::new();
    let mut req = required;
    while req.len() > 0
        decreases req.len(),
    {
        let r = req.remove(0);
        rs.push(JsonValue::Str(r));
    }
    let mut ps: Vec<(String, JsonValue)> = Vec::new();
    ps.push((String::from_str("type"), JsonValue::Str(String::from_str("object"))));
    ps.push((String::from_str("properties"), JsonValue::Obj(props)));
    ps.push((String::from_str("required"), JsonValue::Arr(rs)));
    JsonValue::Obj(ps)
}

impl HyprlandPlugin {
    /// A provider with no connection yet; the transport connects on
    /// first use.
    pub fn new() -> (r: HyprlandPlugin)
        ensures
            r.ipc is None,
    {
        HyprlandPlugin { ipc: None }
    }

    /// This provider's name.
    pub fn name(&self) -> (r: &str)
        ensures
            r@ == "hyprland"@,
    {
        "hyprland"
    }

    /// The six compositor tools, under their fixed names.
    pub fn tools(&self) -> (r: Vec<Tool>)
        ensures
            crate::registry::tool_names(r@) == seq![
                "hyprland_dispatch"@,
                "hyprland_keyword"@,
                "hyprland_window_info"@,
                "hyprland_workspaces"@,
                "hyprland_monitors"@,
                "hyprland_reload"@,
            ],
            r@.len() == 6,
            r@[0]@.description == "Execute Hyprland dispatcher command"@,
            r@[1]@.description == "Set Hyprland configuration keyword"@,
            r@[2]@.description == "Get information about windows"@,
            r@[3]@.description == "List all workspaces"@,
            r@[4]@.description == "List all monitors"@,
            r@[5]@.description == "Reload Hyprland configuration"@,
            forall|i: int| 0 <= i < 6 ==> (#[trigger] r@[i]@.input_schema) is Obj,
    {
        let mut ts: Vec<Tool> = Vec::new();
        let mut p1: Vec<(String, JsonValue)> = Vec::new();
        p1.push((
            String::from_str("command"),
            text_schema("string", "Dispatcher command (e.g., workspace, movewindow)"),
        ));
        p1.push((String::from_str("args"), text_schema("string", "Command arguments")));
        let mut r1: Vec<String> = Vec::new();
        r1.push(String::from_str("command"));
        ts.push(
            Tool {
                name: String::from_str("hyprland_dispatch"),
                description: String::from_str("Execute Hyprland dispatcher command"),
                input_schema: obj_schema(p1, r1),
            },
        );
        let mut p2: Vec<(String, JsonValue)> = Vec::new();
        p2.push((String::from_str("keyword"), text_schema("string", "Configuration keyword")));
        p2.push((String::from_str("value"), text_schema("string", "Value to set")));
        let mut r2: Vec<String> = Vec::new();
        r2.push(String::from_str("keyword"));
        r2.push(String::from_str("value"));
        ts.push(
            Tool {
                name: String::from_str("hyprland_keyword"),
                description: String::from_str("Set Hyprland configuration keyword"),
                input_schema: obj_schema(p2, r2),
            },
        );
        let mut p3: Vec<(String, JsonValue)> = Vec::new();
        p3.push((
            String::from_str("window_id"),
            text_schema("string", "Window ID (optional, defaults to active window)"),
        ));
        ts.push(
            Tool {
                name: String::from_str("hyprland_window_info"),
                description: String::from_str("Get information about windows"),
                input_schema: obj_schema(p3, Vec::new()),
            },
        );
        ts.push(
            Tool {
                name: String::from_str("hyprland_workspaces"),
                description: String::from_str("List all workspaces"),
                input_schema: obj_schema(Vec::new(), Vec::new()),
            },
        );
        ts.push(
            Tool {
                name: String::from_str("hyprland_monitors"),
                description: String::from_str("List all monitors"),
                input_schema: obj_schema(Vec::new(), Vec::new()),
            },
        );
        ts.push(
            Tool {
                name: String::from_str("hyprland_reload"),
                description: String::from_str("Reload Hyprland configuration"),
                input_schema: obj_schema(Vec::new(), Vec::new()),
            },
        );
        proof {
            assert(crate::registry::tool_names(ts@) =~= seq![
                "hyprland_dispatch"@,
                "hyprland_keyword"@,
                "hyprland_window_info"@,
                "hyprland_workspaces"@,
                "hyprland_monitors"@,
                "hyprland_reload"@,
            ]);
        }
        ts
    }

    /// The two compositor resources, under their fixed URIs.
    pub fn resources(&self) -> (r: Vec<Resource>)
        ensures
            r@.len() == 2,
            r@[0].uri@ == "hyprland://config"@,
            r@[0].name@ == "Hyprland Configuration"@,
            r@[0]@.description == Some("Current Hyprland configuration"@),
            r@[0]@.mime_type == Some("text/plain"@),
            r@[1].uri@ == "hyprland://layout"@,
            r@[1].name@ == "Window Layout"@,
            r@[1]@.description == Some("Current window layout information"@),
            r@[1]@.mime_type == Some("application/json"@),
    {
        let mut rs: Vec<Resource> = Vec::new();
        rs.push(
            Resource {
                uri: String::from_str("hyprland://config"),
                name: String::from_str("Hyprland Configuration"),
                description: Some(String::from_str("Current Hyprland configuration")),
                mime_type: Some(String::from_str("text/plain")),
            },
        );
        rs.push(
            Resource {
                uri: String::from_str("hyprland://layout"),
                name: String::from_str("Window Layout"),
                description: Some(String::from_str("Current window layout information")),
                mime_type: Some(String::from_str("application/json")),
            },
        );
        rs
    }

    /// Decodes a dispatcher request into the exact command text: the
    /// command is a required string, the arguments default to none.
    pub fn dispatch_request(&self, args: &ToolArgs) -> (r: Result<String, MCPError>)
        ensures
            ({
                let ps = jv_of_pairs(args.args@);
                match r {
                    Ok(cmd) => (lookup(ps, "command"@) matches Some(JsonV::Str(c)) && cmd@
                        == dispatch_text(
                        c,
                        match lookup(ps, "args"@) {
                            Some(JsonV::Str(a)) => a,
                            _ => Seq::empty(),
                        },
                    )),
                    Err(e) => e matches MCPError::Other(m) && m@ == "Missing command parameter"@
                        && !(lookup(ps, "command"@) matches Some(JsonV::Str(_))),
                }
            }),
    {
        let command: String = match args.get("command") {
            Some(JsonValue::Str(c)) => c.clone(),
            _ => {
                return Err(MCPError::Other(String::from_str("Missing command parameter")));
            },
        };
        let cmd_args: String = match args.get("args") {
            Some(JsonValue::Str(a)) => a.clone(),
            _ => String::new(),
        };
        let ipc = HyprlandIPC::new();
        Ok(ipc.dispatch(command.as_str(), cmd_args.as_str()))
    }

    /// Decodes a keyword request into the exact command text: keyword
    /// and value are required strings.
    pub fn keyword_request(&self, args: &ToolArgs) -> (r: Result<String, MCPError>)
        ensures
            ({
                let ps = jv_of_pairs(args.args@);
                match r {
                    Ok(cmd) => (lookup(ps, "keyword"@) matches Some(JsonV::Str(k)) && lookup(
                        ps,
                        "value"@,
                    ) matches Some(JsonV::Str(v)) && cmd@ == "keyword "@ + k + " "@ + v),
                    Err(e) => e matches MCPError::Other(m) && (!(lookup(ps, "keyword"@) matches
                    Some(JsonV::Str(_))) ==> m@ == "Missing keyword parameter"@) && ((lookup(
                        ps,
                        "keyword"@,
                    ) matches Some(JsonV::Str(_))) ==> !(lookup(ps, "value"@) matches Some(
                        JsonV::Str(_),
                    )) && m@ == "Missing value parameter"@),
                }
            }),
    {
        let keyword: String = match args.get("keyword") {
            Some(JsonValue::Str(k)) => k.clone(),
            _ => {
                return Err(MCPError::Other(String::from_str("Missing keyword parameter")));
            },
        };
        let value: String = match args.get("value") {
            Some(JsonValue::Str(v)) => v.clone(),
            _ => {
                return Err(MCPError::Other(String::from_str("Missing value parameter")));
            },
        };
        let ipc = HyprlandIPC::new();
        Ok(ipc.set_keyword(keyword.as_str(), value.as_str()))
    }

    /// The query text of a window-information request: a structured
    /// query for the named window, or for the focused one when no id is
    /// given.
    pub fn window_info_command(&self, args: &ToolArgs) -> (r: String)
        ensures
            ({
                let ps = jv_of_pairs(args.args@);
                match lookup(ps, "window_id"@) {
                    Some(JsonV::Str(id)) => r@ == "j/clients | jq '.[] | select(.address == \""@
                        + id + "\")'"@,
                    _ => r@ == "j/activewindow"@,
                }
            }),
    {
        match args.get("window_id") {
            Some(JsonValue::Str(id)) => String::from_str(
                "j/clients | jq '.[] | select(.address == \"",
            ).concat(id.as_str()).concat("\")'"),
            _ => String::from_str("j/activewindow"),
        }
    }

    /// The wording reported after a configuration reload.
    pub fn reload_text(&self) -> (s: String)
        ensures
            s@ == "Hyprland configuration reloaded"@,
    {
        String::from_str("Hyprland configuration reloaded")
    }

    /// The configuration file read for the config resource: under the
    /// home directory when one is known, the system-wide file otherwise.
    pub fn config_path(&self, home: Option<String>) -> (p: String)
        ensures
            match home {
                Some(h) => p@ == h@ + "/.config/hypr/hyprland.conf"@,
                None => p@ == "/etc/hypr/hyprland.conf"@,
            },
    {
        match home {
            Some(h) => h.concat("/.config/hypr/hyprland.conf"),
            None => String::from_str("/etc/hypr/hyprland.conf"),
        }
    }
}

} // verus!
