//! The built-in system tools: execution, snapshot and rollback, as the
//! server declares them.
use vstd::prelude::*;

use crate::json::JsonValue;
use crate::registry::Tool;

verus! {

fn sys_prop(ty: &str, desc: &str) -> (v: JsonValue)
    ensures
        v@ is Obj,
{
    let mut ps: Vec<(String, JsonValue)> = Vec::new();
    ps.push((String::from_str("type"), JsonValue::Str(ty.to_owned())));
    ps.push((String::from_str("description"), JsonValue::Str(desc.to_owned())));
    JsonValue::Obj(ps)
}

fn sys_schema(props: Vec<(String, JsonValue)>, required: Vec<String>) -> (v: JsonValue)
    ensures
        v@ is Obj,
{
    let mut rs: Vec<JsonValue> = Vec::new();
    let mut req = required;
    while req.len() > 0
        decreases req.len(),
    {
        let r = req.remove(0);
        rs.push(JsonValue::Str(r));
    }
    let mut ps: Vec<(String, JsonValue)> = Vec::new();
    ps.push((String::from_str("type"), JsonValue::Str(String::from_str("object"))));
    ps.push((String::from_str("properties"), JsonValue::Obj(props)));
    ps.push((String::from_str("required"), JsonValue::Arr(rs)));
    JsonValue::Obj(ps)
}

/// The three system tools, under their fixed names.
pub fn get_system_tools() -> (r: Vec<Tool>)
    ensures
        crate::registry::tool_names(r@) == seq![
            "system_exec"@,
            "system_snapshot"@,
            "system_rollback"@,
        ],
        r@.len() == 3,
        r@[0]@.description == "Execute a system command with proper privilege handling"@,
        r@[1]@.description == "Create a system snapshot for rollback"@,
        r@[2]@.description == "Rollback to a previous system snapshot"@,
        forall|i: int| 0 <= i < 3 ==> (#[trigger] r@[i]@.input_schema) is Obj,
{
    let mut ts: Vec<Tool> = Vec::new();
    let mut p1: Vec<(String, JsonValue)> = Vec::new();
    p1.push((String::from_str("command"), sys_prop("string", "Command to execute")));
    p1.push((String::from_str("args"), sys_prop("array", "Command arguments")));
    p1.push((
        String::from_str("require_root"),
        sys_prop("boolean", "Whether the command requires root privileges"),
    ));
    p1.push((String::from_str("timeout"), sys_prop("integer", "Timeout in seconds")));
    let mut r1: Vec<String> = Vec::new();
    r1.push(String::from_str("command"));
    ts.push(
        Tool {
            name: String::from_str("system_exec"),
            description: String::from_str(
                "Execute a system command with proper privilege handling",
            ),
            input_schema: sys_schema(p1, r1),
        },
    );
    let mut p2: Vec<(String, JsonValue)> = Vec::new();
    p2.push((String::from_str("description"), sys_prop("string", "Snapshot description")));
    p2.push((String::from_str("files"), sys_prop("array", "Files to include in snapshot")));
    let mut r2: Vec<String> = Vec::new();
    r2.push(String::from_str("description"));
    ts.push(
        Tool {
            name: String::from_str("system_snapshot"),
            description: String::from_str("Create a system snapshot for rollback"),
            input_schema: sys_schema(p2, r2),
        },
    );
    let mut p3: Vec<(String, JsonValue)> = Vec::new();
    p3.push((String::from_str("snapshot_id"), sys_prop("string", "Snapshot ID to rollback to")));
    let mut r3: Vec<String> = Vec::new();
    r3.push(String::from_str("snapshot_id"));
    ts.push(
        Tool {
            name: String::from_str("system_rollback"),
            description: String::from_str("Rollback to a previous system snapshot"),
            input_schema: sys_schema(p3, r3),
        },
    );
    proof {
        assert(crate::registry::tool_names(ts@) =~= seq![
            "system_exec"@,
            "system_snapshot"@,
            "system_rollback"@,
        ]);
    }
    ts
}

} // verus!
