//! The built-in system resources, as the server declares them.
use vstd::prelude::*;

use crate::registry::Resource;

verus! {

/// The four system resources: information, logs, services and
/// snapshots, under their fixed URIs.
pub fn get_system_resources() -> (r: Vec<Resource>)
    ensures
        crate::registry::resource_uris(r@) == seq![
            "system://info"@,
            "system://logs"@,
            "system://services"@,
            "system://snapshots"@,
        ],
        r@.len() == 4,
        r@[0].name@ == "System Information"@,
        r@[1].name@ == "System Logs"@,
        r@[2].name@ == "Service Status"@,
        r@[3].name@ == "System Snapshots"@,
        r@[0]@.description == Some("Current system information and status"@),
        r@[1]@.description == Some("Recent system logs"@),
        r@[2]@.description == Some("Status of system services"@),
        r@[3]@.description == Some("Available system snapshots for rollback"@),
        r@[0]@.mime_type == Some("application/json"@),
        r@[1]@.mime_type == Some("text/plain"@),
        r@[2]@.mime_type == Some("application/json"@),
        r@[3]@.mime_type == Some("application/json"@),
{
    let mut rs: Vec<Resource> = Vec::new();
    rs.push(
        Resource {
            uri: String::from_str("system://info"),
            name: String::from_str("System Information"),
            description: Some(String::from_str("Current system information and status")),
            mime_type: Some(String::from_str("application/json")),
        },
    );
    rs.push(
        Resource {
            uri: String::from_str("system://logs"),
            name: String::from_str("System Logs"),
            description: Some(String::from_str("Recent system logs")),
            mime_type: Some(String::from_str("text/plain")),
        },
    );
    rs.push(
        Resource {
            uri: String::from_str("system://services"),
            name: String::from_str("Service Status"),
            description: Some(String::from_str("Status of system services")),
            mime_type: Some(String::from_str("application/json")),
        },
    );
    rs.push(
        Resource {
            uri: String::from_str("system://snapshots"),
            name: String::from_str("System Snapshots"),
            description: Some(String::from_str("Available system snapshots for rollback")),
            mime_type: Some(String::from_str("application/json")),
        },
    );
    proof {
        assert(crate::registry::resource_uris(rs@) =~= seq![
            "system://info"@,
            "system://logs"@,
            "system://services"@,
            "system://snapshots"@,
        ]);
    }
    rs
}

} // verus!
