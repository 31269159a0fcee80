use mcp_arch_linux::json::{parse_json, JsonValue};
use mcp_arch_linux::jsonrpc::JsonRpcResponse;
use mcp_arch_linux::registry::{MCPPlugin, MCPToolResult, Resource, Tool, ToolArgs};
use mcp_arch_linux::server::MCPJsonRpcServer;
use mcp_arch_linux::{Config, LinuxMCPServer, MCPError};

struct EchoPlugin;

impl MCPPlugin for EchoPlugin {
    fn name(&self) -> &str {
        "echo"
    }

    fn tools(&self) -> Vec<Tool> {
        vec![Tool {
            name: "echo_tool".to_string(),
            description: "Echoes".to_string(),
            input_schema: JsonValue::Obj(Vec::new()),
        }]
    }

    fn resources(&self) -> Vec<Resource> {
        vec![Resource {
            uri: "echo://value".to_string(),
            name: "Echo Value".to_string(),
            description: None,
            mime_type: None,
        }]
    }

    fn handle_tool_call(&self, _tool: &str, _args: &ToolArgs) -> Result<MCPToolResult, MCPError> {
        Ok(MCPToolResult::text("echoed".to_string()))
    }

    fn handle_resource_read(&self, _uri: &str) -> Result<String, MCPError> {
        Ok("contents".to_string())
    }
}

fn test_server() -> MCPJsonRpcServer {
    let server = LinuxMCPServer::builder()
        .with_plugin(Box::new(EchoPlugin))
        .build()
        .expect("server builds");
    MCPJsonRpcServer::new(server)
}

fn response_of(line: &str) -> JsonRpcResponse {
    let doc = parse_json(line).expect("reply is one document");
    JsonRpcResponse::from_json(&doc).expect("reply is a well-formed response")
}

#[test]
fn malformed_line_yields_parse_error_and_connection_survives() {
    let mut srv = test_server();
    let reply = srv.handle_message("not-json");
    let resp = response_of(&reply);
    assert!(matches!(resp.id, JsonValue::Null));
    assert_eq!(resp.error.expect("error present").code, -32700);
    // the next line on the same connection is handled normally
    let reply2 = srv.handle_message("{\"jsonrpc\":\"2.0\",\"method\":\"initialized\",\"id\":1}");
    let resp2 = response_of(&reply2);
    assert!(resp2.result.is_some());
}

#[test]
fn unknown_method_is_refused() {
    let mut srv = test_server();
    let reply = srv.handle_message("{\"jsonrpc\":\"2.0\",\"method\":\"no/such\",\"id\":4}");
    let resp = response_of(&reply);
    match resp.id {
        JsonValue::Int(i) => assert_eq!(i, 4),
        other => panic!("expected id 4, got {:?}", other),
    }
    assert_eq!(resp.error.expect("error present").code, -32601);
}

#[test]
fn nonexistent_tool_yields_error_under_request_id() {
    let mut srv = test_server();
    let reply = srv
        .handle_message("{\"method\":\"tools/call\",\"params\":{\"name\":\"nonexistent_tool\"},\"id\":7}");
    let resp = response_of(&reply);
    match resp.id {
        JsonValue::Int(i) => assert_eq!(i, 7),
        other => panic!("expected id 7, got {:?}", other),
    }
    let err = resp.error.expect("error present");
    assert_eq!(err.code, -32603);
    assert_eq!(err.message, "Other error: Tool not found: nonexistent_tool");
}

#[test]
fn every_tool_call_appends_exactly_one_audit_record() {
    let mut srv = test_server();
    assert_eq!(srv.server.security.audit_logger.len(), 0);
    // a successful invocation
    let reply = srv.handle_message(
        "{\"jsonrpc\":\"2.0\",\"method\":\"tools/call\",\"params\":{\"name\":\"echo_tool\"},\"id\":1}",
    );
    let resp = response_of(&reply);
    assert!(resp.result.is_some());
    assert_eq!(srv.server.security.audit_logger.len(), 1);
    assert_eq!(srv.server.security.audit_logger.ledger[0].name, "echo_tool");
    assert!(srv.server.security.audit_logger.ledger[0].result.is_ok());
    // a failed invocation
    let _ = srv.handle_message(
        "{\"jsonrpc\":\"2.0\",\"method\":\"tools/call\",\"params\":{\"name\":\"missing\"},\"id\":2}",
    );
    assert_eq!(srv.server.security.audit_logger.len(), 2);
    assert_eq!(srv.server.security.audit_logger.ledger[1].name, "missing");
    assert!(srv.server.security.audit_logger.ledger[1].result.is_err());
    // a request that never reaches dispatch leaves the ledger alone
    let _ = srv.handle_message("{\"jsonrpc\":\"2.0\",\"method\":\"tools/call\",\"id\":3}");
    assert_eq!(srv.server.security.audit_logger.len(), 2);
    // the record snapshots the call's arguments
    let _ = srv.handle_message(
        "{\"jsonrpc\":\"2.0\",\"method\":\"tools/call\",\"params\":{\"name\":\"echo_tool\",\"arguments\":{\"k\":1}},\"id\":4}",
    );
    assert_eq!(srv.server.security.audit_logger.len(), 3);
    match &srv.server.security.audit_logger.ledger[2].parameters {
        JsonValue::Obj(ps) => {
            assert_eq!(ps.len(), 1);
            assert_eq!(ps[0].0, "k");
        },
        other => panic!("expected the arguments snapshot, got {:?}", other),
    }
    // with no arguments the record holds the empty mapping
    match &srv.server.security.audit_logger.ledger[0].parameters {
        JsonValue::Obj(ps) => assert_eq!(ps.len(), 0),
        other => panic!("expected the empty mapping, got {:?}", other),
    }
}

#[test]
fn tools_call_with_non_object_arguments_is_invalid() {
    let mut srv = test_server();
    let reply = srv.handle_message(
        "{\"jsonrpc\":\"2.0\",\"method\":\"tools/call\",\"params\":{\"name\":\"echo_tool\",\"arguments\":3},\"id\":9}",
    );
    let resp = response_of(&reply);
    assert_eq!(resp.error.expect("error present").code, -32602);
    // the admission unit was returned
    assert_eq!(srv.server.gate.in_flight, 0);
}

#[test]
fn tools_list_returns_declared_tools() {
    let mut srv = test_server();
    let reply = srv.handle_message("{\"jsonrpc\":\"2.0\",\"method\":\"tools/list\",\"id\":5}");
    let resp = response_of(&reply);
    match resp.result.expect("result present") {
        JsonValue::Arr(items) => {
            assert_eq!(items.len(), 1);
            match &items[0] {
                JsonValue::Obj(ps) => {
                    let name = ps.iter().find(|(k, _)| k == "name").expect("name member");
                    match &name.1 {
                        JsonValue::Str(s) => assert_eq!(s, "echo_tool"),
                        other => panic!("expected string name, got {:?}", other),
                    }
                },
                other => panic!("expected tool object, got {:?}", other),
            }
        },
        other => panic!("expected array, got {:?}", other),
    }
}

#[test]
fn resources_read_returns_provider_content() {
    let mut srv = test_server();
    let reply = srv.handle_message(
        "{\"jsonrpc\":\"2.0\",\"method\":\"resources/read\",\"params\":{\"uri\":\"echo://value\"},\"id\":6}",
    );
    let resp = response_of(&reply);
    match resp.result.expect("result present") {
        JsonValue::Obj(ps) => match &ps[0].1 {
            JsonValue::Str(s) => assert_eq!(s, "contents"),
            other => panic!("expected string content, got {:?}", other),
        },
        other => panic!("expected object, got {:?}", other),
    }
}

#[test]
fn initialize_answers_with_capabilities() {
    let mut srv = test_server();
    let reply = srv.handle_message(
        "{\"jsonrpc\":\"2.0\",\"method\":\"initialize\",\"params\":{\"protocol_version\":\"2024-11-05\",\"capabilities\":{},\"client_info\":{\"name\":\"t\",\"version\":\"0\"}},\"id\":1}",
    );
    let resp = response_of(&reply);
    match resp.result.expect("result present") {
        JsonValue::Obj(ps) => {
            let pv = ps.iter().find(|(k, _)| k == "protocol_version").expect("version");
            match &pv.1 {
                JsonValue::Str(s) => assert_eq!(s, "2024-11-05"),
                other => panic!("expected version string, got {:?}", other),
            }
        },
        other => panic!("expected object, got {:?}", other),
    }
}

#[test]
fn initialize_without_params_is_invalid() {
    let mut srv = test_server();
    let reply = srv.handle_message("{\"jsonrpc\":\"2.0\",\"method\":\"initialize\",\"id\":2}");
    let resp = response_of(&reply);
    assert_eq!(resp.error.expect("error present").code, -32602);
}

#[test]
fn default_config_matches_documented_values() {
    let c: Config = Default::default();
    assert_eq!(c.bind_address, "127.0.0.1:8080");
    assert_eq!(c.max_concurrent_operations, 10);
    assert!(c.require_auth);
    assert_eq!(c.audit_log_path, "/var/log/mcp-arch-linux/audit.log");
    assert_eq!(c.plugins, vec!["arch_install".to_string(), "hyprland".to_string()]);
}

#[test]
fn error_messages_carry_their_prefixes() {
    assert_eq!(MCPError::JsonRpc("x".to_string()).message(), "JSON-RPC error: x");
    assert_eq!(MCPError::SystemCommand("x".to_string()).message(), "System command failed: x");
    assert_eq!(MCPError::PermissionDenied("x".to_string()).message(), "Permission denied: x");
    assert_eq!(MCPError::ResourceLocked("x".to_string()).message(), "Resource locked: x");
    assert_eq!(MCPError::Configuration("x".to_string()).message(), "Invalid configuration: x");
    assert_eq!(MCPError::Io("x".to_string()).message(), "IO error: x");
    assert_eq!(MCPError::Other("x".to_string()).message(), "Other error: x");
}

#[test]
fn audit_record_lines_are_wire_documents() {
    let mut srv = test_server();
    let _ = srv.handle_message(
        "{\"jsonrpc\":\"2.0\",\"method\":\"tools/call\",\"params\":{\"name\":\"echo_tool\"},\"id\":1}",
    );
    let line = srv.server.security.audit_logger.render(0);
    let doc = parse_json(&line).expect("ledger line parses");
    match doc {
        JsonValue::Obj(ps) => {
            let name = ps.iter().find(|(k, _)| k == "name").expect("name member");
            match &name.1 {
                JsonValue::Str(s) => assert_eq!(s, "echo_tool"),
                other => panic!("expected tool name, got {:?}", other),
            }
        },
        other => panic!("expected record object, got {:?}", other),
    }
}

#[test]
fn unknown_resource_yields_not_found_error() {
    let mut srv = test_server();
    let reply = srv.handle_message(
        "{\"jsonrpc\":\"2.0\",\"method\":\"resources/read\",\"params\":{\"uri\":\"none://x\"},\"id\":8}",
    );
    let resp = response_of(&reply);
    let err = resp.error.expect("error present");
    assert_eq!(err.code, -32603);
    assert_eq!(err.message, "Other error: Resource not found: none://x");
}

#[test]
fn resources_read_without_uri_is_invalid() {
    let mut srv = test_server();
    let reply = srv.handle_message(
        "{\"jsonrpc\":\"2.0\",\"method\":\"resources/read\",\"params\":{},\"id\":9}",
    );
    let resp = response_of(&reply);
    assert_eq!(resp.error.expect("error present").code, -32602);
}

#[test]
fn resources_list_returns_declared_resources() {
    let mut srv = test_server();
    let reply = srv.handle_message("{\"jsonrpc\":\"2.0\",\"method\":\"resources/list\",\"id\":10}");
    let resp = response_of(&reply);
    match resp.result.expect("result present") {
        JsonValue::Arr(items) => assert_eq!(items.len(), 1),
        other => panic!("expected array, got {:?}", other),
    }
}
