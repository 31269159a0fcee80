use mcp_arch_linux::json::JsonValue;
use mcp_arch_linux::registry::{
    MCPPlugin, MCPToolResult, PluginRegistry, Resource, Tool, ToolArgs,
};
use mcp_arch_linux::MCPError;

struct NamedPlugin {
    name: &'static str,
    tools: Vec<&'static str>,
    resources: Vec<&'static str>,
}

impl MCPPlugin for NamedPlugin {
    fn name(&self) -> &str {
        self.name
    }

    fn tools(&self) -> Vec<Tool> {
        self.tools
            .iter()
            .map(|t| Tool {
                name: t.to_string(),
                description: "a tool".to_string(),
                input_schema: JsonValue::Obj(Vec::new()),
            })
            .collect()
    }

    fn resources(&self) -> Vec<Resource> {
        self.resources
            .iter()
            .map(|u| Resource {
                uri: u.to_string(),
                name: "a resource".to_string(),
                description: None,
                mime_type: None,
            })
            .collect()
    }

    fn handle_tool_call(&self, tool: &str, _args: &ToolArgs) -> Result<MCPToolResult, MCPError> {
        Ok(MCPToolResult::text(format!("ran {}", tool)))
    }

    fn handle_resource_read(&self, uri: &str) -> Result<String, MCPError> {
        Ok(format!("read {}", uri))
    }
}

#[test]
fn listing_is_the_union_of_provider_declarations() {
    let mut reg = PluginRegistry::new();
    reg.register(Box::new(NamedPlugin {
        name: "first",
        tools: vec!["alpha", "beta"],
        resources: vec!["first://a"],
    }))
    .expect("first registers");
    reg.register(Box::new(NamedPlugin {
        name: "second",
        tools: vec!["gamma"],
        resources: vec!["second://b"],
    }))
    .expect("second registers");
    let names: Vec<String> = reg.list_tools().into_iter().map(|t| t.name).collect();
    assert_eq!(names, vec!["alpha".to_string(), "beta".to_string(), "gamma".to_string()]);
    // no name appears twice
    for (i, a) in names.iter().enumerate() {
        for b in names.iter().skip(i + 1) {
            assert_ne!(a, b);
        }
    }
    let uris: Vec<String> = reg.list_resources().into_iter().map(|r| r.uri).collect();
    assert_eq!(uris, vec!["first://a".to_string(), "second://b".to_string()]);
}

#[test]
fn colliding_registration_fails_atomically() {
    let mut reg = PluginRegistry::new();
    reg.register(Box::new(NamedPlugin {
        name: "window",
        tools: vec!["dispatch"],
        resources: vec![],
    }))
    .expect("first registers");
    let before: Vec<String> = reg.list_tools().into_iter().map(|t| t.name).collect();
    let outcome = reg.register(Box::new(NamedPlugin {
        name: "other",
        tools: vec!["fresh", "dispatch"],
        resources: vec!["other://r"],
    }));
    match outcome {
        Err(MCPError::Configuration(_)) => {},
        other => panic!("expected a configuration error, got {:?}", other),
    }
    // none of the rejected provider's declarations appear afterwards
    let after: Vec<String> = reg.list_tools().into_iter().map(|t| t.name).collect();
    assert_eq!(before, after);
    assert!(!after.contains(&"fresh".to_string()));
    let uris: Vec<String> = reg.list_resources().into_iter().map(|r| r.uri).collect();
    assert!(!uris.contains(&"other://r".to_string()));
}

#[test]
fn duplicate_resource_uri_is_refused() {
    let mut reg = PluginRegistry::new();
    reg.register(Box::new(NamedPlugin { name: "a", tools: vec![], resources: vec!["r://x"] }))
        .expect("first registers");
    let outcome =
        reg.register(Box::new(NamedPlugin { name: "b", tools: vec![], resources: vec!["r://x"] }));
    assert!(matches!(outcome, Err(MCPError::Configuration(_))));
}

#[test]
fn execute_routes_to_the_owning_provider() {
    let mut reg = PluginRegistry::new();
    reg.register(Box::new(NamedPlugin { name: "a", tools: vec!["one"], resources: vec![] }))
        .expect("registers");
    reg.register(Box::new(NamedPlugin { name: "b", tools: vec!["two"], resources: vec![] }))
        .expect("registers");
    let args = ToolArgs::empty();
    let out = reg.execute_tool("two", &args).expect("owned tool runs");
    match &out.content[0] {
        mcp_arch_linux::registry::MCPContent::Text { text } => assert_eq!(text, "ran two"),
        other => panic!("expected text content, got {:?}", other),
    }
    match reg.execute_tool("three", &args) {
        Err(MCPError::Other(m)) => assert_eq!(m, "Tool not found: three"),
        other => panic!("expected the not-found error, got {:?}", other),
    }
}

#[test]
fn read_routes_to_the_owning_provider() {
    let mut reg = PluginRegistry::new();
    reg.register(Box::new(NamedPlugin { name: "a", tools: vec![], resources: vec!["a://r"] }))
        .expect("registers");
    assert_eq!(reg.read_resource("a://r").expect("owned resource reads"), "read a://r");
    match reg.read_resource("b://r") {
        Err(MCPError::Other(m)) => assert_eq!(m, "Resource not found: b://r"),
        other => panic!("expected the not-found error, got {:?}", other),
    }
}
