//! The capability registry: pluggable providers declare fixed sets of
//! named tools and resources, the registry snapshots those declarations,
//! rejects any colliding registration atomically, and routes calls to the
//! owning provider.
use vstd::prelude::*;

use crate::json::{jv_of, JsonV, JsonValue};
use crate::strutil::string_eq;
use crate::MCPError;

verus! {

/// A declared operation: a unique name, a description, and a structured
/// document describing the accepted parameters.
#[derive(Debug)]
pub struct Tool {
    pub name: String,
    pub description: String,
    pub input_schema: JsonValue,
}

/// A tool as it appears in specifications.
pub ghost struct ToolV {
    pub name: Seq<char>,
    pub description: Seq<char>,
    pub input_schema: JsonV,
}

impl View for Tool {
    type V = ToolV;

    open spec fn view(&self) -> ToolV {
        ToolV {
            name: self.name@,
            description: self.description@,
            input_schema: jv_of(self.input_schema),
        }
    }
}

impl DeepView for Tool {
    type V = ToolV;

    open spec fn deep_view(&self) -> ToolV {
        self.view()
    }
}

/// A declared data source: a unique URI, a name, and optional
/// description and media type.
#[derive(Debug)]
pub struct Resource {
    pub uri: String,
    pub name: String,
    pub description: Option<String>,
    pub mime_type: Option<String>,
}

/// A resource as it appears in specifications.
pub ghost struct ResourceV {
    pub uri: Seq<char>,
    pub name: Seq<char>,
    pub description: Option<Seq<char>>,
    pub mime_type: Option<Seq<char>>,
}

impl View for Resource {
    type V = ResourceV;

    open spec fn view(&self) -> ResourceV {
        ResourceV {
            uri: self.uri@,
            name: self.name@,
            description: match self.description {
                Some(d) => Some(d@),
                None => None,
            },
            mime_type: match self.mime_type {
                Some(m) => Some(m@),
                None => None,
            },
        }
    }
}

impl DeepView for Resource {
    type V = ResourceV;

    open spec fn deep_view(&self) -> ResourceV {
        self.view()
    }
}

/// The arguments of one tool call: an unordered mapping from argument
/// name to a structured value.
#[derive(Debug)]
pub struct ToolArgs {
    pub args: Vec<(String, JsonValue)>,
}

impl ToolArgs {
    /// An empty argument mapping.
    pub fn empty() -> (r: ToolArgs)
        ensures
            r.args@.len() == 0,
    {
        ToolArgs { args: Vec::new() }
    }

    /// The value of the named argument, first occurrence first.
    pub fn get<'a>(&'a self, key: &str) -> (r: Option<&'a JsonValue>)
        ensures
            match r {
                Some(v) => crate::json::lookup(crate::json::jv_of_pairs(self.args@), key@)
                    == Some(v@),
                None => crate::json::lookup(crate::json::jv_of_pairs(self.args@), key@) is None,
            },
    {
        crate::json::obj_get(&self.args, key)
    }
}

/// One item of a tool result: text, an encoded image, or a resource
/// reference.
#[derive(Debug)]
pub enum MCPContent {
    Text { text: String },
    Image { data: String, mime_type: String },
    Resource { uri: String, text: Option<String>, mime_type: Option<String> },
}

/// What a tool call returns: an ordered sequence of content items, an
/// optional error flag, and optional metadata.
#[derive(Debug)]
pub struct MCPToolResult {
    pub content: Vec<MCPContent>,
    pub is_error: Option<bool>,
    pub metadata: Option<JsonValue>,
}

impl MCPToolResult {
    /// A plain successful result carrying one text item.
    pub fn text(content: String) -> (r: MCPToolResult)
        ensures
            r.content@.len() == 1,
            r.content@[0] matches MCPContent::Text { text } && text@ == content@,
            r.is_error is None,
            r.metadata is None,
    {
        let mut items: Vec<MCPContent> = Vec::new();
        items.push(MCPContent::Text { text: content });
        MCPToolResult { content: items, is_error: None, metadata: None }
    }

    /// A failed result carrying one text item and the error flag.
    pub fn error(message: String) -> (r: MCPToolResult)
        ensures
            r.content@.len() == 1,
            r.content@[0] matches MCPContent::Text { text } && text@ == message@,
            r.is_error == Some(true),
            r.metadata is None,
    {
        let mut items: Vec<MCPContent> = Vec::new();
        items.push(MCPContent::Text { text: message });
        MCPToolResult { content: items, is_error: Some(true), metadata: None }
    }
}

/// The provider boundary: a pluggable component declares a fixed name
/// and fixed tool and resource lists, and executes calls on them.  The
/// implementations are supplied by the embedding program and are not
/// verified; the registry promises nothing about what their methods
/// return.
pub trait MCPPlugin: Send + Sync {
    fn name(&self) -> &str;

    fn tools(&self) -> Vec<Tool>;

    fn resources(&self) -> Vec<Resource>;

    fn handle_tool_call(&self, tool: &str, args: &ToolArgs) -> Result<MCPToolResult, MCPError>;

    fn handle_resource_read(&self, uri: &str) -> Result<String, MCPError>;
}

/// One registered provider: its declarations, snapshotted at
/// registration time, and the provider itself.
pub struct PluginEntry {
    pub name: String,
    pub tools: Vec<Tool>,
    pub resources: Vec<Resource>,
    pub plugin: Box<dyn MCPPlugin>,
}

/// The names of a sequence of declared tools.
pub open spec fn tool_names(ts: Seq<Tool>) -> Seq<Seq<char>> {
    Seq::new(ts.len(), |i: int| ts[i].name@)
}

/// The URIs of a sequence of declared resources.
pub open spec fn resource_uris(rs: Seq<Resource>) -> Seq<Seq<char>> {
    Seq::new(rs.len(), |i: int| rs[i].uri@)
}

/// All tool names over a sequence of entries, in registration order.
pub open spec fn all_tool_names(es: Seq<PluginEntry>) -> Seq<Seq<char>>
    decreases es.len(),
{
    if es.len() == 0 {
        Seq::empty()
    } else {
        tool_names(es[0].tools@) + all_tool_names(es.drop_first())
    }
}

/// All resource URIs over a sequence of entries, in registration order.
pub open spec fn all_resource_uris(es: Seq<PluginEntry>) -> Seq<Seq<char>>
    decreases es.len(),
{
    if es.len() == 0 {
        Seq::empty()
    } else {
        resource_uris(es[0].resources@) + all_resource_uris(es.drop_first())
    }
}

/// The provider names over a sequence of entries.
pub open spec fn entry_names(es: Seq<PluginEntry>) -> Seq<Seq<char>> {
    Seq::new(es.len(), |i: int| es[i].name@)
}

/// The tools of all entries, flattened in registration order.
pub open spec fn all_tools(es: Seq<PluginEntry>) -> Seq<ToolV>
    decreases es.len(),
{
    if es.len() == 0 {
        Seq::empty()
    } else {
        es[0].tools.deep_view() + all_tools(es.drop_first())
    }
}

/// The resources of all entries, flattened in registration order.
pub open spec fn all_resources(es: Seq<PluginEntry>) -> Seq<ResourceV>
    decreases es.len(),
{
    if es.len() == 0 {
        Seq::empty()
    } else {
        es[0].resources.deep_view() + all_resources(es.drop_first())
    }
}

impl Tool {
    /// A deep copy: the same declaration.
    pub fn duplicate(&self) -> (r: Tool)
        ensures
            r@ == self@,
    {
        Tool {
            name: self.name.clone(),
            description: self.description.clone(),
            input_schema: self.input_schema.duplicate(),
        }
    }
}

impl Resource {
    /// A deep copy: the same declaration.
    pub fn duplicate(&self) -> (r: Resource)
        ensures
            r@ == self@,
    {
        Resource {
            uri: self.uri.clone(),
            name: self.name.clone(),
            description: match &self.description {
                Some(d) => Some(d.clone()),
                None => None,
            },
            mime_type: match &self.mime_type {
                Some(m) => Some(m.clone()),
                None => None,
            },
        }
    }
}

/// Whether some registered provider declares a tool of this name.
pub open spec fn owns_tool(es: Seq<PluginEntry>, name: Seq<char>) -> bool {
    exists|i: int, j: int|
        0 <= i < es.len() && 0 <= j < es[i].tools@.len() && (#[trigger] es[i].tools@[j]).name@
            == name
}

/// Whether some registered provider declares a resource of this URI.
pub open spec fn owns_resource(es: Seq<PluginEntry>, uri: Seq<char>) -> bool {
    exists|i: int, j: int|
        0 <= i < es.len() && 0 <= j < es[i].resources@.len() && (#[trigger] es[i].resources@[j]).uri@
            == uri
}

/// The flattened name list holds a name exactly when some provider owns
/// it.
pub proof fn lemma_owns_tool_iff(es: Seq<PluginEntry>, name: Seq<char>)
    ensures
        all_tool_names(es).contains(name) == owns_tool(es, name),
    decreases es.len(),
{
    if es.len() == 0 {
        assert(!all_tool_names(es).contains(name));
        assert(!owns_tool(es, name));
    } else {
        lemma_owns_tool_iff(es.drop_first(), name);
        let head = tool_names(es[0].tools@);
        let tail = all_tool_names(es.drop_first());
        if all_tool_names(es).contains(name) {
            let k = choose|k: int|
                0 <= k < all_tool_names(es).len() && all_tool_names(es)[k] == name;
            if k < head.len() {
                assert((es[0].tools@[k]).name@ == name);
                assert(owns_tool(es, name));
            } else {
                assert(tail[k - head.len()] == name);
                assert(tail.contains(name));
                let (i, j) = choose|i: int, j: int|
                    0 <= i < es.drop_first().len() && 0 <= j < es.drop_first()[i].tools@.len() && (
                    #[trigger] es.drop_first()[i].tools@[j]).name@ == name;
                assert((es[i + 1].tools@[j]).name@ == name);
                assert(owns_tool(es, name));
            }
        }
        if owns_tool(es, name) {
            let (i, j) = choose|i: int, j: int|
                0 <= i < es.len() && 0 <= j < es[i].tools@.len() && (
                #[trigger] es[i].tools@[j]).name@ == name;
            if i == 0 {
                assert(head[j] == name);
                assert(all_tool_names(es)[j] == name);
            } else {
                assert((es.drop_first()[i - 1].tools@[j]).name@ == name);
                assert(owns_tool(es.drop_first(), name));
                assert(tail.contains(name));
                let k = choose|k: int| 0 <= k < tail.len() && tail[k] == name;
                assert(all_tool_names(es)[head.len() + k] == name);
            }
            assert(all_tool_names(es).contains(name));
        }
    }
}

/// The flattened URI list holds a URI exactly when some provider owns
/// it.
pub proof fn lemma_owns_resource_iff(es: Seq<PluginEntry>, uri: Seq<char>)
    ensures
        all_resource_uris(es).contains(uri) == owns_resource(es, uri),
    decreases es.len(),
{
    if es.len() == 0 {
        assert(!all_resource_uris(es).contains(uri));
        assert(!owns_resource(es, uri));
    } else {
        lemma_owns_resource_iff(es.drop_first(), uri);
        let head = resource_uris(es[0].resources@);
        let tail = all_resource_uris(es.drop_first());
        if all_resource_uris(es).contains(uri) {
            let k = choose|k: int|
                0 <= k < all_resource_uris(es).len() && all_resource_uris(es)[k] == uri;
            if k < head.len() {
                assert((es[0].resources@[k]).uri@ == uri);
                assert(owns_resource(es, uri));
            } else {
                assert(tail[k - head.len()] == uri);
                assert(tail.contains(uri));
                let (i, j) = choose|i: int, j: int|
                    0 <= i < es.drop_first().len() && 0 <= j
                        < es.drop_first()[i].resources@.len() && (
                    #[trigger] es.drop_first()[i].resources@[j]).uri@ == uri;
                assert((es[i + 1].resources@[j]).uri@ == uri);
                assert(owns_resource(es, uri));
            }
        }
        if owns_resource(es, uri) {
            let (i, j) = choose|i: int, j: int|
                0 <= i < es.len() && 0 <= j < es[i].resources@.len() && (
                #[trigger] es[i].resources@[j]).uri@ == uri;
            if i == 0 {
                assert(head[j] == uri);
                assert(all_resource_uris(es)[j] == uri);
            } else {
                assert((es.drop_first()[i - 1].resources@[j]).uri@ == uri);
                assert(owns_resource(es.drop_first(), uri));
                assert(tail.contains(uri));
                let k = choose|k: int| 0 <= k < tail.len() && tail[k] == uri;
                assert(all_resource_uris(es)[head.len() + k] == uri);
            }
            assert(all_resource_uris(es).contains(uri));
        }
    }
}

proof fn lemma_all_tool_names_push(es: Seq<PluginEntry>, e: PluginEntry)
    ensures
        all_tool_names(es.push(e)) =~= all_tool_names(es) + tool_names(e.tools@),
        all_resource_uris(es.push(e)) =~= all_resource_uris(es) + resource_uris(e.resources@),
        all_tools(es.push(e)) =~= all_tools(es) + e.tools.deep_view(),
        all_resources(es.push(e)) =~= all_resources(es) + e.resources.deep_view(),
    decreases es.len(),
{
    if es.len() == 0 {
        assert(es.push(e).drop_first() =~= Seq::<PluginEntry>::empty());
        assert(es.push(e)[0] == e);
        assert(all_tools(es.push(e)) == es.push(e)[0].tools.deep_view() + all_tools(
            es.push(e).drop_first(),
        ));
        assert(all_tools(es.push(e).drop_first()) == Seq::<ToolV>::empty());
        assert(all_tools(es) == Seq::<ToolV>::empty());
        assert(all_tools(es.push(e)) =~= all_tools(es) + e.tools.deep_view());
        assert(all_tool_names(es.push(e)) == tool_names(es.push(e)[0].tools@) + all_tool_names(
            es.push(e).drop_first(),
        ));
        assert(tool_names(es.push(e)[0].tools@) == tool_names(e.tools@));
        assert(all_tool_names(es.push(e).drop_first()) == Seq::<Seq<char>>::empty());
        assert(all_tool_names(es) == Seq::<Seq<char>>::empty());
        assert(all_tool_names(es.push(e)) =~= all_tool_names(es) + tool_names(e.tools@));
        assert(all_resource_uris(es.push(e)) == resource_uris(es.push(e)[0].resources@)
            + all_resource_uris(es.push(e).drop_first()));
        assert(resource_uris(es.push(e)[0].resources@) == resource_uris(e.resources@));
        assert(all_resource_uris(es.push(e).drop_first()) == Seq::<Seq<char>>::empty());
        assert(all_resource_uris(es) == Seq::<Seq<char>>::empty());
        assert(all_resource_uris(es.push(e)) =~= all_resource_uris(es) + resource_uris(
            e.resources@,
        ));
        assert(all_resources(es.push(e)) == es.push(e)[0].resources.deep_view() + all_resources(
            es.push(e).drop_first(),
        ));
        assert(all_resources(es.push(e).drop_first()) == Seq::<ResourceV>::empty());
        assert(all_resources(es) == Seq::<ResourceV>::empty());
        assert(all_resources(es.push(e)) =~= all_resources(es) + e.resources.deep_view());
    } else {
        assert(es.push(e).drop_first() =~= es.drop_first().push(e));
        assert(es.push(e)[0] == es[0]);
        lemma_all_tool_names_push(es.drop_first(), e);
        assert((es[0].tools.deep_view() + all_tools(es.drop_first())) + e.tools.deep_view()
            =~= es[0].tools.deep_view() + (all_tools(es.drop_first()) + e.tools.deep_view()));
        assert((es[0].resources.deep_view() + all_resources(es.drop_first()))
            + e.resources.deep_view() =~= es[0].resources.deep_view() + (all_resources(
            es.drop_first(),
        ) + e.resources.deep_view()));
        assert((tool_names(es[0].tools@) + all_tool_names(es.drop_first())) + tool_names(e.tools@)
            =~= tool_names(es[0].tools@) + (all_tool_names(es.drop_first()) + tool_names(
            e.tools@,
        )));
        assert((resource_uris(es[0].resources@) + all_resource_uris(es.drop_first()))
            + resource_uris(e.resources@) =~= resource_uris(es[0].resources@) + (all_resource_uris(
            es.drop_first(),
        ) + resource_uris(e.resources@)));
        assert(all_tool_names(es.push(e)) == tool_names(es.push(e)[0].tools@) + all_tool_names(
            es.push(e).drop_first(),
        ));
        assert(tool_names(es.push(e)[0].tools@) == tool_names(es[0].tools@));
        assert(all_tool_names(es.push(e).drop_first()) == all_tool_names(es.drop_first().push(e)));
        assert(all_tool_names(es.drop_first().push(e)) == all_tool_names(es.drop_first())
            + tool_names(e.tools@));
        assert(all_tool_names(es) == tool_names(es[0].tools@) + all_tool_names(es.drop_first()));
        assert(all_tool_names(es.push(e)) =~= all_tool_names(es) + tool_names(e.tools@));
        assert(all_resource_uris(es.push(e)) == resource_uris(es.push(e)[0].resources@)
            + all_resource_uris(es.push(e).drop_first()));
        assert(resource_uris(es.push(e)[0].resources@) == resource_uris(es[0].resources@));
        assert(all_resource_uris(es.push(e).drop_first()) == all_resource_uris(
            es.drop_first().push(e),
        ));
        assert(all_resource_uris(es.drop_first().push(e)) == all_resource_uris(es.drop_first())
            + resource_uris(e.resources@));
        assert(all_resource_uris(es) == resource_uris(es[0].resources@) + all_resource_uris(
            es.drop_first(),
        ));
        assert(all_resource_uris(es.push(e)) =~= all_resource_uris(es) + resource_uris(
            e.resources@,
        ));
    }
}

/// No element occurs twice.
pub open spec fn distinct_seqs(s: Seq<Seq<char>>) -> bool {
    forall|i: int, j: int| 0 <= i < j < s.len() ==> s[i] != s[j]
}

proof fn lemma_distinct_concat(a: Seq<Seq<char>>, b: Seq<Seq<char>>)
    requires
        distinct_seqs(a),
        distinct_seqs(b),
        forall|j: int| 0 <= j < b.len() ==> !a.contains(#[trigger] b[j]),
    ensures
        distinct_seqs(a + b),
{
    assert forall|i: int, j: int| 0 <= i < j < (a + b).len() implies (a + b)[i] != (a + b)[j] by {
        if i < a.len() && j >= a.len() {
            assert((a + b)[i] == a[i] && (a + b)[j] == b[j - a.len()]);
            if a[i] == b[j - a.len()] {
                assert(a.contains(b[j - a.len()]));
            }
        } else if i >= a.len() {
            assert((a + b)[i] == b[i - a.len()] && (a + b)[j] == b[j - a.len()]);
        } else {
            assert((a + b)[i] == a[i] && (a + b)[j] == a[j]);
        }
    }
}

/// Whether a new provider's declarations collide with what is already
/// claimed, or with themselves.
pub open spec fn decls_collide(
    es: Seq<PluginEntry>,
    name: Seq<char>,
    ts: Seq<Tool>,
    rs: Seq<Resource>,
) -> bool {
    ||| entry_names(es).contains(name)
    ||| exists|j: int| 0 <= j < ts.len() && owns_tool(es, (#[trigger] ts[j]).name@)
    ||| !distinct_seqs(tool_names(ts))
    ||| exists|j: int| 0 <= j < rs.len() && owns_resource(es, (#[trigger] rs[j]).uri@)
    ||| !distinct_seqs(resource_uris(rs))
}

/// Whether one of the first `upto` declared tools carries this name.
fn tools_contain_upto(ts: &Vec<Tool>, upto: usize, name: &str) -> (r: bool)
    requires
        upto <= ts@.len(),
    ensures
        r == exists|k: int| 0 <= k < upto && (#[trigger] ts@[k]).name@ == name@,
{
    let mut k: usize = 0;
    while k < upto
        invariant
            k <= upto,
            upto <= ts@.len(),
            forall|m: int| 0 <= m < k ==> (#[trigger] ts@[m]).name@ != name@,
        decreases upto - k,
    {
        if string_eq(&ts[k].name, name) {
            return true;
        }
        k = k + 1;
    }
    false
}

/// Whether one of the first `upto` declared resources carries this URI.
fn resources_contain_upto(rs: &Vec<Resource>, upto: usize, uri: &str) -> (r: bool)
    requires
        upto <= rs@.len(),
    ensures
        r == exists|k: int| 0 <= k < upto && (#[trigger] rs@[k]).uri@ == uri@,
{
    let mut k: usize = 0;
    while k < upto
        invariant
            k <= upto,
            upto <= rs@.len(),
            forall|m: int| 0 <= m < k ==> (#[trigger] rs@[m]).uri@ != uri@,
        decreases upto - k,
    {
        if string_eq(&rs[k].uri, uri) {
            return true;
        }
        k = k + 1;
    }
    false
}

/// The registry of providers.  Registration happens before serving
/// begins; afterwards the registry is read-only.
pub struct PluginRegistry {
    pub entries: Vec<PluginEntry>,
}

impl PluginRegistry {
    /// The registry invariant: no tool name, resource URI or provider
    /// name is claimed twice.
    pub open spec fn wf(&self) -> bool {
        &&& distinct_seqs(all_tool_names(self.entries@))
        &&& distinct_seqs(all_resource_uris(self.entries@))
        &&& distinct_seqs(entry_names(self.entries@))
    }

    /// An empty registry.
    pub fn new() -> (r: PluginRegistry)
        ensures
            r.entries@.len() == 0,
            r.wf(),
    {
        let r = PluginRegistry { entries: Vec::new() };
        proof {
            assert(all_tool_names(r.entries@) =~= Seq::<Seq<char>>::empty());
            assert(all_resource_uris(r.entries@) =~= Seq::<Seq<char>>::empty());
        }
        r
    }

    /// Whether some registered provider already claims this tool name.
    pub fn has_tool(&self, name: &str) -> (r: bool)
        ensures
            r == owns_tool(self.entries@, name@),
    {
        let es = &self.entries;
        let n = es.len();
        let mut i: usize = 0;
        while i < n
            invariant
                i <= n,
                n == es@.len(),
                es == &self.entries,
                forall|a: int, b: int|
                    0 <= a < i && 0 <= b < es@[a].tools@.len() ==> (
                    #[trigger] es@[a].tools@[b]).name@ != name@,
            decreases n - i,
        {
            let m = es[i].tools.len();
            if tools_contain_upto(&es[i].tools, m, name) {
                proof {
                    let k = choose|k: int|
                        0 <= k < m && (#[trigger] es@[i as int].tools@[k]).name@ == name@;
                    assert(owns_tool(self.entries@, name@));
                }
                return true;
            }
            i = i + 1;
        }
        proof {
            assert(!owns_tool(self.entries@, name@));
        }
        false
    }

    /// Whether some registered provider already claims this resource URI.
    pub fn has_resource(&self, uri: &str) -> (r: bool)
        ensures
            r == owns_resource(self.entries@, uri@),
    {
        let es = &self.entries;
        let n = es.len();
        let mut i: usize = 0;
        while i < n
            invariant
                i <= n,
                n == es@.len(),
                es == &self.entries,
                forall|a: int, b: int|
                    0 <= a < i && 0 <= b < es@[a].resources@.len() ==> (
                    #[trigger] es@[a].resources@[b]).uri@ != uri@,
            decreases n - i,
        {
            let m = es[i].resources.len();
            if resources_contain_upto(&es[i].resources, m, uri) {
                proof {
                    let k = choose|k: int|
                        0 <= k < m && (#[trigger] es@[i as int].resources@[k]).uri@ == uri@;
                    assert(owns_resource(self.entries@, uri@));
                }
                return true;
            }
            i = i + 1;
        }
        proof {
            assert(!owns_resource(self.entries@, uri@));
        }
        false
    }

    /// Whether a provider of this name is already registered.
    pub fn has_provider(&self, name: &str) -> (r: bool)
        ensures
            r == entry_names(self.entries@).contains(name@),
    {
        let es = &self.entries;
        let n = es.len();
        let mut i: usize = 0;
        while i < n
            invariant
                i <= n,
                n == es@.len(),
                es == &self.entries,
                forall|a: int| 0 <= a < i ==> (#[trigger] es@[a]).name@ != name@,
            decreases n - i,
        {
            if string_eq(&es[i].name, name) {
                proof {
                    assert(entry_names(self.entries@)[i as int] == name@);
                }
                return true;
            }
            i = i + 1;
        }
        proof {
            if entry_names(self.entries@).contains(name@) {
                let k = choose|k: int|
                    0 <= k < entry_names(self.entries@).len() && entry_names(self.entries@)[k]
                        == name@;
                assert(self.entries@[k].name@ == name@);
            }
        }
        false
    }

    /// Appends one entry whose declarations collide with nothing, and
    /// keeps the registry invariant.
    fn commit_entry(&mut self, entry: PluginEntry)
        requires
            old(self).wf(),
            !entry_names(old(self).entries@).contains(entry.name@),
            forall|k: int|
                0 <= k < entry.tools@.len() ==> !owns_tool(
                    old(self).entries@,
                    (#[trigger] entry.tools@[k]).name@,
                ),
            forall|k: int, m: int|
                0 <= m < k < entry.tools@.len() ==> (#[trigger] entry.tools@[k]).name@ != (
                #[trigger] entry.tools@[m]).name@,
            forall|k: int|
                0 <= k < entry.resources@.len() ==> !owns_resource(
                    old(self).entries@,
                    (#[trigger] entry.resources@[k]).uri@,
                ),
            forall|k: int, m: int|
                0 <= m < k < entry.resources@.len() ==> (#[trigger] entry.resources@[k]).uri@ != (
                #[trigger] entry.resources@[m]).uri@,
        ensures
            final(self).wf(),
            final(self).entries@ == old(self).entries@.push(entry),
            final(self).entries@.len() == old(self).entries@.len() + 1,
            final(self).entries@.subrange(0, old(self).entries@.len() as int) == old(
                self,
            ).entries@,
            final(self).entries@.last() == entry,
            all_tools(final(self).entries@) == all_tools(old(self).entries@)
                + entry.tools.deep_view(),
            all_resources(final(self).entries@) == all_resources(old(self).entries@)
                + entry.resources.deep_view(),
    {
        let ghost pre = self.entries@;
        let ghost gentry = entry;
        self.entries.push(entry);
        proof {
            let es = self.entries@;
            assert(es == pre.push(gentry));
            assert(es.len() == pre.len() + 1);
            assert(es.last() == gentry);
            assert(es.subrange(0, pre.len() as int) =~= pre);
            lemma_all_tool_names_push(pre, gentry);
            let gtools = gentry.tools@;
            let gres = gentry.resources@;
            let gname = gentry.name@;
            assert forall|k: int| 0 <= k < tool_names(gtools).len() implies !all_tool_names(
                pre,
            ).contains(#[trigger] tool_names(gtools)[k]) by {
                assert(tool_names(gtools)[k] == gtools[k].name@);
                lemma_owns_tool_iff(pre, gtools[k].name@);
            }
            assert(distinct_seqs(tool_names(gtools)));
            lemma_distinct_concat(all_tool_names(pre), tool_names(gtools));
            assert(distinct_seqs(all_tool_names(es)));
            assert forall|k: int| 0 <= k < resource_uris(gres).len() implies !all_resource_uris(
                pre,
            ).contains(#[trigger] resource_uris(gres)[k]) by {
                assert(resource_uris(gres)[k] == gres[k].uri@);
                lemma_owns_resource_iff(pre, gres[k].uri@);
            }
            assert(distinct_seqs(resource_uris(gres)));
            lemma_distinct_concat(all_resource_uris(pre), resource_uris(gres));
            assert(distinct_seqs(all_resource_uris(es)));
            assert(entry_names(es) =~= entry_names(pre).push(gname));
            assert forall|a: int, b: int|
                0 <= a < b < entry_names(es).len() implies entry_names(es)[a] != entry_names(
                es,
            )[b] by {
                if b == entry_names(es).len() - 1 {
                    if entry_names(es)[a] == gname {
                        assert(entry_names(pre)[a] == gname);
                        assert(entry_names(pre).contains(gname));
                    }
                }
            }
        }
    }

    /// Adds a provider under the given declarations.  If any declared
    /// tool name or resource URI is already claimed — by another
    /// provider or within the declarations themselves — or the provider
    /// name is taken, the registration fails with a configuration error
    /// and the registry is left exactly as it was; otherwise the one new
    /// entry is appended.
    #[verifier::rlimit(60)]
    pub fn register_decls(
        &mut self,
        name: String,
        tools: Vec<Tool>,
        resources: Vec<Resource>,
        plugin: Box<dyn MCPPlugin>,
    ) -> (r: Result<(), MCPError>)
        requires
            old(self).wf(),
        ensures
            final(self).wf(),
            match r {
                Ok(_) => !decls_collide(old(self).entries@, name@, tools@, resources@)
                    && final(self).entries@.len() == old(self).entries@.len() + 1 && final(self).entries@.subrange(0, old(self).entries@.len() as int) == old(self).entries@
                    && final(self).entries@.last().name@ == name@ && final(self).entries@.last().tools.deep_view() == tools.deep_view() && final(self).entries@.last().resources.deep_view() == resources.deep_view() && all_tools(
                    final(self).entries@,
                ) == all_tools(old(self).entries@) + tools.deep_view() && all_resources(
                    final(self).entries@,
                ) == all_resources(old(self).entries@) + resources.deep_view(),
                Err(e) => decls_collide(old(self).entries@, name@, tools@, resources@) && *final(self) == *old(self) && e matches MCPError::Configuration(_),
            },
    {
        if self.has_provider(name.as_str()) {
            proof {
                assert(decls_collide(self.entries@, name@, tools@, resources@));
            }
            return Err(
                MCPError::Configuration(
                    String::from_str("Provider ").concat(name.as_str()).concat(
                        " already registered",
                    ),
                ),
            );
        }
        let nt = tools.len();
        let mut j: usize = 0;
        while j < nt
            invariant
                j <= nt,
                nt == tools@.len(),
                old(self).wf(),
                *self == *old(self),
                !entry_names(self.entries@).contains(name@),
                forall|k: int|
                    0 <= k < j ==> !owns_tool(self.entries@, (#[trigger] tools@[k]).name@),
                forall|k: int, m: int|
                    0 <= m < k < j ==> (#[trigger] tools@[k]).name@ != (#[trigger] tools@[m]).name@,
            decreases nt - j,
        {
            if self.has_tool(tools[j].name.as_str()) {
                proof {
                    assert(owns_tool(self.entries@, (tools@[j as int]).name@));
                    assert(decls_collide(self.entries@, name@, tools@, resources@));
                }
                return Err(
                    MCPError::Configuration(
                        String::from_str("Tool ").concat(tools[j].name.as_str()).concat(
                            " already registered",
                        ),
                    ),
                );
            }
            if tools_contain_upto(&tools, j, tools[j].name.as_str()) {
                proof {
                    let k = choose|k: int|
                        0 <= k < j && (#[trigger] tools@[k]).name@ == (tools@[j as int]).name@;
                    assert(tool_names(tools@)[k] == tool_names(tools@)[j as int]);
                    assert(!distinct_seqs(tool_names(tools@)));
                    assert(decls_collide(self.entries@, name@, tools@, resources@));
                }
                return Err(
                    MCPError::Configuration(
                        String::from_str("Tool ").concat(tools[j].name.as_str()).concat(
                            " already registered",
                        ),
                    ),
                );
            }
            j = j + 1;
        }
        let nr = resources.len();
        let mut j2: usize = 0;
        while j2 < nr
            invariant
                j2 <= nr,
                nr == resources@.len(),
                nt == tools@.len(),
                old(self).wf(),
                *self == *old(self),
                !entry_names(self.entries@).contains(name@),
                forall|k: int|
                    0 <= k < nt ==> !owns_tool(self.entries@, (#[trigger] tools@[k]).name@),
                forall|k: int, m: int|
                    0 <= m < k < nt ==> (#[trigger] tools@[k]).name@ != (
                    #[trigger] tools@[m]).name@,
                forall|k: int|
                    0 <= k < j2 ==> !owns_resource(self.entries@, (#[trigger] resources@[k]).uri@),
                forall|k: int, m: int|
                    0 <= m < k < j2 ==> (#[trigger] resources@[k]).uri@ != (
                    #[trigger] resources@[m]).uri@,
            decreases nr - j2,
        {
            if self.has_resource(resources[j2].uri.as_str()) {
                proof {
                    assert(owns_resource(self.entries@, (resources@[j2 as int]).uri@));
                    assert(decls_collide(self.entries@, name@, tools@, resources@));
                }
                return Err(
                    MCPError::Configuration(
                        String::from_str("Resource ").concat(resources[j2].uri.as_str()).concat(
                            " already registered",
                        ),
                    ),
                );
            }
            if resources_contain_upto(&resources, j2, resources[j2].uri.as_str()) {
                proof {
                    let k = choose|k: int|
                        0 <= k < j2 && (#[trigger] resources@[k]).uri@ == (
                        resources@[j2 as int]).uri@;
                    assert(resource_uris(resources@)[k] == resource_uris(resources@)[j2 as int]);
                    assert(!distinct_seqs(resource_uris(resources@)));
                    assert(decls_collide(self.entries@, name@, tools@, resources@));
                }
                return Err(
                    MCPError::Configuration(
                        String::from_str("Resource ").concat(resources[j2].uri.as_str()).concat(
                            " already registered",
                        ),
                    ),
                );
            }
            j2 = j2 + 1;
        }
        let entry = PluginEntry { name, tools, resources, plugin };
        self.commit_entry(entry);
        Ok(())
    }

    /// Registers a provider: queries its name and declarations once and
    /// adds them under the same collision rules as `register_decls`.
    pub fn register(&mut self, plugin: Box<dyn MCPPlugin>) -> (r: Result<(), MCPError>)
        requires
            old(self).wf(),
        ensures
            final(self).wf(),
            match r {
                Ok(_) => final(self).entries@.len() == old(self).entries@.len() + 1 && final(self).entries@.subrange(0, old(self).entries@.len() as int) == old(self).entries@,
                Err(e) => *final(self) == *old(self) && e matches MCPError::Configuration(_),
            },
    {
        let name = plugin.name().to_owned();
        let tools = plugin.tools();
        let resources = plugin.resources();
        self.register_decls(name, tools, resources, plugin)
    }

    /// The declared tools of every registered provider, concatenated in
    /// registration order.
    pub fn list_tools(&self) -> (r: Vec<Tool>)
        ensures
            r.deep_view() == all_tools(self.entries@),
    {
        let es = &self.entries;
        let n = es.len();
        let mut out: Vec<Tool> = Vec::new();
        let mut i: usize = 0;
        while i < n
            invariant
                i <= n,
                n == es@.len(),
                es == &self.entries,
                out.deep_view() == all_tools(es@.subrange(0, i as int)),
            decreases n - i,
        {
            let ts = &es[i].tools;
            let m = ts.len();
            let mut j: usize = 0;
            while j < m
                invariant
                    j <= m,
                    i < n,
                    n == es@.len(),
                    es == &self.entries,
                    ts == &es@[i as int].tools,
                    m == ts@.len(),
                    out.deep_view() == all_tools(es@.subrange(0, i as int)) + ts.deep_view()
                        .subrange(0, j as int),
                decreases m - j,
            {
                let ghost prev = out.deep_view();
                out.push(ts[j].duplicate());
                proof {
                    assert(out.deep_view() =~= prev.push(ts@[j as int].deep_view()));
                    assert(ts.deep_view().subrange(0, j + 1) =~= ts.deep_view().subrange(
                        0,
                        j as int,
                    ).push(ts@[j as int].deep_view()));
                    assert(all_tools(es@.subrange(0, i as int)) + ts.deep_view().subrange(0, j + 1)
                        =~= (all_tools(es@.subrange(0, i as int)) + ts.deep_view().subrange(
                        0,
                        j as int,
                    )).push(ts@[j as int].deep_view()));
                }
                j = j + 1;
            }
            proof {
                assert(ts.deep_view().subrange(0, m as int) =~= ts.deep_view());
                assert(es@.subrange(0, i + 1) =~= es@.subrange(0, i as int).push(es@[i as int]));
                lemma_all_tool_names_push(es@.subrange(0, i as int), es@[i as int]);
            }
            i = i + 1;
        }
        proof {
            assert(es@.subrange(0, n as int) =~= es@);
        }
        out
    }

    /// The declared resources of every registered provider, concatenated
    /// in registration order.
    pub fn list_resources(&self) -> (r: Vec<Resource>)
        ensures
            r.deep_view() == all_resources(self.entries@),
    {
        let es = &self.entries;
        let n = es.len();
        let mut out: Vec<Resource> = Vec::new();
        let mut i: usize = 0;
        while i < n
            invariant
                i <= n,
                n == es@.len(),
                es == &self.entries,
                out.deep_view() == all_resources(es@.subrange(0, i as int)),
            decreases n - i,
        {
            let rs = &es[i].resources;
            let m = rs.len();
            let mut j: usize = 0;
            while j < m
                invariant
                    j <= m,
                    i < n,
                    n == es@.len(),
                    es == &self.entries,
                    rs == &es@[i as int].resources,
                    m == rs@.len(),
                    out.deep_view() == all_resources(es@.subrange(0, i as int)) + rs.deep_view()
                        .subrange(0, j as int),
                decreases m - j,
            {
                let ghost prev = out.deep_view();
                out.push(rs[j].duplicate());
                proof {
                    assert(out.deep_view() =~= prev.push(rs@[j as int].deep_view()));
                    assert(rs.deep_view().subrange(0, j + 1) =~= rs.deep_view().subrange(
                        0,
                        j as int,
                    ).push(rs@[j as int].deep_view()));
                    assert(all_resources(es@.subrange(0, i as int)) + rs.deep_view().subrange(
                        0,
                        j + 1,
                    ) =~= (all_resources(es@.subrange(0, i as int)) + rs.deep_view().subrange(
                        0,
                        j as int,
                    )).push(rs@[j as int].deep_view()));
                }
                j = j + 1;
            }
            proof {
                assert(rs.deep_view().subrange(0, m as int) =~= rs.deep_view());
                assert(es@.subrange(0, i + 1) =~= es@.subrange(0, i as int).push(es@[i as int]));
                lemma_all_tool_names_push(es@.subrange(0, i as int), es@[i as int]);
            }
            i = i + 1;
        }
        proof {
            assert(es@.subrange(0, n as int) =~= es@);
        }
        out
    }

    /// Runs the named tool through its owning provider.  When no
    /// provider owns the name, the call fails with exactly the
    /// not-found error; otherwise whatever the provider's handler
    /// returns — success or any domain error — is passed through
    /// unchanged.
    pub fn execute_tool(&self, tool_name: &str, args: &ToolArgs) -> (r: Result<
        MCPToolResult,
        MCPError,
    >)
        ensures
            !owns_tool(self.entries@, tool_name@) ==> (r matches Err(e) && e matches
                MCPError::Other(m) && m@ == "Tool not found: "@ + tool_name@),
    {
        let es = &self.entries;
        let n = es.len();
        let mut i: usize = 0;
        while i < n
            invariant
                i <= n,
                n == es@.len(),
                es == &self.entries,
            decreases n - i,
        {
            let m = es[i].tools.len();
            if tools_contain_upto(&es[i].tools, m, tool_name) {
                return es[i].plugin.handle_tool_call(tool_name, args);
            }
            i = i + 1;
        }
        Err(MCPError::Other(String::from_str("Tool not found: ").concat(tool_name)))
    }

    /// Reads the named resource through its owning provider.  When no
    /// provider owns the URI, the call fails with exactly the not-found
    /// error; otherwise the provider's raw content — or its error — is
    /// passed through unchanged.
    pub fn read_resource(&self, uri: &str) -> (r: Result<String, MCPError>)
        ensures
            !owns_resource(self.entries@, uri@) ==> (r matches Err(e) && e matches MCPError::Other(
                m,
            ) && m@ == "Resource not found: "@ + uri@),
    {
        let es = &self.entries;
        let n = es.len();
        let mut i: usize = 0;
        while i < n
            invariant
                i <= n,
                n == es@.len(),
                es == &self.entries,
            decreases n - i,
        {
            let m = es[i].resources.len();
            if resources_contain_upto(&es[i].resources, m, uri) {
                return es[i].plugin.handle_resource_read(uri);
            }
            i = i + 1;
        }
        Err(MCPError::Other(String::from_str("Resource not found: ").concat(uri)))
    }
}

proof fn lemma_all_tools_names(es: Seq<PluginEntry>)
    ensures
        all_tools(es).len() == all_tool_names(es).len(),
        forall|k: int|
            0 <= k < all_tools(es).len() ==> (#[trigger] all_tools(es)[k]).name == all_tool_names(
                es,
            )[k],
    decreases es.len(),
{
    if es.len() > 0 {
        lemma_all_tools_names(es.drop_first());
        let head = es[0].tools.deep_view();
        let hn = tool_names(es[0].tools@);
        assert forall|k: int| 0 <= k < all_tools(es).len() implies (
        #[trigger] all_tools(es)[k]).name == all_tool_names(es)[k] by {
            if k < head.len() {
                assert(all_tools(es)[k] == head[k]);
                assert(head[k].name == es[0].tools@[k].name@);
                assert(all_tool_names(es)[k] == hn[k]);
            } else {
                assert(all_tools(es)[k] == all_tools(es.drop_first())[k - head.len()]);
                assert(all_tool_names(es)[k] == all_tool_names(es.drop_first())[k - head.len()]);
            }
        }
    }
}

/// What a well-formed registry lists: the tools of every registered
/// provider, concatenated in registration order, with no tool name
/// appearing twice.
pub proof fn lemma_tools_list_union(reg: &PluginRegistry)
    requires
        reg.wf(),
    ensures
        forall|i: int, j: int|
            0 <= i < j < all_tools(reg.entries@).len() ==> (
            #[trigger] all_tools(reg.entries@)[i]).name != (
            #[trigger] all_tools(reg.entries@)[j]).name,
{
    lemma_all_tools_names(reg.entries@);
}

} // verus!
