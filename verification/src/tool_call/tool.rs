//! Tool calls, tool results, tool schemas and the registry of tools.
use vstd::prelude::*;
use crate::llm::deepseek::enums::tool_call_type::ToolCallType;
use crate::error::{error_message, ErrorView, RagentError};
use crate::text::{concat2, concat3};
use crate::tool_call::helpers::text_result_view;
use crate::tool_call::function_type::ToolFunctionType;

verus! {

/// The JSON type of a tool parameter.
#[derive(Clone, Copy, Debug, PartialEq, Eq, Structural)]
pub enum ParamKind {
    Text,
    Integer,
}

impl ParamKind {
    /// The JSON schema name of the type.
    pub open spec fn name_spec(self) -> Seq<char> {
        match self {
            ParamKind::Text => "string"@,
            ParamKind::Integer => "integer"@,
        }
    }

    /// The JSON schema name of the type.
    pub fn as_str(&self) -> (r: &'static str)
        ensures
            r@ == self.name_spec(),
    {
        match self {
            ParamKind::Text => "string",
            ParamKind::Integer => "integer",
        }
    }
}

/// One parameter of a tool function.
#[derive(Clone, Copy, Debug)]
pub struct ToolParam {
    pub name: &'static str,
    pub kind: ParamKind,
}

/// The definition of a tool function, as offered to the model:
/// `{"type": "function", "function": {"name", "description", "parameters":
/// {"type": "object", "properties", "required"}}}`.
#[derive(Debug)]
pub struct ToolSchema {
    pub name: &'static str,
    pub description: &'static str,
    pub params: Vec<ToolParam>,
    pub required: Vec<&'static str>,
}

/// A tool definition, as the specifications see it.
pub struct SchemaView {
    pub name: Seq<char>,
    pub description: Seq<char>,
    pub params: Seq<(Seq<char>, ParamKind)>,
    pub required: Seq<Seq<char>>,
}

impl View for ToolSchema {
    type V = SchemaView;

    open spec fn view(&self) -> SchemaView {
        SchemaView {
            name: self.name@,
            description: self.description@,
            params: self.params@.map_values(|p: ToolParam| (p.name@, p.kind)),
            required: self.required@.map_values(|r: &'static str| r@),
        }
    }
}

/// The definition of each tool function.
pub open spec fn schema_spec(t: ToolFunctionType) -> SchemaView {
    match t {
        ToolFunctionType::Bash => SchemaView {
            name: t.name_spec(),
            description: "Run a shell command."@,
            params: seq![("command"@, ParamKind::Text)],
            required: seq!["command"@],
        },
        ToolFunctionType::ReadFile => SchemaView {
            name: t.name_spec(),
            description: "Read file contents."@,
            params: seq![("path"@, ParamKind::Text), ("limit"@, ParamKind::Integer)],
            required: seq!["path"@],
        },
        ToolFunctionType::WriteFile => SchemaView {
            name: t.name_spec(),
            description: "Write content to a file."@,
            params: seq![("path"@, ParamKind::Text), ("content"@, ParamKind::Text)],
            required: seq!["path"@, "content"@],
        },
        ToolFunctionType::EditFile => SchemaView {
            name: t.name_spec(),
            description: "Replace exact text in a file once"@,
            params: seq![
                ("path"@, ParamKind::Text),
                ("old_text"@, ParamKind::Text),
                ("new_text"@, ParamKind::Text),
            ],
            required: seq!["path"@, "old_text"@, "new_text"@],
        },
        ToolFunctionType::Glob => SchemaView {
            name: t.name_spec(),
            description: "Find files matching a glob pattern"@,
            params: seq![("path"@, ParamKind::Text), ("pattern"@, ParamKind::Text)],
            required: seq!["path"@, "pattern"@],
        },
    }
}

/// The definition of the tool function `t`.
pub fn tool_schema_of(t: ToolFunctionType) -> (s: ToolSchema)
    ensures
        s@ == schema_spec(t),
{
    let mut params: Vec<ToolParam> = Vec::new();
    let mut required: Vec<&'static str> = Vec::new();
    let description = match t {
        ToolFunctionType::Bash => {
            params.push(ToolParam { name: "command", kind: ParamKind::Text });
            required.push("command");
            "Run a shell command."
        },
        ToolFunctionType::ReadFile => {
            params.push(ToolParam { name: "path", kind: ParamKind::Text });
            params.push(ToolParam { name: "limit", kind: ParamKind::Integer });
            required.push("path");
            "Read file contents."
        },
        ToolFunctionType::WriteFile => {
            params.push(ToolParam { name: "path", kind: ParamKind::Text });
            params.push(ToolParam { name: "content", kind: ParamKind::Text });
            required.push("path");
            required.push("content");
            "Write content to a file."
        },
        ToolFunctionType::EditFile => {
            params.push(ToolParam { name: "path", kind: ParamKind::Text });
            params.push(ToolParam { name: "old_text", kind: ParamKind::Text });
            params.push(ToolParam { name: "new_text", kind: ParamKind::Text });
            required.push("path");
            required.push("old_text");
            required.push("new_text");
            "Replace exact text in a file once"
        },
        ToolFunctionType::Glob => {
            params.push(ToolParam { name: "path", kind: ParamKind::Text });
            params.push(ToolParam { name: "pattern", kind: ParamKind::Text });
            required.push("path");
            required.push("pattern");
            "Find files matching a glob pattern"
        },
    };
    let s = ToolSchema { name: t.as_str(), description, params, required };
    assert(s@.params =~= schema_spec(t).params);
    assert(s@.required =~= schema_spec(t).required);
    s
}

/// A tool the agent can offer the model.
pub trait FunctionTool {
    /// The kind of tool function this is.
    spec fn kind(&self) -> ToolFunctionType;

    /// The tool's definition.
    spec fn schema(&self) -> SchemaView;

    /// The kind of tool function this is.
    fn tool_type(&self) -> (t: ToolFunctionType)
        ensures
            t == self.kind(),
    ;

    /// The tool's definition.
    fn tool_schema(&self) -> (s: ToolSchema)
        ensures
            s@ == self.schema(),
    ;
}

/// A copy of a tool definition.
pub fn clone_schema(s: &ToolSchema) -> (r: ToolSchema)
    ensures
        r@ == s@,
{
    let mut params: Vec<ToolParam> = Vec::new();
    let mut i: usize = 0;
    while i < s.params.len()
        invariant
            i <= s.params@.len(),
            params@ == s.params@.take(i as int),
        decreases s.params@.len() - i,
    {
        params.push(s.params[i]);
        assert(s.params@.take(i + 1) =~= s.params@.take(i as int).push(s.params@[i as int]));
        i = i + 1;
    }
    let mut required: Vec<&'static str> = Vec::new();
    let mut j: usize = 0;
    while j < s.required.len()
        invariant
            j <= s.required@.len(),
            required@ == s.required@.take(j as int),
        decreases s.required@.len() - j,
    {
        required.push(s.required[j]);
        assert(s.required@.take(j + 1) =~= s.required@.take(j as int).push(s.required@[j as int]));
        j = j + 1;
    }
    assert(params@ =~= s.params@);
    assert(required@ =~= s.required@);
    ToolSchema { name: s.name, description: s.description, params, required }
}

/// The answer to arguments that could not be read.
pub open spec fn arguments_error_spec(detail: Seq<char>) -> Seq<char> {
    "Error parsing arguments: "@ + detail
}

/// The answer to arguments that could not be read; `detail` is the reason.
pub fn arguments_error_message(detail: &str) -> (r: String)
    ensures
        r@ == arguments_error_spec(detail@),
{
    concat2("Error parsing arguments: ", detail)
}

/// A file tool's answer: what the operation gave, or
/// `<failure> <path>: <error>` when it failed.
pub open spec fn file_report_spec(
    failure: Seq<char>,
    path: Seq<char>,
    outcome: Result<Seq<char>, ErrorView>,
) -> Seq<char> {
    match outcome {
        Ok(s) => s,
        Err(e) => failure + " "@ + path + ": "@ + error_message(e),
    }
}

/// A file tool's answer: what the operation gave, or
/// `<failure> <path>: <error>` when it failed.
pub fn file_report(failure: &str, path: &str, outcome: &Result<String, RagentError>) -> (r: String)
    ensures
        r@ == file_report_spec(failure@, path@, text_result_view(*outcome)),
{
    match outcome {
        Ok(s) => s.clone(),
        Err(e) => {
            let head = concat3(failure, " ", path);
            let msg = e.message();
            concat3(head.as_str(), ": ", msg.as_str())
        },
    }
}

/// The outcome of one tool call, handed back to the model.
#[derive(Debug)]
pub struct ToolResult {
    /// Always `tool_result`.
    pub result_type: String,
    /// The id of the tool call this answers.
    pub tool_use_id: String,
    /// What the tool reported.
    pub content: String,
}

impl ToolResult {
    /// The result `content` for the call `tool_use_id`.
    pub fn new(tool_use_id: &str, content: String) -> (r: ToolResult)
        ensures
            r.result_type@ == "tool_result"@,
            r.tool_use_id@ == tool_use_id@,
            r.content@ == content@,
    {
        ToolResult {
            result_type: String::from_str("tool_result"),
            tool_use_id: String::from_str(tool_use_id),
            content,
        }
    }
}

impl Clone for ToolResult {
    fn clone(&self) -> (r: ToolResult)
        ensures
            r == *self,
    {
        ToolResult {
            result_type: self.result_type.clone(),
            tool_use_id: self.tool_use_id.clone(),
            content: self.content.clone(),
        }
    }
}

/// The function part of a tool call.
#[derive(Debug)]
pub struct ToolCallFunction {
    pub name: ToolFunctionType,
    /// The arguments as JSON text, e.g. `{"command": "ls -la"}`.
    pub arguments: String,
}

impl Clone for ToolCallFunction {
    fn clone(&self) -> (r: ToolCallFunction)
        ensures
            r == *self,
    {
        ToolCallFunction { name: self.name, arguments: self.arguments.clone() }
    }
}

/// A tool call the model asked for.
#[derive(Debug)]
pub struct ToolCall {
    /// The call's position.
    pub index: u32,
    /// The call's id.
    pub id: String,
    /// The kind of call (the wire field `type`).
    pub call_type: ToolCallType,
    pub function: ToolCallFunction,
}

impl Clone for ToolCall {
    fn clone(&self) -> (r: ToolCall)
        ensures
            r == *self,
    {
        ToolCall {
            index: self.index,
            id: self.id.clone(),
            call_type: self.call_type,
            function: self.function.clone(),
        }
    }
}

/// A copy of a list of tool calls.
pub fn clone_tool_calls(v: &Vec<ToolCall>) -> (r: Vec<ToolCall>)
    ensures
        r@ == v@,
{
    let mut r: Vec<ToolCall> = Vec::new();
    let mut i: usize = 0;
    while i < v.len()
        invariant
            i <= v@.len(),
            r@ == v@.take(i as int),
        decreases v@.len() - i,
    {
        r.push(v[i].clone());
        assert(v@.take(i + 1) =~= v@.take(i as int).push(v@[i as int]));
        i = i + 1;
    }
    assert(v@.take(v@.len() as int) =~= v@);
    r
}

/// The tools offered to the model: each kind at most once, in the order the
/// kinds were first registered, with the definition the tool gave.
#[derive(Debug)]
pub struct ToolRegistry {
    kinds: Vec<ToolFunctionType>,
    schemas: Vec<ToolSchema>,
}

/// A registry, as the specifications see it: the registered kinds, and at
/// the same positions their definitions.
pub struct RegistryView {
    pub kinds: Seq<ToolFunctionType>,
    pub schemas: Seq<SchemaView>,
}

impl View for ToolRegistry {
    type V = RegistryView;

    closed spec fn view(&self) -> RegistryView {
        RegistryView {
            kinds: self.kinds@,
            schemas: self.schemas@.map_values(|t: ToolSchema| t@),
        }
    }
}

/// A registry view that a registry can have: no kind twice, and one
/// definition per kind.
pub open spec fn registry_wf(r: RegistryView) -> bool {
    r.kinds.no_duplicates() && r.kinds.len() == r.schemas.len()
}

/// The registry after registering a tool of kind `k` with definition `s`:
/// a kind already there keeps its place and takes the new definition; a new
/// kind is added last.
pub open spec fn registered_after(r: RegistryView, k: ToolFunctionType, s: SchemaView) -> RegistryView {
    if r.kinds.contains(k) {
        RegistryView {
            kinds: r.kinds,
            schemas: Seq::new(
                r.schemas.len(),
                |i: int|
                    if r.kinds[i] == k {
                        s
                    } else {
                        r.schemas[i]
                    },
            ),
        }
    } else {
        RegistryView { kinds: r.kinds.push(k), schemas: r.schemas.push(s) }
    }
}

/// The text of the result for a call of a tool that is not registered.
pub open spec fn not_found_message(name: ToolFunctionType) -> Seq<char> {
    "Tool not found: "@ + name.debug_spec()
}

proof fn lemma_push_new_kind(kinds: Seq<ToolFunctionType>, k: ToolFunctionType)
    requires
        kinds.no_duplicates(),
        !kinds.contains(k),
    ensures
        kinds.push(k).no_duplicates(),
{
    let v = kinds.push(k);
    assert forall|i: int, j: int| 0 <= i < v.len() && 0 <= j < v.len() && i != j implies v[i]
        != v[j] by {
        if i < kinds.len() && j < kinds.len() {
        } else if i < kinds.len() {
            assert(kinds.contains(kinds[i]));
        } else if j < kinds.len() {
            assert(kinds.contains(kinds[j]));
        }
    }
}

/// Where kind `k` stands in `kinds`, if it is there.
fn position_in(kinds: &Vec<ToolFunctionType>, k: ToolFunctionType) -> (r: Option<usize>)
    ensures
        match r {
            Some(j) => j < kinds@.len() && kinds@[j as int] == k,
            None => !kinds@.contains(k),
        },
{
    let mut i: usize = 0;
    while i < kinds.len()
        invariant
            i <= kinds@.len(),
            forall|j: int| 0 <= j < i ==> kinds@[j] != k,
        decreases kinds@.len() - i,
    {
        if kinds[i] == k {
            return Some(i);
        }
        i = i + 1;
    }
    None
}

impl ToolRegistry {
    #[verifier::type_invariant]
    closed spec fn inv(self) -> bool {
        self.kinds@.no_duplicates() && self.kinds@.len() == self.schemas@.len()
    }

    /// An empty registry.
    pub fn new() -> (r: ToolRegistry)
        ensures
            r@.kinds == Seq::<ToolFunctionType>::empty(),
            r@.schemas == Seq::<SchemaView>::empty(),
            registry_wf(r@),
    {
        let r = ToolRegistry { kinds: Vec::new(), schemas: Vec::new() };
        assert(r.kinds@.no_duplicates());
        assert(r@.schemas =~= Seq::<SchemaView>::empty());
        r
    }

    /// Registers a tool under its kind.  A tool of a kind already registered
    /// takes the place of the one before it.
    pub fn register<T: FunctionTool>(&mut self, tool: T)
        ensures
            final(self)@ == registered_after(old(self)@, tool.kind(), tool.schema()),
            registry_wf(final(self)@),
    {
        proof {
            use_type_invariant(&*self);
        }
        let k = tool.tool_type();
        let schema = tool.tool_schema();
        let ghost before = self@;
        let mut taken = ToolRegistry::new();
        std::mem::swap(&mut taken, self);
        proof {
            use_type_invariant(&taken);
        }
        let ToolRegistry { mut kinds, mut schemas } = taken;
        match position_in(&kinds, k) {
            Some(j) => {
                schemas.set(j, schema);
                assert(schemas@.map_values(|t: ToolSchema| t@) =~= registered_after(
                    before,
                    k,
                    tool.schema(),
                ).schemas) by {
                    assert forall|i: int| 0 <= i < kinds@.len() && kinds@[i] == k implies i
                        == j by {
                        assert(kinds@.no_duplicates());
                    }
                }
            },
            None => {
                proof {
                    lemma_push_new_kind(kinds@, k);
                }
                kinds.push(k);
                schemas.push(schema);
                assert(schemas@.map_values(|t: ToolSchema| t@) =~= before.schemas.push(
                    tool.schema(),
                ));
            },
        }
        *self = ToolRegistry { kinds, schemas };
        proof {
            use_type_invariant(&*self);
        }
    }

    /// Whether a tool of kind `k` is registered.
    pub fn contains(&self, k: ToolFunctionType) -> (r: bool)
        ensures
            r == self@.kinds.contains(k),
    {
        position_in(&self.kinds, k).is_some()
    }

    /// The definitions of all registered tools, in registration order.
    pub fn schemas(&self) -> (r: Vec<ToolSchema>)
        ensures
            r@.map_values(|t: ToolSchema| t@) == self@.schemas,
    {
        let mut r: Vec<ToolSchema> = Vec::new();
        let mut i: usize = 0;
        while i < self.schemas.len()
            invariant
                i <= self.schemas@.len(),
                r@.map_values(|t: ToolSchema| t@) == self.schemas@.take(i as int).map_values(
                    |t: ToolSchema| t@,
                ),
            decreases self.schemas@.len() - i,
        {
            r.push(clone_schema(&self.schemas[i]));
            assert(self.schemas@.take(i + 1).map_values(|t: ToolSchema| t@) =~= self.schemas@.take(
                i as int,
            ).map_values(|t: ToolSchema| t@).push(self.schemas@[i as int]@));
            assert(r@.map_values(|t: ToolSchema| t@) =~= self.schemas@.take(i + 1).map_values(
                |t: ToolSchema| t@,
            ));
            i = i + 1;
        }
        assert(self.schemas@.take(self.schemas@.len() as int) =~= self.schemas@);
        r
    }

    /// Decides how to answer a call of the tool function `name`: `Ok` with
    /// the tool to run when one is registered, otherwise `Err` with the
    /// result `Tool not found: <Name>`.
    pub fn resolve(&self, name: ToolFunctionType, tool_use_id: &str) -> (r: Result<
        ToolFunctionType,
        ToolResult,
    >)
        ensures
            self@.kinds.contains(name) ==> r == Ok::<ToolFunctionType, ToolResult>(name),
            !self@.kinds.contains(name) ==> (r matches Err(res) && res.tool_use_id@ == tool_use_id@
                && res.content@ == not_found_message(name) && res.result_type@ == "tool_result"@),
    {
        if self.contains(name) {
            Ok(name)
        } else {
            Err(ToolResult::new(tool_use_id, concat2("Tool not found: ", name.debug_name())))
        }
    }
}

/// Registering a tool makes its kind available with the tool's definition
/// (so `resolve` answers calls of that kind with it, and the last tool
/// registered for a kind is the one offered), keeps every kind registered
/// before in its place, leaves the other kinds and their definitions as they
/// were, and never registers a kind twice; registering the same tool again
/// changes nothing.
pub proof fn law_register_keeps_and_adds(r: RegistryView, k: ToolFunctionType, s: SchemaView)
    requires
        registry_wf(r),
    ensures
        registry_wf(registered_after(r, k, s)),
        registered_after(r, k, s).kinds.contains(k),
        forall|i: int|
            0 <= i < registered_after(r, k, s).kinds.len() && registered_after(r, k, s).kinds[i]
                == k ==> #[trigger] registered_after(r, k, s).schemas[i] == s,
        forall|i: int|
            0 <= i < r.kinds.len() ==> #[trigger] registered_after(r, k, s).kinds[i] == r.kinds[i]
                && (r.kinds[i] != k ==> registered_after(r, k, s).schemas[i] == r.schemas[i]),
        forall|j: ToolFunctionType|
            j != k ==> (#[trigger] registered_after(r, k, s).kinds.contains(j) <==> r.kinds.contains(
                j,
            )),
        registered_after(registered_after(r, k, s), k, s) == registered_after(r, k, s),
{
    let a = registered_after(r, k, s);
    if r.kinds.contains(k) {
        let b = registered_after(a, k, s);
        assert(b.schemas =~= a.schemas);
    } else {
        lemma_push_new_kind(r.kinds, k);
        let n = r.kinds.len() as int;
        assert forall|j: ToolFunctionType| j != k implies (#[trigger] a.kinds.contains(j)
            <==> r.kinds.contains(j)) by {
            if a.kinds.contains(j) {
                let i = choose|i: int| 0 <= i < a.kinds.len() && a.kinds[i] == j;
                assert(i < n);
                assert(r.kinds[i] == j);
            }
            if r.kinds.contains(j) {
                let i = choose|i: int| 0 <= i < r.kinds.len() && r.kinds[i] == j;
                assert(a.kinds[i] == j);
            }
        }
        assert(a.kinds[n] == k);
        assert(a.kinds.contains(k));
        let b = registered_after(a, k, s);
        assert forall|i: int| 0 <= i < a.kinds.len() && a.kinds[i] == k implies i == n by {
            if i < n {
                assert(r.kinds[i] == k);
                assert(r.kinds.contains(k));
            }
        }
        assert(b.schemas =~= a.schemas);
    }
}

} // verus!
