//! Tools that a model can call.
use vstd::prelude::*;

use crate::json;
use crate::json::{object2, object3, Json, JsonView};
use crate::text::str_eq;

verus! {

/// A tool, whatever the provider.
#[derive(Debug)]
pub struct ToolDefinition {
    pub name: String,
    pub description: String,
    pub input_schema: Json,
}

/// What a [`ToolDefinition`] is.
pub struct ToolDefinitionView {
    pub name: Seq<char>,
    pub description: Seq<char>,
    pub input_schema: JsonView,
}

impl DeepView for ToolDefinition {
    type V = ToolDefinitionView;

    open spec fn deep_view(&self) -> ToolDefinitionView {
        ToolDefinitionView { name: self.name@, description: self.description@, input_schema: self.input_schema@ }
    }
}

impl View for ToolDefinition {
    type V = ToolDefinitionView;

    open spec fn view(&self) -> ToolDefinitionView {
        self.deep_view()
    }
}

impl Clone for ToolDefinition {
    fn clone(&self) -> (r: Self)
        ensures
            r@ == self@,
    {
        ToolDefinition {
            name: self.name.clone(),
            description: self.description.clone(),
            input_schema: self.input_schema.clone(),
        }
    }
}

impl ToolDefinitionView {
    /// The tool in the format of OpenAI.
    pub open spec fn openai(self) -> JsonView {
        JsonView::Object(
            seq![
                ("type"@, JsonView::Text("function"@)),
                (
                    "function"@,
                    JsonView::Object(
                        seq![
                            ("name"@, JsonView::Text(self.name)),
                            ("description"@, JsonView::Text(self.description)),
                            ("parameters"@, self.input_schema),
                        ],
                    ),
                ),
            ],
        )
    }

    /// The tool in the format of Anthropic.
    pub open spec fn anthropic(self) -> JsonView {
        JsonView::Object(
            seq![
                ("name"@, JsonView::Text(self.name)),
                ("description"@, JsonView::Text(self.description)),
                ("input_schema"@, self.input_schema),
            ],
        )
    }
}

impl ToolDefinition {
    /// The tool in the format of OpenAI.
    pub fn to_openai_tool(&self) -> (r: Json)
        ensures
            r@ == self@.openai(),
    {
        object2(
            "type",
            Json::text("function"),
            "function",
            object3(
                "name",
                Json::text(self.name.as_str()),
                "description",
                Json::text(self.description.as_str()),
                "parameters",
                self.input_schema.clone(),
            ),
        )
    }

    /// The tool in the format of Anthropic.
    pub fn to_anthropic_tool(&self) -> (r: Json)
        ensures
            r@ == self@.anthropic(),
    {
        object3(
            "name",
            Json::text(self.name.as_str()),
            "description",
            Json::text(self.description.as_str()),
            "input_schema",
            self.input_schema.clone(),
        )
    }
}

/// Tools in the format of OpenAI.
pub open spec fn openai_tools(tools: Seq<ToolDefinitionView>) -> Seq<JsonView> {
    Seq::new(tools.len(), |i: int| tools[i].openai())
}

/// Tools in the format of Anthropic.
pub open spec fn anthropic_tools(tools: Seq<ToolDefinitionView>) -> Seq<JsonView> {
    Seq::new(tools.len(), |i: int| tools[i].anthropic())
}

/// Tools in the format of OpenAI.
pub fn to_openai_tools(tools: &[ToolDefinition]) -> (r: Vec<Json>)
    ensures
        json::views(r@) == openai_tools(tools.deep_view()),
{
    let mut items: Vec<Json> = Vec::new();
    let ghost all = openai_tools(tools.deep_view());
    let mut i: usize = 0;
    while i < tools.len()
        invariant
            i <= tools@.len(),
            all == openai_tools(tools.deep_view()),
            json::views(items@) == all.take(i as int),
        decreases tools@.len() - i,
    {
        let ghost before = json::views(items@);
        let item = tools[i].to_openai_tool();
        let ghost pushed = item@;
        items.push(item);
        proof {
            assert(json::views(items@) =~= before.push(pushed));
            assert(all.take(i + 1) =~= all.take(i as int).push(all[i as int]));
        }
        i = i + 1;
    }
    proof {
        assert(all.take(i as int) =~= all);
    }
    items
}

/// Tools in the format of Anthropic.
pub fn to_anthropic_tools(tools: &[ToolDefinition]) -> (r: Vec<Json>)
    ensures
        json::views(r@) == anthropic_tools(tools.deep_view()),
{
    let mut items: Vec<Json> = Vec::new();
    let ghost all = anthropic_tools(tools.deep_view());
    let mut i: usize = 0;
    while i < tools.len()
        invariant
            i <= tools@.len(),
            all == anthropic_tools(tools.deep_view()),
            json::views(items@) == all.take(i as int),
        decreases tools@.len() - i,
    {
        let ghost before = json::views(items@);
        let item = tools[i].to_anthropic_tool();
        let ghost pushed = item@;
        items.push(item);
        proof {
            assert(json::views(items@) =~= before.push(pushed));
            assert(all.take(i + 1) =~= all.take(i as int).push(all[i as int]));
        }
        i = i + 1;
    }
    proof {
        assert(all.take(i as int) =~= all);
    }
    items
}

/// A call of a tool by a model.
#[derive(Debug)]
pub struct ToolCall {
    pub id: String,
    pub name: String,
    pub input: Json,
}

/// What a [`ToolCall`] is.
pub struct ToolCallView {
    pub id: Seq<char>,
    pub name: Seq<char>,
    pub input: JsonView,
}

impl DeepView for ToolCall {
    type V = ToolCallView;

    open spec fn deep_view(&self) -> ToolCallView {
        ToolCallView { id: self.id@, name: self.name@, input: self.input@ }
    }
}

impl View for ToolCall {
    type V = ToolCallView;

    open spec fn view(&self) -> ToolCallView {
        self.deep_view()
    }
}

impl Clone for ToolCall {
    fn clone(&self) -> (r: Self)
        ensures
            r@ == self@,
    {
        ToolCall { id: self.id.clone(), name: self.name.clone(), input: self.input.clone() }
    }
}

/// What a tool call gave.
#[derive(Debug)]
pub struct ToolResult {
    pub call_id: String,
    pub output: String,
}

/// What a [`ToolResult`] is.
pub struct ToolResultView {
    pub call_id: Seq<char>,
    pub output: Seq<char>,
}

impl DeepView for ToolResult {
    type V = ToolResultView;

    open spec fn deep_view(&self) -> ToolResultView {
        ToolResultView { call_id: self.call_id@, output: self.output@ }
    }
}

impl View for ToolResult {
    type V = ToolResultView;

    open spec fn view(&self) -> ToolResultView {
        self.deep_view()
    }
}

// ---------------------------------------------------------------------------
// Tools of MCP servers
// ---------------------------------------------------------------------------

/// A tool that an MCP server offers. Its schema is an object with these members.
#[derive(Debug)]
pub struct McpTool {
    pub name: String,
    pub description: Option<String>,
    pub input_schema: Vec<(String, Json)>,
}

/// What an [`McpTool`] is.
pub struct McpToolView {
    pub name: Seq<char>,
    pub description: Option<Seq<char>>,
    pub input_schema: Seq<(Seq<char>, JsonView)>,
}

impl DeepView for McpTool {
    type V = McpToolView;

    open spec fn deep_view(&self) -> McpToolView {
        McpToolView {
            name: self.name@,
            description: self.description.deep_view(),
            input_schema: json::member_views(self.input_schema@),
        }
    }
}

impl View for McpTool {
    type V = McpToolView;

    open spec fn view(&self) -> McpToolView {
        self.deep_view()
    }
}

/// An MCP server.
#[derive(Debug)]
pub struct McpServer {
    pub tools: Vec<McpTool>,
}

impl DeepView for McpServer {
    type V = Seq<McpToolView>;

    open spec fn deep_view(&self) -> Seq<McpToolView> {
        self.tools.deep_view()
    }
}

impl View for McpServer {
    type V = Seq<McpToolView>;

    open spec fn view(&self) -> Seq<McpToolView> {
        self.deep_view()
    }
}

/// The MCP tools at hand: those of servers, and those of an older list without
/// servers.
#[derive(Debug)]
pub struct McpContext {
    pub servers: Vec<McpServer>,
    pub tools: Vec<McpTool>,
}

/// What an [`McpContext`] is.
pub struct McpContextView {
    pub servers: Seq<Seq<McpToolView>>,
    pub tools: Seq<McpToolView>,
}

impl DeepView for McpContext {
    type V = McpContextView;

    open spec fn deep_view(&self) -> McpContextView {
        McpContextView { servers: self.servers.deep_view(), tools: self.tools.deep_view() }
    }
}

impl View for McpContext {
    type V = McpContextView;

    open spec fn view(&self) -> McpContextView {
        self.deep_view()
    }
}

impl McpToolView {
    /// The tool, whatever the server. Without a description it has an empty one.
    pub open spec fn definition(self) -> ToolDefinitionView {
        ToolDefinitionView {
            name: self.name,
            description: match self.description {
                Some(description) => description,
                None => Seq::empty(),
            },
            input_schema: JsonView::Object(self.input_schema),
        }
    }
}

/// The tools of a server.
pub open spec fn definitions(tools: Seq<McpToolView>) -> Seq<ToolDefinitionView> {
    Seq::new(tools.len(), |i: int| tools[i].definition())
}

/// The tools of servers, server after server.
pub open spec fn server_definitions(servers: Seq<Seq<McpToolView>>) -> Seq<ToolDefinitionView>
    decreases servers.len(),
{
    if servers.len() == 0 {
        Seq::empty()
    } else {
        server_definitions(servers.drop_last()) + definitions(servers.last())
    }
}

/// Is there a tool with this name?
pub open spec fn names_tool(tools: Seq<ToolDefinitionView>, name: Seq<char>) -> bool {
    exists|i: int| 0 <= i < tools.len() && (#[trigger] tools[i]).name == name
}

/// The tools `known`, with those of `listed` whose names are not taken.
pub open spec fn with_listed(known: Seq<ToolDefinitionView>, listed: Seq<McpToolView>) -> Seq<ToolDefinitionView>
    decreases listed.len(),
{
    if listed.len() == 0 {
        known
    } else {
        let earlier = with_listed(known, listed.drop_last());
        if names_tool(earlier, listed.last().name) {
            earlier
        } else {
            earlier.push(listed.last().definition())
        }
    }
}

/// The tools for a request.
pub open spec fn collected_tools(context: Option<McpContextView>) -> Seq<ToolDefinitionView> {
    match context {
        Some(context) => with_listed(server_definitions(context.servers), context.tools),
        None => Seq::empty(),
    }
}

impl McpTool {
    /// The tool, whatever the server.
    pub fn definition(&self) -> (r: ToolDefinition)
        ensures
            r@ == self@.definition(),
    {
        broadcast use json::lemma_object_view;

        let description = match &self.description {
            Some(description) => description.clone(),
            None => String::new(),
        };
        ToolDefinition {
            name: self.name.clone(),
            description,
            input_schema: Json::Object(json::clone_members(&self.input_schema)),
        }
    }
}

/// Adds the tools of a server.
fn push_definitions(tools: &mut Vec<ToolDefinition>, offered: &Vec<McpTool>)
    ensures
        final(tools).deep_view() == old(tools).deep_view() + definitions(offered.deep_view()),
{
    let ghost before = tools.deep_view();
    let ghost all = definitions(offered.deep_view());
    proof {
        assert(tools.deep_view() =~= before + all.take(0));
    }
    let mut i: usize = 0;
    while i < offered.len()
        invariant
            i <= offered@.len(),
            all == definitions(offered.deep_view()),
            tools.deep_view() == before + all.take(i as int),
        decreases offered@.len() - i,
    {
        let ghost so_far = tools.deep_view();
        let tool = offered[i].definition();
        let ghost pushed = tool@;
        tools.push(tool);
        proof {
            assert(tools.deep_view() =~= so_far.push(pushed));
            assert(all.take(i + 1) =~= all.take(i as int).push(all[i as int]));
            assert(tools.deep_view() =~= before + all.take(i + 1));
        }
        i = i + 1;
    }
    proof {
        assert(all.take(i as int) =~= all);
    }
}

/// Is there a tool with this name?
fn has_tool(tools: &Vec<ToolDefinition>, name: &str) -> (r: bool)
    ensures
        r == names_tool(tools.deep_view(), name@),
{
    let ghost all = tools.deep_view();
    let mut i: usize = 0;
    while i < tools.len()
        invariant
            i <= tools@.len(),
            all == tools.deep_view(),
            forall|j: int| 0 <= j < i ==> (#[trigger] all[j]).name != name@,
        decreases tools@.len() - i,
    {
        proof {
            assert(all[i as int] == tools@[i as int]@);
        }
        if str_eq(tools[i].name.as_str(), name) {
            return true;
        }
        i = i + 1;
    }
    false
}

/// The tools for a request: those of all servers, then those of the older list
/// whose names are not taken.
pub fn collect_tools(mcp_context: &Option<McpContext>) -> (r: Vec<ToolDefinition>)
    ensures
        r.deep_view() == collected_tools(mcp_context.deep_view()),
{
    let mut tools: Vec<ToolDefinition> = Vec::new();
    match mcp_context {
        Some(context) => {
            let ghost servers = context.servers.deep_view();
            proof {
                assert(tools.deep_view() =~= server_definitions(servers.take(0)));
            }
            let mut i: usize = 0;
            while i < context.servers.len()
                invariant
                    i <= context.servers@.len(),
                    servers == context.servers.deep_view(),
                    tools.deep_view() == server_definitions(servers.take(i as int)),
                decreases context.servers@.len() - i,
            {
                push_definitions(&mut tools, &context.servers[i].tools);
                proof {
                    assert(servers.take(i + 1).drop_last() =~= servers.take(i as int));
                    assert(servers.take(i + 1).last() == context.servers@[i as int].tools.deep_view());
                }
                i = i + 1;
            }
            proof {
                assert(servers.take(i as int) =~= servers);
            }
            let ghost known = tools.deep_view();
            let ghost listed = context.tools.deep_view();
            proof {
                assert(tools.deep_view() =~= with_listed(known, listed.take(0)));
            }
            let mut j: usize = 0;
            while j < context.tools.len()
                invariant
                    j <= context.tools@.len(),
                    listed == context.tools.deep_view(),
                    tools.deep_view() == with_listed(known, listed.take(j as int)),
                decreases context.tools@.len() - j,
            {
                proof {
                    assert(listed.take(j + 1).drop_last() =~= listed.take(j as int));
                    assert(listed.take(j + 1).last() == context.tools@[j as int]@);
                }
                if !has_tool(&tools, context.tools[j].name.as_str()) {
                    let ghost so_far = tools.deep_view();
                    let tool = context.tools[j].definition();
                    let ghost pushed = tool@;
                    tools.push(tool);
                    proof {
                        assert(tools.deep_view() =~= so_far.push(pushed));
                    }
                }
                j = j + 1;
            }
            proof {
                assert(listed.take(j as int) =~= listed);
            }
        },
        None => {
            proof {
                assert(tools.deep_view() =~= Seq::<ToolDefinitionView>::empty());
            }
        },
    }
    tools
}

/// The tools of servers come first, as they are; the older list adds the tools
/// whose names no other has, each name once.
pub proof fn law_listed_tools_add_new_names(known: Seq<ToolDefinitionView>, listed: Seq<McpToolView>, name: Seq<char>)
    ensures
        known.is_prefix_of(with_listed(known, listed)),
        names_tool(with_listed(known, listed), name) <==> {
            ||| names_tool(known, name)
            ||| exists|i: int| 0 <= i < listed.len() && (#[trigger] listed[i]).name == name
        },
        forall|i: int, j: int|
            known.len() <= i < with_listed(known, listed).len() && 0 <= j < i ==> (#[trigger] with_listed(
                known,
                listed,
            )[i]).name != (#[trigger] with_listed(known, listed)[j]).name,
    decreases listed.len(),
{
    if listed.len() > 0 {
        let front = listed.drop_last();
        let last = listed.last();
        let earlier = with_listed(known, front);
        let all = with_listed(known, listed);
        law_listed_tools_add_new_names(known, front, name);
        if exists|i: int| 0 <= i < listed.len() && (#[trigger] listed[i]).name == name {
            let i = choose|i: int| 0 <= i < listed.len() && (#[trigger] listed[i]).name == name;
            if i < front.len() {
                assert(front[i].name == name);
            }
        }
        if exists|i: int| 0 <= i < front.len() && (#[trigger] front[i]).name == name {
            let i = choose|i: int| 0 <= i < front.len() && (#[trigger] front[i]).name == name;
            assert(listed[i].name == name);
        }
        assert(listed[listed.len() - 1] == last);
        if !names_tool(earlier, last.name) {
            assert(all == earlier.push(last.definition()));
            assert(all[all.len() - 1].name == last.name);
            if names_tool(earlier, name) {
                let i = choose|i: int| 0 <= i < earlier.len() && (#[trigger] earlier[i]).name == name;
                assert(all[i].name == name);
            }
            if names_tool(all, name) {
                let i = choose|i: int| 0 <= i < all.len() && (#[trigger] all[i]).name == name;
                if i < earlier.len() {
                    assert(earlier[i].name == name);
                }
            }
            assert forall|i: int, j: int| known.len() <= i < all.len() && 0 <= j < i implies (#[trigger] all[i]).name
                != (#[trigger] all[j]).name by {
                assert(earlier[j] == all[j]);
                if i < earlier.len() {
                    assert(earlier[i] == all[i]);
                }
            }
        }
    }
}

// ---------------------------------------------------------------------------
// Running tools
// ---------------------------------------------------------------------------

/// What is done with a tool call.
#[derive(Debug)]
pub enum ToolDispatch {
    /// The executor runs the tool on these arguments.
    Execute { name: String, arguments: Vec<(String, Json)> },
    /// No tool runs, and this is the output.
    Output(String),
}

/// What a [`ToolDispatch`] is.
pub enum ToolDispatchView {
    Execute { name: Seq<char>, arguments: Seq<(Seq<char>, JsonView)> },
    Output(Seq<char>),
}

impl View for ToolDispatch {
    type V = ToolDispatchView;

    open spec fn view(&self) -> ToolDispatchView {
        match self {
            ToolDispatch::Execute { name, arguments } => ToolDispatchView::Execute {
                name: name@,
                arguments: json::member_views(arguments@),
            },
            ToolDispatch::Output(output) => ToolDispatchView::Output(output@),
        }
    }
}

/// What is done with a tool call: a tool runs where there is an executor and the
/// arguments are an object.
pub open spec fn dispatch_of(call: ToolCallView, has_executor: bool) -> ToolDispatchView {
    match call.input {
        JsonView::Object(arguments) if has_executor => ToolDispatchView::Execute { name: call.name, arguments },
        _ => ToolDispatchView::Output("This tool is not available in direct-provider mode: "@ + call.name),
    }
}

/// What is done with a tool call.
pub fn dispatch_tool(tool_call: &ToolCall, has_executor: bool) -> (r: ToolDispatch)
    ensures
        r@ == dispatch_of(tool_call@, has_executor),
{
    broadcast use json::lemma_object_view;

    if has_executor {
        match &tool_call.input {
            Json::Object(members) => {
                proof {
                    assert(tool_call.input@ == JsonView::Object(json::member_views(members@)));
                }
                return ToolDispatch::Execute {
                    name: tool_call.name.clone(),
                    arguments: json::clone_members(members),
                };
            },
            _ => {},
        }
    }
    ToolDispatch::Output(
        crate::text::cat("This tool is not available in direct-provider mode: ", tool_call.name.as_str()),
    )
}

/// The output of a tool that ran: what it gave, or its error.
pub open spec fn execution_output_of(outcome: Result<Seq<char>, Seq<char>>) -> Seq<char> {
    match outcome {
        Ok(output) => output,
        Err(error) => "Tool execution error: "@ + error,
    }
}

/// The output of a tool that ran.
pub fn execution_output(outcome: Result<String, String>) -> (r: String)
    ensures
        r@ == execution_output_of(
            match outcome {
                Ok(output) => Ok(output@),
                Err(error) => Err(error@),
            },
        ),
{
    match outcome {
        Ok(output) => output,
        Err(error) => crate::text::cat("Tool execution error: ", error.as_str()),
    }
}

/// The outputs of tool calls, each with the id of its call.
pub open spec fn tool_results_of(calls: Seq<ToolCallView>, outputs: Seq<Seq<char>>) -> Seq<ToolResultView> {
    Seq::new(calls.len(), |i: int| ToolResultView { call_id: calls[i].id, output: outputs[i] })
}

/// The outputs of tool calls, in the order of the calls, each with the id of its
/// call.
pub fn tool_results(tool_calls: &[ToolCall], outputs: &[String]) -> (r: Vec<ToolResult>)
    requires
        tool_calls@.len() == outputs@.len(),
    ensures
        r.deep_view() == tool_results_of(tool_calls.deep_view(), outputs.deep_view()),
{
    let mut results: Vec<ToolResult> = Vec::new();
    let ghost all = tool_results_of(tool_calls.deep_view(), outputs.deep_view());
    let mut i: usize = 0;
    while i < tool_calls.len()
        invariant
            i <= tool_calls@.len(),
            tool_calls@.len() == outputs@.len(),
            all == tool_results_of(tool_calls.deep_view(), outputs.deep_view()),
            results.deep_view() == all.take(i as int),
        decreases tool_calls@.len() - i,
    {
        let ghost before = results.deep_view();
        let result = ToolResult { call_id: tool_calls[i].id.clone(), output: outputs[i].clone() };
        let ghost pushed = result@;
        results.push(result);
        proof {
            assert(all[i as int] == pushed);
            assert(results.deep_view() =~= before.push(pushed));
            assert(all.take(i + 1) =~= all.take(i as int).push(all[i as int]));
        }
        i = i + 1;
    }
    proof {
        assert(all.take(i as int) =~= all);
    }
    results
}

/// Every tool call gets its own output and no other: the results number the
/// calls, and each has the id of its call and the output of its call.
pub proof fn law_results_answer_their_calls(calls: Seq<ToolCallView>, outputs: Seq<Seq<char>>)
    requires
        calls.len() == outputs.len(),
    ensures
        tool_results_of(calls, outputs).len() == calls.len(),
        forall|i: int|
            0 <= i < calls.len() ==> (#[trigger] tool_results_of(calls, outputs)[i]).call_id == calls[i].id
                && tool_results_of(calls, outputs)[i].output == outputs[i],
{
}

/// A tool runs where there is an executor and its arguments are an object: under
/// its own name, with all its arguments. Otherwise the output says which tool is
/// not to be had.
pub proof fn law_tools_run_with_their_arguments(call: ToolCallView, has_executor: bool)
    ensures
        has_executor ==> forall|arguments: Seq<(Seq<char>, JsonView)>|
            call.input == JsonView::Object(arguments) ==> #[trigger] dispatch_of(call, has_executor)
                == (ToolDispatchView::Execute { name: call.name, arguments }),
        dispatch_of(call, has_executor) is Execute <==> has_executor && call.input is Object,
        dispatch_of(call, has_executor) matches ToolDispatchView::Output(output) ==> output
            == "This tool is not available in direct-provider mode: "@ + call.name,
{
}

/// What a tool gives is its output, as it stands; what goes wrong is told behind
/// a mark, and never as if the tool had given it.
pub proof fn law_tool_errors_are_marked(text: Seq<char>)
    ensures
        execution_output_of(Ok(text)) == text,
        execution_output_of(Err(text)) == "Tool execution error: "@ + text,
{
}

/// A tool in a request has the name, the description and the input schema that
/// it is defined with, where each provider looks for them.
pub proof fn law_tools_are_written_in_full(tools: Seq<ToolDefinitionView>, i: int)
    requires
        0 <= i < tools.len(),
    ensures
        openai_tools(tools).len() == tools.len(),
        openai_tools(tools)[i].str_at("type"@) == Some("function"@),
        openai_tools(tools)[i].str_in("function"@, "name"@) == Some(tools[i].name),
        openai_tools(tools)[i].str_in("function"@, "description"@) == Some(tools[i].description),
        openai_tools(tools)[i].get("function"@) is Some,
        openai_tools(tools)[i].get("function"@)->0.get("parameters"@) == Some(tools[i].input_schema),
        anthropic_tools(tools).len() == tools.len(),
        anthropic_tools(tools)[i].str_at("name"@) == Some(tools[i].name),
        anthropic_tools(tools)[i].str_at("description"@) == Some(tools[i].description),
        anthropic_tools(tools)[i].get("input_schema"@) == Some(tools[i].input_schema),
{
    reveal_strlit("type");
    reveal_strlit("function");
    reveal_strlit("name");
    reveal_strlit("description");
    reveal_strlit("parameters");
    reveal_strlit("input_schema");
    assert("type"@.len() == 4);
    assert("function"@.len() == 8);
    assert("name"@.len() == 4);
    assert("description"@.len() == 11);
    assert("parameters"@.len() == 10);
    assert("input_schema"@.len() == 12);
    reveal_with_fuel(json::member, 4);
}

/// Is a tool what the server defines: with its name, its schema, and its
/// description or an empty one?
pub open spec fn is_defined_by(tool: ToolDefinitionView, defined: McpToolView) -> bool {
    &&& tool.name == defined.name
    &&& tool.input_schema == JsonView::Object(defined.input_schema)
    &&& defined.description is Some ==> tool.description == defined.description->0
    &&& defined.description is None ==> tool.description.len() == 0
}

/// Every tool of every server is collected, server after server, as the server
/// defines it; and every tool in the list is there under its name.
pub proof fn law_every_tool_is_collected(context: McpContextView, server: int, tool: int, listed: int)
    ensures
        0 <= server < context.servers.len() && 0 <= tool < context.servers[server].len() ==> exists|k: int|
            0 <= k < collected_tools(Some(context)).len() && is_defined_by(
                #[trigger] collected_tools(Some(context))[k],
                context.servers[server][tool],
            ),
        0 <= listed < context.tools.len() ==> names_tool(collected_tools(Some(context)), context.tools[listed].name),
        collected_tools(None).len() == 0,
{
    let known = server_definitions(context.servers);
    let collected = collected_tools(Some(context));
    lemma_known_tools_stay(known, context.tools);
    if 0 <= server < context.servers.len() && 0 <= tool < context.servers[server].len() {
        lemma_server_tools(context.servers, server, tool);
        let k = choose|k: int|
            0 <= k < known.len() && (#[trigger] known[k]) == context.servers[server][tool].definition();
        assert(collected[k] == known[k]);
    }
    if 0 <= listed < context.tools.len() {
        lemma_listed_tools_are_named(known, context.tools, listed);
    }
}

/// The tools of servers hold each tool of each server.
proof fn lemma_server_tools(servers: Seq<Seq<McpToolView>>, server: int, tool: int)
    requires
        0 <= server < servers.len(),
        0 <= tool < servers[server].len(),
    ensures
        exists|k: int|
            0 <= k < server_definitions(servers).len() && (#[trigger] server_definitions(servers)[k])
                == servers[server][tool].definition(),
    decreases servers.len(),
{
    let front = server_definitions(servers.drop_last());
    let all = server_definitions(servers);
    if server == servers.len() - 1 {
        assert(all[front.len() + tool] == definitions(servers.last())[tool]);
    } else {
        assert(servers.drop_last()[server] == servers[server]);
        lemma_server_tools(servers.drop_last(), server, tool);
        let k = choose|k: int|
            0 <= k < front.len() && (#[trigger] front[k]) == servers[server][tool].definition();
        assert(all[k] == front[k]);
    }
}

/// Tools that are known stay, where they are.
proof fn lemma_known_tools_stay(known: Seq<ToolDefinitionView>, listed: Seq<McpToolView>)
    ensures
        known.len() <= with_listed(known, listed).len(),
        forall|k: int| 0 <= k < known.len() ==> (#[trigger] with_listed(known, listed)[k]) == known[k],
    decreases listed.len(),
{
    if listed.len() > 0 {
        lemma_known_tools_stay(known, listed.drop_last());
    }
}

/// Each listed tool is there under its name.
proof fn lemma_listed_tools_are_named(known: Seq<ToolDefinitionView>, listed: Seq<McpToolView>, i: int)
    requires
        0 <= i < listed.len(),
    ensures
        names_tool(with_listed(known, listed), listed[i].name),
    decreases listed.len(),
{
    let earlier = with_listed(known, listed.drop_last());
    let all = with_listed(known, listed);
    if i == listed.len() - 1 {
        if !names_tool(earlier, listed.last().name) {
            assert(all[earlier.len() as int].name == listed.last().name);
        }
    } else {
        lemma_listed_tools_are_named(known, listed.drop_last(), i);
        assert(listed.drop_last()[i] == listed[i]);
        let k = choose|k: int| 0 <= k < earlier.len() && (#[trigger] earlier[k]).name == listed[i].name;
        assert(all[k] == earlier[k]);
    }
}

} // verus!
