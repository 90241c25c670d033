//! The typed units of conversation content: response items, content
//! chunks, tool-output payloads, and token usage, together with the pure
//! conversions between them.
//!
//! Each executable type that carries a list has a mathematical view in
//! which every `Vec` becomes a `Seq`; contracts speak of those views.

use vstd::prelude::*;

verus! {

/// The author of a message item.
#[derive(Clone, Copy, Debug, PartialEq, Eq)]
pub enum Role {
    User,
    Assistant,
    System,
}

/// One content chunk of a message item.
#[derive(Debug, PartialEq, Eq)]
pub enum ContentItem {
    InputText { text: String },
    InputImage { image_url: String },
    OutputText { text: String },
}

/// The payload of a function-call output: the text handed back to the
/// model and an optional success flag.
#[derive(Debug, PartialEq, Eq)]
pub struct FunctionCallOutputPayload {
    pub content: String,
    pub success: Option<bool>,
}

/// The canonical tagged unit of conversation content. A conversation is a
/// totally-ordered sequence of these items.
#[derive(Debug, PartialEq, Eq)]
pub enum ResponseItem {
    Message { id: Option<String>, role: Role, content: Vec<ContentItem> },
    Reasoning { id: Option<String>, summary: Vec<String>, content: Vec<String> },
    WebSearchCall { id: Option<String>, query: String },
    FunctionCall { name: String, arguments: String, call_id: String },
    CustomToolCall { name: String, input: String, call_id: String },
    LocalShellCall { id: Option<String>, call_id: Option<String>, command: Vec<String> },
    FunctionCallOutput { call_id: String, output: FunctionCallOutputPayload },
    CustomToolCallOutput { call_id: String, output: String },
    DeveloperInstructions { text: String },
    UserInstructions { text: String, directory: String },
    EnvironmentContext { cwd: String },
    CompactSummary { text: String },
}

/// The mathematical value of a response item: the same shape with every
/// list read as a sequence.
pub enum ItemView {
    Message { id: Option<String>, role: Role, content: Seq<ContentItem> },
    Reasoning { id: Option<String>, summary: Seq<String>, content: Seq<String> },
    WebSearchCall { id: Option<String>, query: String },
    FunctionCall { name: String, arguments: String, call_id: String },
    CustomToolCall { name: String, input: String, call_id: String },
    LocalShellCall { id: Option<String>, call_id: Option<String>, command: Seq<String> },
    FunctionCallOutput { call_id: String, output: FunctionCallOutputPayload },
    CustomToolCallOutput { call_id: String, output: String },
    DeveloperInstructions { text: String },
    UserInstructions { text: String, directory: String },
    EnvironmentContext { cwd: String },
    CompactSummary { text: String },
}

impl View for ResponseItem {
    type V = ItemView;

    open spec fn view(&self) -> ItemView {
        match *self {
            ResponseItem::Message { id, role, content } => ItemView::Message {
                id,
                role,
                content: content@,
            },
            ResponseItem::Reasoning { id, summary, content } => ItemView::Reasoning {
                id,
                summary: summary@,
                content: content@,
            },
            ResponseItem::WebSearchCall { id, query } => ItemView::WebSearchCall { id, query },
            ResponseItem::FunctionCall { name, arguments, call_id } => ItemView::FunctionCall {
                name,
                arguments,
                call_id,
            },
            ResponseItem::CustomToolCall { name, input, call_id } => ItemView::CustomToolCall {
                name,
                input,
                call_id,
            },
            ResponseItem::LocalShellCall { id, call_id, command } => ItemView::LocalShellCall {
                id,
                call_id,
                command: command@,
            },
            ResponseItem::FunctionCallOutput { call_id, output } => ItemView::FunctionCallOutput {
                call_id,
                output,
            },
            ResponseItem::CustomToolCallOutput { call_id, output } => {
                ItemView::CustomToolCallOutput { call_id, output }
            },
            ResponseItem::DeveloperInstructions { text } => ItemView::DeveloperInstructions {
                text,
            },
            ResponseItem::UserInstructions { text, directory } => ItemView::UserInstructions {
                text,
                directory,
            },
            ResponseItem::EnvironmentContext { cwd } => ItemView::EnvironmentContext { cwd },
            ResponseItem::CompactSummary { text } => ItemView::CompactSummary { text },
        }
    }
}

/// The views of a sequence of items.
pub open spec fn item_seq_view(s: Seq<ResponseItem>) -> Seq<ItemView> {
    s.map_values(|it: ResponseItem| it@)
}

/// One element of a user submission.
#[derive(Debug, PartialEq, Eq)]
pub enum UserInput {
    Text { text: String },
    Image { image_url: String },
}

/// A tool output ready to be written back into the conversation, keyed by
/// the call it answers.
#[derive(Debug, PartialEq, Eq)]
pub enum ResponseInputItem {
    FunctionCallOutput { call_id: String, output: FunctionCallOutputPayload },
    CustomToolCallOutput { call_id: String, output: String },
    McpToolCallOutput { call_id: String, result: Result<CallToolResult, String> },
}

/// Structured content attached to a tool result: either an explicit JSON
/// null or a serialized JSON document.
#[derive(Debug, PartialEq, Eq)]
pub enum StructuredContent {
    Null,
    Json { serialized: String },
}

/// The result a tool server hands back for one call: the serialized
/// content blocks, an optional error flag, and optional structured content.
#[derive(Debug, PartialEq, Eq)]
pub struct CallToolResult {
    pub content_json: String,
    pub is_error: Option<bool>,
    pub structured_content: Option<StructuredContent>,
}

impl Clone for StructuredContent {
    /// A clone keeps the value unchanged.
    fn clone(&self) -> (r: Self)
        ensures
            r == *self,
    {
        match self {
            StructuredContent::Null => StructuredContent::Null,
            StructuredContent::Json { serialized } => StructuredContent::Json {
                serialized: serialized.clone(),
            },
        }
    }
}

impl Clone for CallToolResult {
    /// A clone keeps the result unchanged.
    fn clone(&self) -> (r: Self)
        ensures
            r == *self,
    {
        CallToolResult {
            content_json: self.content_json.clone(),
            is_error: self.is_error,
            structured_content: match &self.structured_content {
                Some(sc) => Some(sc.clone()),
                None => None,
            },
        }
    }
}

/// Token counts reported by the provider for one model invocation.
#[derive(Clone, Copy, Debug, PartialEq, Eq)]
pub struct TokenUsage {
    pub input_tokens: i64,
    pub cached_input_tokens: i64,
    pub output_tokens: i64,
    pub reasoning_output_tokens: i64,
    pub total_tokens: i64,
}

impl TokenUsage {
    /// The all-zero usage.
    pub fn zero() -> (r: TokenUsage)
        ensures
            r == (TokenUsage {
                input_tokens: 0,
                cached_input_tokens: 0,
                output_tokens: 0,
                reasoning_output_tokens: 0,
                total_tokens: 0,
            }),
    {
        TokenUsage {
            input_tokens: 0,
            cached_input_tokens: 0,
            output_tokens: 0,
            reasoning_output_tokens: 0,
            total_tokens: 0,
        }
    }
}

impl Clone for ContentItem {
    /// A clone keeps the chunk unchanged.
    fn clone(&self) -> (r: Self)
        ensures
            r == *self,
    {
        match self {
            ContentItem::InputText { text } => ContentItem::InputText { text: text.clone() },
            ContentItem::InputImage { image_url } => ContentItem::InputImage {
                image_url: image_url.clone(),
            },
            ContentItem::OutputText { text } => ContentItem::OutputText { text: text.clone() },
        }
    }
}

impl Clone for FunctionCallOutputPayload {
    /// A clone keeps the payload unchanged.
    fn clone(&self) -> (r: Self)
        ensures
            r == *self,
    {
        FunctionCallOutputPayload { content: self.content.clone(), success: self.success }
    }
}

/// Copies a list of content chunks.
pub fn clone_content_vec(v: &Vec<ContentItem>) -> (r: Vec<ContentItem>)
    ensures
        r@ == v@,
{
    let mut r: Vec<ContentItem> = Vec::new();
    let mut i: usize = 0;
    while i < v.len()
        invariant
            i <= v@.len(),
            r@ == v@.take(i as int),
        decreases v@.len() - i,
    {
        r.push(v[i].clone());
        proof {
            assert(v@.take(i + 1 as int) =~= v@.take(i as int).push(v@[i as int]));
        }
        i = i + 1;
    }
    proof {
        assert(v@.take(v@.len() as int) =~= v@);
    }
    r
}

/// Copies a list of strings.
pub fn clone_string_vec(v: &Vec<String>) -> (r: Vec<String>)
    ensures
        r@ == v@,
{
    let mut r: Vec<String> = Vec::new();
    let mut i: usize = 0;
    while i < v.len()
        invariant
            i <= v@.len(),
            r@ == v@.take(i as int),
        decreases v@.len() - i,
    {
        r.push(v[i].clone());
        proof {
            assert(v@.take(i + 1 as int) =~= v@.take(i as int).push(v@[i as int]));
        }
        i = i + 1;
    }
    proof {
        assert(v@.take(v@.len() as int) =~= v@);
    }
    r
}

/// Copies an optional string.
pub fn clone_opt_string(v: &Option<String>) -> (r: Option<String>)
    ensures
        r == *v,
{
    match v {
        Some(s) => Some(s.clone()),
        None => None,
    }
}

impl Clone for ResponseItem {
    /// A clone keeps the item's view unchanged.
    fn clone(&self) -> (r: Self)
        ensures
            r@ == self@,
    {
        match self {
            ResponseItem::Message { id, role, content } => ResponseItem::Message {
                id: clone_opt_string(id),
                role: *role,
                content: clone_content_vec(content),
            },
            ResponseItem::Reasoning { id, summary, content } => ResponseItem::Reasoning {
                id: clone_opt_string(id),
                summary: clone_string_vec(summary),
                content: clone_string_vec(content),
            },
            ResponseItem::WebSearchCall { id, query } => ResponseItem::WebSearchCall {
                id: clone_opt_string(id),
                query: query.clone(),
            },
            ResponseItem::FunctionCall { name, arguments, call_id } => ResponseItem::FunctionCall {
                name: name.clone(),
                arguments: arguments.clone(),
                call_id: call_id.clone(),
            },
            ResponseItem::CustomToolCall { name, input, call_id } => ResponseItem::CustomToolCall {
                name: name.clone(),
                input: input.clone(),
                call_id: call_id.clone(),
            },
            ResponseItem::LocalShellCall { id, call_id, command } => ResponseItem::LocalShellCall {
                id: clone_opt_string(id),
                call_id: clone_opt_string(call_id),
                command: clone_string_vec(command),
            },
            ResponseItem::FunctionCallOutput { call_id, output } => {
                ResponseItem::FunctionCallOutput { call_id: call_id.clone(), output: output.clone() }
            },
            ResponseItem::CustomToolCallOutput { call_id, output } => {
                ResponseItem::CustomToolCallOutput {
                    call_id: call_id.clone(),
                    output: output.clone(),
                }
            },
            ResponseItem::DeveloperInstructions { text } => ResponseItem::DeveloperInstructions {
                text: text.clone(),
            },
            ResponseItem::UserInstructions { text, directory } => ResponseItem::UserInstructions {
                text: text.clone(),
                directory: directory.clone(),
            },
            ResponseItem::EnvironmentContext { cwd } => ResponseItem::EnvironmentContext {
                cwd: cwd.clone(),
            },
            ResponseItem::CompactSummary { text } => ResponseItem::CompactSummary {
                text: text.clone(),
            },
        }
    }
}

/// Copies a list of response items, keeping the sequence of views.
pub fn clone_item_vec(v: &Vec<ResponseItem>) -> (r: Vec<ResponseItem>)
    ensures
        item_seq_view(r@) == item_seq_view(v@),
{
    let mut r: Vec<ResponseItem> = Vec::new();
    let mut i: usize = 0;
    while i < v.len()
        invariant
            i <= v@.len(),
            item_seq_view(r@) == item_seq_view(v@.take(i as int)),
        decreases v@.len() - i,
    {
        r.push(v[i].clone());
        proof {
            assert(item_seq_view(v@.take(i + 1 as int)) =~= item_seq_view(v@.take(i as int)).push(
                v@[i as int]@,
            ));
            assert(item_seq_view(r@) =~= item_seq_view(r@.drop_last()).push(r@.last()@));
        }
        i = i + 1;
    }
    proof {
        assert(v@.take(v@.len() as int) =~= v@);
    }
    r
}

/// Whether an item is shown to the user as it streams: messages,
/// reasoning, and web searches, but never tool calls or outputs.
pub open spec fn spec_is_viewable(item: ItemView) -> bool {
    match item {
        ItemView::Message { .. } => true,
        ItemView::Reasoning { .. } => true,
        ItemView::WebSearchCall { .. } => true,
        _ => false,
    }
}

/// The text of the last output-text chunk of a content list, if any.
pub open spec fn spec_last_output_text(content: Seq<ContentItem>) -> Option<String>
    decreases content.len(),
{
    if content.len() == 0 {
        None
    } else {
        match content.last() {
            ContentItem::OutputText { text } => Some(text),
            _ => spec_last_output_text(content.drop_last()),
        }
    }
}

/// The final assistant text carried by one item: the last output-text
/// chunk of an assistant message, and nothing from any other item.
pub open spec fn spec_last_assistant_text(item: ItemView) -> Option<String> {
    match item {
        ItemView::Message { role: Role::Assistant, content, .. } => spec_last_output_text(content),
        _ => None,
    }
}

/// Extracts the last output-text chunk of an assistant message.
#[verifier::loop_isolation(false)]
pub fn last_assistant_message_from_item(item: &ResponseItem) -> (r: Option<String>)
    ensures
        r == spec_last_assistant_text(item@),
{
    match item {
        ResponseItem::Message { role: Role::Assistant, content, .. } => {
            let mut i: usize = content.len();
            proof {
                assert(content@.take(content@.len() as int) =~= content@);
            }
            while i > 0
                invariant
                    i <= content@.len(),
                    spec_last_output_text(content@) == spec_last_output_text(
                        content@.take(i as int),
                    ),
                decreases i,
            {
                i = i - 1;
                match &content[i] {
                    ContentItem::OutputText { text } => {
                        proof {
                            let s = content@.take(i + 1 as int);
                            assert(s.len() == i + 1);
                            assert(s.last() == content@[i as int]);
                            assert(content@[i as int] == (ContentItem::OutputText {
                                text: *text,
                            }));
                            assert(spec_last_output_text(s) == Some(*text));
                        }
                        return Some(text.clone());
                    },
                    _ => {
                        proof {
                            assert(content@.take(i + 1 as int).drop_last() =~= content@.take(
                                i as int,
                            ));
                        }
                    },
                }
            }
            proof {
                assert(content@.take(0) =~= Seq::<ContentItem>::empty());
            }
            None
        },
        _ => None,
    }
}

/// The final assistant message of a completed turn: the last assistant
/// text found scanning the turn's items from the end.
pub open spec fn spec_last_assistant_in_turn(responses: Seq<ItemView>) -> Option<String>
    decreases responses.len(),
{
    if responses.len() == 0 {
        None
    } else {
        match spec_last_assistant_text(responses.last()) {
            Some(text) => Some(text),
            None => spec_last_assistant_in_turn(responses.drop_last()),
        }
    }
}

/// Finds the last assistant message produced in a turn.
pub fn get_last_assistant_message_from_turn(responses: &Vec<ResponseItem>) -> (r: Option<String>)
    ensures
        r == spec_last_assistant_in_turn(item_seq_view(responses@)),
{
    let mut i: usize = responses.len();
    proof {
        assert(item_seq_view(responses@).take(responses@.len() as int) =~= item_seq_view(
            responses@,
        ));
    }
    while i > 0
        invariant
            i <= responses@.len(),
            spec_last_assistant_in_turn(item_seq_view(responses@)) == spec_last_assistant_in_turn(
                item_seq_view(responses@).take(i as int),
            ),
        decreases i,
    {
        i = i - 1;
        proof {
            assert(item_seq_view(responses@).take(i + 1 as int).last() == responses@[i as int]@);
            assert(item_seq_view(responses@).take(i + 1 as int).drop_last() =~= item_seq_view(
                responses@,
            ).take(i as int));
        }
        let r = last_assistant_message_from_item(&responses[i]);
        if r.is_some() {
            return r;
        }
    }
    proof {
        assert(item_seq_view(responses@).take(0) =~= Seq::<ItemView>::empty());
    }
    None
}

/// What `payload_from_call_tool_result` must return: non-null structured
/// content wins over the serialized content blocks, and the success flag
/// is false exactly when the server flagged an error.
pub open spec fn spec_payload_from_call_tool_result(r: CallToolResult) -> FunctionCallOutputPayload {
    FunctionCallOutputPayload {
        content: match r.structured_content {
            Some(StructuredContent::Json { serialized }) => serialized,
            _ => r.content_json,
        },
        success: Some(r.is_error != Some(true)),
    }
}

impl FunctionCallOutputPayload {
    /// Converts a tool server's result into the payload written back to
    /// the model: non-null structured content wins over the content
    /// blocks; `is_error = true` is the only way success becomes false.
    pub fn from_call_tool_result(r: &CallToolResult) -> (p: FunctionCallOutputPayload)
        ensures
            p == spec_payload_from_call_tool_result(*r),
    {
        let content = match &r.structured_content {
            Some(StructuredContent::Json { serialized }) => serialized.clone(),
            _ => r.content_json.clone(),
        };
        let success = match r.is_error {
            Some(true) => Some(false),
            _ => Some(true),
        };
        FunctionCallOutputPayload { content, success }
    }
}

/// What `response_input_to_response_item` must return: outputs map to
/// their history variants, MCP results go through the payload conversion.
pub open spec fn spec_response_input_to_response_item(input: ResponseInputItem) -> ItemView {
    match input {
        ResponseInputItem::FunctionCallOutput { call_id, output } => ItemView::FunctionCallOutput {
            call_id,
            output,
        },
        ResponseInputItem::CustomToolCallOutput { call_id, output } => {
            ItemView::CustomToolCallOutput { call_id, output }
        },
        ResponseInputItem::McpToolCallOutput { call_id, result } => ItemView::FunctionCallOutput {
            call_id,
            output: match result {
                Ok(r) => spec_payload_from_call_tool_result(r),
                Err(message) => FunctionCallOutputPayload {
                    content: message,
                    success: Some(false),
                },
            },
        },
    }
}

/// Converts a tool output into the history item that records it.
pub fn response_input_to_response_item(input: &ResponseInputItem) -> (r: ResponseItem)
    ensures
        r@ == spec_response_input_to_response_item(*input),
{
    match input {
        ResponseInputItem::FunctionCallOutput { call_id, output } => {
            ResponseItem::FunctionCallOutput { call_id: call_id.clone(), output: output.clone() }
        },
        ResponseInputItem::CustomToolCallOutput { call_id, output } => {
            ResponseItem::CustomToolCallOutput { call_id: call_id.clone(), output: output.clone() }
        },
        ResponseInputItem::McpToolCallOutput { call_id, result } => {
            let output = match result {
                Ok(call_tool_result) => FunctionCallOutputPayload::from_call_tool_result(
                    call_tool_result,
                ),
                Err(err) => FunctionCallOutputPayload {
                    content: err.clone(),
                    success: Some(false),
                },
            };
            ResponseItem::FunctionCallOutput { call_id: call_id.clone(), output }
        },
    }
}

/// What user inputs become when recorded: one user message whose chunks
/// mirror the inputs in order.
pub open spec fn spec_user_input_content(input: Seq<UserInput>) -> Seq<ContentItem> {
    input.map_values(
        |u: UserInput|
            match u {
                UserInput::Text { text } => ContentItem::InputText { text },
                UserInput::Image { image_url } => ContentItem::InputImage { image_url },
            },
    )
}

/// Builds the user message item that records one submission.
pub fn user_input_to_message(input: &Vec<UserInput>) -> (r: ResponseItem)
    ensures
        r@ == (ItemView::Message {
            id: None,
            role: Role::User,
            content: spec_user_input_content(input@),
        }),
{
    let mut content: Vec<ContentItem> = Vec::new();
    let mut i: usize = 0;
    while i < input.len()
        invariant
            i <= input@.len(),
            content@ == spec_user_input_content(input@.take(i as int)),
        decreases input@.len() - i,
    {
        let chunk = match &input[i] {
            UserInput::Text { text } => ContentItem::InputText { text: text.clone() },
            UserInput::Image { image_url } => ContentItem::InputImage {
                image_url: image_url.clone(),
            },
        };
        content.push(chunk);
        proof {
            assert(input@.take(i + 1 as int).drop_last() =~= input@.take(i as int));
            assert(spec_user_input_content(input@.take(i + 1 as int)) =~= spec_user_input_content(
                input@.take(i as int),
            ).push(content@.last()));
        }
        i = i + 1;
    }
    proof {
        assert(input@.take(input@.len() as int) =~= input@);
    }
    ResponseItem::Message { id: None, role: Role::User, content }
}

} // verus!
