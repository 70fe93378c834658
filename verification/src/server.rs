//! The session engine: what a line of input leads to, given whether the
//! handshake has been made.

use vstd::prelude::*;
use crate::json::{json_view, text_member, text_view, Json, JsonValue};
use crate::protocol::{
    decode_request, failure, not_initialized, request_failed, request_of, success,
    Request, RequestView, Response, ResponseView, INVALID_REQUEST, METHOD_NOT_FOUND, PARSE_ERROR,
    REQUEST_FAILED,
};
use crate::text::{concat2, concat3, text_eq, trim, trimmed};
use crate::resources::{
    content_view, listed_view, resources_view, Resource, ResourceContent, ResourceContentView,
    ResourceError, ResourceErrorView, ResourceView,
};
use crate::tools::{
    json_text_or_null, text_or_null, ExtractTextFromFileParams, ExtractTextFromFileResult,
    ListDocumentDirectoriesResult, ListFilesInDirectoryParams, ListFilesInDirectoryResult,
    SetDocumentDirectoryParams, SetDocumentDirectoryResult, ToolError,
};
use crate::wire::{json_text, parsed_json, parsed_view};

verus! {

/// The name under which the server presents itself.
pub const SERVER_NAME: &'static str = "docu-mcp";

/// The version under which the server presents itself.
pub const SERVER_VERSION: &'static str = "0.1.0";

/// A call of one of the four tools, with its arguments read.
#[derive(Debug, PartialEq)]
pub enum ToolCall {
    SetDocumentDirectory(SetDocumentDirectoryParams),
    ListDocumentDirectories,
    ExtractTextFromFile(ExtractTextFromFileParams),
    ListFilesInDirectory(ListFilesInDirectoryParams),
}

/// What a [`ToolCall`] holds, as mathematical values.
pub enum ToolCallView {
    SetDocumentDirectory(Seq<char>),
    ListDocumentDirectories,
    ExtractTextFromFile(Seq<char>),
    ListFilesInDirectory(Option<Seq<char>>),
}

impl View for ToolCall {
    type V = ToolCallView;

    open spec fn view(&self) -> ToolCallView {
        match self {
            ToolCall::SetDocumentDirectory(params) => ToolCallView::SetDocumentDirectory(
                params.directory@,
            ),
            ToolCall::ListDocumentDirectories => ToolCallView::ListDocumentDirectories,
            ToolCall::ExtractTextFromFile(params) => ToolCallView::ExtractTextFromFile(
                params.file_path@,
            ),
            ToolCall::ListFilesInDirectory(params) => ToolCallView::ListFilesInDirectory(
                text_view(params.directory),
            ),
        }
    }
}

/// Work that needs the file system, and so is left to the caller.
#[derive(Debug, PartialEq)]
pub enum Task {
    /// Run a tool.
    Tool(ToolCall),
    /// List the documents of the active directory.
    ListResources,
    /// Read the document behind a resource URI.
    ReadResource(String),
}

/// What a [`Task`] holds, as mathematical values.
pub enum TaskView {
    Tool(ToolCallView),
    ListResources,
    ReadResource(Seq<char>),
}

impl View for Task {
    type V = TaskView;

    open spec fn view(&self) -> TaskView {
        match self {
            Task::Tool(call) => TaskView::Tool(call@),
            Task::ListResources => TaskView::ListResources,
            Task::ReadResource(uri) => TaskView::ReadResource(uri@),
        }
    }
}

/// A request whose answer waits for the outcome of a task.
#[derive(Debug, PartialEq)]
pub struct Pending {
    pub id: Json,
    pub task: Task,
}

/// What is to be done about a line that came in.
#[derive(Debug, PartialEq)]
pub enum Step {
    /// Nothing goes onto the wire. A diagnostic, where there is one, is for
    /// the log.
    Silent(Option<String>),
    /// This response goes onto the wire.
    Reply(Response),
    /// The task is to be carried out; its outcome makes the response.
    Perform(Pending),
}

/// What a [`Step`] holds, as mathematical values.
pub enum StepView {
    Silent(Option<Seq<char>>),
    Reply(ResponseView),
    Perform(JsonValue, TaskView),
}

impl View for Step {
    type V = StepView;

    open spec fn view(&self) -> StepView {
        match self {
            Step::Silent(diagnostic) => StepView::Silent(text_view(*diagnostic)),
            Step::Reply(response) => StepView::Reply(response@),
            Step::Perform(pending) => StepView::Perform(pending.id@, pending.task@),
        }
    }
}

/// Whether the handshake accepts a protocol version.
pub open spec fn supported_version(version: Seq<char>) -> bool {
    version == "2024-11-05"@ || version == "2025-06-18"@ || version == "2025-11-25"@
}

/// Whether the handshake accepts a protocol version.
pub fn is_supported_version(version: &str) -> (supported: bool)
    ensures
        supported == supported_version(version@),
{
    text_eq(version, "2024-11-05") || text_eq(version, "2025-06-18") || text_eq(
        version,
        "2025-11-25",
    )
}

/// What the server says it can do.
pub open spec fn capabilities() -> JsonValue {
    JsonValue::Object(
        Map::empty().insert(
            "tools"@,
            JsonValue::Object(Map::empty().insert("listChanged"@, JsonValue::Bool(true))),
        ).insert(
            "resources"@,
            JsonValue::Object(
                Map::empty().insert("subscribe"@, JsonValue::Bool(true)).insert(
                    "listChanged"@,
                    JsonValue::Bool(true),
                ),
            ),
        ),
    )
}

/// Who the server says it is.
pub open spec fn server_info() -> JsonValue {
    JsonValue::Object(
        Map::empty().insert("name"@, JsonValue::Text("docu-mcp"@)).insert(
            "version"@,
            JsonValue::Text("0.1.0"@),
        ),
    )
}

/// The result of a handshake on the given protocol version.
pub open spec fn initialize_result(version: Seq<char>) -> JsonValue {
    JsonValue::Object(
        Map::empty().insert("protocolVersion"@, JsonValue::Text(version)).insert(
            "capabilities"@,
            capabilities(),
        ).insert("serverInfo"@, server_info()),
    )
}

/// The result of a handshake on the given protocol version.
pub fn initialize_result_json(version: &str) -> (json: Json)
    ensures
        json@ == initialize_result(version@),
{
    let tools = Json::object().with("listChanged", Json::Bool(true));
    let resources = Json::object().with("subscribe", Json::Bool(true)).with(
        "listChanged",
        Json::Bool(true),
    );
    let capabilities = Json::object().with("tools", tools).with("resources", resources);
    let server_info = Json::object().with("name", Json::text(SERVER_NAME)).with(
        "version",
        Json::text(SERVER_VERSION),
    );
    Json::object().with("protocolVersion", Json::text(version)).with(
        "capabilities",
        capabilities,
    ).with("serverInfo", server_info)
}

/// The schema of an argument that is a string.
pub open spec fn text_property(description: Seq<char>) -> JsonValue {
    JsonValue::Object(
        Map::empty().insert("type"@, JsonValue::Text("string"@)).insert(
            "description"@,
            JsonValue::Text(description),
        ),
    )
}

/// The description of a tool: its name, what it does, and the schema of its
/// arguments.
pub open spec fn tool_descriptor(name: Seq<char>, description: Seq<char>, schema: JsonValue) -> JsonValue {
    JsonValue::Object(
        Map::empty().insert("name"@, JsonValue::Text(name)).insert(
            "description"@,
            JsonValue::Text(description),
        ).insert("inputSchema"@, schema),
    )
}

/// The schema of the arguments of `set_document_directory`.
pub open spec fn set_document_directory_schema() -> JsonValue {
    JsonValue::Object(
        Map::empty().insert("type"@, JsonValue::Text("object"@)).insert(
            "properties"@,
            JsonValue::Object(
                Map::empty().insert("directory"@, text_property("Path to directory"@)),
            ),
        ).insert(
            "required"@,
            JsonValue::Array(Seq::empty().push(JsonValue::Text("directory"@))),
        ),
    )
}

/// The schema of the arguments of `list_document_directories`.
pub open spec fn list_document_directories_schema() -> JsonValue {
    JsonValue::Object(
        Map::empty().insert("type"@, JsonValue::Text("object"@)).insert(
            "properties"@,
            JsonValue::Object(Map::empty()),
        ),
    )
}

/// The schema of the arguments of `extract_text_from_file`.
pub open spec fn extract_text_from_file_schema() -> JsonValue {
    JsonValue::Object(
        Map::empty().insert("type"@, JsonValue::Text("object"@)).insert(
            "properties"@,
            JsonValue::Object(
                Map::empty().insert(
                    "file_path"@,
                    text_property("Path to the file to extract text from"@),
                ),
            ),
        ).insert(
            "required"@,
            JsonValue::Array(Seq::empty().push(JsonValue::Text("file_path"@))),
        ),
    )
}

/// The schema of the arguments of `list_files_in_directory`.
pub open spec fn list_files_in_directory_schema() -> JsonValue {
    JsonValue::Object(
        Map::empty().insert("type"@, JsonValue::Text("object"@)).insert(
            "properties"@,
            JsonValue::Object(
                Map::empty().insert(
                    "directory"@,
                    text_property(
                        "Optional directory path. If not provided, uses the active directory."@,
                    ),
                ),
            ),
        ).insert("required"@, JsonValue::Array(Seq::empty())),
    )
}

/// The descriptions of the four tools, in their fixed order.
pub open spec fn tool_descriptors() -> Seq<JsonValue> {
    Seq::empty().push(
        tool_descriptor(
            "set_document_directory"@,
            "Set the active document directory. Validates directory exists and is readable, adds to directories list if not present, sets as active_directory, and saves config."@,
            set_document_directory_schema(),
        ),
    ).push(
        tool_descriptor(
            "list_document_directories"@,
            "List all document directories and the active directory."@,
            list_document_directories_schema(),
        ),
    ).push(
        tool_descriptor(
            "extract_text_from_file"@,
            "Extract text from a document file using the appropriate extractor."@,
            extract_text_from_file_schema(),
        ),
    ).push(
        tool_descriptor(
            "list_files_in_directory"@,
            "List all files and subdirectories in a directory. If no directory is provided, uses the active directory."@,
            list_files_in_directory_schema(),
        ),
    )
}

/// The result of `tools/list`.
pub open spec fn tools_list() -> JsonValue {
    JsonValue::Object(Map::empty().insert("tools"@, JsonValue::Array(tool_descriptors())))
}

fn text_property_json(description: &str) -> (json: Json)
    ensures
        json@ == text_property(description@),
{
    Json::object().with("type", Json::text("string")).with("description", Json::text(description))
}

fn tool_descriptor_json(name: &str, description: &str, schema: Json) -> (json: Json)
    ensures
        json@ == tool_descriptor(name@, description@, schema@),
{
    Json::object().with("name", Json::text(name)).with("description", Json::text(description)).with(
        "inputSchema",
        schema,
    )
}

/// The result of `tools/list`: the four tools, in their fixed order.
pub fn tools_list_json() -> (json: Json)
    ensures
        json@ == tools_list(),
{
    let first = tool_descriptor_json(
        "set_document_directory",
        "Set the active document directory. Validates directory exists and is readable, adds to directories list if not present, sets as active_directory, and saves config.",
        Json::object().with("type", Json::text("object")).with(
            "properties",
            Json::object().with("directory", text_property_json("Path to directory")),
        ).with("required", Json::array().appended(Json::text("directory"))),
    );
    let second = tool_descriptor_json(
        "list_document_directories",
        "List all document directories and the active directory.",
        Json::object().with("type", Json::text("object")).with("properties", Json::object()),
    );
    let third = tool_descriptor_json(
        "extract_text_from_file",
        "Extract text from a document file using the appropriate extractor.",
        Json::object().with("type", Json::text("object")).with(
            "properties",
            Json::object().with(
                "file_path",
                text_property_json("Path to the file to extract text from"),
            ),
        ).with("required", Json::array().appended(Json::text("file_path"))),
    );
    let fourth = tool_descriptor_json(
        "list_files_in_directory",
        "List all files and subdirectories in a directory. If no directory is provided, uses the active directory.",
        Json::object().with("type", Json::text("object")).with(
            "properties",
            Json::object().with(
                "directory",
                text_property_json(
                    "Optional directory path. If not provided, uses the active directory.",
                ),
            ),
        ).with("required", Json::array()),
    );
    let tools = Json::array().appended(first).appended(second).appended(third).appended(fourth);
    Json::object().with("tools", tools)
}

/// The state of one client's session.
#[derive(Debug, PartialEq)]
pub struct Session {
    /// Whether the handshake has been made.
    pub initialized: bool,
}

/// The diagnostic that a notification leaves in the log: the one that closes
/// the handshake is out of order before the handshake.
pub open spec fn notification_diagnostic(initialized: bool, method: Seq<char>) -> Option<Seq<char>> {
    if (method == "initialized"@ || method == "notifications/initialized"@) && !initialized {
        Some("Received initialized notification before initialize request"@)
    } else {
        None
    }
}

/// The arguments of a tool call: what stands under `arguments`, or the empty
/// object where nothing does.
pub open spec fn call_arguments(params: JsonValue) -> JsonValue {
    match params {
        JsonValue::Object(map) => if map.contains_key("arguments"@) {
            map["arguments"@]
        } else {
            JsonValue::Object(Map::empty())
        },
        _ => JsonValue::Object(Map::empty()),
    }
}

/// The step that a handshake takes, with the state that it leaves.
pub open spec fn initialize_step(initialized: bool, id: JsonValue, params: Option<JsonValue>) -> (
    bool,
    StepView,
) {
    if initialized {
        (true, StepView::Reply(failure(id, REQUEST_FAILED as int, "Already initialized"@, None)))
    } else {
        let version = match params {
            Some(params) => text_member(params, "protocolVersion"@),
            None => None,
        };
        match version {
            None => (
                false,
                StepView::Reply(request_failed(id, "Failed to parse initialize params"@)),
            ),
            Some(version) => if supported_version(version) {
                (true, StepView::Reply(success(id, initialize_result(version))))
            } else {
                (
                    false,
                    StepView::Reply(
                        failure(
                            id,
                            REQUEST_FAILED as int,
                            "Unsupported protocol version: "@ + version
                                + ". Supported versions: 2024-11-05, 2025-06-18, 2025-11-25"@,
                            None,
                        ),
                    ),
                )
            },
        }
    }
}

/// The step that a tool call takes once the handshake is made.
pub open spec fn tool_call_step(id: JsonValue, params: Option<JsonValue>) -> StepView {
    match params {
        None => StepView::Reply(request_failed(id, "Missing params for tools/call"@)),
        Some(params) => match text_member(params, "name"@) {
            None => StepView::Reply(request_failed(id, "Missing tool name"@)),
            Some(name) => {
                let arguments = call_arguments(params);
                if name == "set_document_directory"@ {
                    match SetDocumentDirectoryParams::decoded(arguments) {
                        Some(directory) => StepView::Perform(
                            id,
                            TaskView::Tool(ToolCallView::SetDocumentDirectory(directory)),
                        ),
                        None => StepView::Reply(
                            request_failed(id, "Failed to parse set_document_directory params"@),
                        ),
                    }
                } else if name == "list_document_directories"@ {
                    StepView::Perform(id, TaskView::Tool(ToolCallView::ListDocumentDirectories))
                } else if name == "extract_text_from_file"@ {
                    match ExtractTextFromFileParams::decoded(arguments) {
                        Some(file_path) => StepView::Perform(
                            id,
                            TaskView::Tool(ToolCallView::ExtractTextFromFile(file_path)),
                        ),
                        None => StepView::Reply(
                            request_failed(id, "Failed to parse extract_text_from_file params"@),
                        ),
                    }
                } else if name == "list_files_in_directory"@ {
                    match ListFilesInDirectoryParams::decoded(arguments) {
                        Some(directory) => StepView::Perform(
                            id,
                            TaskView::Tool(ToolCallView::ListFilesInDirectory(directory)),
                        ),
                        None => StepView::Reply(
                            request_failed(id, "Failed to parse list_files_in_directory params"@),
                        ),
                    }
                } else {
                    StepView::Reply(
                        failure(id, METHOD_NOT_FOUND as int, "Unknown tool: "@ + name, None),
                    )
                }
            },
        },
    }
}

/// The step that reading a resource takes once the handshake is made.
pub open spec fn resource_read_step(id: JsonValue, params: Option<JsonValue>) -> StepView {
    match params {
        None => StepView::Reply(request_failed(id, "Missing params for resources/read"@)),
        Some(params) => match text_member(params, "uri"@) {
            None => StepView::Reply(request_failed(id, "Missing URI"@)),
            Some(uri) => StepView::Perform(id, TaskView::ReadResource(uri)),
        },
    }
}

/// Whether a method is served only after the handshake.
pub open spec fn needs_handshake(method: Seq<char>) -> bool {
    method == "tools/list"@ || method == "tools/call"@ || method == "resources/list"@ || method
        == "resources/read"@
}

/// The step that a request takes, with the state that it leaves.
pub open spec fn request_step(
    initialized: bool,
    id: JsonValue,
    method: Seq<char>,
    params: Option<JsonValue>,
) -> (bool, StepView) {
    if method == "initialize"@ {
        initialize_step(initialized, id, params)
    } else if needs_handshake(method) {
        if !initialized {
            (initialized, StepView::Reply(not_initialized(id)))
        } else if method == "tools/list"@ {
            (initialized, StepView::Reply(success(id, tools_list())))
        } else if method == "tools/call"@ {
            (initialized, tool_call_step(id, params))
        } else if method == "resources/list"@ {
            (initialized, StepView::Perform(id, TaskView::ListResources))
        } else {
            (initialized, resource_read_step(id, params))
        }
    } else {
        (
            initialized,
            StepView::Reply(failure(id, METHOD_NOT_FOUND as int, "Unknown method: "@ + method, None)),
        )
    }
}

/// The identifier that a response echoes: the message's own, or `null` for
/// a message without one.
pub open spec fn echoed_id(id: Option<JsonValue>) -> JsonValue {
    match id {
        Some(id) => id,
        None => JsonValue::Null,
    }
}

/// The step that a message takes, with the state that it leaves. A message
/// with another version tag is refused, whether or not it asks for an
/// answer; one without an identifier is a notification and gets no answer.
pub open spec fn message_step(initialized: bool, message: RequestView) -> (bool, StepView) {
    if message.jsonrpc != "2.0"@ {
        (
            initialized,
            StepView::Reply(
                failure(
                    echoed_id(message.id),
                    INVALID_REQUEST as int,
                    "Invalid JSON-RPC version: "@ + message.jsonrpc + ". Expected 2.0"@,
                    None,
                ),
            ),
        )
    } else {
        match message.id {
            None => (
                initialized,
                StepView::Silent(notification_diagnostic(initialized, message.method)),
            ),
            Some(id) => request_step(initialized, id, message.method, message.params),
        }
    }
}

/// The response to a line that spells no message.
pub open spec fn parse_failure(diagnostic: Seq<char>) -> ResponseView {
    failure(
        JsonValue::Null,
        PARSE_ERROR as int,
        "Parse error"@,
        Some(JsonValue::Text(diagnostic)),
    )
}

/// The step that a line takes once it has been read as JSON, with the state
/// that it leaves.
pub open spec fn document_step(initialized: bool, parsed: Result<JsonValue, Seq<char>>) -> (
    bool,
    StepView,
) {
    match parsed {
        Err(diagnostic) => (initialized, StepView::Reply(parse_failure(diagnostic))),
        Ok(document) => match request_of(document) {
            Err(diagnostic) => (initialized, StepView::Reply(parse_failure(diagnostic))),
            Ok(message) => message_step(initialized, message),
        },
    }
}

/// The step that a line takes, with the state that it leaves: a line of
/// white space is passed over, any other is read as JSON.
pub open spec fn line_step(initialized: bool, line: Seq<char>) -> (bool, StepView) {
    if trimmed(line).len() == 0 {
        (initialized, StepView::Silent(None))
    } else {
        document_step(initialized, parsed_json(trimmed(line)))
    }
}

impl Session {
    /// A session before its handshake.
    pub fn new() -> (session: Session)
        ensures
            !session.initialized,
    {
        Session { initialized: false }
    }

    /// Whether the handshake has been made.
    pub fn is_initialized(&self) -> (initialized: bool)
        ensures
            initialized == self.initialized,
    {
        self.initialized
    }

    /// Takes a notification. Nothing is answered; the result is the complaint
    /// for the log, where the notification is out of order.
    pub fn handle_notification(&self, method: &str) -> (outcome: Result<(), String>)
        ensures
            match outcome {
                Ok(_) => notification_diagnostic(self.initialized, method@).is_none(),
                Err(diagnostic) => notification_diagnostic(self.initialized, method@) == Some(
                    diagnostic@,
                ),
            },
    {
        if (text_eq(method, "initialized") || text_eq(method, "notifications/initialized"))
            && !self.initialized {
            Err("Received initialized notification before initialize request".to_owned())
        } else {
            Ok(())
        }
    }

    fn handle_initialize(&mut self, id: Json, params: &Option<Json>) -> (step: Step)
        ensures
            (final(self).initialized, step@) == initialize_step(
                old(self).initialized,
                id@,
                json_view(*params),
            ),
    {
        if self.initialized {
            return Step::Reply(
                Response::failure(id, REQUEST_FAILED, "Already initialized".to_owned(), None),
            );
        }
        let version = match params {
            Some(params) => params.text_member("protocolVersion"),
            None => None,
        };
        match version {
            None => Step::Reply(Response::request_failed(id, "Failed to parse initialize params")),
            Some(version) => {
                if is_supported_version(version.as_str()) {
                    self.initialized = true;
                    Step::Reply(Response::success(id, initialize_result_json(version.as_str())))
                } else {
                    let message = concat3(
                        "Unsupported protocol version: ",
                        version.as_str(),
                        ". Supported versions: 2024-11-05, 2025-06-18, 2025-11-25",
                    );
                    Step::Reply(Response::failure(id, REQUEST_FAILED, message, None))
                }
            },
        }
    }

    /// Takes a request and says what is to be done about it. The handshake is
    /// the only request that changes the session.
    pub fn handle_request(&mut self, id: Json, method: &str, params: &Option<Json>) -> (step: Step)
        ensures
            (final(self).initialized, step@) == request_step(
                old(self).initialized,
                id@,
                method@,
                json_view(*params),
            ),
    {
        if text_eq(method, "initialize") {
            return self.handle_initialize(id, params);
        }
        let tools_list = text_eq(method, "tools/list");
        let tools_call = text_eq(method, "tools/call");
        let resources_list = text_eq(method, "resources/list");
        let resources_read = text_eq(method, "resources/read");
        if !(tools_list || tools_call || resources_list || resources_read) {
            return Step::Reply(
                Response::failure(id, METHOD_NOT_FOUND, concat2("Unknown method: ", method), None),
            );
        }
        if !self.initialized {
            return Step::Reply(Response::not_initialized(id));
        }
        if tools_list {
            Step::Reply(Response::success(id, tools_list_json()))
        } else if tools_call {
            handle_tool_call(id, params)
        } else if resources_list {
            Step::Perform(Pending { id, task: Task::ListResources })
        } else {
            handle_resource_read(id, params)
        }
    }

    /// Takes a message: refuses another protocol version, passes over a
    /// notification, serves a request.
    pub fn handle_message(&mut self, message: Request) -> (step: Step)
        ensures
            (final(self).initialized, step@) == message_step(old(self).initialized, message@),
    {
        if !text_eq(message.jsonrpc.as_str(), "2.0") {
            let id = match message.id {
                Some(id) => id,
                None => Json::Null,
            };
            let text = concat3("Invalid JSON-RPC version: ", message.jsonrpc.as_str(), ". Expected 2.0");
            return Step::Reply(Response::failure(id, INVALID_REQUEST, text, None));
        }
        match message.id {
            None => match self.handle_notification(message.method.as_str()) {
                Ok(_) => Step::Silent(None),
                Err(diagnostic) => Step::Silent(Some(diagnostic)),
            },
            Some(id) => self.handle_request(id, message.method.as_str(), &message.params),
        }
    }

    /// Takes what reading a line as JSON gave: the document, or the parser's
    /// complaint.
    pub fn handle_document(&mut self, parsed: Result<Json, String>) -> (step: Step)
        ensures
            (final(self).initialized, step@) == document_step(
                old(self).initialized,
                parsed_view(parsed),
            ),
    {
        match parsed {
            Err(diagnostic) => Step::Reply(parse_failure_response(diagnostic.as_str())),
            Ok(document) => match decode_request(&document) {
                Err(diagnostic) => Step::Reply(parse_failure_response(diagnostic.as_str())),
                Ok(message) => self.handle_message(message),
            },
        }
    }

    /// Takes one line of input and says what is to be done about it.
    pub fn handle_line(&mut self, line: &str) -> (step: Step)
        ensures
            (final(self).initialized, step@) == line_step(old(self).initialized, line@),
    {
        let inner = trim(line);
        if inner.unicode_len() == 0 {
            return Step::Silent(None);
        }
        let parsed = Json::parse(inner);
        self.handle_document(parsed)
    }
}

/// The response to a line that spells no message.
pub fn parse_failure_response(diagnostic: &str) -> (response: Response)
    ensures
        response@ == parse_failure(diagnostic@),
{
    Response::failure(Json::Null, PARSE_ERROR, "Parse error".to_owned(), Some(Json::text(diagnostic)))
}

fn call_arguments_json(params: &Json) -> (arguments: Json)
    ensures
        arguments@ == call_arguments(params@),
{
    match params.member("arguments") {
        Some(arguments) => arguments.clone(),
        None => Json::object(),
    }
}

fn handle_tool_call(id: Json, params: &Option<Json>) -> (step: Step)
    ensures
        step@ == tool_call_step(id@, json_view(*params)),
{
    let params = match params {
        None => {
            return Step::Reply(Response::request_failed(id, "Missing params for tools/call"));
        },
        Some(params) => params,
    };
    let name = match params.text_member("name") {
        None => {
            return Step::Reply(Response::request_failed(id, "Missing tool name"));
        },
        Some(name) => name,
    };
    let arguments = call_arguments_json(params);
    if text_eq(name.as_str(), "set_document_directory") {
        match SetDocumentDirectoryParams::from_json(&arguments) {
            Some(params) => Step::Perform(
                Pending { id, task: Task::Tool(ToolCall::SetDocumentDirectory(params)) },
            ),
            None => Step::Reply(
                Response::request_failed(id, "Failed to parse set_document_directory params"),
            ),
        }
    } else if text_eq(name.as_str(), "list_document_directories") {
        Step::Perform(Pending { id, task: Task::Tool(ToolCall::ListDocumentDirectories) })
    } else if text_eq(name.as_str(), "extract_text_from_file") {
        match ExtractTextFromFileParams::from_json(&arguments) {
            Some(params) => Step::Perform(
                Pending { id, task: Task::Tool(ToolCall::ExtractTextFromFile(params)) },
            ),
            None => Step::Reply(
                Response::request_failed(id, "Failed to parse extract_text_from_file params"),
            ),
        }
    } else if text_eq(name.as_str(), "list_files_in_directory") {
        match ListFilesInDirectoryParams::from_json(&arguments) {
            Some(params) => Step::Perform(
                Pending { id, task: Task::Tool(ToolCall::ListFilesInDirectory(params)) },
            ),
            None => Step::Reply(
                Response::request_failed(id, "Failed to parse list_files_in_directory params"),
            ),
        }
    } else {
        Step::Reply(
            Response::failure(id, METHOD_NOT_FOUND, concat2("Unknown tool: ", name.as_str()), None),
        )
    }
}

fn handle_resource_read(id: Json, params: &Option<Json>) -> (step: Step)
    ensures
        step@ == resource_read_step(id@, json_view(*params)),
{
    let params = match params {
        None => {
            return Step::Reply(Response::request_failed(id, "Missing params for resources/read"));
        },
        Some(params) => params,
    };
    match params.text_member("uri") {
        None => Step::Reply(Response::request_failed(id, "Missing URI")),
        Some(uri) => Step::Perform(Pending { id, task: Task::ReadResource(uri) }),
    }
}

/// What a tool answered.
#[derive(Debug, PartialEq)]
pub enum ToolOutput {
    DirectorySet(SetDocumentDirectoryResult),
    Directories(ListDocumentDirectoriesResult),
    Text(ExtractTextFromFileResult),
    Files(ListFilesInDirectoryResult),
}

impl ToolOutput {
    /// The answer as a document.
    pub open spec fn document(self) -> JsonValue {
        match self {
            ToolOutput::DirectorySet(result) => result.document(),
            ToolOutput::Directories(result) => result.document(),
            ToolOutput::Text(result) => result.document(),
            ToolOutput::Files(result) => result.document(),
        }
    }

    /// The answer as a document.
    pub fn to_json(&self) -> (json: Json)
        ensures
            json@ == self.document(),
    {
        match self {
            ToolOutput::DirectorySet(result) => result.to_json(),
            ToolOutput::Directories(result) => result.to_json(),
            ToolOutput::Text(result) => result.to_json(),
            ToolOutput::Files(result) => result.to_json(),
        }
    }
}

/// The result of a tool call: one block of text.
pub open spec fn content_block(text: Seq<char>) -> JsonValue {
    JsonValue::Object(
        Map::empty().insert(
            "content"@,
            JsonValue::Array(
                Seq::empty().push(
                    JsonValue::Object(
                        Map::empty().insert("type"@, JsonValue::Text("text"@)).insert(
                            "text"@,
                            JsonValue::Text(text),
                        ),
                    ),
                ),
            ),
        ),
    )
}

/// The view of what a tool gave: its answer as a document, or its error in
/// words.
pub open spec fn tool_outcome_view(outcome: Result<ToolOutput, ToolError>) -> Result<
    JsonValue,
    Seq<char>,
> {
    match outcome {
        Ok(output) => Ok(output.document()),
        Err(error) => Err(error@.message_text()),
    }
}

/// The response to a tool call, given what the tool gave: the answer goes
/// out as the text of its document; a failure of the tool, or of writing the
/// document, fails the request and no more.
pub open spec fn tool_response(id: JsonValue, outcome: Result<JsonValue, Seq<char>>) -> ResponseView {
    match outcome {
        Err(reason) => request_failed(id, reason),
        Ok(document) => match json_text(document) {
            Err(reason) => request_failed(id, reason),
            Ok(text) => success(id, content_block(text)),
        },
    }
}

/// Makes the response to a tool call out of what the tool gave.
pub fn complete_tool_call(id: Json, outcome: Result<ToolOutput, ToolError>) -> (response: Response)
    ensures
        response@ == tool_response(id@, tool_outcome_view(outcome)),
{
    match outcome {
        Err(error) => Response::request_failed(id, error.message().as_str()),
        Ok(output) => match output.to_json().render() {
            Err(reason) => Response::request_failed(id, reason.as_str()),
            Ok(text) => {
                let block = Json::object().with("type", Json::text("text")).with(
                    "text",
                    Json::text(text.as_str()),
                );
                let result = Json::object().with("content", Json::array().appended(block));
                Response::success(id, result)
            },
        },
    }
}

/// A resource as a document.
pub open spec fn resource_document(resource: ResourceView) -> JsonValue {
    JsonValue::Object(
        Map::empty().insert("uri"@, JsonValue::Text(resource.uri)).insert(
            "name"@,
            JsonValue::Text(resource.name),
        ).insert("description"@, text_or_null(resource.description)).insert(
            "mime_type"@,
            text_or_null(resource.mime_type),
        ),
    )
}

/// The documents of the given resources, in their order.
pub open spec fn resource_documents(resources: Seq<ResourceView>) -> Seq<JsonValue> {
    resources.map_values(|resource: ResourceView| resource_document(resource))
}

/// The result of `resources/list` for the given resources.
pub open spec fn resources_list(resources: Seq<ResourceView>) -> JsonValue {
    JsonValue::Object(
        Map::empty().insert("resources"@, JsonValue::Array(resource_documents(resources))),
    )
}

/// The response to `resources/list`, given what listing gave. That no
/// directory is active is no failure: the list is then empty.
pub open spec fn resources_response(
    id: JsonValue,
    listed: Result<Seq<ResourceView>, ResourceErrorView>,
) -> ResponseView {
    match listed {
        Ok(resources) => success(id, resources_list(resources)),
        Err(ResourceErrorView::NoActiveDirectory) => success(id, resources_list(Seq::empty())),
        Err(error) => failure(
            id,
            REQUEST_FAILED as int,
            "Failed to list resources: "@ + error.message_text(),
            Some(JsonValue::Text(error.message_text())),
        ),
    }
}

fn resource_json(resource: &Resource) -> (json: Json)
    ensures
        json@ == resource_document(resource@),
{
    Json::object().with("uri", Json::text(resource.uri.as_str())).with(
        "name",
        Json::text(resource.name.as_str()),
    ).with("description", json_text_or_null(&resource.description)).with(
        "mime_type",
        json_text_or_null(&resource.mime_type),
    )
}

fn resources_list_json(resources: &Vec<Resource>) -> (json: Json)
    ensures
        json@ == resources_list(resources_view(resources@)),
{
    let ghost viewed = resources_view(resources@);
    let mut array = Json::array();
    let mut i: usize = 0;
    proof {
        assert(resource_documents(viewed.take(0)) =~= Seq::empty());
    }
    while i < resources.len()
        invariant
            i <= resources.len(),
            viewed == resources_view(resources@),
            array@ == JsonValue::Array(resource_documents(viewed.take(i as int))),
        decreases resources.len() - i,
    {
        array = array.appended(resource_json(&resources[i]));
        proof {
            assert(resource_documents(viewed.take(i as int + 1)) =~= resource_documents(
                viewed.take(i as int),
            ).push(resource_document(resources@[i as int]@)));
        }
        i = i + 1;
    }
    proof {
        assert(viewed.take(i as int) =~= viewed);
    }
    Json::object().with("resources", array)
}

/// Makes the response to `resources/list` out of what listing gave.
pub fn complete_resources_list(id: Json, listed: Result<Vec<Resource>, ResourceError>) -> (response:
    Response)
    ensures
        response@ == resources_response(id@, listed_view(listed)),
{
    match listed {
        Ok(resources) => Response::success(id, resources_list_json(&resources)),
        Err(ResourceError::NoActiveDirectory) => {
            let empty: Vec<Resource> = Vec::new();
            proof {
                assert(resources_view(empty@) =~= Seq::empty());
            }
            Response::success(id, resources_list_json(&empty))
        },
        Err(error) => {
            let reason = error.message();
            Response::failure(
                id,
                REQUEST_FAILED,
                concat2("Failed to list resources: ", reason.as_str()),
                Some(Json::text(reason.as_str())),
            )
        },
    }
}

/// The result of `resources/read` for the given content.
pub open spec fn contents_document(content: ResourceContentView) -> JsonValue {
    JsonValue::Object(
        Map::empty().insert(
            "contents"@,
            JsonValue::Array(
                Seq::empty().push(
                    JsonValue::Object(
                        Map::empty().insert("uri"@, JsonValue::Text(content.uri)).insert(
                            "mimeType"@,
                            text_or_null(content.mime_type),
                        ).insert("text"@, JsonValue::Text(content.text)),
                    ),
                ),
            ),
        ),
    )
}

/// The response to `resources/read`, given what reading gave. A failure goes
/// out with its cause in the message, and with the URI and the cause in the
/// data.
pub open spec fn read_response(
    id: JsonValue,
    uri: Seq<char>,
    content: Result<ResourceContentView, ResourceErrorView>,
) -> ResponseView {
    match content {
        Ok(content) => success(id, contents_document(content)),
        Err(error) => failure(
            id,
            REQUEST_FAILED as int,
            "Failed to read resource: "@ + error.message_text(),
            Some(JsonValue::Text(uri + ": "@ + error.message_text())),
        ),
    }
}

/// Makes the response to `resources/read` out of what reading gave.
pub fn complete_resource_read(
    id: Json,
    uri: &str,
    content: Result<ResourceContent, ResourceError>,
) -> (response: Response)
    ensures
        response@ == read_response(id@, uri@, content_view(content)),
{
    match content {
        Ok(content) => {
            let entry = Json::object().with("uri", Json::text(content.uri.as_str())).with(
                "mimeType",
                json_text_or_null(&content.mime_type),
            ).with("text", Json::text(content.text.as_str()));
            Response::success(id, Json::object().with("contents", Json::array().appended(entry)))
        },
        Err(error) => {
            let reason = error.message();
            let data = concat3(uri, ": ", reason.as_str());
            Response::failure(
                id,
                REQUEST_FAILED,
                concat2("Failed to read resource: ", reason.as_str()),
                Some(Json::text(data.as_str())),
            )
        },
    }
}

} // verus!
