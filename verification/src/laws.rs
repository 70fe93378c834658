//! What holds of the session engine and of the tools as a whole, proved from
//! the specifications of the single functions.

use vstd::prelude::*;
use crate::config::ConfigView;
use crate::json::JsonValue;
use crate::paths::path_within;
use crate::protocol::{
    failure, not_initialized, response_text, success, RequestView, ResponseView, NOT_INITIALIZED,
    PARSE_ERROR, REQUEST_FAILED,
};
use crate::resources::{
    listed_resources, resolved_path, resource_name, ResourceContentView, ResourceErrorView,
    ResourceView,
};
use crate::probe::DirEntryView;
use crate::server::{
    document_step, line_step, message_step, needs_handshake, read_response, request_step,
    resources_list, resources_response, tool_descriptors, tool_response, tools_list, StepView,
};
use crate::tools::{directory_set, with_directory};
use crate::wire::json_text;

verus! {

/// The identifier that a step answers to: that of the response it sends, or
/// that under which its task waits.
pub open spec fn step_identifier(step: StepView) -> Option<JsonValue> {
    match step {
        StepView::Silent(_) => None,
        StepView::Reply(response) => Some(response.id),
        StepView::Perform(id, _) => Some(id),
    }
}

/// Every request is answered under its own identifier, the same value of the
/// same JSON type, whether it is served, refused or handed on as a task; a
/// message that is refused for its version tag is answered under its
/// identifier too.
pub proof fn law_identifier_is_echoed(initialized: bool, message: RequestView)
    requires
        message.id is Some,
    ensures
        step_identifier(message_step(initialized, message).1) == message.id,
{
}

/// The response that closes a task carries the identifier under which the
/// task waited, whatever the task's outcome.
pub proof fn law_completion_keeps_identifier(
    id: JsonValue,
    uri: Seq<char>,
    tool: Result<JsonValue, Seq<char>>,
    listed: Result<Seq<ResourceView>, ResourceErrorView>,
    content: Result<ResourceContentView, ResourceErrorView>,
)
    ensures
        tool_response(id, tool).id == id,
        resources_response(id, listed).id == id,
        read_response(id, uri, content).id == id,
{
}

/// On the wire the identifier stands right behind the version tag, written
/// as the JSON text of the very value that the response carries.
pub proof fn law_line_carries_identifier(response: ResponseView)
    requires
        response_text(response) is Ok,
    ensures
        json_text(response.id) is Ok,
        ("{\"jsonrpc\":\"2.0\",\"id\":"@ + json_text(response.id)->Ok_0).is_prefix_of(
            response_text(response)->Ok_0,
        ),
{
    let head = "{\"jsonrpc\":\"2.0\",\"id\":"@ + json_text(response.id)->Ok_0;
    let line = response_text(response)->Ok_0;
    assert(line.subrange(0, head.len() as int) =~= head);
}

/// A notification is never answered, and leaves the session as it was.
pub proof fn law_notification_is_silent(initialized: bool, message: RequestView)
    requires
        message.jsonrpc == "2.0"@,
        message.id is None,
    ensures
        message_step(initialized, message).1 is Silent,
        message_step(initialized, message).0 == initialized,
{
}

/// Before the handshake, the methods that list or call tools and list or read
/// resources are answered at once with the error for a session that is not
/// initialized: no task is handed out, so nothing outside the session is
/// touched, and the session stays as it was.
pub proof fn law_handshake_comes_first(id: JsonValue, method: Seq<char>, params: Option<JsonValue>)
    requires
        needs_handshake(method),
    ensures
        request_step(false, id, method, params) == (false, StepView::Reply(not_initialized(id))),
        not_initialized(id).outcome is Err,
        not_initialized(id).outcome->Err_0.code == NOT_INITIALIZED as int,
{
    reveal_strlit("initialize");
    reveal_strlit("tools/list");
    reveal_strlit("tools/call");
    reveal_strlit("resources/list");
    reveal_strlit("resources/read");
    assert("initialize"@[0] == 'i');
    assert("tools/list"@[0] == 't');
    assert("tools/call"@[0] == 't');
    assert("initialize"@.len() == 10);
    assert("resources/list"@.len() == 14);
    assert("resources/read"@.len() == 14);
}

/// Before the handshake no line at all leads to a task: whatever comes in,
/// nothing outside the session is touched.
pub proof fn law_no_task_before_handshake(line: Seq<char>)
    ensures
        !(line_step(false, line).1 is Perform),
{
}

/// A handshake on a session whose handshake is made is refused, and the
/// session stays initialized: whatever the first handshake settled stands.
pub proof fn law_second_handshake_is_refused(
    first_id: JsonValue,
    first_params: Option<JsonValue>,
    second_id: JsonValue,
    second_params: Option<JsonValue>,
)
    requires
        request_step(false, first_id, "initialize"@, first_params).0,
    ensures
        request_step(
            request_step(false, first_id, "initialize"@, first_params).0,
            second_id,
            "initialize"@,
            second_params,
        ) == (
            true,
            StepView::Reply(
                failure(second_id, REQUEST_FAILED as int, "Already initialized"@, None),
            ),
        ),
{
}

/// The session is initialized by a handshake that succeeds and by nothing
/// else, and once initialized it stays so.
pub proof fn law_session_is_monotonic(initialized: bool, line: Seq<char>)
    ensures
        initialized ==> line_step(initialized, line).0,
        !initialized && line_step(initialized, line).0 ==> {
            &&& line_step(initialized, line).1 is Reply
            &&& line_step(initialized, line).1->Reply_0.outcome is Ok
        },
{
}

/// The name under which a tool is described.
pub open spec fn descriptor_name(descriptor: JsonValue) -> JsonValue {
    descriptor->Object_0["name"@]
}

/// After the handshake the list of tools is always the same: the four tools,
/// in their fixed order, whatever the request's parameters.
pub proof fn law_tools_are_fixed(id: JsonValue, params: Option<JsonValue>)
    ensures
        request_step(true, id, "tools/list"@, params) == (
            true,
            StepView::Reply(success(id, tools_list())),
        ),
        tool_descriptors().len() == 4,
        descriptor_name(tool_descriptors()[0]) == JsonValue::Text("set_document_directory"@),
        descriptor_name(tool_descriptors()[1]) == JsonValue::Text("list_document_directories"@),
        descriptor_name(tool_descriptors()[2]) == JsonValue::Text("extract_text_from_file"@),
        descriptor_name(tool_descriptors()[3]) == JsonValue::Text("list_files_in_directory"@),
{
    reveal_strlit("initialize");
    reveal_strlit("tools/list");
    assert("initialize"@[0] == 'i');
    assert("tools/list"@[0] == 't');
    reveal_strlit("name");
    reveal_strlit("description");
    reveal_strlit("inputSchema");
    assert("name"@.len() == 4);
    assert("description"@.len() == 11);
    assert("inputSchema"@.len() == 11);
}

/// A resource whose file lies outside the active directory, once both paths
/// are in canonical form, is refused for that reason: the URI resolves to no
/// path, so no file is handed to an extractor.
pub proof fn law_traversal_is_rejected(
    uri: Seq<char>,
    loaded: Result<ConfigView, Seq<char>>,
    file: Seq<char>,
    root: Seq<char>,
)
    requires
        resource_name(uri) is Ok,
        loaded is Ok,
        loaded->Ok_0.active_directory is Some,
        !path_within(file, root),
    ensures
        resolved_path(uri, loaded, true, Some(file), Some(root)) == Err::<
            Seq<char>,
            ResourceErrorView,
        >(ResourceErrorView::TraversalRejected(resource_name(uri)->Ok_0)),
{
}

/// The path that a URI resolves to lies within the active directory, both in
/// canonical form.
pub proof fn law_resolved_path_is_confined(
    uri: Seq<char>,
    loaded: Result<ConfigView, Seq<char>>,
    exists: bool,
    file: Option<Seq<char>>,
    root: Option<Seq<char>>,
)
    requires
        resolved_path(uri, loaded, exists, file, root) is Ok,
    ensures
        exists,
        file is Some,
        root is Some,
        resolved_path(uri, loaded, exists, file, root)->Ok_0 == file->Some_0,
        path_within(file->Some_0, root->Some_0),
{
}

/// With no active directory, listing the resources is no error: the list
/// that goes out is empty.
pub proof fn law_no_directory_lists_nothing(
    id: JsonValue,
    config: ConfigView,
    exists: bool,
    entries: Option<Seq<Option<DirEntryView>>>,
)
    requires
        config.active_directory is None,
    ensures
        resources_response(id, listed_resources(Ok(config), exists, entries)) == success(
            id,
            resources_list(Seq::empty()),
        ),
{
}

/// Making a directory the active one twice, under the same canonical path,
/// leaves the configuration as the first time left it, with that path among
/// the known directories exactly once.
pub proof fn law_set_directory_is_idempotent(
    config: ConfigView,
    first: Seq<char>,
    second: Seq<char>,
    canonical: Seq<char>,
)
    requires
        config.well_formed(),
    ensures
        ({
            let once = directory_set(first, true, true, true, Some(canonical), Ok(config))->Ok_0.1;
            let twice = directory_set(second, true, true, true, Some(canonical), Ok(once))->Ok_0.1;
            &&& twice == once
            &&& once.well_formed()
            &&& once.directories.contains(canonical)
            &&& forall|i: int, j: int|
                0 <= i < once.directories.len() && 0 <= j < once.directories.len()
                    && once.directories[i] == canonical && once.directories[j] == canonical ==> i
                    == j
        }),
{
    let once = with_directory(config.directories, canonical);
    if !config.directories.contains(canonical) {
        assert(once[once.len() - 1] == canonical);
        assert forall|i: int, j: int|
            0 <= i < once.len() && 0 <= j < once.len() && i != j implies once[i] != once[j] by {
            if i < config.directories.len() && j < config.directories.len() {
                assert(config.directories[i] != config.directories[j]);
            } else if i < config.directories.len() {
                assert(config.directories.contains(config.directories[i]));
            } else {
                assert(config.directories.contains(config.directories[j]));
            }
        }
    }
}

/// After a directory has been made the active one, the configuration names
/// its canonical path as the active directory.
pub proof fn law_set_directory_is_read_back(
    config: ConfigView,
    directory: Seq<char>,
    canonical: Seq<char>,
)
    ensures
        directory_set(directory, true, true, true, Some(canonical), Ok(config)) is Ok,
        directory_set(directory, true, true, true, Some(canonical), Ok(config))->Ok_0.0
            == canonical,
        directory_set(
            directory,
            true,
            true,
            true,
            Some(canonical),
            Ok(config),
        )->Ok_0.1.active_directory == Some(canonical),
{
}

/// A line that is no JSON, or spells no message, is answered with a parse
/// error under the identifier `null`, and leaves the session as it was.
pub proof fn law_malformed_line_is_a_parse_error(initialized: bool, diagnostic: Seq<char>)
    ensures
        document_step(initialized, Err(diagnostic)) == (
            initialized,
            StepView::Reply(
                failure(
                    JsonValue::Null,
                    PARSE_ERROR as int,
                    "Parse error"@,
                    Some(JsonValue::Text(diagnostic)),
                ),
            ),
        ),
{
}

} // verus!
