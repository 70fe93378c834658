use docu_mcp::json::Json;
use docu_mcp::protocol::{ErrorObject, Response};
use docu_mcp::resources::{Resource, ResourceContent, ResourceError};
use docu_mcp::server::{
    complete_resource_read, complete_resources_list, complete_tool_call, initialize_result_json,
    is_supported_version, parse_failure_response, tools_list_json, Pending, Session, Step, Task,
    ToolCall, ToolOutput, SERVER_NAME, SERVER_VERSION,
};
use docu_mcp::tools::{
    ExtractTextFromFileParams, ExtractTextFromFileResult, FileInfo, ListDocumentDirectoriesResult,
    ListFilesInDirectoryParams, ListFilesInDirectoryResult, SetDocumentDirectoryParams,
    SetDocumentDirectoryResult, ToolError,
};
use serde_json::Value;

fn number(n: u64) -> Json {
    Json::Number(serde_json::Number::from(n))
}

fn ready() -> Session {
    let mut session = Session::new();
    let step = session.handle_line(
        "{\"jsonrpc\":\"2.0\",\"id\":0,\"method\":\"initialize\",\"params\":{\"protocolVersion\":\"2025-06-18\"}}",
    );
    assert!(matches!(step, Step::Reply(Response { outcome: Ok(_), .. })));
    assert!(session.is_initialized());
    session
}

fn reply(step: Step) -> Response {
    match step {
        Step::Reply(response) => response,
        other => panic!("expected a reply, got {:?}", other),
    }
}

fn wire(response: &Response) -> Value {
    serde_json::from_str(&response.to_line().unwrap()).unwrap()
}

fn error_of(response: Response) -> ErrorObject {
    match response.outcome {
        Err(error) => error,
        Ok(result) => panic!("expected an error, got {:?}", result),
    }
}

#[test]
fn handshake_then_notification_then_tools() {
    let mut session = Session::new();
    assert!(!session.is_initialized());
    let first = reply(session.handle_line(
        "{\"jsonrpc\":\"2.0\",\"id\":1,\"method\":\"initialize\",\"params\":{\"protocolVersion\":\"2024-11-05\"}}",
    ));
    assert_eq!(
        first.to_line().unwrap(),
        "{\"jsonrpc\":\"2.0\",\"id\":1,\"result\":{\"capabilities\":{\"resources\":{\"listChanged\":true,\"subscribe\":true},\"tools\":{\"listChanged\":true}},\"protocolVersion\":\"2024-11-05\",\"serverInfo\":{\"name\":\"docu-mcp\",\"version\":\"0.1.0\"}}}"
    );
    let value = wire(&first);
    assert_eq!(value["result"]["protocolVersion"], Value::String("2024-11-05".to_string()));
    assert!(value["result"]["serverInfo"]["name"].is_string());
    assert!(session.is_initialized());

    let second = session.handle_line("{\"jsonrpc\":\"2.0\",\"method\":\"initialized\"}");
    assert_eq!(second, Step::Silent(None));

    let third = reply(session.handle_line("{\"jsonrpc\":\"2.0\",\"id\":2,\"method\":\"tools/list\"}"));
    let value = wire(&third);
    assert_eq!(value["id"], Value::from(2));
    let tools = value["result"]["tools"].as_array().unwrap();
    assert_eq!(tools.len(), 4);
    assert_eq!(tools[0]["name"], Value::String("set_document_directory".to_string()));
    assert_eq!(tools[1]["name"], Value::String("list_document_directories".to_string()));
    assert_eq!(tools[2]["name"], Value::String("extract_text_from_file".to_string()));
    assert_eq!(tools[3]["name"], Value::String("list_files_in_directory".to_string()));
}

#[test]
fn identifier_keeps_its_type() {
    let mut session = ready();
    let numeric = reply(session.handle_line("{\"jsonrpc\":\"2.0\",\"id\":7,\"method\":\"tools/list\"}"));
    assert_eq!(numeric.id, number(7));
    assert!(wire(&numeric)["id"].is_u64());
    assert!(numeric.to_line().unwrap().starts_with("{\"jsonrpc\":\"2.0\",\"id\":7,"));

    let text = reply(session.handle_line("{\"jsonrpc\":\"2.0\",\"id\":\"7\",\"method\":\"tools/list\"}"));
    assert_eq!(text.id, Json::text("7"));
    assert!(wire(&text)["id"].is_string());
    assert!(text.to_line().unwrap().starts_with("{\"jsonrpc\":\"2.0\",\"id\":\"7\","));

    let null = reply(session.handle_line("{\"jsonrpc\":\"2.0\",\"id\":null,\"method\":\"tools/list\"}"));
    assert_eq!(null.id, Json::Null);
    assert!(wire(&null)["id"].is_null());

    let real = reply(session.handle_line("{\"jsonrpc\":\"2.0\",\"id\":1.5,\"method\":\"nothing\"}"));
    assert!(real.to_line().unwrap().starts_with("{\"jsonrpc\":\"2.0\",\"id\":1.5,"));
}

#[test]
fn identifier_is_kept_on_a_task() {
    let mut session = ready();
    let step = session.handle_line("{\"jsonrpc\":\"2.0\",\"id\":\"r-1\",\"method\":\"resources/list\"}");
    assert_eq!(step, Step::Perform(Pending { id: Json::text("r-1"), task: Task::ListResources }));
}

#[test]
fn methods_wait_for_the_handshake() {
    let lines = [
        "{\"jsonrpc\":\"2.0\",\"id\":5,\"method\":\"tools/list\"}",
        "{\"jsonrpc\":\"2.0\",\"id\":5,\"method\":\"tools/call\",\"params\":{\"name\":\"list_document_directories\"}}",
        "{\"jsonrpc\":\"2.0\",\"id\":5,\"method\":\"resources/list\"}",
        "{\"jsonrpc\":\"2.0\",\"id\":5,\"method\":\"resources/read\",\"params\":{\"uri\":\"pdf://a.pdf\"}}",
    ];
    for line in lines {
        let mut session = Session::new();
        let response = reply(session.handle_line(line));
        assert_eq!(response, Response::not_initialized(number(5)));
        assert_eq!(
            response.to_line().unwrap(),
            "{\"jsonrpc\":\"2.0\",\"id\":5,\"error\":{\"code\":-32002,\"message\":\"Not initialized\"}}"
        );
        assert!(!session.is_initialized());
    }
}

#[test]
fn second_handshake_is_refused() {
    let mut session = ready();
    let again = reply(session.handle_line(
        "{\"jsonrpc\":\"2.0\",\"id\":9,\"method\":\"initialize\",\"params\":{\"protocolVersion\":\"2024-11-05\"}}",
    ));
    assert_eq!(
        again,
        Response::failure(number(9), -32000, "Already initialized".to_string(), None)
    );
    assert!(session.is_initialized());
    let listed = reply(session.handle_line("{\"jsonrpc\":\"2.0\",\"id\":10,\"method\":\"tools/list\"}"));
    assert!(listed.outcome.is_ok());
}

#[test]
fn handshake_wants_a_known_protocol_version() {
    let mut session = Session::new();
    let refused = reply(session.handle_line(
        "{\"jsonrpc\":\"2.0\",\"id\":1,\"method\":\"initialize\",\"params\":{\"protocolVersion\":\"1999-01-01\"}}",
    ));
    assert_eq!(
        refused,
        Response::failure(
            number(1),
            -32000,
            "Unsupported protocol version: 1999-01-01. Supported versions: 2024-11-05, 2025-06-18, 2025-11-25"
                .to_string(),
            None
        )
    );
    assert!(!session.is_initialized());
    assert!(is_supported_version("2024-11-05"));
    assert!(is_supported_version("2025-06-18"));
    assert!(is_supported_version("2025-11-25"));
    assert!(!is_supported_version("2025-11-26"));
}

#[test]
fn handshake_wants_its_params() {
    let lines = [
        "{\"jsonrpc\":\"2.0\",\"id\":1,\"method\":\"initialize\"}",
        "{\"jsonrpc\":\"2.0\",\"id\":1,\"method\":\"initialize\",\"params\":{}}",
        "{\"jsonrpc\":\"2.0\",\"id\":1,\"method\":\"initialize\",\"params\":{\"protocolVersion\":3}}",
        "{\"jsonrpc\":\"2.0\",\"id\":1,\"method\":\"initialize\",\"params\":null}",
    ];
    for line in lines {
        let mut session = Session::new();
        let refused = reply(session.handle_line(line));
        assert_eq!(
            refused,
            Response::request_failed(number(1), "Failed to parse initialize params")
        );
        assert!(!session.is_initialized());
    }
}

#[test]
fn handshake_result_names_the_server() {
    let result = initialize_result_json("2025-11-25");
    assert_eq!(
        result.render().unwrap(),
        "{\"capabilities\":{\"resources\":{\"listChanged\":true,\"subscribe\":true},\"tools\":{\"listChanged\":true}},\"protocolVersion\":\"2025-11-25\",\"serverInfo\":{\"name\":\"docu-mcp\",\"version\":\"0.1.0\"}}"
    );
    assert_eq!(SERVER_NAME, "docu-mcp");
    assert_eq!(SERVER_VERSION, "0.1.0");
}

#[test]
fn malformed_line_is_a_parse_error() {
    let mut session = Session::new();
    let response = reply(session.handle_line("not json"));
    assert_eq!(response.id, Json::Null);
    let value = wire(&response);
    assert!(value["id"].is_null());
    assert_eq!(value["error"]["code"], Value::from(-32700));
    assert_eq!(value["error"]["message"], Value::String("Parse error".to_string()));
    assert!(value["error"]["data"].is_string());
    let expected = serde_json::from_str::<Value>("not json").unwrap_err().to_string();
    assert_eq!(response, parse_failure_response(&expected));
    assert!(!session.is_initialized());
}

#[test]
fn json_that_is_no_message_is_a_parse_error() {
    let mut session = ready();
    let response = reply(session.handle_line("{\"id\":1,\"method\":\"tools/list\"}"));
    assert_eq!(response, parse_failure_response("missing field `jsonrpc`"));
    let response = reply(session.handle_line("[]"));
    assert_eq!(response, parse_failure_response("invalid type: expected a message object"));
    assert!(session.is_initialized());
}

#[test]
fn parsed_document_may_be_handed_in() {
    let mut session = Session::new();
    let response = reply(session.handle_document(Err("broken".to_string())));
    assert_eq!(
        response,
        Response::failure(Json::Null, -32700, "Parse error".to_string(), Some(Json::text("broken")))
    );
    let document = Json::object()
        .with("jsonrpc", Json::text("2.0"))
        .with("id", number(4))
        .with("method", Json::text("ping"));
    let response = reply(session.handle_document(Ok(document)));
    assert_eq!(
        response,
        Response::failure(number(4), -32601, "Unknown method: ping".to_string(), None)
    );
}

#[test]
fn blank_line_is_passed_over() {
    let mut session = Session::new();
    assert_eq!(session.handle_line(""), Step::Silent(None));
    assert_eq!(session.handle_line("   "), Step::Silent(None));
    assert_eq!(session.handle_line(" \t\r\n"), Step::Silent(None));
}

#[test]
fn line_is_trimmed_before_it_is_read() {
    let mut session = ready();
    let response =
        reply(session.handle_line("  {\"jsonrpc\":\"2.0\",\"id\":1,\"method\":\"tools/list\"}\r\n"));
    assert!(response.outcome.is_ok());
}

#[test]
fn other_version_tag_is_refused() {
    let mut session = ready();
    let response = reply(session.handle_line("{\"jsonrpc\":\"1.0\",\"id\":3,\"method\":\"tools/list\"}"));
    assert_eq!(
        response,
        Response::failure(
            number(3),
            -32600,
            "Invalid JSON-RPC version: 1.0. Expected 2.0".to_string(),
            None
        )
    );
    let response = reply(session.handle_line("{\"jsonrpc\":\"1.0\",\"method\":\"initialized\"}"));
    assert_eq!(
        response,
        Response::failure(
            Json::Null,
            -32600,
            "Invalid JSON-RPC version: 1.0. Expected 2.0".to_string(),
            None
        )
    );
}

#[test]
fn unknown_method_is_not_found() {
    let mut session = Session::new();
    let response = reply(session.handle_line("{\"jsonrpc\":\"2.0\",\"id\":1,\"method\":\"prompts/list\"}"));
    assert_eq!(
        response,
        Response::failure(number(1), -32601, "Unknown method: prompts/list".to_string(), None)
    );
    let mut session = ready();
    let response = reply(session.handle_line("{\"jsonrpc\":\"2.0\",\"id\":1,\"method\":\"initialized\"}"));
    assert_eq!(error_of(response).code, -32601);
}

#[test]
fn notifications_are_never_answered() {
    let mut session = Session::new();
    assert_eq!(
        session.handle_line("{\"jsonrpc\":\"2.0\",\"method\":\"initialized\"}"),
        Step::Silent(Some("Received initialized notification before initialize request".to_string()))
    );
    assert_eq!(
        session.handle_line("{\"jsonrpc\":\"2.0\",\"method\":\"notifications/initialized\"}"),
        Step::Silent(Some("Received initialized notification before initialize request".to_string()))
    );
    assert_eq!(
        session.handle_line("{\"jsonrpc\":\"2.0\",\"method\":\"notifications/cancelled\"}"),
        Step::Silent(None)
    );
    assert_eq!(
        session.handle_line("{\"jsonrpc\":\"2.0\",\"method\":\"initialize\",\"params\":{\"protocolVersion\":\"2024-11-05\"}}"),
        Step::Silent(None)
    );
    assert_eq!(session.handle_line("{\"jsonrpc\":\"2.0\",\"method\":\"tools/list\"}"), Step::Silent(None));
    assert!(!session.is_initialized());

    let mut session = ready();
    assert_eq!(
        session.handle_line("{\"jsonrpc\":\"2.0\",\"method\":\"notifications/initialized\"}"),
        Step::Silent(None)
    );
    assert_eq!(session.handle_notification("initialized"), Ok(()));
    assert_eq!(session.handle_notification("anything"), Ok(()));
    assert_eq!(
        Session::new().handle_notification("initialized"),
        Err("Received initialized notification before initialize request".to_string())
    );
}

#[test]
fn tools_list_is_fixed() {
    let expected = "{\"tools\":[{\"description\":\"Set the active document directory. Validates directory exists and is readable, adds to directories list if not present, sets as active_directory, and saves config.\",\"inputSchema\":{\"properties\":{\"directory\":{\"description\":\"Path to directory\",\"type\":\"string\"}},\"required\":[\"directory\"],\"type\":\"object\"},\"name\":\"set_document_directory\"},{\"description\":\"List all document directories and the active directory.\",\"inputSchema\":{\"properties\":{},\"type\":\"object\"},\"name\":\"list_document_directories\"},{\"description\":\"Extract text from a document file using the appropriate extractor.\",\"inputSchema\":{\"properties\":{\"file_path\":{\"description\":\"Path to the file to extract text from\",\"type\":\"string\"}},\"required\":[\"file_path\"],\"type\":\"object\"},\"name\":\"extract_text_from_file\"},{\"description\":\"List all files and subdirectories in a directory. If no directory is provided, uses the active directory.\",\"inputSchema\":{\"properties\":{\"directory\":{\"description\":\"Optional directory path. If not provided, uses the active directory.\",\"type\":\"string\"}},\"required\":[],\"type\":\"object\"},\"name\":\"list_files_in_directory\"}]}";
    assert_eq!(tools_list_json().render().unwrap(), expected);
    assert_eq!(tools_list_json(), tools_list_json());
}

#[test]
fn tool_calls_become_tasks() {
    let mut session = ready();
    let step = session.handle_line(
        "{\"jsonrpc\":\"2.0\",\"id\":1,\"method\":\"tools/call\",\"params\":{\"name\":\"set_document_directory\",\"arguments\":{\"directory\":\"/tmp/docs\"}}}",
    );
    assert_eq!(
        step,
        Step::Perform(Pending {
            id: number(1),
            task: Task::Tool(ToolCall::SetDocumentDirectory(SetDocumentDirectoryParams {
                directory: "/tmp/docs".to_string()
            })),
        })
    );
    let step = session.handle_line(
        "{\"jsonrpc\":\"2.0\",\"id\":2,\"method\":\"tools/call\",\"params\":{\"name\":\"list_document_directories\"}}",
    );
    assert_eq!(
        step,
        Step::Perform(Pending { id: number(2), task: Task::Tool(ToolCall::ListDocumentDirectories) })
    );
    let step = session.handle_line(
        "{\"jsonrpc\":\"2.0\",\"id\":3,\"method\":\"tools/call\",\"params\":{\"name\":\"extract_text_from_file\",\"arguments\":{\"file_path\":\"/a/b.pdf\"}}}",
    );
    assert_eq!(
        step,
        Step::Perform(Pending {
            id: number(3),
            task: Task::Tool(ToolCall::ExtractTextFromFile(ExtractTextFromFileParams {
                file_path: "/a/b.pdf".to_string()
            })),
        })
    );
    let step = session.handle_line(
        "{\"jsonrpc\":\"2.0\",\"id\":4,\"method\":\"tools/call\",\"params\":{\"name\":\"list_files_in_directory\",\"arguments\":{\"directory\":\"/a\"}}}",
    );
    assert_eq!(
        step,
        Step::Perform(Pending {
            id: number(4),
            task: Task::Tool(ToolCall::ListFilesInDirectory(ListFilesInDirectoryParams {
                directory: Some("/a".to_string())
            })),
        })
    );
    let step = session.handle_line(
        "{\"jsonrpc\":\"2.0\",\"id\":5,\"method\":\"tools/call\",\"params\":{\"name\":\"list_files_in_directory\"}}",
    );
    assert_eq!(
        step,
        Step::Perform(Pending {
            id: number(5),
            task: Task::Tool(ToolCall::ListFilesInDirectory(ListFilesInDirectoryParams {
                directory: None
            })),
        })
    );
    assert!(session.is_initialized());
}

#[test]
fn tool_calls_want_their_arguments() {
    let mut session = ready();
    let cases = [
        ("{\"jsonrpc\":\"2.0\",\"id\":1,\"method\":\"tools/call\"}", "Missing params for tools/call"),
        ("{\"jsonrpc\":\"2.0\",\"id\":1,\"method\":\"tools/call\",\"params\":{}}", "Missing tool name"),
        ("{\"jsonrpc\":\"2.0\",\"id\":1,\"method\":\"tools/call\",\"params\":{\"name\":7}}", "Missing tool name"),
        ("{\"jsonrpc\":\"2.0\",\"id\":1,\"method\":\"tools/call\",\"params\":[\"name\"]}", "Missing tool name"),
        (
            "{\"jsonrpc\":\"2.0\",\"id\":1,\"method\":\"tools/call\",\"params\":{\"name\":\"set_document_directory\"}}",
            "Failed to parse set_document_directory params",
        ),
        (
            "{\"jsonrpc\":\"2.0\",\"id\":1,\"method\":\"tools/call\",\"params\":{\"name\":\"set_document_directory\",\"arguments\":{\"directory\":null}}}",
            "Failed to parse set_document_directory params",
        ),
        (
            "{\"jsonrpc\":\"2.0\",\"id\":1,\"method\":\"tools/call\",\"params\":{\"name\":\"extract_text_from_file\",\"arguments\":{\"file\":\"x\"}}}",
            "Failed to parse extract_text_from_file params",
        ),
        (
            "{\"jsonrpc\":\"2.0\",\"id\":1,\"method\":\"tools/call\",\"params\":{\"name\":\"list_files_in_directory\",\"arguments\":{\"directory\":5}}}",
            "Failed to parse list_files_in_directory params",
        ),
        (
            "{\"jsonrpc\":\"2.0\",\"id\":1,\"method\":\"tools/call\",\"params\":{\"name\":\"list_files_in_directory\",\"arguments\":null}}",
            "Failed to parse list_files_in_directory params",
        ),
    ];
    for (line, cause) in cases {
        let response = reply(session.handle_line(line));
        assert_eq!(response, Response::request_failed(number(1), cause));
    }
}

#[test]
fn unknown_tool_is_not_found() {
    let mut session = ready();
    let response = reply(session.handle_line(
        "{\"jsonrpc\":\"2.0\",\"id\":1,\"method\":\"tools/call\",\"params\":{\"name\":\"delete_everything\",\"arguments\":{}}}",
    ));
    assert_eq!(
        response,
        Response::failure(number(1), -32601, "Unknown tool: delete_everything".to_string(), None)
    );
}

#[test]
fn resource_read_becomes_a_task() {
    let mut session = ready();
    let step = session.handle_line(
        "{\"jsonrpc\":\"2.0\",\"id\":1,\"method\":\"resources/read\",\"params\":{\"uri\":\"pdf://a.pdf\"}}",
    );
    assert_eq!(
        step,
        Step::Perform(Pending { id: number(1), task: Task::ReadResource("pdf://a.pdf".to_string()) })
    );
    let response = reply(session.handle_line("{\"jsonrpc\":\"2.0\",\"id\":1,\"method\":\"resources/read\"}"));
    assert_eq!(response, Response::request_failed(number(1), "Missing params for resources/read"));
    let response = reply(
        session.handle_line("{\"jsonrpc\":\"2.0\",\"id\":1,\"method\":\"resources/read\",\"params\":{\"uri\":1}}"),
    );
    assert_eq!(response, Response::request_failed(number(1), "Missing URI"));
}

#[test]
fn tool_answer_goes_out_as_one_block_of_text() {
    let output = ToolOutput::DirectorySet(SetDocumentDirectoryResult {
        message: "Directory set as active: /tmp/docs".to_string(),
        active_directory: "/tmp/docs".to_string(),
    });
    let response = complete_tool_call(number(1), Ok(output));
    assert_eq!(
        response.to_line().unwrap(),
        "{\"jsonrpc\":\"2.0\",\"id\":1,\"result\":{\"content\":[{\"text\":\"{\\\"active_directory\\\":\\\"/tmp/docs\\\",\\\"message\\\":\\\"Directory set as active: /tmp/docs\\\"}\",\"type\":\"text\"}]}}"
    );
}

#[test]
fn every_tool_answer_has_its_document() {
    let directories = ToolOutput::Directories(ListDocumentDirectoriesResult {
        directories: vec!["/a".to_string(), "/b".to_string()],
        active_directory: None,
    });
    assert_eq!(
        directories.to_json().render().unwrap(),
        "{\"active_directory\":null,\"directories\":[\"/a\",\"/b\"]}"
    );
    let text = ToolOutput::Text(ExtractTextFromFileResult { text: "hello".to_string() });
    assert_eq!(text.to_json().render().unwrap(), "{\"text\":\"hello\"}");
    let files = ToolOutput::Files(ListFilesInDirectoryResult {
        directory: "/a".to_string(),
        files: vec![
            FileInfo {
                name: "x.pdf".to_string(),
                path: "/a/x.pdf".to_string(),
                is_file: true,
                extension: Some("pdf".to_string()),
            },
            FileInfo { name: "sub".to_string(), path: "/a/sub".to_string(), is_file: false, extension: None },
        ],
    });
    assert_eq!(
        files.to_json().render().unwrap(),
        "{\"directory\":\"/a\",\"files\":[{\"extension\":\"pdf\",\"is_file\":true,\"name\":\"x.pdf\",\"path\":\"/a/x.pdf\"},{\"extension\":null,\"is_file\":false,\"name\":\"sub\",\"path\":\"/a/sub\"}]}"
    );
}

#[test]
fn tool_failure_fails_the_request() {
    let response = complete_tool_call(
        Json::text("t"),
        Err(ToolError::DirectoryNotFound("/nowhere".to_string())),
    );
    assert_eq!(
        response,
        Response::failure(
            Json::text("t"),
            -32000,
            "Request failed: Directory does not exist: /nowhere".to_string(),
            Some(Json::text("Directory does not exist: /nowhere")),
        )
    );
}

#[test]
fn no_active_directory_lists_no_resources() {
    let response = complete_resources_list(number(1), Err(ResourceError::NoActiveDirectory));
    assert_eq!(response.to_line().unwrap(), "{\"jsonrpc\":\"2.0\",\"id\":1,\"result\":{\"resources\":[]}}");
    assert!(response.outcome.is_ok());
}

#[test]
fn resources_go_out_in_their_order() {
    let resources = vec![
        Resource {
            uri: "pdf://b.pdf".to_string(),
            name: "b.pdf".to_string(),
            description: Some("Document: b.pdf".to_string()),
            mime_type: Some("application/pdf".to_string()),
        },
        Resource { uri: "pdf://a.pdf".to_string(), name: "a.pdf".to_string(), description: None, mime_type: None },
    ];
    let response = complete_resources_list(number(2), Ok(resources));
    assert_eq!(
        response.to_line().unwrap(),
        "{\"jsonrpc\":\"2.0\",\"id\":2,\"result\":{\"resources\":[{\"description\":\"Document: b.pdf\",\"mime_type\":\"application/pdf\",\"name\":\"b.pdf\",\"uri\":\"pdf://b.pdf\"},{\"description\":null,\"mime_type\":null,\"name\":\"a.pdf\",\"uri\":\"pdf://a.pdf\"}]}}"
    );
}

#[test]
fn listing_failure_is_a_request_failure() {
    let response =
        complete_resources_list(number(1), Err(ResourceError::DirectoryMissing("/gone".to_string())));
    assert_eq!(
        response,
        Response::failure(
            number(1),
            -32000,
            "Failed to list resources: Active directory does not exist: /gone".to_string(),
            Some(Json::text("Active directory does not exist: /gone")),
        )
    );
}

#[test]
fn resource_content_goes_out_with_its_type() {
    let content = ResourceContent {
        uri: "pdf://a.pdf".to_string(),
        text: "hello".to_string(),
        mime_type: Some("application/pdf".to_string()),
    };
    let response = complete_resource_read(number(1), "pdf://a.pdf", Ok(content));
    assert_eq!(
        response.to_line().unwrap(),
        "{\"jsonrpc\":\"2.0\",\"id\":1,\"result\":{\"contents\":[{\"mimeType\":\"application/pdf\",\"text\":\"hello\",\"uri\":\"pdf://a.pdf\"}]}}"
    );
    let content = ResourceContent { uri: "pdf://a".to_string(), text: "".to_string(), mime_type: None };
    let response = complete_resource_read(number(1), "pdf://a", Ok(content));
    assert_eq!(
        response.to_line().unwrap(),
        "{\"jsonrpc\":\"2.0\",\"id\":1,\"result\":{\"contents\":[{\"mimeType\":null,\"text\":\"\",\"uri\":\"pdf://a\"}]}}"
    );
}

#[test]
fn read_failure_names_the_uri_and_the_cause() {
    let response = complete_resource_read(
        number(1),
        "pdf://../../etc/passwd",
        Err(ResourceError::TraversalRejected("../../etc/passwd".to_string())),
    );
    assert_eq!(
        response,
        Response::failure(
            number(1),
            -32000,
            "Failed to read resource: File is not in active directory (security check failed): ../../etc/passwd"
                .to_string(),
            Some(Json::text(
                "pdf://../../etc/passwd: File is not in active directory (security check failed): ../../etc/passwd"
            )),
        )
    );
}
