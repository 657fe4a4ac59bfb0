use somfy_sdk::commands::{
    CancelAllExecutionsCommand, CancelAllExecutionsResponse, CancelExecutionCommand,
    CancelExecutionResponse, ExecuteActionGroupCommand, ExecuteActionGroupResponse,
    ExecuteActionsCommand, FetchEventsCommand, FetchEventsResponse, GetCurrentExecutionsCommand,
    GetCurrentExecutionsResponse, GetDeviceCommand, GetDeviceStateCommand, GetDeviceStateResponse,
    GetDeviceStatesCommand, GetDeviceStatesResponse, GetDevicesByControllableCommand,
    GetDevicesByControllableResponse, GetDevicesCommand, GetDevicesResponse, GetExecutionCommand,
    GetExecutionResponse, GetGatewaysCommand, GetGatewaysResponse, GetSetupCommand,
    GetSetupResponse, GetVersionCommand, GetVersionResponse, RegisterEventListenerCommand,
    RegisterEventListenerResponse, UnregisterEventListenerCommand,
    UnregisterEventListenerResponse,
};
use somfy_sdk::error::RequestError;
use somfy_sdk::request::{HttpMethod, SomfyApiRequestCommand, SomfyApiRequestResponse};
use somfy_sdk::types::{
    Action, ActionGroup, Command, DeviceStateValue, Gateway, GatewayConnectivity,
};

fn header_of(headers: &[(String, String)], name: &str) -> Option<String> {
    headers
        .iter()
        .find(|(n, _)| n == name)
        .map(|(_, v)| v.clone())
}

const EXECUTION_BODY: &str = r#"{
    "owner": "string",
    "id": "123",
    "executionType": "Immediate execution",
    "executionSubType": "MANUAL_CONTROL",
    "description": "string",
    "startTime": 0,
    "actionGroup": {
      "label": "string",
      "actions": [
        {
          "commands": [
            {
              "type": 0,
              "name": "string",
              "parameters": [
                "string"
              ]
            }
          ],
          "deviceURL": "string"
        }
      ]
    },
    "state": "INITIALIZED"
  }"#;

#[test]
fn cancel_all_executions_parse_valid_body_correctly() {
    let body = r#"{}"#;
    let parsed = CancelAllExecutionsResponse::from_body(body);
    assert!(parsed.is_ok())
}

#[test]
fn cancel_all_executions_generates_correct_request_path() {
    let command = CancelAllExecutionsCommand;
    let request_data = command.to_request().expect("should not err");
    assert_eq!(
        request_data.path,
        "/enduser-mobile-web/1/enduserAPI/exec/current/setup"
    );
    assert_eq!(request_data.method, HttpMethod::DELETE);
}

#[test]
fn cancel_all_executions_errs_for_invalid_body() {
    let parsed = CancelAllExecutionsResponse::from_body("[]");
    assert!(matches!(parsed, Err(RequestError::Body(_))));
}

#[test]
fn cancel_execution_parse_valid_body_correctly() {
    let body = r#"{}"#;
    let parsed = CancelExecutionResponse::from_body(body);
    assert!(parsed.is_ok())
}

#[test]
fn cancel_execution_generates_correct_request_path() {
    let command = CancelExecutionCommand {
        execution_id: "exec-12345678-1234-5678-9012-123456789012",
    };
    let request_data = command.to_request().expect("should not err");
    assert_eq!(
        request_data.path,
        "/enduser-mobile-web/1/enduserAPI/exec/current/setup/exec-12345678-1234-5678-9012-123456789012"
    );
    assert_eq!(request_data.method, HttpMethod::DELETE);
}

#[test]
fn cancel_execution_url_encoding_works_correctly() {
    let command = CancelExecutionCommand {
        execution_id: "test-execution-id-with-special-chars!@#",
    };
    let request_data = command.to_request().expect("should not err");
    assert_eq!(
        request_data.path,
        "/enduser-mobile-web/1/enduserAPI/exec/current/setup/test-execution-id-with-special-chars%21%40%23"
    );
}

#[test]
fn cancel_execution_errs_for_invalid_body() {
    let parsed = CancelExecutionResponse::from_body("not json");
    assert!(matches!(parsed, Err(RequestError::Body(_))));
}

#[test]
fn execute_action_group_test_to_request() {
    let action_group = ActionGroup {
        label: Some("Test Action".to_string()),
        actions: vec![Action {
            device_url: "io://test".to_string(),
            commands: vec![],
        }],
    };
    let command = ExecuteActionGroupCommand {
        action_group: &action_group,
    };
    let request = command
        .to_request()
        .expect("should create valid request data");

    assert_eq!(request.path, "/enduser-mobile-web/1/enduserAPI/exec/apply");
    assert_eq!(request.method, HttpMethod::POST);
    assert!(request.query_params.is_empty());
    assert_eq!(
        header_of(&request.header_map, "content-type").unwrap(),
        "application/json"
    );
    assert!(!request.body.is_empty());
}

#[test]
fn execute_action_group_parse_valid_body_correctly() {
    let body = r#"{
        "execId": "exec-12345678-1234-5678-9012-123456789012"
    }"#;
    let resp =
        ExecuteActionGroupResponse::from_body(body).expect("should parse valid body correctly");
    assert_eq!(resp.exec_id, "exec-12345678-1234-5678-9012-123456789012");
}

#[test]
fn execute_action_group_generates_correct_request_path() {
    let execute_request = ActionGroup {
        label: Some("Test execution".to_string()),
        actions: vec![Action {
            device_url: "io://0000-1111-2222/12345678".to_string(),
            commands: vec![Command {
                name: "open".to_string(),
                parameters: vec![],
            }],
        }],
    };
    let command = ExecuteActionGroupCommand {
        action_group: &execute_request,
    };
    let request_data = command.to_request().expect("should not err");
    assert_eq!(
        request_data.path,
        "/enduser-mobile-web/1/enduserAPI/exec/apply"
    );
    assert_eq!(request_data.method, HttpMethod::POST);
}

#[test]
fn execute_action_group_includes_json_content_type_header() {
    let execute_request = ActionGroup {
        label: None,
        actions: vec![Action {
            device_url: "io://0000-1111-2222/12345678".to_string(),
            commands: vec![Command {
                name: "close".to_string(),
                parameters: vec![],
            }],
        }],
    };
    let command = ExecuteActionGroupCommand {
        action_group: &execute_request,
    };
    let request_data = command.to_request().expect("should not err");
    let content_type = header_of(&request_data.header_map, "content-type");
    assert_eq!(content_type.expect("should be Some"), "application/json");
}

#[test]
fn execute_actions_generates_correct_request_path() {
    let execute_request = ActionGroup {
        label: Some("Test execution".to_string()),
        actions: vec![Action {
            device_url: "io://0000-1111-2222/12345678".to_string(),
            commands: vec![Command {
                name: "open".to_string(),
                parameters: vec![],
            }],
        }],
    };
    let command = ExecuteActionsCommand { execute_request };
    let request_data = command.to_request().expect("should not err");
    assert_eq!(
        request_data.path,
        "/enduser-mobile-web/1/enduserAPI/exec/apply"
    );
    assert_eq!(request_data.method, HttpMethod::POST);
}

#[test]
fn execute_actions_includes_json_content_type_header() {
    let execute_request = ActionGroup {
        label: None,
        actions: vec![Action {
            device_url: "io://0000-1111-2222/12345678".to_string(),
            commands: vec![Command {
                name: "close".to_string(),
                parameters: vec![],
            }],
        }],
    };
    let command = ExecuteActionsCommand { execute_request };
    let request_data = command.to_request().expect("should not err");
    let content_type = header_of(&request_data.header_map, "content-type");
    assert!(content_type.is_some());
    assert_eq!(content_type.unwrap(), "application/json");
}

#[test]
fn execute_actions_errs_for_invalid_body() {
    let parsed = ExecuteActionGroupResponse::from_body(r#"{ "id": "exec-1" }"#);
    assert!(matches!(parsed, Err(RequestError::Body(_))));
}

#[test]
fn fetch_events_parse_valid_body_correctly() {
    let body = r#"[
      {
        "name": "ExecutionStateChangedEvent"
      },
      {
        "name": "DeviceProtocolUnavailableEvent",
        "protocolType": 0
      }
    ]"#;
    let resp = FetchEventsResponse::from_body(body).expect("should parse valid body correctly");
    assert_eq!(resp.len(), 2);
}

#[test]
fn fetch_events_generates_correct_request_path() {
    let command = FetchEventsCommand {
        listener_id: "12345678-1234-5678-9012-123456789012".to_string(),
    };
    let request_data = command.to_request().expect("should not err");
    assert_eq!(
        request_data.path,
        "/enduser-mobile-web/1/enduserAPI/events/12345678-1234-5678-9012-123456789012/fetch"
    );
}

#[test]
fn fetch_events_url_encoding_works_correctly() {
    let command = FetchEventsCommand {
        listener_id: "test-id-with-special-chars!@#".to_string(),
    };
    let request_data = command.to_request().expect("should not err");
    assert_eq!(
        request_data.path,
        "/enduser-mobile-web/1/enduserAPI/events/test-id-with-special-chars%21%40%23/fetch"
    );
}

#[test]
fn fetch_events_errs_for_invalid_body() {
    let parsed = FetchEventsResponse::from_body(r#"[{ "protocolType": 0 }]"#);
    assert!(matches!(parsed, Err(RequestError::Body(_))));
}

#[test]
fn get_current_executions_parse_valid_body_correctly() {
    let body = format!("[{EXECUTION_BODY}]");
    let resp =
        GetCurrentExecutionsResponse::from_body(&body).expect("should parse valid body correctly");
    assert_eq!(resp.len(), 1);
    assert_eq!(resp[0].id, "123");
}

#[test]
fn parse_empty_array_correctly() {
    let body = r#"[]"#;
    let resp =
        GetCurrentExecutionsResponse::from_body(body).expect("should parse empty array correctly");
    assert_eq!(resp.len(), 0);
}

#[test]
fn get_current_executions_generates_correct_request_path() {
    let command = GetCurrentExecutionsCommand;
    let request_data = command.to_request().expect("should not err");
    assert_eq!(
        request_data.path,
        "/enduser-mobile-web/1/enduserAPI/exec/current"
    );
    assert_eq!(request_data.method, HttpMethod::GET);
}

#[test]
fn get_current_executions_errs_for_invalid_body() {
    let parsed = GetCurrentExecutionsResponse::from_body(r#"{}"#);
    assert!(matches!(parsed, Err(RequestError::Body(_))));
}

#[test]
fn get_device_state_parse_valid_body_correctly() {
    let body = r#"{
        "name": "core:StatusState",
        "type": 3,
        "value": "available"
    }"#;
    let resp = GetDeviceStateResponse::from_body(body).expect("should parse valid body correctly");
    assert_eq!(resp.name, "core:StatusState");
    assert_eq!(resp.state_type, 3);
    if let DeviceStateValue::String(value) = &resp.value {
        assert_eq!(value, "available");
    } else {
        panic!("Expected string value");
    }
}

#[test]
fn get_device_state_url_encoding_works_correctly() {
    let command = GetDeviceStateCommand {
        device_url: "io://0000-1111-2222/12345678",
        state_name: "core:StatusState",
    };
    let request_data = command.to_request().expect("should not err");
    assert_eq!(
        request_data.path,
        "/enduser-mobile-web/1/enduserAPI/setup/devices/io%3A%2F%2F0000-1111-2222%2F12345678/states/core%3AStatusState"
    );
}

#[test]
fn get_device_state_errs_for_invalid_body() {
    let parsed = GetDeviceStateResponse::from_body(r#"{ "name": "core:StatusState", "type": 3 }"#);
    assert!(matches!(parsed, Err(RequestError::Body(_))));
}

#[test]
fn get_device_states_parse_valid_body_correctly() {
    let body = r#"[
        {
            "name": "core:StatusState",
            "type": 3,
            "value": "available"
        }
    ]"#;
    let resp = GetDeviceStatesResponse::from_body(body).expect("should parse valid body correctly");
    assert_eq!(resp.len(), 1);
    assert_eq!(resp[0].name, "core:StatusState");
    assert_eq!(resp[0].state_type, 3);
    if let DeviceStateValue::String(value) = &resp[0].value {
        assert_eq!(value, "available");
    } else {
        panic!("Expected string value");
    }
}

#[test]
fn get_device_states_url_encoding_works_correctly() {
    let command = GetDeviceStatesCommand {
        device_url: "io://0000-1111-2222/12345678".to_string(),
    };
    let request_data = command.to_request().expect("should not err");
    assert_eq!(
        request_data.path,
        "/enduser-mobile-web/1/enduserAPI/setup/devices/io%3A%2F%2F0000-1111-2222%2F12345678/states"
    );
}

#[test]
fn get_device_states_errs_for_invalid_body() {
    let parsed = GetDeviceStatesResponse::from_body(r#"[{ "name": "x", "type": 1.5, "value": 1 }]"#);
    assert!(matches!(parsed, Err(RequestError::Body(_))));
}

#[test]
fn get_devices_test_to_request() {
    let command = GetDevicesCommand;
    let request = command
        .to_request()
        .expect("should create valid request data");
    assert_eq!(
        request.path,
        "/enduser-mobile-web/1/enduserAPI/setup/devices"
    );
    assert_eq!(request.method, HttpMethod::GET);
    assert!(request.query_params.is_empty());
    assert!(request.header_map.is_empty());
    assert!(request.body.is_empty());
}

#[test]
fn get_devices_test_from_body() {
    let body = r#"[
        {
            "controllableName": "io:ExteriorVenetianBlindIOComponent",
            "deviceURL": "io://0812-2424-9999/246132",
            "label": "Test Device",
            "available": true,
            "enabled": true,
            "synced": true,
            "subsystemId": 0,
            "states": [],
            "attributes": [],
            "type": 1
        }
    ]"#;
    let response =
        GetDevicesResponse::from_body(body).expect("should parse valid devices response");
    assert_eq!(response.len(), 1);
    assert_eq!(response[0].device_url, "io://0812-2424-9999/246132");
    assert_eq!(
        response[0].controllable_name,
        "io:ExteriorVenetianBlindIOComponent"
    );
}

#[test]
fn get_devices_by_controllable_parse_valid_body_correctly() {
    let body = r#"[
      "io://0000-1111-2222/12345678",
      "io://0000-1111-2222/87654321"
    ]"#;
    let resp = GetDevicesByControllableResponse::from_body(body)
        .expect("should parse valid body correctly");
    assert_eq!(resp.len(), 2);
    assert_eq!(resp[0], "io://0000-1111-2222/12345678");
    assert_eq!(resp[1], "io://0000-1111-2222/87654321");
}

#[test]
fn get_devices_by_controllable_url_encoding_works_correctly() {
    let command = GetDevicesByControllableCommand {
        controllable_name: "io:StackComponent".to_string(),
    };
    let request_data = command.to_request().expect("should not err");
    assert_eq!(
        request_data.path,
        "/enduser-mobile-web/1/enduserAPI/setup/devices/controllables/io%3AStackComponent"
    );
}

#[test]
fn get_devices_by_controllable_errs_for_invalid_body() {
    let parsed = GetDevicesByControllableResponse::from_body(r#"["io://a", 7]"#);
    assert!(matches!(parsed, Err(RequestError::Body(_))));
}

#[test]
fn get_execution_parse_valid_body_correctly() {
    let resp =
        GetExecutionResponse::from_body(EXECUTION_BODY).expect("should parse valid body correctly");
    assert_eq!(resp.id, "123");
}

#[test]
fn handle_undocumented_null_correctly() {
    let body = "null";
    let parsed = GetExecutionResponse::from_body(body);
    assert!(parsed.is_err());
}

#[test]
fn handle_undocumented_empty_array_correctly() {
    let body = "[]";
    let parsed = GetExecutionResponse::from_body(body);
    assert!(parsed.is_err());
}

#[test]
fn get_execution_generates_correct_request_path() {
    let command = GetExecutionCommand {
        execution_id: "exec-12345678-1234-5678-9012-123456789012",
    };
    let request_data = command.to_request().expect("should not err");
    assert_eq!(
        request_data.path,
        "/enduser-mobile-web/1/enduserAPI/exec/current/exec-12345678-1234-5678-9012-123456789012"
    );
    assert_eq!(request_data.method, HttpMethod::GET);
}

#[test]
fn get_execution_url_encoding_works_correctly() {
    let command = GetExecutionCommand {
        execution_id: "test-execution-id-with-special-chars!@#",
    };
    let request_data = command.to_request().expect("should not err");
    assert_eq!(
        request_data.path,
        "/enduser-mobile-web/1/enduserAPI/exec/current/test-execution-id-with-special-chars%21%40%23"
    );
}

#[test]
fn get_execution_errs_for_invalid_body() {
    let parsed = GetExecutionResponse::from_body(r#"{ "id": "123" }"#);
    assert!(matches!(parsed, Err(RequestError::Body(_))));
}

#[test]
fn get_setup_parse_valid_body_correctly() {
    let body = r#"{
        "gateways": [
            {
                "connectivity": {
                    "status": "OK",
                    "protocolVersion": "2025.3.2-7"
                },
                "gatewayId": "0000-1111-2222"
            }
        ],
        "devices": [
            {
                "deviceURL": "io://0000-1111-2222/12345678",
                "label": "Test Device",
                "controllableName": "io:StackComponent",
                "subsystemId": 1,
                "type": 1,
                "available": true,
                "synced": true,
                "enabled": true,
                "states": [],
                "attributes": []
            }
        ]
    }"#;
    let resp = GetSetupResponse::from_body(body).expect("should parse valid body correctly");
    assert_eq!(resp.gateways.len(), 1);
    assert_eq!(resp.devices.len(), 1);
    assert_eq!(resp.gateways[0].gateway_id, "0000-1111-2222");
    assert_eq!(resp.devices[0].label, "Test Device");
}

#[test]
fn get_setup_errs_for_invalid_body() {
    let parsed = GetSetupResponse::from_body(r#"{ "gateways": [] }"#);
    assert!(matches!(parsed, Err(RequestError::Body(_))));
}

#[test]
fn get_setup_gateways_test_to_request() {
    let command = GetGatewaysCommand;
    let request = command
        .to_request()
        .expect("should create valid request data");
    assert_eq!(
        request.path,
        "/enduser-mobile-web/1/enduserAPI/setup/gateways"
    );
    assert_eq!(request.method, HttpMethod::GET);
    assert!(request.query_params.is_empty());
    assert!(request.header_map.is_empty());
    assert!(request.body.is_empty());
}

#[test]
fn get_setup_gateways_test_from_body() {
    let body = r#"[
        {
            "gatewayId": "0000-1111-2222",
            "connectivity": {
                "status": "OK",
                "protocolVersion": "2022.1.3-1"
            }
        }
    ]"#;
    let response =
        GetGatewaysResponse::from_body(body).expect("should parse valid gateways response");
    assert_eq!(response.len(), 1);
    assert_eq!(response[0].gateway_id, "0000-1111-2222");
    assert_eq!(response[0].connectivity.status, "OK");
}

#[test]
fn get_setup_gateways_parse_valid_body_correctly() {
    let body = r#"[
	{
		"connectivity": {
			"status": "OK",
			"protocolVersion": "2025.3.2-7"
		},
		"gatewayId": "0000-1111-2222"
	}
    ]"#;
    let resp = GetGatewaysResponse::from_body(body).expect("should parse valid body correctly");
    assert_eq!(
        resp,
        vec![Gateway {
            gateway_id: "0000-1111-2222".to_string(),
            connectivity: GatewayConnectivity {
                status: "OK".to_string(),
                protocol_version: "2025.3.2-7".to_string()
            }
        }]
    )
}

#[test]
fn get_setup_gateways_errs_for_invalid_body() {
    let parsed = GetGatewaysResponse::from_body(r#"[{ "gatewayId": "0000-1111-2222" }]"#);
    assert!(matches!(parsed, Err(RequestError::Body(_))));
}

#[test]
fn get_version_test_to_request() {
    let command = GetVersionCommand;
    let request = command
        .to_request()
        .expect("should create valid request data");
    assert_eq!(request.path, "/enduser-mobile-web/1/enduserAPI/apiVersion");
    assert_eq!(request.method, HttpMethod::GET);
    assert!(request.query_params.is_empty());
    assert!(request.header_map.is_empty());
    assert!(request.body.is_empty());
}

#[test]
fn get_version_parse_valid_body_correctly() {
    let body = r#"{ "protocolVersion": "2022.1.3-1" }"#;
    let resp = GetVersionResponse::from_body(body).expect("should parse valid body correctly");
    assert_eq!(
        resp,
        GetVersionResponse {
            protocol_version: "2022.1.3-1".to_string()
        }
    )
}

#[test]
fn get_version_errs_for_invalid_body() {
    let body = r#"{ "protVer": "2022.1.3-1" }"#;
    let parsed = GetVersionResponse::from_body(body);
    assert!(parsed.is_err())
}

#[test]
fn register_event_listener_parse_valid_body_correctly() {
    let body = r#"{
        "id": "12345678-1234-5678-9012-123456789012"
    }"#;
    let resp =
        RegisterEventListenerResponse::from_body(body).expect("should parse valid body correctly");
    assert_eq!(resp.id, "12345678-1234-5678-9012-123456789012");
}

#[test]
fn register_event_listener_generates_correct_request_path() {
    let command = RegisterEventListenerCommand;
    let request_data = command.to_request().expect("should not err");
    assert_eq!(
        request_data.path,
        "/enduser-mobile-web/1/enduserAPI/events/register"
    );
}

#[test]
fn register_event_listener_errs_for_invalid_body() {
    let parsed = RegisterEventListenerResponse::from_body(r#"{ "id": 12 }"#);
    assert!(matches!(parsed, Err(RequestError::Body(_))));
}

#[test]
fn unregister_event_listener_parse_valid_body_correctly() {
    let body = r#"[]"#;
    let resp = UnregisterEventListenerResponse::from_body(body)
        .expect("should parse valid body correctly");
    assert_eq!(resp.len(), 0);
}

#[test]
fn unregister_event_listener_generates_correct_request_path() {
    let command = UnregisterEventListenerCommand {
        listener_id: "12345678-1234-5678-9012-123456789012",
    };
    let request_data = command.to_request().expect("should not err");
    assert_eq!(
        request_data.path,
        "/enduser-mobile-web/1/enduserAPI/events/12345678-1234-5678-9012-123456789012/unregister"
    );
}

#[test]
fn unregister_event_listener_url_encoding_works_correctly() {
    let command = UnregisterEventListenerCommand {
        listener_id: "test-id-with-special-chars!@#",
    };
    let request_data = command.to_request().expect("should not err");
    assert_eq!(
        request_data.path,
        "/enduser-mobile-web/1/enduserAPI/events/test-id-with-special-chars%21%40%23/unregister"
    );
}

#[test]
fn unregister_event_listener_errs_for_invalid_body() {
    let parsed = UnregisterEventListenerResponse::from_body(r#"{}"#);
    assert!(matches!(parsed, Err(RequestError::Body(_))));
}

#[test]
fn get_device_path_encodes_device_url() {
    let command = GetDeviceCommand {
        device_url: "io://0000-1111-2222/12345678",
    };
    let request_data = command.to_request().expect("should not err");
    assert_eq!(
        request_data.path,
        "/enduser-mobile-web/1/enduserAPI/setup/devices/io%3A%2F%2F0000-1111-2222%2F12345678"
    );
    assert_eq!(request_data.method, HttpMethod::GET);
}
