use somfy_sdk::commands::{
    ExecuteActionGroupCommand, GetDeviceResponse, GetDeviceStatesResponse, GetVersionResponse,
};
use somfy_sdk::error::RequestError;
use somfy_sdk::json::StringPairs;
use somfy_sdk::request::{SomfyApiRequestCommand, SomfyApiRequestResponse};
use somfy_sdk::types::{Action, ActionGroup, Command, DeviceAttributeValue, DeviceStateValue};

#[test]
fn unknown_fields_are_ignored_and_values_kept() {
    let body = r#"{ "extra": [1, 2], "protocolVersion": "2022.1.3-1", "more": null }"#;
    let resp = GetVersionResponse::from_body(body).unwrap();
    assert_eq!(resp.protocol_version, "2022.1.3-1");
}

#[test]
fn missing_required_field_is_a_body_error() {
    let body = r#"{
        "deviceURL": "io://1", "controllableName": "c", "subsystemId": 0, "type": 1,
        "available": true, "synced": true, "enabled": true, "states": [], "attributes": []
    }"#;
    assert!(matches!(GetDeviceResponse::from_body(body), Err(RequestError::Body(_))));
    match GetDeviceResponse::from_body("{") {
        Err(RequestError::Body(message)) => assert!(!message.is_empty()),
        other => panic!("expected a body error, got {other:?}"),
    }
}

#[test]
fn state_values_take_the_first_form_that_fits() {
    let body = r#"[
        { "name": "a", "type": 3, "value": "available" },
        { "name": "b", "type": 1, "value": 5 },
        { "name": "c", "type": 11, "value": { "y": "2", "x": "1" } },
        { "name": "d", "type": 10, "value": ["p", "q"] },
        { "name": "e", "type": 6, "value": false }
    ]"#;
    let states = GetDeviceStatesResponse::from_body(body).unwrap();
    assert_eq!(states[0].value, DeviceStateValue::String("available".to_string()));
    assert_eq!(states[1].value, DeviceStateValue::Int(5));
    assert_eq!(
        states[2].value,
        DeviceStateValue::Object(
            StringPairs::from_pairs(vec![
                ("x".to_string(), "1".to_string()),
                ("y".to_string(), "2".to_string())
            ])
            .unwrap()
        )
    );
    assert_eq!(
        states[3].value,
        DeviceStateValue::Array(vec!["p".to_string(), "q".to_string()])
    );
    assert_eq!(states[4].value, DeviceStateValue::Boolean(false));
    let bad = r#"[{ "name": "f", "type": 1, "value": 1.5 }]"#;
    assert!(GetDeviceStatesResponse::from_body(bad).is_err());
}

#[test]
fn attribute_values_and_procedures_decode() {
    let body = r#"{
        "deviceURL": "io://1", "label": "L", "controllableName": "c", "subsystemId": 0,
        "type": 1, "available": true, "synced": false, "enabled": true, "states": [],
        "attributes": [
            { "name": "core:FirmwareRevision", "type": 3, "value": "5.2" },
            { "name": "core:SupportedManufacturerProcedures", "type": 10,
              "value": [ { "procedureName": "reset", "params": { "duration": { "max": "10" } } },
                         { "procedureName": "pair" } ] }
        ]
    }"#;
    let device = GetDeviceResponse::from_body(body).unwrap();
    assert!(!device.synced);
    assert_eq!(device.attributes[0].value.to_string(), "5.2");
    match &device.attributes[1].value {
        DeviceAttributeValue::Procedures(ps) => {
            assert_eq!(ps.len(), 2);
            assert_eq!(
                *ps[0].params.as_ref().unwrap().duration.entries(),
                vec![("max".to_string(), "10".to_string())]
            );
            assert!(ps[1].params.is_none());
        }
        other => panic!("expected procedures, got {other:?}"),
    }
    assert_eq!(device.attributes[1].value.to_string(), "reset, pair");
}

#[test]
fn action_group_body_is_compact_json_in_field_order() {
    let group = ActionGroup {
        label: Some("Test \"Action\"".to_string()),
        actions: vec![Action {
            device_url: "io://test".to_string(),
            commands: vec![Command {
                name: "setClosure".to_string(),
                parameters: vec!["75".to_string(), "x".to_string()],
            }],
        }],
    };
    let request = ExecuteActionGroupCommand { action_group: &group }.to_request().unwrap();
    assert_eq!(
        String::from_utf8(request.body).unwrap(),
        r#"{"label":"Test \"Action\"","actions":[{"deviceURL":"io://test","commands":[{"name":"setClosure","parameters":["75","x"]}]}]}"#
    );
    let unlabelled = ActionGroup { label: None, actions: vec![] };
    let request = ExecuteActionGroupCommand { action_group: &unlabelled }.to_request().unwrap();
    assert_eq!(String::from_utf8(request.body).unwrap(), r#"{"label":null,"actions":[]}"#);
}

#[test]
fn reserved_characters_are_encoded_and_decode_back() {
    let id = "a/b:c!d@e#f g~h.é";
    let request = somfy_sdk::commands::GetExecutionCommand { execution_id: id }
        .to_request()
        .unwrap();
    let segment = request
        .path
        .strip_prefix("/enduser-mobile-web/1/enduserAPI/exec/current/")
        .unwrap();
    assert_eq!(segment, "a%2Fb%3Ac%21d%40e%23f%20g~h.%C3%A9");
    assert!(!segment.contains(['/', ':', '!', '@', '#', ' ']));
    assert_eq!(urlencoding::decode(segment).unwrap(), id);
}

#[test]
fn pairs_with_a_repeated_key_are_refused() {
    let pairs = vec![
        ("a".to_string(), "1".to_string()),
        ("b".to_string(), "2".to_string()),
        ("a".to_string(), "3".to_string()),
    ];
    assert!(StringPairs::from_pairs(pairs).is_none());
    let empty = StringPairs::from_pairs(vec![]).unwrap();
    assert!(empty.entries().is_empty());
}

#[test]
fn control_characters_are_escaped_in_bodies() {
    let group = ActionGroup {
        label: Some("a\\b\n\u{1}/é".to_string()),
        actions: vec![],
    };
    let request = ExecuteActionGroupCommand { action_group: &group }.to_request().unwrap();
    assert_eq!(
        String::from_utf8(request.body).unwrap(),
        "{\"label\":\"a\\\\b\\n\\u0001/é\",\"actions\":[]}"
    );
}
