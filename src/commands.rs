//! The API's operations: the request each one becomes and the type its answer decodes into.
use crate::encoding::{percent_encode, url_encode};
use crate::error::RequestError;
use crate::payload::{action_group_json, action_group_to_json};
use crate::request::{
    text_eq, HttpMethod, RequestData, SomfyApiRequestCommand, SomfyApiRequestResponse,
};
use crate::types::{
    ActionGroup, ActionGroupExecution, ActionGroupExecutionId, CancelAllExecutionsResult,
    CancelExecutionResult, Device, DeviceState, Event, EventListener, Gateway, Setup,
};
use crate::json::{decode_field, field_decodes, field_shape, null_or_empty_array, JsonDecode};
use vstd::prelude::*;
use vstd::string::{StrSliceExecFns, StringExecFns};
use vstd::utf8::encode_utf8;

verus! {

/// A request with the given path and method and nothing else: no body, no
/// header overrides, no query parameters.
pub open spec fn plain_request(d: RequestData, path: Seq<char>, method: HttpMethod) -> bool {
    &&& d.path@ == path
    &&& d.method == method
    &&& d.body@.len() == 0
    &&& d.header_map@.len() == 0
    &&& d.query_params@.len() == 0
}

fn plain(path: String, method: HttpMethod) -> (r: RequestData)
    ensures
        plain_request(r, path@, method),
{
    RequestData {
        header_map: Vec::new(),
        body: Vec::new(),
        query_params: Vec::new(),
        path,
        method,
    }
}

/// `prefix`, then the percent-encoded `segment`, then `suffix`.
fn encoded_path(prefix: &str, segment: &str, suffix: &str) -> (r: String)
    ensures
        r@ == prefix@ + percent_encode(segment@) + suffix@,
{
    let mut p = String::from_str(prefix);
    let e = url_encode(segment);
    p.append(e.as_str());
    p.append(suffix);
    p
}

/// A request that carries an action group as its JSON body.
pub open spec fn action_group_request(d: RequestData, g: ActionGroup) -> bool {
    &&& d.path@ == "/enduser-mobile-web/1/enduserAPI/exec/apply"@
    &&& d.method == HttpMethod::POST
    &&& d.body@ == encode_utf8(action_group_json(g))
    &&& d.header_map@.len() == 1
    &&& d.header_map@[0].0@ == "content-type"@
    &&& d.header_map@[0].1@ == "application/json"@
    &&& d.query_params@.len() == 0
}

fn action_group_request_data(g: &ActionGroup) -> (r: Result<RequestData, RequestError>)
    ensures
        r matches Ok(d) && action_group_request(d, *g),
{
    let body_json = action_group_to_json(g);
    let headers = RequestData::default_post_headers()?;
    Ok(
        RequestData {
            path: String::from_str("/enduser-mobile-web/1/enduserAPI/exec/apply"),
            method: HttpMethod::POST,
            body: body_json.as_str().as_bytes_vec(),
            query_params: Vec::new(),
            header_map: headers,
        },
    )
}

/// Asks for the API version.
#[derive(Debug, Clone, PartialEq, Eq, Structural)]
pub struct GetVersionCommand;

impl SomfyApiRequestCommand for GetVersionCommand {
    type Response = GetVersionResponse;

    fn to_request(&self) -> (r: Result<RequestData, RequestError>)
        ensures
            r matches Ok(d) && plain_request(d, "/enduser-mobile-web/1/enduserAPI/apiVersion"@, HttpMethod::GET),
    {
        Ok(plain(String::from_str("/enduser-mobile-web/1/enduserAPI/apiVersion"), HttpMethod::GET))
    }
}

/// The API version the gateway speaks.
#[derive(Debug, Clone, PartialEq)]
pub struct GetVersionResponse {
    pub protocol_version: String,
}

impl JsonDecode for GetVersionResponse {
    open spec fn json_shape(v: serde_json::Value) -> bool {
        field_shape::<String>(v, "protocolVersion"@)
    }

    open spec fn json_decodes(v: serde_json::Value, x: GetVersionResponse) -> bool {
        field_decodes(v, "protocolVersion"@, x.protocol_version)
    }

    fn from_json(v: &serde_json::Value) -> (r: Result<GetVersionResponse, RequestError>) {
        let protocol_version = decode_field::<String>(v, "protocolVersion")?;
        Ok(GetVersionResponse { protocol_version })
    }
}

/// Lists the gateways of the setup.
#[derive(Debug, Clone, PartialEq, Eq, Structural)]
pub struct GetGatewaysCommand;

impl SomfyApiRequestCommand for GetGatewaysCommand {
    type Response = GetGatewaysResponse;

    fn to_request(&self) -> (r: Result<RequestData, RequestError>)
        ensures
            r matches Ok(d) && plain_request(d, "/enduser-mobile-web/1/enduserAPI/setup/gateways"@, HttpMethod::GET),
    {
        Ok(plain(String::from_str("/enduser-mobile-web/1/enduserAPI/setup/gateways"), HttpMethod::GET))
    }
}

/// Asks for the whole setup: gateways and devices.
#[derive(Debug, Clone, PartialEq, Eq, Structural)]
pub struct GetSetupCommand;

impl SomfyApiRequestCommand for GetSetupCommand {
    type Response = GetSetupResponse;

    fn to_request(&self) -> (r: Result<RequestData, RequestError>)
        ensures
            r matches Ok(d) && plain_request(d, "/enduser-mobile-web/1/enduserAPI/setup"@, HttpMethod::GET),
    {
        Ok(plain(String::from_str("/enduser-mobile-web/1/enduserAPI/setup"), HttpMethod::GET))
    }
}

/// Lists the devices.
#[derive(Debug, Clone, PartialEq, Eq, Structural)]
pub struct GetDevicesCommand;

impl SomfyApiRequestCommand for GetDevicesCommand {
    type Response = GetDevicesResponse;

    fn to_request(&self) -> (r: Result<RequestData, RequestError>)
        ensures
            r matches Ok(d) && plain_request(d, "/enduser-mobile-web/1/enduserAPI/setup/devices"@, HttpMethod::GET),
    {
        Ok(plain(String::from_str("/enduser-mobile-web/1/enduserAPI/setup/devices"), HttpMethod::GET))
    }
}

/// Asks for one device by its URL.
#[derive(Debug, Clone, PartialEq)]
pub struct GetDeviceCommand<'a> {
    pub device_url: &'a str,
}

impl<'a> SomfyApiRequestCommand for GetDeviceCommand<'a> {
    type Response = GetDeviceResponse;

    fn to_request(&self) -> (r: Result<RequestData, RequestError>)
        ensures
            r matches Ok(d) && plain_request(
                d,
                "/enduser-mobile-web/1/enduserAPI/setup/devices/"@ + percent_encode(self.device_url@) + ""@,
                HttpMethod::GET,
            ),
    {
        Ok(plain(encoded_path("/enduser-mobile-web/1/enduserAPI/setup/devices/", self.device_url, ""), HttpMethod::GET))
    }
}

/// Lists the states of one device.
#[derive(Debug, Clone, PartialEq)]
pub struct GetDeviceStatesCommand {
    pub device_url: String,
}

impl SomfyApiRequestCommand for GetDeviceStatesCommand {
    type Response = GetDeviceStatesResponse;

    fn to_request(&self) -> (r: Result<RequestData, RequestError>)
        ensures
            r matches Ok(d) && plain_request(
                d,
                "/enduser-mobile-web/1/enduserAPI/setup/devices/"@ + percent_encode(self.device_url@) + "/states"@,
                HttpMethod::GET,
            ),
    {
        Ok(plain(encoded_path("/enduser-mobile-web/1/enduserAPI/setup/devices/", self.device_url.as_str(), "/states"), HttpMethod::GET))
    }
}

/// Asks for one state of one device.
#[derive(Debug, Clone, PartialEq)]
pub struct GetDeviceStateCommand<'a> {
    pub device_url: &'a str,
    pub state_name: &'a str,
}

impl<'a> SomfyApiRequestCommand for GetDeviceStateCommand<'a> {
    type Response = GetDeviceStateResponse;

    fn to_request(&self) -> (r: Result<RequestData, RequestError>)
        ensures
            r matches Ok(d) && plain_request(
                d,
                "/enduser-mobile-web/1/enduserAPI/setup/devices/"@ + percent_encode(self.device_url@) + "/states/"@
                    + percent_encode(self.state_name@),
                HttpMethod::GET,
            ),
    {
        let mut path = encoded_path("/enduser-mobile-web/1/enduserAPI/setup/devices/", self.device_url, "/states/");
        let state = url_encode(self.state_name);
        path.append(state.as_str());
        Ok(plain(path, HttpMethod::GET))
    }
}

/// Lists the URLs of the devices of one controllable type.
#[derive(Debug, Clone, PartialEq)]
pub struct GetDevicesByControllableCommand {
    pub controllable_name: String,
}

impl SomfyApiRequestCommand for GetDevicesByControllableCommand {
    type Response = GetDevicesByControllableResponse;

    fn to_request(&self) -> (r: Result<RequestData, RequestError>)
        ensures
            r matches Ok(d) && plain_request(
                d,
                "/enduser-mobile-web/1/enduserAPI/setup/devices/controllables/"@ + percent_encode(self.controllable_name@) + ""@,
                HttpMethod::GET,
            ),
    {
        Ok(plain(encoded_path("/enduser-mobile-web/1/enduserAPI/setup/devices/controllables/", self.controllable_name.as_str(), ""), HttpMethod::GET))
    }
}

/// Registers an event listener.
#[derive(Debug, Clone, PartialEq, Eq, Structural)]
pub struct RegisterEventListenerCommand;

impl SomfyApiRequestCommand for RegisterEventListenerCommand {
    type Response = RegisterEventListenerResponse;

    fn to_request(&self) -> (r: Result<RequestData, RequestError>)
        ensures
            r matches Ok(d) && plain_request(d, "/enduser-mobile-web/1/enduserAPI/events/register"@, HttpMethod::POST),
    {
        Ok(plain(String::from_str("/enduser-mobile-web/1/enduserAPI/events/register"), HttpMethod::POST))
    }
}

/// Fetches the events a listener has collected.
#[derive(Debug, Clone, PartialEq)]
pub struct FetchEventsCommand {
    pub listener_id: String,
}

impl SomfyApiRequestCommand for FetchEventsCommand {
    type Response = FetchEventsResponse;

    fn to_request(&self) -> (r: Result<RequestData, RequestError>)
        ensures
            r matches Ok(d) && plain_request(
                d,
                "/enduser-mobile-web/1/enduserAPI/events/"@ + percent_encode(self.listener_id@) + "/fetch"@,
                HttpMethod::POST,
            ),
    {
        Ok(plain(encoded_path("/enduser-mobile-web/1/enduserAPI/events/", self.listener_id.as_str(), "/fetch"), HttpMethod::POST))
    }
}

/// Removes an event listener.
#[derive(Debug, Clone, PartialEq)]
pub struct UnregisterEventListenerCommand<'a> {
    pub listener_id: &'a str,
}

impl<'a> SomfyApiRequestCommand for UnregisterEventListenerCommand<'a> {
    type Response = UnregisterEventListenerResponse;

    fn to_request(&self) -> (r: Result<RequestData, RequestError>)
        ensures
            r matches Ok(d) && plain_request(
                d,
                "/enduser-mobile-web/1/enduserAPI/events/"@ + percent_encode(self.listener_id@) + "/unregister"@,
                HttpMethod::POST,
            ),
    {
        Ok(plain(encoded_path("/enduser-mobile-web/1/enduserAPI/events/", self.listener_id, "/unregister"), HttpMethod::POST))
    }
}

/// Runs an action group.
#[derive(Debug, Clone, PartialEq)]
pub struct ExecuteActionGroupCommand<'a> {
    pub action_group: &'a ActionGroup,
}

impl<'a> SomfyApiRequestCommand for ExecuteActionGroupCommand<'a> {
    type Response = ExecuteActionGroupResponse;

    fn to_request(&self) -> (r: Result<RequestData, RequestError>)
        ensures
            r matches Ok(d) && action_group_request(d, *self.action_group),
    {
        action_group_request_data(self.action_group)
    }
}

/// Runs an action group that the command owns.
#[derive(Debug, Clone, PartialEq)]
pub struct ExecuteActionsCommand {
    pub execute_request: ActionGroup,
}

impl SomfyApiRequestCommand for ExecuteActionsCommand {
    type Response = ExecuteActionsResponse;

    fn to_request(&self) -> (r: Result<RequestData, RequestError>)
        ensures
            r matches Ok(d) && action_group_request(d, self.execute_request),
    {
        action_group_request_data(&self.execute_request)
    }
}

/// Lists the running executions.
#[derive(Debug, Clone, PartialEq, Eq, Structural)]
pub struct GetCurrentExecutionsCommand;

impl SomfyApiRequestCommand for GetCurrentExecutionsCommand {
    type Response = GetCurrentExecutionsResponse;

    fn to_request(&self) -> (r: Result<RequestData, RequestError>)
        ensures
            r matches Ok(d) && plain_request(d, "/enduser-mobile-web/1/enduserAPI/exec/current"@, HttpMethod::GET),
    {
        Ok(plain(String::from_str("/enduser-mobile-web/1/enduserAPI/exec/current"), HttpMethod::GET))
    }
}

/// Asks for one running execution by its id.
#[derive(Debug, Clone, PartialEq)]
pub struct GetExecutionCommand<'a> {
    pub execution_id: &'a str,
}

impl<'a> SomfyApiRequestCommand for GetExecutionCommand<'a> {
    type Response = GetExecutionResponse;

    fn to_request(&self) -> (r: Result<RequestData, RequestError>)
        ensures
            r matches Ok(d) && plain_request(
                d,
                "/enduser-mobile-web/1/enduserAPI/exec/current/"@ + percent_encode(self.execution_id@) + ""@,
                HttpMethod::GET,
            ),
    {
        Ok(plain(encoded_path("/enduser-mobile-web/1/enduserAPI/exec/current/", self.execution_id, ""), HttpMethod::GET))
    }
}

/// Cancels every running execution.
#[derive(Debug, Clone, PartialEq, Eq, Structural)]
pub struct CancelAllExecutionsCommand;

impl SomfyApiRequestCommand for CancelAllExecutionsCommand {
    type Response = CancelAllExecutionsResponse;

    fn to_request(&self) -> (r: Result<RequestData, RequestError>)
        ensures
            r matches Ok(d) && plain_request(d, "/enduser-mobile-web/1/enduserAPI/exec/current/setup"@, HttpMethod::DELETE),
    {
        Ok(plain(String::from_str("/enduser-mobile-web/1/enduserAPI/exec/current/setup"), HttpMethod::DELETE))
    }
}

/// Cancels one running execution by its id.
#[derive(Debug, Clone, PartialEq)]
pub struct CancelExecutionCommand<'a> {
    pub execution_id: &'a str,
}

impl<'a> SomfyApiRequestCommand for CancelExecutionCommand<'a> {
    type Response = CancelExecutionResponse;

    fn to_request(&self) -> (r: Result<RequestData, RequestError>)
        ensures
            r matches Ok(d) && plain_request(
                d,
                "/enduser-mobile-web/1/enduserAPI/exec/current/setup/"@ + percent_encode(self.execution_id@) + ""@,
                HttpMethod::DELETE,
            ),
    {
        Ok(plain(encoded_path("/enduser-mobile-web/1/enduserAPI/exec/current/setup/", self.execution_id, ""), HttpMethod::DELETE))
    }
}

pub type GetGatewaysResponse = Vec<Gateway>;

pub type GetSetupResponse = Setup;

pub type GetDevicesResponse = Vec<Device>;

pub type GetDeviceResponse = Device;

pub type GetDeviceStatesResponse = Vec<DeviceState>;

pub type GetDeviceStateResponse = DeviceState;

pub type GetDevicesByControllableResponse = Vec<String>;

pub type RegisterEventListenerResponse = EventListener;

pub type FetchEventsResponse = Vec<Event>;

pub type UnregisterEventListenerResponse = Vec<serde_json::Value>;

pub type ExecuteActionGroupResponse = ActionGroupExecutionId;

pub type ExecuteActionsResponse = ActionGroupExecutionId;

pub type GetCurrentExecutionsResponse = Vec<ActionGroupExecution>;

pub type GetExecutionResponse = ActionGroupExecution;

pub type CancelAllExecutionsResponse = CancelAllExecutionsResult;

pub type CancelExecutionResponse = CancelExecutionResult;

impl SomfyApiRequestResponse for GetVersionResponse {
    open spec fn answers_missing_with_literals() -> bool {
        false
    }

    fn is_not_found_body(body: &str, v: &serde_json::Value) -> (r: bool) {
        false
    }
}

impl SomfyApiRequestResponse for Vec<Gateway> {
    open spec fn answers_missing_with_literals() -> bool {
        false
    }

    fn is_not_found_body(body: &str, v: &serde_json::Value) -> (r: bool) {
        false
    }
}

impl SomfyApiRequestResponse for Setup {
    open spec fn answers_missing_with_literals() -> bool {
        false
    }

    fn is_not_found_body(body: &str, v: &serde_json::Value) -> (r: bool) {
        false
    }
}

impl SomfyApiRequestResponse for Vec<Device> {
    open spec fn answers_missing_with_literals() -> bool {
        false
    }

    fn is_not_found_body(body: &str, v: &serde_json::Value) -> (r: bool) {
        false
    }
}

impl SomfyApiRequestResponse for Device {
    open spec fn answers_missing_with_literals() -> bool {
        false
    }

    fn is_not_found_body(body: &str, v: &serde_json::Value) -> (r: bool) {
        false
    }
}

impl SomfyApiRequestResponse for Vec<DeviceState> {
    open spec fn answers_missing_with_literals() -> bool {
        false
    }

    fn is_not_found_body(body: &str, v: &serde_json::Value) -> (r: bool) {
        false
    }
}

impl SomfyApiRequestResponse for DeviceState {
    open spec fn answers_missing_with_literals() -> bool {
        false
    }

    fn is_not_found_body(body: &str, v: &serde_json::Value) -> (r: bool) {
        false
    }
}

impl SomfyApiRequestResponse for Vec<String> {
    open spec fn answers_missing_with_literals() -> bool {
        false
    }

    fn is_not_found_body(body: &str, v: &serde_json::Value) -> (r: bool) {
        false
    }
}

impl SomfyApiRequestResponse for EventListener {
    open spec fn answers_missing_with_literals() -> bool {
        false
    }

    fn is_not_found_body(body: &str, v: &serde_json::Value) -> (r: bool) {
        false
    }
}

impl SomfyApiRequestResponse for Vec<Event> {
    open spec fn answers_missing_with_literals() -> bool {
        false
    }

    fn is_not_found_body(body: &str, v: &serde_json::Value) -> (r: bool) {
        false
    }
}

impl SomfyApiRequestResponse for Vec<serde_json::Value> {
    open spec fn answers_missing_with_literals() -> bool {
        false
    }

    fn is_not_found_body(body: &str, v: &serde_json::Value) -> (r: bool) {
        false
    }
}

impl SomfyApiRequestResponse for ActionGroupExecutionId {
    open spec fn answers_missing_with_literals() -> bool {
        false
    }

    fn is_not_found_body(body: &str, v: &serde_json::Value) -> (r: bool) {
        false
    }
}

impl SomfyApiRequestResponse for Vec<ActionGroupExecution> {
    open spec fn answers_missing_with_literals() -> bool {
        false
    }

    fn is_not_found_body(body: &str, v: &serde_json::Value) -> (r: bool) {
        false
    }
}

impl SomfyApiRequestResponse for CancelAllExecutionsResult {
    open spec fn answers_missing_with_literals() -> bool {
        false
    }

    fn is_not_found_body(body: &str, v: &serde_json::Value) -> (r: bool) {
        false
    }
}

impl SomfyApiRequestResponse for CancelExecutionResult {
    open spec fn answers_missing_with_literals() -> bool {
        false
    }

    fn is_not_found_body(body: &str, v: &serde_json::Value) -> (r: bool) {
        false
    }
}

impl SomfyApiRequestResponse for ActionGroupExecution {
    /// The execution-lookup endpoint answers `null` for a finished execution
    /// and `[]` for an unknown one, where it should answer 404.
    open spec fn answers_missing_with_literals() -> bool {
        true
    }

    fn is_not_found_body(body: &str, v: &serde_json::Value) -> (r: bool) {
        text_eq(body, "null") || text_eq(body, "[]")
    }
}

} // verus!
