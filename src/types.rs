//! The gateway's entities, as the API's JSON bodies carry them.
use crate::error::{string_views, RequestError};
use crate::payload::{join_texts, joined, lemma_joined_step};
use crate::json::{
    decode_field, decode_opt_field, decode_string_map, field_decodes, field_shape, json_bool,
    json_int, json_is_object, opt_field_decodes, opt_field_shape, shape_error, string_map_decodes,
    string_map_shape, JsonDecode, StringPairs,
};
use vstd::prelude::*;
use vstd::string::StringExecFns;

verus! {

#[derive(Debug, Clone, PartialEq)]
pub struct GatewayConnectivity {
    pub status: String,
    pub protocol_version: String,
}

impl JsonDecode for GatewayConnectivity {
    open spec fn json_shape(v: serde_json::Value) -> bool {
        field_shape::<String>(v, "status"@) && field_shape::<String>(v, "protocolVersion"@)
    }

    open spec fn json_decodes(v: serde_json::Value, x: GatewayConnectivity) -> bool {
        field_decodes(v, "status"@, x.status) && field_decodes(v, "protocolVersion"@, x.protocol_version)
    }

    fn from_json(v: &serde_json::Value) -> (r: Result<GatewayConnectivity, RequestError>) {
        let status = decode_field::<String>(v, "status")?;
        let protocol_version = decode_field::<String>(v, "protocolVersion")?;
        Ok(GatewayConnectivity { status, protocol_version })
    }
}

#[derive(Debug, Clone, PartialEq)]
pub struct Gateway {
    pub gateway_id: String,
    pub connectivity: GatewayConnectivity,
}

impl JsonDecode for Gateway {
    open spec fn json_shape(v: serde_json::Value) -> bool {
        field_shape::<String>(v, "gatewayId"@) && field_shape::<GatewayConnectivity>(
            v,
            "connectivity"@,
        )
    }

    open spec fn json_decodes(v: serde_json::Value, x: Gateway) -> bool {
        field_decodes(v, "gatewayId"@, x.gateway_id) && field_decodes(v, "connectivity"@, x.connectivity)
    }

    fn from_json(v: &serde_json::Value) -> (r: Result<Gateway, RequestError>) {
        let gateway_id = decode_field::<String>(v, "gatewayId")?;
        let connectivity = decode_field::<GatewayConnectivity>(v, "connectivity")?;
        Ok(Gateway { gateway_id, connectivity })
    }
}

/// The value of a device state: the first of these forms that the JSON value fits.
#[derive(Debug, Clone, PartialEq)]
pub enum DeviceStateValue {
    String(String),
    Int(i64),
    /// An object of strings, as (key, value) pairs in the order of its keys.
    Object(StringPairs),
    Array(Vec<String>),
    Boolean(bool),
}

impl JsonDecode for DeviceStateValue {
    open spec fn json_shape(v: serde_json::Value) -> bool {
        String::json_shape(v) || i64::json_shape(v) || string_map_shape(v) || Vec::<
            String,
        >::json_shape(v) || bool::json_shape(v)
    }

    open spec fn json_decodes(v: serde_json::Value, x: DeviceStateValue) -> bool {
        if String::json_shape(v) {
            x matches DeviceStateValue::String(s) && String::json_decodes(v, s)
        } else if i64::json_shape(v) {
            x matches DeviceStateValue::Int(n) && json_int(v) == Some(n)
        } else if string_map_shape(v) {
            x matches DeviceStateValue::Object(m) && string_map_decodes(v, m@)
        } else if Vec::<String>::json_shape(v) {
            x matches DeviceStateValue::Array(a) && Vec::<String>::json_decodes(v, a)
        } else {
            x matches DeviceStateValue::Boolean(b) && json_bool(v) == Some(b)
        }
    }

    fn from_json(v: &serde_json::Value) -> (r: Result<DeviceStateValue, RequestError>) {
        if let Ok(s) = String::from_json(v) {
            return Ok(DeviceStateValue::String(s));
        }
        if let Ok(n) = i64::from_json(v) {
            return Ok(DeviceStateValue::Int(n));
        }
        if let Ok(m) = decode_string_map(v) {
            return Ok(DeviceStateValue::Object(m));
        }
        if let Ok(a) = Vec::<String>::from_json(v) {
            return Ok(DeviceStateValue::Array(a));
        }
        match bool::from_json(v) {
            Ok(b) => Ok(DeviceStateValue::Boolean(b)),
            Err(e) => Err(e),
        }
    }
}

#[derive(Debug, Clone, PartialEq)]
pub struct DeviceAttributeProcedureParams {
    /// An object of strings, as (key, value) pairs in the order of its keys.
    pub duration: StringPairs,
}

impl JsonDecode for DeviceAttributeProcedureParams {
    open spec fn json_shape(v: serde_json::Value) -> bool {
        exists|f: serde_json::Value| #[trigger] crate::json::json_field(v, "duration"@) == Some(f)
            && string_map_shape(f)
    }

    open spec fn json_decodes(v: serde_json::Value, x: DeviceAttributeProcedureParams) -> bool {
        crate::json::json_field(v, "duration"@) matches Some(f) && string_map_decodes(f, x.duration@)
    }

    fn from_json(v: &serde_json::Value) -> (r: Result<DeviceAttributeProcedureParams, RequestError>) {
        match crate::json::json_get(v, "duration") {
            Some(f) => {
                let duration = decode_string_map(f)?;
                Ok(DeviceAttributeProcedureParams { duration })
            },
            None => Err(shape_error()),
        }
    }
}

#[derive(Debug, Clone, PartialEq)]
pub struct DeviceAttributeProcedure {
    pub procedure_name: String,
    pub params: Option<DeviceAttributeProcedureParams>,
}

impl JsonDecode for DeviceAttributeProcedure {
    open spec fn json_shape(v: serde_json::Value) -> bool {
        field_shape::<String>(v, "procedureName"@) && opt_field_shape::<
            DeviceAttributeProcedureParams,
        >(v, "params"@)
    }

    open spec fn json_decodes(v: serde_json::Value, x: DeviceAttributeProcedure) -> bool {
        field_decodes(v, "procedureName"@, x.procedure_name) && opt_field_decodes(
            v,
            "params"@,
            x.params,
        )
    }

    fn from_json(v: &serde_json::Value) -> (r: Result<DeviceAttributeProcedure, RequestError>) {
        let procedure_name = decode_field::<String>(v, "procedureName")?;
        let params = decode_opt_field::<DeviceAttributeProcedureParams>(v, "params")?;
        Ok(DeviceAttributeProcedure { procedure_name, params })
    }
}

impl DeviceAttributeProcedure {
    /// The procedure's name.
    pub fn to_string(&self) -> (r: String)
        ensures
            r@ == self.procedure_name@,
    {
        self.procedure_name.clone()
    }
}

pub open spec fn procedure_names(ps: Seq<DeviceAttributeProcedure>) -> Seq<Seq<char>> {
    ps.map_values(|p: DeviceAttributeProcedure| p.procedure_name@)
}

/// The value of a device attribute: the first of these forms that the JSON value fits.
#[derive(Debug, Clone, PartialEq)]
pub enum DeviceAttributeValue {
    String(String),
    States(Vec<String>),
    Procedures(Vec<DeviceAttributeProcedure>),
}

impl JsonDecode for DeviceAttributeValue {
    open spec fn json_shape(v: serde_json::Value) -> bool {
        String::json_shape(v) || Vec::<String>::json_shape(v) || Vec::<
            DeviceAttributeProcedure,
        >::json_shape(v)
    }

    open spec fn json_decodes(v: serde_json::Value, x: DeviceAttributeValue) -> bool {
        if String::json_shape(v) {
            x matches DeviceAttributeValue::String(s) && String::json_decodes(v, s)
        } else if Vec::<String>::json_shape(v) {
            x matches DeviceAttributeValue::States(a) && Vec::<String>::json_decodes(v, a)
        } else {
            x matches DeviceAttributeValue::Procedures(p) && Vec::<
                DeviceAttributeProcedure,
            >::json_decodes(v, p)
        }
    }

    fn from_json(v: &serde_json::Value) -> (r: Result<DeviceAttributeValue, RequestError>) {
        if let Ok(s) = String::from_json(v) {
            return Ok(DeviceAttributeValue::String(s));
        }
        if let Ok(a) = Vec::<String>::from_json(v) {
            return Ok(DeviceAttributeValue::States(a));
        }
        match Vec::<DeviceAttributeProcedure>::from_json(v) {
            Ok(p) => Ok(DeviceAttributeValue::Procedures(p)),
            Err(e) => Err(e),
        }
    }
}

impl DeviceAttributeValue {
    /// The value as text: a string as it is, a list as its items separated by ", ".
    pub open spec fn text(&self) -> Seq<char> {
        match self {
            DeviceAttributeValue::String(s) => s@,
            DeviceAttributeValue::States(states) => joined(string_views(states@), ", "@),
            DeviceAttributeValue::Procedures(ps) => joined(procedure_names(ps@), ", "@),
        }
    }

    pub fn to_string(&self) -> (r: String)
        ensures
            r@ == self.text(),
    {
        match self {
            DeviceAttributeValue::String(s) => s.clone(),
            DeviceAttributeValue::States(states) => join_texts(states, ", "),
            DeviceAttributeValue::Procedures(ps) => {
                let ghost names = procedure_names(ps@);
                let mut out = String::new();
                let mut i: usize = 0;
                while i < ps.len()
                    invariant
                        names == procedure_names(ps@),
                        i <= ps@.len(),
                        out@ == joined(names.subrange(0, i as int), ", "@),
                    decreases ps.len() - i,
                {
                    proof {
                        lemma_joined_step(names, i as int, ", "@);
                    }
                    if i > 0 {
                        out.append(", ");
                    }
                    out.append(ps[i].procedure_name.as_str());
                    i += 1;
                }
                assert(names.subrange(0, ps@.len() as int) =~= names);
                out
            },
        }
    }
}

#[derive(Debug, Clone, PartialEq)]
pub struct DeviceAttribute {
    pub value: DeviceAttributeValue,
    pub name: String,
    pub state_type: i64,
}

impl JsonDecode for DeviceAttribute {
    open spec fn json_shape(v: serde_json::Value) -> bool {
        field_shape::<DeviceAttributeValue>(v, "value"@) && field_shape::<String>(v, "name"@)
            && field_shape::<i64>(v, "type"@)
    }

    open spec fn json_decodes(v: serde_json::Value, x: DeviceAttribute) -> bool {
        field_decodes(v, "value"@, x.value) && field_decodes(v, "name"@, x.name) && field_decodes(
            v,
            "type"@,
            x.state_type,
        )
    }

    fn from_json(v: &serde_json::Value) -> (r: Result<DeviceAttribute, RequestError>) {
        let value = decode_field::<DeviceAttributeValue>(v, "value")?;
        let name = decode_field::<String>(v, "name")?;
        let state_type = decode_field::<i64>(v, "type")?;
        Ok(DeviceAttribute { value, name, state_type })
    }
}

#[derive(Debug, Clone, PartialEq)]
pub struct DeviceState {
    pub value: DeviceStateValue,
    pub name: String,
    pub state_type: i64,
}

impl JsonDecode for DeviceState {
    open spec fn json_shape(v: serde_json::Value) -> bool {
        field_shape::<DeviceStateValue>(v, "value"@) && field_shape::<String>(v, "name"@)
            && field_shape::<i64>(v, "type"@)
    }

    open spec fn json_decodes(v: serde_json::Value, x: DeviceState) -> bool {
        field_decodes(v, "value"@, x.value) && field_decodes(v, "name"@, x.name) && field_decodes(
            v,
            "type"@,
            x.state_type,
        )
    }

    fn from_json(v: &serde_json::Value) -> (r: Result<DeviceState, RequestError>) {
        let value = decode_field::<DeviceStateValue>(v, "value")?;
        let name = decode_field::<String>(v, "name")?;
        let state_type = decode_field::<i64>(v, "type")?;
        Ok(DeviceState { value, name, state_type })
    }
}

#[derive(Debug, Clone, PartialEq)]
pub struct DeviceDefinitionAttribute {
    pub name: String,
}

impl JsonDecode for DeviceDefinitionAttribute {
    open spec fn json_shape(v: serde_json::Value) -> bool {
        field_shape::<String>(v, "name"@)
    }

    open spec fn json_decodes(v: serde_json::Value, x: DeviceDefinitionAttribute) -> bool {
        field_decodes(v, "name"@, x.name)
    }

    fn from_json(v: &serde_json::Value) -> (r: Result<DeviceDefinitionAttribute, RequestError>) {
        let name = decode_field::<String>(v, "name")?;
        Ok(DeviceDefinitionAttribute { name })
    }
}

#[derive(Debug, Clone, PartialEq)]
pub struct DeviceDefinitionState {
    pub name: String,
}

impl JsonDecode for DeviceDefinitionState {
    open spec fn json_shape(v: serde_json::Value) -> bool {
        field_shape::<String>(v, "name"@)
    }

    open spec fn json_decodes(v: serde_json::Value, x: DeviceDefinitionState) -> bool {
        field_decodes(v, "name"@, x.name)
    }

    fn from_json(v: &serde_json::Value) -> (r: Result<DeviceDefinitionState, RequestError>) {
        let name = decode_field::<String>(v, "name")?;
        Ok(DeviceDefinitionState { name })
    }
}

#[derive(Debug, Clone, PartialEq)]
pub struct DeviceDefinitionCommand {
    pub command_name: String,
    pub nparams: i64,
}

impl JsonDecode for DeviceDefinitionCommand {
    open spec fn json_shape(v: serde_json::Value) -> bool {
        field_shape::<String>(v, "commandName"@) && field_shape::<i64>(v, "nparams"@)
    }

    open spec fn json_decodes(v: serde_json::Value, x: DeviceDefinitionCommand) -> bool {
        field_decodes(v, "commandName"@, x.command_name) && field_decodes(v, "nparams"@, x.nparams)
    }

    fn from_json(v: &serde_json::Value) -> (r: Result<DeviceDefinitionCommand, RequestError>) {
        let command_name = decode_field::<String>(v, "commandName")?;
        let nparams = decode_field::<i64>(v, "nparams")?;
        Ok(DeviceDefinitionCommand { command_name, nparams })
    }
}

#[derive(Debug, Clone, PartialEq)]
pub struct DeviceDefinition {
    pub ui_class: String,
    pub attributes: Vec<DeviceDefinitionAttribute>,
    pub state_type: i64,
    pub states: Vec<DeviceDefinitionState>,
    pub commands: Vec<DeviceDefinitionCommand>,
    pub widget_name: String,
}

impl JsonDecode for DeviceDefinition {
    open spec fn json_shape(v: serde_json::Value) -> bool {
        &&& field_shape::<String>(v, "uiClass"@)
        &&& field_shape::<Vec<DeviceDefinitionAttribute>>(v, "attributes"@)
        &&& field_shape::<i64>(v, "type"@)
        &&& field_shape::<Vec<DeviceDefinitionState>>(v, "states"@)
        &&& field_shape::<Vec<DeviceDefinitionCommand>>(v, "commands"@)
        &&& field_shape::<String>(v, "widgetName"@)
    }

    open spec fn json_decodes(v: serde_json::Value, x: DeviceDefinition) -> bool {
        &&& field_decodes(v, "uiClass"@, x.ui_class)
        &&& field_decodes(v, "attributes"@, x.attributes)
        &&& field_decodes(v, "type"@, x.state_type)
        &&& field_decodes(v, "states"@, x.states)
        &&& field_decodes(v, "commands"@, x.commands)
        &&& field_decodes(v, "widgetName"@, x.widget_name)
    }

    fn from_json(v: &serde_json::Value) -> (r: Result<DeviceDefinition, RequestError>) {
        let ui_class = decode_field::<String>(v, "uiClass")?;
        let attributes = decode_field::<Vec<DeviceDefinitionAttribute>>(v, "attributes")?;
        let state_type = decode_field::<i64>(v, "type")?;
        let states = decode_field::<Vec<DeviceDefinitionState>>(v, "states")?;
        let commands = decode_field::<Vec<DeviceDefinitionCommand>>(v, "commands")?;
        let widget_name = decode_field::<String>(v, "widgetName")?;
        Ok(DeviceDefinition { ui_class, attributes, state_type, states, commands, widget_name })
    }
}

#[derive(Debug, Clone, PartialEq)]
pub struct Device {
    pub device_url: String,
    pub label: String,
    pub controllable_name: String,
    pub subsystem_id: i64,
    pub device_type: i64,
    pub available: bool,
    pub synced: bool,
    pub enabled: bool,
    pub states: Vec<DeviceState>,
    pub attributes: Vec<DeviceAttribute>,
}

impl JsonDecode for Device {
    open spec fn json_shape(v: serde_json::Value) -> bool {
        &&& field_shape::<String>(v, "deviceURL"@)
        &&& field_shape::<String>(v, "label"@)
        &&& field_shape::<String>(v, "controllableName"@)
        &&& field_shape::<i64>(v, "subsystemId"@)
        &&& field_shape::<i64>(v, "type"@)
        &&& field_shape::<bool>(v, "available"@)
        &&& field_shape::<bool>(v, "synced"@)
        &&& field_shape::<bool>(v, "enabled"@)
        &&& field_shape::<Vec<DeviceState>>(v, "states"@)
        &&& field_shape::<Vec<DeviceAttribute>>(v, "attributes"@)
    }

    open spec fn json_decodes(v: serde_json::Value, x: Device) -> bool {
        &&& field_decodes(v, "deviceURL"@, x.device_url)
        &&& field_decodes(v, "label"@, x.label)
        &&& field_decodes(v, "controllableName"@, x.controllable_name)
        &&& field_decodes(v, "subsystemId"@, x.subsystem_id)
        &&& field_decodes(v, "type"@, x.device_type)
        &&& field_decodes(v, "available"@, x.available)
        &&& field_decodes(v, "synced"@, x.synced)
        &&& field_decodes(v, "enabled"@, x.enabled)
        &&& field_decodes(v, "states"@, x.states)
        &&& field_decodes(v, "attributes"@, x.attributes)
    }

    fn from_json(v: &serde_json::Value) -> (r: Result<Device, RequestError>) {
        let device_url = decode_field::<String>(v, "deviceURL")?;
        let label = decode_field::<String>(v, "label")?;
        let controllable_name = decode_field::<String>(v, "controllableName")?;
        let subsystem_id = decode_field::<i64>(v, "subsystemId")?;
        let device_type = decode_field::<i64>(v, "type")?;
        let available = decode_field::<bool>(v, "available")?;
        let synced = decode_field::<bool>(v, "synced")?;
        let enabled = decode_field::<bool>(v, "enabled")?;
        let states = decode_field::<Vec<DeviceState>>(v, "states")?;
        let attributes = decode_field::<Vec<DeviceAttribute>>(v, "attributes")?;
        Ok(
            Device {
                device_url,
                label,
                controllable_name,
                subsystem_id,
                device_type,
                available,
                synced,
                enabled,
                states,
                attributes,
            },
        )
    }
}

impl Device {
    /// The device as `label|device URL|controllable name`.
    pub fn to_string(&self) -> (r: String)
        ensures
            r@ == self.label@ + "|"@ + self.device_url@ + "|"@ + self.controllable_name@,
    {
        let mut out = self.label.clone();
        out.append("|");
        out.append(self.device_url.as_str());
        out.append("|");
        out.append(self.controllable_name.as_str());
        out
    }
}

#[derive(Debug, Clone, PartialEq)]
pub struct Setup {
    pub gateways: Vec<Gateway>,
    pub devices: Vec<Device>,
}

impl JsonDecode for Setup {
    open spec fn json_shape(v: serde_json::Value) -> bool {
        field_shape::<Vec<Gateway>>(v, "gateways"@) && field_shape::<Vec<Device>>(v, "devices"@)
    }

    open spec fn json_decodes(v: serde_json::Value, x: Setup) -> bool {
        field_decodes(v, "gateways"@, x.gateways) && field_decodes(v, "devices"@, x.devices)
    }

    fn from_json(v: &serde_json::Value) -> (r: Result<Setup, RequestError>) {
        let gateways = decode_field::<Vec<Gateway>>(v, "gateways")?;
        let devices = decode_field::<Vec<Device>>(v, "devices")?;
        Ok(Setup { gateways, devices })
    }
}

#[derive(Debug, Clone, PartialEq)]
pub struct EventListener {
    pub id: String,
}

impl JsonDecode for EventListener {
    open spec fn json_shape(v: serde_json::Value) -> bool {
        field_shape::<String>(v, "id"@)
    }

    open spec fn json_decodes(v: serde_json::Value, x: EventListener) -> bool {
        field_decodes(v, "id"@, x.id)
    }

    fn from_json(v: &serde_json::Value) -> (r: Result<EventListener, RequestError>) {
        let id = decode_field::<String>(v, "id")?;
        Ok(EventListener { id })
    }
}

#[derive(Debug, Clone, PartialEq)]
pub struct Event {
    name: String,
    protocol_type: Option<i64>,
}

impl Event {
    pub closed spec fn spec_name(&self) -> Seq<char> {
        self.name@
    }

    pub closed spec fn spec_protocol_type(&self) -> Option<i64> {
        self.protocol_type
    }

    /// The event's name.
    pub fn name(&self) -> (r: &str)
        ensures
            r@ == self.spec_name(),
    {
        self.name.as_str()
    }

    /// The protocol type, where the event carries one.
    pub fn protocol_type(&self) -> (r: Option<i64>)
        ensures
            r == self.spec_protocol_type(),
    {
        self.protocol_type
    }
}

impl JsonDecode for Event {
    open spec fn json_shape(v: serde_json::Value) -> bool {
        field_shape::<String>(v, "name"@) && opt_field_shape::<i64>(v, "protocolType"@)
    }

    open spec fn json_decodes(v: serde_json::Value, x: Event) -> bool {
        (exists|s: String| s@ == x.spec_name() && #[trigger] field_decodes(v, "name"@, s))
            && opt_field_decodes(v, "protocolType"@, x.spec_protocol_type())
    }

    fn from_json(v: &serde_json::Value) -> (r: Result<Event, RequestError>) {
        let name = decode_field::<String>(v, "name")?;
        let protocol_type = decode_opt_field::<i64>(v, "protocolType")?;
        let ghost n = name;
        let e = Event { name, protocol_type };
        assert(field_decodes(*v, "name"@, n));
        Ok(e)
    }
}

#[derive(Debug, Clone, PartialEq)]
pub struct Command {
    pub name: String,
    pub parameters: Vec<String>,
}

impl JsonDecode for Command {
    open spec fn json_shape(v: serde_json::Value) -> bool {
        field_shape::<String>(v, "name"@) && field_shape::<Vec<String>>(v, "parameters"@)
    }

    open spec fn json_decodes(v: serde_json::Value, x: Command) -> bool {
        field_decodes(v, "name"@, x.name) && field_decodes(v, "parameters"@, x.parameters)
    }

    fn from_json(v: &serde_json::Value) -> (r: Result<Command, RequestError>) {
        let name = decode_field::<String>(v, "name")?;
        let parameters = decode_field::<Vec<String>>(v, "parameters")?;
        Ok(Command { name, parameters })
    }
}

#[derive(Debug, Clone, PartialEq)]
pub struct Action {
    pub device_url: String,
    pub commands: Vec<Command>,
}

impl JsonDecode for Action {
    open spec fn json_shape(v: serde_json::Value) -> bool {
        field_shape::<String>(v, "deviceURL"@) && field_shape::<Vec<Command>>(v, "commands"@)
    }

    open spec fn json_decodes(v: serde_json::Value, x: Action) -> bool {
        field_decodes(v, "deviceURL"@, x.device_url) && field_decodes(v, "commands"@, x.commands)
    }

    fn from_json(v: &serde_json::Value) -> (r: Result<Action, RequestError>) {
        let device_url = decode_field::<String>(v, "deviceURL")?;
        let commands = decode_field::<Vec<Command>>(v, "commands")?;
        Ok(Action { device_url, commands })
    }
}

#[derive(Debug, Clone, PartialEq)]
pub struct ActionGroup {
    pub label: Option<String>,
    pub actions: Vec<Action>,
}

impl JsonDecode for ActionGroup {
    open spec fn json_shape(v: serde_json::Value) -> bool {
        opt_field_shape::<String>(v, "label"@) && field_shape::<Vec<Action>>(v, "actions"@)
    }

    open spec fn json_decodes(v: serde_json::Value, x: ActionGroup) -> bool {
        opt_field_decodes(v, "label"@, x.label) && field_decodes(v, "actions"@, x.actions)
    }

    fn from_json(v: &serde_json::Value) -> (r: Result<ActionGroup, RequestError>) {
        let label = decode_opt_field::<String>(v, "label")?;
        let actions = decode_field::<Vec<Action>>(v, "actions")?;
        Ok(ActionGroup { label, actions })
    }
}

#[derive(Debug, Clone, PartialEq)]
pub struct ActionGroupExecutionId {
    pub exec_id: String,
}

impl JsonDecode for ActionGroupExecutionId {
    open spec fn json_shape(v: serde_json::Value) -> bool {
        field_shape::<String>(v, "execId"@)
    }

    open spec fn json_decodes(v: serde_json::Value, x: ActionGroupExecutionId) -> bool {
        field_decodes(v, "execId"@, x.exec_id)
    }

    fn from_json(v: &serde_json::Value) -> (r: Result<ActionGroupExecutionId, RequestError>) {
        let exec_id = decode_field::<String>(v, "execId")?;
        Ok(ActionGroupExecutionId { exec_id })
    }
}

#[derive(Debug, Clone, PartialEq)]
pub struct ActionGroupExecution {
    pub owner: String,
    pub id: String,
    pub execution_type: String,
    pub execution_sub_type: String,
    pub description: String,
    pub start_time: i64,
    pub action_group: ActionGroup,
    pub state: String,
}

impl JsonDecode for ActionGroupExecution {
    /// An execution is a JSON object with these members.
    open spec fn json_shape(v: serde_json::Value) -> bool {
        &&& json_is_object(v)
        &&& field_shape::<String>(v, "owner"@)
        &&& field_shape::<String>(v, "id"@)
        &&& field_shape::<String>(v, "executionType"@)
        &&& field_shape::<String>(v, "executionSubType"@)
        &&& field_shape::<String>(v, "description"@)
        &&& field_shape::<i64>(v, "startTime"@)
        &&& field_shape::<ActionGroup>(v, "actionGroup"@)
        &&& field_shape::<String>(v, "state"@)
    }

    open spec fn json_decodes(v: serde_json::Value, x: ActionGroupExecution) -> bool {
        &&& field_decodes(v, "owner"@, x.owner)
        &&& field_decodes(v, "id"@, x.id)
        &&& field_decodes(v, "executionType"@, x.execution_type)
        &&& field_decodes(v, "executionSubType"@, x.execution_sub_type)
        &&& field_decodes(v, "description"@, x.description)
        &&& field_decodes(v, "startTime"@, x.start_time)
        &&& field_decodes(v, "actionGroup"@, x.action_group)
        &&& field_decodes(v, "state"@, x.state)
    }

    fn from_json(v: &serde_json::Value) -> (r: Result<ActionGroupExecution, RequestError>) {
        if !v.is_object() {
            return Err(shape_error());
        }
        let owner = decode_field::<String>(v, "owner")?;
        let id = decode_field::<String>(v, "id")?;
        let execution_type = decode_field::<String>(v, "executionType")?;
        let execution_sub_type = decode_field::<String>(v, "executionSubType")?;
        let description = decode_field::<String>(v, "description")?;
        let start_time = decode_field::<i64>(v, "startTime")?;
        let action_group = decode_field::<ActionGroup>(v, "actionGroup")?;
        let state = decode_field::<String>(v, "state")?;
        Ok(
            ActionGroupExecution {
                owner,
                id,
                execution_type,
                execution_sub_type,
                description,
                start_time,
                action_group,
                state,
            },
        )
    }
}

/// The answer to cancelling all executions: an empty object.
#[derive(Debug, Clone, PartialEq)]
pub struct CancelAllExecutionsResult {}

impl JsonDecode for CancelAllExecutionsResult {
    open spec fn json_shape(v: serde_json::Value) -> bool {
        json_is_object(v)
    }

    open spec fn json_decodes(v: serde_json::Value, x: CancelAllExecutionsResult) -> bool {
        true
    }

    fn from_json(v: &serde_json::Value) -> (r: Result<CancelAllExecutionsResult, RequestError>) {
        if v.is_object() {
            Ok(CancelAllExecutionsResult {  })
        } else {
            Err(shape_error())
        }
    }
}

/// The answer to cancelling one execution: an empty object.
#[derive(Debug, Clone, PartialEq)]
pub struct CancelExecutionResult {}

impl JsonDecode for CancelExecutionResult {
    open spec fn json_shape(v: serde_json::Value) -> bool {
        json_is_object(v)
    }

    open spec fn json_decodes(v: serde_json::Value, x: CancelExecutionResult) -> bool {
        true
    }

    fn from_json(v: &serde_json::Value) -> (r: Result<CancelExecutionResult, RequestError>) {
        if v.is_object() {
            Ok(CancelExecutionResult {  })
        } else {
            Err(shape_error())
        }
    }
}

} // verus!
