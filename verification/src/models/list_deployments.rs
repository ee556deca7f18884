//! Deployment records in the external schema, and the codecs between them and
//! the engine's representation.

use crate::engine::{
    text_view, version_text, EngineBindingType, EngineCreationSource,
    EngineCreationSourceView, EngineDeployment, EngineDeploymentView, EngineMongodbType,
    EnginePortBinding, EngineState,
};
use crate::error::{RequestError, RequestErrorView};
use crate::ip::{ip_address_of_text, ip_address_text, parse_ip_address};
use crate::ip_laws::ip_address_text_reads_back;
use vstd::prelude::*;
use vstd::string::*;

verus! {

/// The state of a deployment's container.
#[derive(Clone, Copy, Debug, PartialEq, Eq, Structural)]
pub enum State {
    Created,
    Dead,
    Exited,
    Paused,
    Removing,
    Restarting,
    Running,
}

/// The external state for an engine state: the one of the same name.
pub open spec fn state_to_external(state: EngineState) -> State {
    match state {
        EngineState::Created => State::Created,
        EngineState::Dead => State::Dead,
        EngineState::Exited => State::Exited,
        EngineState::Paused => State::Paused,
        EngineState::Removing => State::Removing,
        EngineState::Restarting => State::Restarting,
        EngineState::Running => State::Running,
    }
}

impl State {
    /// Maps the engine's state to the external one.
    pub fn to_external(state: EngineState) -> (external: State)
        ensures
            external == state_to_external(state),
    {
        match state {
            EngineState::Created => State::Created,
            EngineState::Dead => State::Dead,
            EngineState::Exited => State::Exited,
            EngineState::Paused => State::Paused,
            EngineState::Removing => State::Removing,
            EngineState::Restarting => State::Restarting,
            EngineState::Running => State::Running,
        }
    }
}

/// The edition of the database engine.
#[derive(Clone, Copy, Debug, PartialEq, Eq, Structural)]
pub enum MongodbType {
    Community,
    Enterprise,
}

/// The external edition for an engine edition: the one of the same name.
pub open spec fn mongodb_type_to_external(mongodb_type: EngineMongodbType) -> MongodbType {
    match mongodb_type {
        EngineMongodbType::Community => MongodbType::Community,
        EngineMongodbType::Enterprise => MongodbType::Enterprise,
    }
}

impl MongodbType {
    /// Maps the engine's edition to the external one.
    pub fn to_external(mongodb_type: EngineMongodbType) -> (external: MongodbType)
        ensures
            external == mongodb_type_to_external(mongodb_type),
    {
        match mongodb_type {
            EngineMongodbType::Community => MongodbType::Community,
            EngineMongodbType::Enterprise => MongodbType::Enterprise,
        }
    }
}

/// The kinds of port binding.
#[derive(Clone, Copy, Debug, PartialEq, Eq, Structural)]
pub enum BindingType {
    /// On the loopback interface, `127.0.0.1`.
    Loopback,
    /// On every interface, `0.0.0.0`.
    AnyInterface,
    /// On the interface with the address given.
    Specific,
}

/// A port binding in the external schema: its kind, an address as text, and
/// the port.
#[derive(Clone, Debug, PartialEq, Eq)]
pub struct MongoDBPortBinding {
    pub binding_type: BindingType,
    pub ip: String,
    pub port: u16,
}

/// Mathematical model of [`MongoDBPortBinding`].
pub struct MongoDBPortBindingView {
    pub binding_type: BindingType,
    pub ip: Seq<char>,
    pub port: u16,
}

impl View for MongoDBPortBinding {
    type V = MongoDBPortBindingView;

    open spec fn view(&self) -> MongoDBPortBindingView {
        MongoDBPortBindingView { binding_type: self.binding_type, ip: self.ip@, port: self.port }
    }
}

/// The engine's port binding for an external one. The address counts only
/// for a specific binding, where it has to be an IP literal.
pub open spec fn port_binding_to_internal(binding: MongoDBPortBindingView) -> Result<
    EnginePortBinding,
    RequestErrorView,
> {
    match binding.binding_type {
        BindingType::Loopback => Ok(
            EnginePortBinding { binding_type: EngineBindingType::Loopback, port: binding.port },
        ),
        BindingType::AnyInterface => Ok(
            EnginePortBinding { binding_type: EngineBindingType::AnyInterface, port: binding.port },
        ),
        BindingType::Specific => match ip_address_of_text(binding.ip) {
            Some(ip) => Ok(
                EnginePortBinding {
                    binding_type: EngineBindingType::Specific(ip),
                    port: binding.port,
                },
            ),
            None => Err(RequestErrorView::MalformedAddress(binding.ip)),
        },
    }
}

/// The external port binding for an engine one: the fixed address of its
/// kind, or the canonical text of its specific address.
pub open spec fn port_binding_to_external(binding: EnginePortBinding) -> MongoDBPortBindingView {
    match binding.binding_type {
        EngineBindingType::Loopback => MongoDBPortBindingView {
            binding_type: BindingType::Loopback,
            ip: "127.0.0.1"@,
            port: binding.port,
        },
        EngineBindingType::AnyInterface => MongoDBPortBindingView {
            binding_type: BindingType::AnyInterface,
            ip: "0.0.0.0"@,
            port: binding.port,
        },
        EngineBindingType::Specific(ip) => MongoDBPortBindingView {
            binding_type: BindingType::Specific,
            ip: ip_address_text(ip),
            port: binding.port,
        },
    }
}

/// The view of the result of mapping a port binding to the engine's.
pub open spec fn port_binding_result_view(
    result: Result<EnginePortBinding, RequestError>,
) -> Result<EnginePortBinding, RequestErrorView> {
    match result {
        Ok(binding) => Ok(binding),
        Err(error) => Err(error@),
    }
}

impl MongoDBPortBinding {
    /// Maps the external port binding to the engine's. A specific binding
    /// whose address is no IP literal is refused with `MalformedAddress`.
    pub fn to_internal(self) -> (internal: Result<EnginePortBinding, RequestError>)
        ensures
            port_binding_result_view(internal) == port_binding_to_internal(self@),
    {
        match self.binding_type {
            BindingType::Loopback => Ok(
                EnginePortBinding { binding_type: EngineBindingType::Loopback, port: self.port },
            ),
            BindingType::AnyInterface => Ok(
                EnginePortBinding {
                    binding_type: EngineBindingType::AnyInterface,
                    port: self.port,
                },
            ),
            BindingType::Specific => match parse_ip_address(self.ip.as_str()) {
                Some(ip) => Ok(
                    EnginePortBinding {
                        binding_type: EngineBindingType::Specific(ip),
                        port: self.port,
                    },
                ),
                None => Err(RequestError::MalformedAddress(self.ip)),
            },
        }
    }

    /// Maps the engine's port binding to the external one.
    pub fn to_external(binding: EnginePortBinding) -> (external: MongoDBPortBinding)
        ensures
            external@ == port_binding_to_external(binding),
    {
        match binding.binding_type {
            EngineBindingType::Loopback => MongoDBPortBinding {
                binding_type: BindingType::Loopback,
                ip: String::from_str("127.0.0.1"),
                port: binding.port,
            },
            EngineBindingType::AnyInterface => MongoDBPortBinding {
                binding_type: BindingType::AnyInterface,
                ip: String::from_str("0.0.0.0"),
                port: binding.port,
            },
            EngineBindingType::Specific(ip) => MongoDBPortBinding {
                binding_type: BindingType::Specific,
                ip: ip.to_text(),
                port: binding.port,
            },
        }
    }
}

/// A port binding that the engine accepted comes back with the kind and the
/// port it was sent with. Whatever address it was sent with, a loopback
/// binding comes back with `127.0.0.1` and a binding on every interface with
/// `0.0.0.0`.
pub proof fn port_binding_round_trip(binding: MongoDBPortBindingView, internal: EnginePortBinding)
    requires
        port_binding_to_internal(binding) == Ok::<EnginePortBinding, RequestErrorView>(internal),
    ensures
        port_binding_to_external(internal).binding_type == binding.binding_type,
        port_binding_to_external(internal).port == binding.port,
        binding.binding_type == BindingType::Loopback ==> port_binding_to_external(internal).ip
            == "127.0.0.1"@,
        binding.binding_type == BindingType::AnyInterface ==> port_binding_to_external(internal).ip
            == "0.0.0.0"@,
{
}

/// An engine port binding sent out and back is the same binding: the codec
/// loses nothing on the engine's side.
pub proof fn port_binding_internal_round_trip(binding: EnginePortBinding)
    ensures
        port_binding_to_internal(port_binding_to_external(binding)) == Ok::<
            EnginePortBinding,
            RequestErrorView,
        >(binding),
{
    match binding.binding_type {
        EngineBindingType::Specific(ip) => {
            ip_address_text_reads_back(ip);
        },
        _ => {},
    }
}

/// A loopback binding and a binding on every interface are accepted whatever
/// their address text is.
pub proof fn fixed_address_bindings_accepted(binding: MongoDBPortBindingView)
    requires
        binding.binding_type != BindingType::Specific,
    ensures
        port_binding_to_internal(binding) is Ok,
{
}

/// The provenance tags of the external schema.
#[derive(Clone, Copy, Debug, PartialEq, Eq, Structural)]
pub enum CreationSourceType {
    AtlasCLI,
    Container,
    MCPServer,
    Other,
}

/// What created a deployment: a tag and its text.
#[derive(Clone, Debug, PartialEq, Eq)]
pub struct CreationSource {
    pub source_type: CreationSourceType,
    pub source: String,
}

/// Mathematical model of [`CreationSource`].
pub struct CreationSourceView {
    pub source_type: CreationSourceType,
    pub source: Seq<char>,
}

impl View for CreationSource {
    type V = CreationSourceView;

    open spec fn view(&self) -> CreationSourceView {
        CreationSourceView { source_type: self.source_type, source: self.source@ }
    }
}

/// The fixed text of a known tag; for `Other` the text that the value carries.
pub open spec fn creation_source_text(source_type: CreationSourceType, carried: Seq<char>) -> Seq<
    char,
> {
    match source_type {
        CreationSourceType::AtlasCLI => "ATLASCLI"@,
        CreationSourceType::Container => "CONTAINER"@,
        CreationSourceType::MCPServer => "MCPSERVER"@,
        CreationSourceType::Other => carried,
    }
}

/// The engine's provenance value for an external one: decided by the tag
/// alone, the text counting only under `Other`.
pub open spec fn creation_source_to_internal(
    source: CreationSourceView,
) -> EngineCreationSourceView {
    match source.source_type {
        CreationSourceType::AtlasCLI => EngineCreationSourceView::AtlasCLI,
        CreationSourceType::Container => EngineCreationSourceView::Container,
        CreationSourceType::MCPServer => EngineCreationSourceView::MCPServer,
        CreationSourceType::Other => EngineCreationSourceView::Unknown(source.source),
    }
}

/// The external provenance value for an engine one.
pub open spec fn creation_source_to_external(
    source: EngineCreationSourceView,
) -> CreationSourceView {
    match source {
        EngineCreationSourceView::AtlasCLI => CreationSourceView {
            source_type: CreationSourceType::AtlasCLI,
            source: "ATLASCLI"@,
        },
        EngineCreationSourceView::Container => CreationSourceView {
            source_type: CreationSourceType::Container,
            source: "CONTAINER"@,
        },
        EngineCreationSourceView::MCPServer => CreationSourceView {
            source_type: CreationSourceType::MCPServer,
            source: "MCPSERVER"@,
        },
        EngineCreationSourceView::Unknown(text) => CreationSourceView {
            source_type: CreationSourceType::Other,
            source: text,
        },
    }
}

impl CreationSource {
    /// Maps the external provenance value to the engine's.
    pub fn to_internal(self) -> (internal: EngineCreationSource)
        ensures
            internal@ == creation_source_to_internal(self@),
    {
        match self.source_type {
            CreationSourceType::AtlasCLI => EngineCreationSource::AtlasCLI,
            CreationSourceType::Container => EngineCreationSource::Container,
            CreationSourceType::MCPServer => EngineCreationSource::MCPServer,
            CreationSourceType::Other => EngineCreationSource::Unknown(self.source),
        }
    }

    /// Maps the engine's provenance value to the external one.
    pub fn to_external(source: EngineCreationSource) -> (external: CreationSource)
        ensures
            external@ == creation_source_to_external(source@),
    {
        match source {
            EngineCreationSource::AtlasCLI => CreationSource {
                source_type: CreationSourceType::AtlasCLI,
                source: String::from_str("ATLASCLI"),
            },
            EngineCreationSource::Container => CreationSource {
                source_type: CreationSourceType::Container,
                source: String::from_str("CONTAINER"),
            },
            EngineCreationSource::MCPServer => CreationSource {
                source_type: CreationSourceType::MCPServer,
                source: String::from_str("MCPSERVER"),
            },
            EngineCreationSource::Unknown(text) => CreationSource {
                source_type: CreationSourceType::Other,
                source: text,
            },
        }
    }
}

/// Sending an external provenance value to the engine and back keeps its tag;
/// it comes back with the tag's fixed text, or under `Other` with the very
/// text it carried.
pub proof fn creation_source_round_trip(source: CreationSourceView)
    ensures
        creation_source_to_external(creation_source_to_internal(source)).source_type
            == source.source_type,
        creation_source_to_external(creation_source_to_internal(source)).source
            == creation_source_text(source.source_type, source.source),
{
}

/// Under a known tag the text of an external provenance value does not
/// count: two values with the same known tag are the same to the engine.
pub proof fn known_tag_decides(first: CreationSourceView, second: CreationSourceView)
    requires
        first.source_type == second.source_type,
        first.source_type != CreationSourceType::Other,
    ensures
        creation_source_to_internal(first) == creation_source_to_internal(second),
{
}

/// Sending an engine provenance value out and back gives the same value.
pub proof fn creation_source_internal_round_trip(source: EngineCreationSourceView)
    ensures
        creation_source_to_internal(creation_source_to_external(source)) == source,
{
}

/// A deployment in the external schema.
#[derive(Clone, Debug, PartialEq, Eq)]
pub struct Deployment {
    pub container_id: String,
    pub name: Option<String>,
    pub state: State,
    pub port_bindings: Option<MongoDBPortBinding>,
    pub mongodb_type: MongodbType,
    /// The version in its display text, such as `8.0.0`.
    pub mongodb_version: String,
    pub creation_source: Option<CreationSource>,
    pub local_seed_location: Option<String>,
    pub mongodb_initdb_database: Option<String>,
    pub mongodb_initdb_root_password_file: Option<String>,
    pub mongodb_initdb_root_password: Option<String>,
    pub mongodb_initdb_root_username_file: Option<String>,
    pub mongodb_initdb_root_username: Option<String>,
    pub mongodb_load_sample_data: Option<bool>,
    pub voyage_api_key: Option<String>,
    pub mongot_log_file: Option<String>,
    pub runner_log_file: Option<String>,
    pub do_not_track: Option<String>,
    pub telemetry_base_url: Option<String>,
}

/// Mathematical model of [`Deployment`].
pub struct DeploymentView {
    pub container_id: Seq<char>,
    pub name: Option<Seq<char>>,
    pub state: State,
    pub port_bindings: Option<MongoDBPortBindingView>,
    pub mongodb_type: MongodbType,
    pub mongodb_version: Seq<char>,
    pub creation_source: Option<CreationSourceView>,
    pub local_seed_location: Option<Seq<char>>,
    pub mongodb_initdb_database: Option<Seq<char>>,
    pub mongodb_initdb_root_password_file: Option<Seq<char>>,
    pub mongodb_initdb_root_password: Option<Seq<char>>,
    pub mongodb_initdb_root_username_file: Option<Seq<char>>,
    pub mongodb_initdb_root_username: Option<Seq<char>>,
    pub mongodb_load_sample_data: Option<bool>,
    pub voyage_api_key: Option<Seq<char>>,
    pub mongot_log_file: Option<Seq<char>>,
    pub runner_log_file: Option<Seq<char>>,
    pub do_not_track: Option<Seq<char>>,
    pub telemetry_base_url: Option<Seq<char>>,
}

impl View for Deployment {
    type V = DeploymentView;

    open spec fn view(&self) -> DeploymentView {
        DeploymentView {
            container_id: self.container_id@,
            name: text_view(self.name),
            state: self.state,
            port_bindings: match self.port_bindings {
                Some(binding) => Some(binding@),
                None => None,
            },
            mongodb_type: self.mongodb_type,
            mongodb_version: self.mongodb_version@,
            creation_source: match self.creation_source {
                Some(source) => Some(source@),
                None => None,
            },
            local_seed_location: text_view(self.local_seed_location),
            mongodb_initdb_database: text_view(self.mongodb_initdb_database),
            mongodb_initdb_root_password_file: text_view(self.mongodb_initdb_root_password_file),
            mongodb_initdb_root_password: text_view(self.mongodb_initdb_root_password),
            mongodb_initdb_root_username_file: text_view(self.mongodb_initdb_root_username_file),
            mongodb_initdb_root_username: text_view(self.mongodb_initdb_root_username),
            mongodb_load_sample_data: self.mongodb_load_sample_data,
            voyage_api_key: text_view(self.voyage_api_key),
            mongot_log_file: text_view(self.mongot_log_file),
            runner_log_file: text_view(self.runner_log_file),
            do_not_track: text_view(self.do_not_track),
            telemetry_base_url: text_view(self.telemetry_base_url),
        }
    }
}

/// The external form of an engine record. State and edition go to their
/// namesakes, the version to its display text, port binding and provenance
/// through their codecs; every other field is copied.
pub open spec fn deployment_to_external(record: EngineDeploymentView) -> DeploymentView {
    DeploymentView {
        container_id: record.container_id,
        name: record.name,
        state: state_to_external(record.state),
        port_bindings: match record.port_bindings {
            Some(binding) => Some(port_binding_to_external(binding)),
            None => None,
        },
        mongodb_type: mongodb_type_to_external(record.mongodb_type),
        mongodb_version: version_text(record.mongodb_version),
        creation_source: match record.creation_source {
            Some(source) => Some(creation_source_to_external(source)),
            None => None,
        },
        local_seed_location: record.local_seed_location,
        mongodb_initdb_database: record.mongodb_initdb_database,
        mongodb_initdb_root_password_file: record.mongodb_initdb_root_password_file,
        mongodb_initdb_root_password: record.mongodb_initdb_root_password,
        mongodb_initdb_root_username_file: record.mongodb_initdb_root_username_file,
        mongodb_initdb_root_username: record.mongodb_initdb_root_username,
        mongodb_load_sample_data: record.mongodb_load_sample_data,
        voyage_api_key: record.voyage_api_key,
        mongot_log_file: record.mongot_log_file,
        runner_log_file: record.runner_log_file,
        do_not_track: record.do_not_track,
        telemetry_base_url: record.telemetry_base_url,
    }
}

impl Deployment {
    /// Projects an engine record into the external schema. Every record has a
    /// projection.
    pub fn to_external(record: EngineDeployment) -> (external: Deployment)
        ensures
            external@ == deployment_to_external(record@),
    {
        let mongodb_version = record.mongodb_version.to_text();
        Deployment {
            container_id: record.container_id,
            name: record.name,
            state: State::to_external(record.state),
            port_bindings: match record.port_bindings {
                Some(binding) => Some(MongoDBPortBinding::to_external(binding)),
                None => None,
            },
            mongodb_type: MongodbType::to_external(record.mongodb_type),
            mongodb_version,
            creation_source: match record.creation_source {
                Some(source) => Some(CreationSource::to_external(source)),
                None => None,
            },
            local_seed_location: record.local_seed_location,
            mongodb_initdb_database: record.mongodb_initdb_database,
            mongodb_initdb_root_password_file: record.mongodb_initdb_root_password_file,
            mongodb_initdb_root_password: record.mongodb_initdb_root_password,
            mongodb_initdb_root_username_file: record.mongodb_initdb_root_username_file,
            mongodb_initdb_root_username: record.mongodb_initdb_root_username,
            mongodb_load_sample_data: record.mongodb_load_sample_data,
            voyage_api_key: record.voyage_api_key,
            mongot_log_file: record.mongot_log_file,
            runner_log_file: record.runner_log_file,
            do_not_track: record.do_not_track,
            telemetry_base_url: record.telemetry_base_url,
        }
    }
}

/// Projects each engine record of a list, in order.
pub fn deployments_to_external(records: Vec<EngineDeployment>) -> (external: Vec<Deployment>)
    ensures
        external@.len() == records@.len(),
        forall|i: int|
            0 <= i < records@.len() ==> (#[trigger] external@[i])@ == deployment_to_external(
                records@[i]@,
            ),
{
    let mut records = records;
    let ghost all = records@;
    let mut reversed: Vec<Deployment> = Vec::new();
    while records.len() > 0
        invariant
            records@.len() + reversed@.len() == all.len(),
            records@ == all.subrange(0, records@.len() as int),
            forall|j: int|
                0 <= j < reversed@.len() ==> (#[trigger] reversed@[j])@ == deployment_to_external(
                    all[all.len() - 1 - j]@,
                ),
        decreases records.len(),
    {
        let record = records.pop().unwrap();
        reversed.push(Deployment::to_external(record));
    }
    let mut external: Vec<Deployment> = Vec::new();
    while reversed.len() > 0
        invariant
            reversed@.len() + external@.len() == all.len(),
            forall|j: int|
                0 <= j < reversed@.len() ==> (#[trigger] reversed@[j])@ == deployment_to_external(
                    all[all.len() - 1 - j]@,
                ),
            forall|i: int|
                0 <= i < external@.len() ==> (#[trigger] external@[i])@ == deployment_to_external(
                    all[i]@,
                ),
        decreases reversed.len(),
    {
        let deployment = reversed.pop().unwrap();
        external.push(deployment);
    }
    external
}

} // verus!
