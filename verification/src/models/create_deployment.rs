//! The request to create a deployment, and its assembly into the engine's
//! command.

use crate::engine::{
    text_view, EngineCreateDeploymentOptions, EngineCreateDeploymentOptionsView, EngineDuration,
    EnginePortBinding, EngineVersion, EngineVersionView,
};
use crate::error::{RequestError, RequestErrorView};
use crate::models::list_deployments::{
    creation_source_to_internal, port_binding_to_internal, CreationSource, CreationSourceView,
    MongoDBPortBinding, MongoDBPortBindingView,
};
use crate::version::{resolution_view, resolve_version, resolved_version, semver_parse};
use vstd::prelude::*;

verus! {

/// A request to create a deployment. Every field is optional, and a field
/// left out leaves the choice to the engine.
#[derive(Clone, Debug, PartialEq, Eq)]
pub struct CreateDeploymentOptions {
    pub name: Option<String>,
    pub image: Option<String>,
    pub skip_pull_image: Option<bool>,
    /// `latest`, or a semantic version such as `8.0.0`.
    pub mongodb_version: Option<String>,
    pub wait_until_healthy: Option<bool>,
    /// In whole seconds; zero asks not to wait.
    pub wait_until_healthy_timeout: Option<u32>,
    pub creation_source: Option<CreationSource>,
    pub local_seed_location: Option<String>,
    pub mongodb_initdb_database: Option<String>,
    pub mongodb_initdb_root_password_file: Option<String>,
    pub mongodb_initdb_root_password: Option<String>,
    pub mongodb_initdb_root_username_file: Option<String>,
    pub mongodb_initdb_root_username: Option<String>,
    pub voyage_api_key: Option<String>,
    pub load_sample_data: Option<bool>,
    pub mongot_log_file: Option<String>,
    pub runner_log_file: Option<String>,
    pub do_not_track: Option<bool>,
    pub telemetry_base_url: Option<String>,
    pub mongodb_port_binding: Option<MongoDBPortBinding>,
}

/// Mathematical model of [`CreateDeploymentOptions`].
pub struct CreateDeploymentOptionsView {
    pub name: Option<Seq<char>>,
    pub image: Option<Seq<char>>,
    pub skip_pull_image: Option<bool>,
    pub mongodb_version: Option<Seq<char>>,
    pub wait_until_healthy: Option<bool>,
    pub wait_until_healthy_timeout: Option<u32>,
    pub creation_source: Option<CreationSourceView>,
    pub local_seed_location: Option<Seq<char>>,
    pub mongodb_initdb_database: Option<Seq<char>>,
    pub mongodb_initdb_root_password_file: Option<Seq<char>>,
    pub mongodb_initdb_root_password: Option<Seq<char>>,
    pub mongodb_initdb_root_username_file: Option<Seq<char>>,
    pub mongodb_initdb_root_username: Option<Seq<char>>,
    pub voyage_api_key: Option<Seq<char>>,
    pub load_sample_data: Option<bool>,
    pub mongot_log_file: Option<Seq<char>>,
    pub runner_log_file: Option<Seq<char>>,
    pub do_not_track: Option<bool>,
    pub telemetry_base_url: Option<Seq<char>>,
    pub mongodb_port_binding: Option<MongoDBPortBindingView>,
}

impl View for CreateDeploymentOptions {
    type V = CreateDeploymentOptionsView;

    open spec fn view(&self) -> CreateDeploymentOptionsView {
        CreateDeploymentOptionsView {
            name: text_view(self.name),
            image: text_view(self.image),
            skip_pull_image: self.skip_pull_image,
            mongodb_version: text_view(self.mongodb_version),
            wait_until_healthy: self.wait_until_healthy,
            wait_until_healthy_timeout: self.wait_until_healthy_timeout,
            creation_source: match self.creation_source {
                Some(source) => Some(source@),
                None => None,
            },
            local_seed_location: text_view(self.local_seed_location),
            mongodb_initdb_database: text_view(self.mongodb_initdb_database),
            mongodb_initdb_root_password_file: text_view(self.mongodb_initdb_root_password_file),
            mongodb_initdb_root_password: text_view(self.mongodb_initdb_root_password),
            mongodb_initdb_root_username_file: text_view(self.mongodb_initdb_root_username_file),
            mongodb_initdb_root_username: text_view(self.mongodb_initdb_root_username),
            voyage_api_key: text_view(self.voyage_api_key),
            load_sample_data: self.load_sample_data,
            mongot_log_file: text_view(self.mongot_log_file),
            runner_log_file: text_view(self.runner_log_file),
            do_not_track: self.do_not_track,
            telemetry_base_url: text_view(self.telemetry_base_url),
            mongodb_port_binding: match self.mongodb_port_binding {
                Some(binding) => Some(binding@),
                None => None,
            },
        }
    }
}

/// The duration of a number of whole seconds.
pub open spec fn duration_of_seconds(seconds: u32) -> EngineDuration {
    EngineDuration { secs: seconds as u64 }
}

/// The engine's port binding for the one of a request, if it has one.
pub open spec fn requested_port_binding(binding: Option<MongoDBPortBindingView>) -> Result<
    Option<EnginePortBinding>,
    RequestErrorView,
> {
    match binding {
        None => Ok(None),
        Some(b) => match port_binding_to_internal(b) {
            Ok(internal) => Ok(Some(internal)),
            Err(error) => Err(error),
        },
    }
}

/// The engine's command for a request, given the version that its version
/// text resolved to. The version's error comes first, then the port
/// binding's. The timeout becomes a duration, the provenance goes through its
/// codec, and every other field is copied.
pub open spec fn assembled_command(
    options: CreateDeploymentOptionsView,
    version: Result<Option<EngineVersionView>, RequestErrorView>,
) -> Result<EngineCreateDeploymentOptionsView, RequestErrorView> {
    match (version, requested_port_binding(options.mongodb_port_binding)) {
        (Err(error), _) => Err(error),
        (Ok(_), Err(error)) => Err(error),
        (Ok(mongodb_version), Ok(mongodb_port_binding)) => Ok(
            EngineCreateDeploymentOptionsView {
                name: options.name,
                image: options.image,
                skip_pull_image: options.skip_pull_image,
                mongodb_version,
                wait_until_healthy: options.wait_until_healthy,
                wait_until_healthy_timeout: match options.wait_until_healthy_timeout {
                    Some(seconds) => Some(duration_of_seconds(seconds)),
                    None => None,
                },
                creation_source: match options.creation_source {
                    Some(source) => Some(creation_source_to_internal(source)),
                    None => None,
                },
                local_seed_location: options.local_seed_location,
                mongodb_initdb_database: options.mongodb_initdb_database,
                mongodb_initdb_root_password_file: options.mongodb_initdb_root_password_file,
                mongodb_initdb_root_password: options.mongodb_initdb_root_password,
                mongodb_initdb_root_username_file: options.mongodb_initdb_root_username_file,
                mongodb_initdb_root_username: options.mongodb_initdb_root_username,
                voyage_api_key: options.voyage_api_key,
                load_sample_data: options.load_sample_data,
                mongot_log_file: options.mongot_log_file,
                runner_log_file: options.runner_log_file,
                do_not_track: options.do_not_track,
                telemetry_base_url: options.telemetry_base_url,
                mongodb_port_binding,
            },
        ),
    }
}

/// The view of an assembly's result.
pub open spec fn assembly_view(
    result: Result<EngineCreateDeploymentOptions, RequestError>,
) -> Result<EngineCreateDeploymentOptionsView, RequestErrorView> {
    match result {
        Ok(command) => Ok(command@),
        Err(error) => Err(error@),
    }
}

impl CreateDeploymentOptions {
    /// Assembles the engine's command from the request and from what its
    /// version text resolved to. The version text itself is not read here.
    pub fn assemble_with(
        self,
        version: Result<Option<EngineVersion>, RequestError>,
    ) -> (command: Result<EngineCreateDeploymentOptions, RequestError>)
        ensures
            assembly_view(command) == assembled_command(self@, resolution_view(version)),
    {
        let mongodb_version = match version {
            Ok(v) => v,
            Err(error) => { return Err(error); },
        };
        let mongodb_port_binding = match self.mongodb_port_binding {
            None => None,
            Some(binding) => match binding.to_internal() {
                Ok(internal) => Some(internal),
                Err(error) => { return Err(error); },
            },
        };
        Ok(
            EngineCreateDeploymentOptions {
                name: self.name,
                image: self.image,
                skip_pull_image: self.skip_pull_image,
                mongodb_version,
                wait_until_healthy: self.wait_until_healthy,
                wait_until_healthy_timeout: match self.wait_until_healthy_timeout {
                    Some(seconds) => Some(EngineDuration { secs: seconds as u64 }),
                    None => None,
                },
                creation_source: match self.creation_source {
                    Some(source) => Some(source.to_internal()),
                    None => None,
                },
                local_seed_location: self.local_seed_location,
                mongodb_initdb_database: self.mongodb_initdb_database,
                mongodb_initdb_root_password_file: self.mongodb_initdb_root_password_file,
                mongodb_initdb_root_password: self.mongodb_initdb_root_password,
                mongodb_initdb_root_username_file: self.mongodb_initdb_root_username_file,
                mongodb_initdb_root_username: self.mongodb_initdb_root_username,
                voyage_api_key: self.voyage_api_key,
                load_sample_data: self.load_sample_data,
                mongot_log_file: self.mongot_log_file,
                runner_log_file: self.runner_log_file,
                do_not_track: self.do_not_track,
                telemetry_base_url: self.telemetry_base_url,
                mongodb_port_binding,
            },
        )
    }

    /// Assembles the engine's command from the request, or fails with the
    /// error of its version text or of its port binding. Nothing is assembled
    /// in part.
    pub fn to_internal(self) -> (command: Result<EngineCreateDeploymentOptions, RequestError>)
        ensures
            assembly_view(command) == assembled_command(
                self@,
                resolved_version(
                    self@.mongodb_version,
                    match self@.mongodb_version {
                        Some(text) => semver_parse(text),
                        None => None,
                    },
                ),
            ),
    {
        let mut options = self;
        let requested = options.mongodb_version.take();
        let version = resolve_version(requested);
        options.assemble_with(version)
    }
}

/// A request whose version text is neither `latest` nor read as a semantic
/// version assembles to no command, whatever its other fields hold: the
/// result is `MalformedVersion` with the text.
pub proof fn malformed_version_aborts(options: CreateDeploymentOptionsView, text: Seq<char>)
    requires
        options.mongodb_version == Some(text),
        text != "latest"@,
        semver_parse(text) is None,
    ensures
        assembled_command(options, resolved_version(options.mongodb_version, semver_parse(text)))
            == Err::<EngineCreateDeploymentOptionsView, RequestErrorView>(
            RequestErrorView::MalformedVersion(text),
        ),
{
}

} // verus!
