//! The deployment engine's representation of deployments, as plain values.

use crate::ip::IpAddress;
use crate::text::{decimal_text, push_char, push_decimal};
use vstd::prelude::*;
use vstd::string::*;

verus! {

/// The view of an optional text.
pub open spec fn text_view(text: Option<String>) -> Option<Seq<char>> {
    match text {
        Some(t) => Some(t@),
        None => None,
    }
}

/// The state of a deployment's container.
#[derive(Clone, Copy, Debug, PartialEq, Eq, Structural)]
pub enum EngineState {
    Created,
    Dead,
    Exited,
    Paused,
    Removing,
    Restarting,
    Running,
}

/// The edition of the database engine.
#[derive(Clone, Copy, Debug, PartialEq, Eq, Structural)]
pub enum EngineMongodbType {
    Community,
    Enterprise,
}

/// Where a deployment's service port is exposed.
#[derive(Clone, Copy, Debug, PartialEq, Eq, Structural)]
pub enum EngineBindingType {
    /// On the loopback interface only.
    Loopback,
    /// On every interface.
    AnyInterface,
    /// On the interface with this address.
    Specific(IpAddress),
}

/// A deployment's port binding as the engine holds it.
#[derive(Clone, Copy, Debug, PartialEq, Eq, Structural)]
pub struct EnginePortBinding {
    pub binding_type: EngineBindingType,
    pub port: u16,
}

/// A length of time, in whole seconds.
#[derive(Clone, Copy, Debug, PartialEq, Eq, Structural)]
pub struct EngineDuration {
    pub secs: u64,
}

/// A resolved semantic version.
#[derive(Clone, Debug, PartialEq, Eq)]
pub struct EngineVersion {
    pub major: u64,
    pub minor: u64,
    pub patch: u64,
    /// The pre-release identifiers, without the hyphen before them; empty
    /// where the version has none.
    pub pre: String,
    /// The build metadata, without the plus sign before it; empty where the
    /// version has none.
    pub build: String,
}

/// Mathematical model of [`EngineVersion`].
pub struct EngineVersionView {
    pub major: u64,
    pub minor: u64,
    pub patch: u64,
    pub pre: Seq<char>,
    pub build: Seq<char>,
}

impl View for EngineVersion {
    type V = EngineVersionView;

    open spec fn view(&self) -> EngineVersionView {
        EngineVersionView {
            major: self.major,
            minor: self.minor,
            patch: self.patch,
            pre: self.pre@,
            build: self.build@,
        }
    }
}

/// The display text of a version: the three numbers in decimal with dots
/// between, then a hyphen and the pre-release identifiers if there are any,
/// then a plus sign and the build metadata if there is any.
pub open spec fn version_text(version: EngineVersionView) -> Seq<char> {
    decimal_text(version.major as nat) + seq!['.'] + decimal_text(version.minor as nat) + seq!['.']
        + decimal_text(version.patch as nat) + (if version.pre.len() > 0 {
        seq!['-'] + version.pre
    } else {
        Seq::empty()
    }) + (if version.build.len() > 0 {
        seq!['+'] + version.build
    } else {
        Seq::empty()
    })
}

impl EngineVersion {
    /// The version `major.minor.patch`, with no pre-release identifiers and no
    /// build metadata.
    pub fn new(major: u64, minor: u64, patch: u64) -> (version: EngineVersion)
        ensures
            version@ == (EngineVersionView {
                major,
                minor,
                patch,
                pre: Seq::empty(),
                build: Seq::empty(),
            }),
    {
        EngineVersion { major, minor, patch, pre: String::new(), build: String::new() }
    }

    /// The display text of the version.
    pub fn to_text(&self) -> (text: String)
        ensures
            text@ == version_text(self@),
    {
        let mut out = String::new();
        push_decimal(&mut out, self.major);
        push_char(&mut out, '.');
        push_decimal(&mut out, self.minor);
        push_char(&mut out, '.');
        push_decimal(&mut out, self.patch);
        if !self.pre.as_str().is_empty() {
            push_char(&mut out, '-');
            out.append(self.pre.as_str());
        }
        if !self.build.as_str().is_empty() {
            push_char(&mut out, '+');
            out.append(self.build.as_str());
        }
        assert(out@ =~= version_text(self@));
        out
    }
}

/// What created a deployment, as the engine records it.
#[derive(Clone, Debug, PartialEq, Eq)]
pub enum EngineCreationSource {
    AtlasCLI,
    Container,
    MCPServer,
    /// A provenance value this layer has no tag for, with its text.
    Unknown(String),
}

/// Mathematical model of [`EngineCreationSource`].
pub enum EngineCreationSourceView {
    AtlasCLI,
    Container,
    MCPServer,
    Unknown(Seq<char>),
}

impl View for EngineCreationSource {
    type V = EngineCreationSourceView;

    open spec fn view(&self) -> EngineCreationSourceView {
        match self {
            EngineCreationSource::AtlasCLI => EngineCreationSourceView::AtlasCLI,
            EngineCreationSource::Container => EngineCreationSourceView::Container,
            EngineCreationSource::MCPServer => EngineCreationSourceView::MCPServer,
            EngineCreationSource::Unknown(text) => EngineCreationSourceView::Unknown(text@),
        }
    }
}

/// The view of an optional provenance value.
pub open spec fn creation_source_view(source: Option<EngineCreationSource>) -> Option<
    EngineCreationSourceView,
> {
    match source {
        Some(s) => Some(s@),
        None => None,
    }
}

/// The engine's record of an existing deployment.
#[derive(Clone, Debug, PartialEq, Eq)]
pub struct EngineDeployment {
    pub container_id: String,
    pub name: Option<String>,
    pub state: EngineState,
    pub port_bindings: Option<EnginePortBinding>,
    pub mongodb_type: EngineMongodbType,
    pub mongodb_version: EngineVersion,
    pub creation_source: Option<EngineCreationSource>,
    pub local_seed_location: Option<String>,
    pub mongodb_initdb_database: Option<String>,
    pub mongodb_initdb_root_password_file: Option<String>,
    pub mongodb_initdb_root_password: Option<String>,
    pub mongodb_initdb_root_username_file: Option<String>,
    pub mongodb_initdb_root_username: Option<String>,
    pub mongodb_load_sample_data: Option<bool>,
    pub voyage_api_key: Option<String>,
    pub mongot_log_file: Option<String>,
    pub runner_log_file: Option<String>,
    pub do_not_track: Option<String>,
    pub telemetry_base_url: Option<String>,
}

/// Mathematical model of [`EngineDeployment`].
pub struct EngineDeploymentView {
    pub container_id: Seq<char>,
    pub name: Option<Seq<char>>,
    pub state: EngineState,
    pub port_bindings: Option<EnginePortBinding>,
    pub mongodb_type: EngineMongodbType,
    pub mongodb_version: EngineVersionView,
    pub creation_source: Option<EngineCreationSourceView>,
    pub local_seed_location: Option<Seq<char>>,
    pub mongodb_initdb_database: Option<Seq<char>>,
    pub mongodb_initdb_root_password_file: Option<Seq<char>>,
    pub mongodb_initdb_root_password: Option<Seq<char>>,
    pub mongodb_initdb_root_username_file: Option<Seq<char>>,
    pub mongodb_initdb_root_username: Option<Seq<char>>,
    pub mongodb_load_sample_data: Option<bool>,
    pub voyage_api_key: Option<Seq<char>>,
    pub mongot_log_file: Option<Seq<char>>,
    pub runner_log_file: Option<Seq<char>>,
    pub do_not_track: Option<Seq<char>>,
    pub telemetry_base_url: Option<Seq<char>>,
}

impl View for EngineDeployment {
    type V = EngineDeploymentView;

    open spec fn view(&self) -> EngineDeploymentView {
        EngineDeploymentView {
            container_id: self.container_id@,
            name: text_view(self.name),
            state: self.state,
            port_bindings: self.port_bindings,
            mongodb_type: self.mongodb_type,
            mongodb_version: self.mongodb_version@,
            creation_source: creation_source_view(self.creation_source),
            local_seed_location: text_view(self.local_seed_location),
            mongodb_initdb_database: text_view(self.mongodb_initdb_database),
            mongodb_initdb_root_password_file: text_view(self.mongodb_initdb_root_password_file),
            mongodb_initdb_root_password: text_view(self.mongodb_initdb_root_password),
            mongodb_initdb_root_username_file: text_view(self.mongodb_initdb_root_username_file),
            mongodb_initdb_root_username: text_view(self.mongodb_initdb_root_username),
            mongodb_load_sample_data: self.mongodb_load_sample_data,
            voyage_api_key: text_view(self.voyage_api_key),
            mongot_log_file: text_view(self.mongot_log_file),
            runner_log_file: text_view(self.runner_log_file),
            do_not_track: text_view(self.do_not_track),
            telemetry_base_url: text_view(self.telemetry_base_url),
        }
    }
}

/// The engine's command to create a deployment.
#[derive(Clone, Debug, PartialEq, Eq)]
pub struct EngineCreateDeploymentOptions {
    pub name: Option<String>,
    pub image: Option<String>,
    pub skip_pull_image: Option<bool>,
    /// The version asked for; `None` leaves the choice to the engine.
    pub mongodb_version: Option<EngineVersion>,
    pub wait_until_healthy: Option<bool>,
    pub wait_until_healthy_timeout: Option<EngineDuration>,
    pub creation_source: Option<EngineCreationSource>,
    pub local_seed_location: Option<String>,
    pub mongodb_initdb_database: Option<String>,
    pub mongodb_initdb_root_password_file: Option<String>,
    pub mongodb_initdb_root_password: Option<String>,
    pub mongodb_initdb_root_username_file: Option<String>,
    pub mongodb_initdb_root_username: Option<String>,
    pub voyage_api_key: Option<String>,
    pub load_sample_data: Option<bool>,
    pub mongot_log_file: Option<String>,
    pub runner_log_file: Option<String>,
    pub do_not_track: Option<bool>,
    pub telemetry_base_url: Option<String>,
    pub mongodb_port_binding: Option<EnginePortBinding>,
}

/// Mathematical model of [`EngineCreateDeploymentOptions`].
pub struct EngineCreateDeploymentOptionsView {
    pub name: Option<Seq<char>>,
    pub image: Option<Seq<char>>,
    pub skip_pull_image: Option<bool>,
    pub mongodb_version: Option<EngineVersionView>,
    pub wait_until_healthy: Option<bool>,
    pub wait_until_healthy_timeout: Option<EngineDuration>,
    pub creation_source: Option<EngineCreationSourceView>,
    pub local_seed_location: Option<Seq<char>>,
    pub mongodb_initdb_database: Option<Seq<char>>,
    pub mongodb_initdb_root_password_file: Option<Seq<char>>,
    pub mongodb_initdb_root_password: Option<Seq<char>>,
    pub mongodb_initdb_root_username_file: Option<Seq<char>>,
    pub mongodb_initdb_root_username: Option<Seq<char>>,
    pub voyage_api_key: Option<Seq<char>>,
    pub load_sample_data: Option<bool>,
    pub mongot_log_file: Option<Seq<char>>,
    pub runner_log_file: Option<Seq<char>>,
    pub do_not_track: Option<bool>,
    pub telemetry_base_url: Option<Seq<char>>,
    pub mongodb_port_binding: Option<EnginePortBinding>,
}

impl View for EngineCreateDeploymentOptions {
    type V = EngineCreateDeploymentOptionsView;

    open spec fn view(&self) -> EngineCreateDeploymentOptionsView {
        EngineCreateDeploymentOptionsView {
            name: text_view(self.name),
            image: text_view(self.image),
            skip_pull_image: self.skip_pull_image,
            mongodb_version: match self.mongodb_version {
                Some(v) => Some(v@),
                None => None,
            },
            wait_until_healthy: self.wait_until_healthy,
            wait_until_healthy_timeout: self.wait_until_healthy_timeout,
            creation_source: creation_source_view(self.creation_source),
            local_seed_location: text_view(self.local_seed_location),
            mongodb_initdb_database: text_view(self.mongodb_initdb_database),
            mongodb_initdb_root_password_file: text_view(self.mongodb_initdb_root_password_file),
            mongodb_initdb_root_password: text_view(self.mongodb_initdb_root_password),
            mongodb_initdb_root_username_file: text_view(self.mongodb_initdb_root_username_file),
            mongodb_initdb_root_username: text_view(self.mongodb_initdb_root_username),
            voyage_api_key: text_view(self.voyage_api_key),
            load_sample_data: self.load_sample_data,
            mongot_log_file: text_view(self.mongot_log_file),
            runner_log_file: text_view(self.runner_log_file),
            do_not_track: self.do_not_track,
            telemetry_base_url: text_view(self.telemetry_base_url),
            mongodb_port_binding: self.mongodb_port_binding,
        }
    }
}

/// The engine's request for the connection string of a deployment.
#[derive(Clone, Debug, PartialEq, Eq)]
pub struct EngineGetConnectionStringOptions {
    pub container_id_or_name: String,
    pub db_username: Option<String>,
    pub db_password: Option<String>,
    pub verify: Option<bool>,
}

/// Mathematical model of [`EngineGetConnectionStringOptions`].
pub struct EngineGetConnectionStringOptionsView {
    pub container_id_or_name: Seq<char>,
    pub db_username: Option<Seq<char>>,
    pub db_password: Option<Seq<char>>,
    pub verify: Option<bool>,
}

impl View for EngineGetConnectionStringOptions {
    type V = EngineGetConnectionStringOptionsView;

    open spec fn view(&self) -> EngineGetConnectionStringOptionsView {
        EngineGetConnectionStringOptionsView {
            container_id_or_name: self.container_id_or_name@,
            db_username: text_view(self.db_username),
            db_password: text_view(self.db_password),
            verify: self.verify,
        }
    }
}

} // verus!
