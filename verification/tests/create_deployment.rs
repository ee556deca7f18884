use atlas_local_js::engine::{
    EngineBindingType, EngineCreationSource, EngineDuration, EnginePortBinding, EngineVersion,
};
use atlas_local_js::error::RequestError;
use atlas_local_js::models::create_deployment::CreateDeploymentOptions;
use atlas_local_js::models::list_deployments::{
    BindingType, CreationSource, CreationSourceType, MongoDBPortBinding,
};

fn empty_options() -> CreateDeploymentOptions {
    CreateDeploymentOptions {
        name: None,
        image: None,
        skip_pull_image: None,
        mongodb_version: None,
        wait_until_healthy: None,
        wait_until_healthy_timeout: None,
        creation_source: None,
        local_seed_location: None,
        mongodb_initdb_database: None,
        mongodb_initdb_root_password_file: None,
        mongodb_initdb_root_password: None,
        mongodb_initdb_root_username_file: None,
        mongodb_initdb_root_username: None,
        voyage_api_key: None,
        load_sample_data: None,
        mongot_log_file: None,
        runner_log_file: None,
        do_not_track: None,
        telemetry_base_url: None,
        mongodb_port_binding: None,
    }
}

fn full_options(version: &str) -> CreateDeploymentOptions {
    CreateDeploymentOptions {
        name: Some("test_deployment".to_string()),
        image: Some("mongodb/mongodb-atlas-local".to_string()),
        skip_pull_image: Some(true),
        mongodb_version: Some(version.to_string()),
        wait_until_healthy: Some(true),
        wait_until_healthy_timeout: Some(90),
        creation_source: Some(CreationSource {
            source_type: CreationSourceType::MCPServer,
            source: "MCPSERVER".to_string(),
        }),
        local_seed_location: Some("/host/seed-data".to_string()),
        mongodb_initdb_database: Some("testdb".to_string()),
        mongodb_initdb_root_password_file: Some("/run/secrets/password".to_string()),
        mongodb_initdb_root_password: Some("password123".to_string()),
        mongodb_initdb_root_username_file: Some("/run/secrets/username".to_string()),
        mongodb_initdb_root_username: Some("admin".to_string()),
        voyage_api_key: Some("key".to_string()),
        load_sample_data: Some(true),
        mongot_log_file: Some("/tmp/mongot.log".to_string()),
        runner_log_file: Some("/tmp/runner.log".to_string()),
        do_not_track: Some(false),
        telemetry_base_url: Some("https://telemetry.example.com".to_string()),
        mongodb_port_binding: Some(MongoDBPortBinding {
            binding_type: BindingType::Loopback,
            ip: "127.0.0.1".to_string(),
            port: 27017,
        }),
    }
}

#[test]
fn test_lib_create_deployment_options_from_create_deployment_options() {
    let create_deployment_options = CreateDeploymentOptions {
        name: Some("test_deployment".to_string()),
        image: Some("mongodb/mongodb-atlas-local".to_string()),
        skip_pull_image: None,
        mongodb_version: Some("8.0.0".to_string()),
        wait_until_healthy: None,
        wait_until_healthy_timeout: None,
        creation_source: Some(CreationSource {
            source_type: CreationSourceType::MCPServer,
            source: "MCPSERVER".to_string(),
        }),
        local_seed_location: Some("/host/seed-data".to_string()),
        mongodb_initdb_database: Some("testdb".to_string()),
        mongodb_initdb_root_password_file: Some("/run/secrets/password".to_string()),
        mongodb_initdb_root_password: Some("password123".to_string()),
        mongodb_initdb_root_username_file: Some("/run/secrets/username".to_string()),
        mongodb_initdb_root_username: Some("admin".to_string()),
        voyage_api_key: None,
        load_sample_data: None,
        mongot_log_file: Some("/tmp/mongot.log".to_string()),
        runner_log_file: Some("/tmp/runner.log".to_string()),
        do_not_track: Some(false),
        telemetry_base_url: Some("https://telemetry.example.com".to_string()),
        mongodb_port_binding: Some(MongoDBPortBinding {
            binding_type: BindingType::Loopback,
            ip: "127.0.0.1".to_string(),
            port: 27017,
        }),
    };
    let lib_create_deployment_options = create_deployment_options.to_internal().unwrap();
    assert_eq!(
        lib_create_deployment_options.name,
        Some("test_deployment".to_string())
    );
    assert_eq!(
        lib_create_deployment_options.image,
        Some("mongodb/mongodb-atlas-local".to_string())
    );
    assert_eq!(
        lib_create_deployment_options.mongodb_version,
        Some(EngineVersion::new(8, 0, 0))
    );
    assert_eq!(
        lib_create_deployment_options.creation_source,
        Some(EngineCreationSource::MCPServer)
    );
    assert_eq!(
        lib_create_deployment_options.local_seed_location,
        Some("/host/seed-data".to_string())
    );
    assert_eq!(
        lib_create_deployment_options.mongodb_initdb_database,
        Some("testdb".to_string())
    );
    assert_eq!(
        lib_create_deployment_options.mongodb_initdb_root_password_file,
        Some("/run/secrets/password".to_string())
    );
    assert_eq!(
        lib_create_deployment_options.mongodb_initdb_root_password,
        Some("password123".to_string())
    );
    assert_eq!(
        lib_create_deployment_options.mongodb_initdb_root_username_file,
        Some("/run/secrets/username".to_string())
    );
    assert_eq!(
        lib_create_deployment_options.mongodb_initdb_root_username,
        Some("admin".to_string())
    );
    assert_eq!(
        lib_create_deployment_options.mongot_log_file,
        Some("/tmp/mongot.log".to_string())
    );
    assert_eq!(
        lib_create_deployment_options.runner_log_file,
        Some("/tmp/runner.log".to_string())
    );
    assert_eq!(lib_create_deployment_options.do_not_track, Some(false));
    assert_eq!(
        lib_create_deployment_options.telemetry_base_url,
        Some("https://telemetry.example.com".to_string())
    );
    assert_eq!(
        lib_create_deployment_options.mongodb_port_binding,
        Some(EnginePortBinding {
            binding_type: EngineBindingType::Loopback,
            port: 27017,
        })
    );
}

#[test]
fn assembles_every_field() {
    let command = full_options("8.2.1").to_internal().unwrap();
    assert_eq!(command.skip_pull_image, Some(true));
    assert_eq!(command.mongodb_version, Some(EngineVersion::new(8, 2, 1)));
    assert_eq!(command.wait_until_healthy, Some(true));
    assert_eq!(
        command.wait_until_healthy_timeout,
        Some(EngineDuration { secs: 90 })
    );
    assert_eq!(command.voyage_api_key, Some("key".to_string()));
    assert_eq!(command.load_sample_data, Some(true));
}

#[test]
fn empty_request_gives_empty_command() {
    let command = empty_options().to_internal().unwrap();
    assert_eq!(command.name, None);
    assert_eq!(command.image, None);
    assert_eq!(command.skip_pull_image, None);
    assert_eq!(command.mongodb_version, None);
    assert_eq!(command.wait_until_healthy, None);
    assert_eq!(command.wait_until_healthy_timeout, None);
    assert_eq!(command.creation_source, None);
    assert_eq!(command.local_seed_location, None);
    assert_eq!(command.load_sample_data, None);
    assert_eq!(command.do_not_track, None);
    assert_eq!(command.telemetry_base_url, None);
    assert_eq!(command.mongodb_port_binding, None);
}

#[test]
fn latest_version_leaves_the_choice_to_the_engine() {
    let mut options = empty_options();
    options.mongodb_version = Some("latest".to_string());
    assert_eq!(options.to_internal().unwrap().mongodb_version, None);
}

#[test]
fn latest_is_case_sensitive() {
    let mut options = empty_options();
    options.mongodb_version = Some("Latest".to_string());
    assert_eq!(
        options.to_internal(),
        Err(RequestError::MalformedVersion("Latest".to_string()))
    );
}

#[test]
fn zero_timeout_is_kept_as_zero() {
    let mut options = empty_options();
    options.wait_until_healthy_timeout = Some(0);
    assert_eq!(
        options.to_internal().unwrap().wait_until_healthy_timeout,
        Some(EngineDuration { secs: 0 })
    );
}

#[test]
fn largest_timeout_is_kept() {
    let mut options = empty_options();
    options.wait_until_healthy_timeout = Some(u32::MAX);
    assert_eq!(
        options.to_internal().unwrap().wait_until_healthy_timeout,
        Some(EngineDuration { secs: 4294967295 })
    );
}

#[test]
fn garbage_version_aborts_the_assembly() {
    assert_eq!(
        full_options("garbage").to_internal(),
        Err(RequestError::MalformedVersion("garbage".to_string()))
    );
    let mut options = empty_options();
    options.mongodb_version = Some("garbage".to_string());
    assert_eq!(
        options.to_internal(),
        Err(RequestError::MalformedVersion("garbage".to_string()))
    );
}

#[test]
fn malformed_address_aborts_the_assembly() {
    let mut options = full_options("8.0.0");
    options.mongodb_port_binding = Some(MongoDBPortBinding {
        binding_type: BindingType::Specific,
        ip: "not-an-address".to_string(),
        port: 27017,
    });
    assert_eq!(
        options.to_internal(),
        Err(RequestError::MalformedAddress("not-an-address".to_string()))
    );
}

#[test]
fn version_error_comes_before_address_error() {
    let mut options = full_options("garbage");
    options.mongodb_port_binding = Some(MongoDBPortBinding {
        binding_type: BindingType::Specific,
        ip: "not-an-address".to_string(),
        port: 27017,
    });
    assert_eq!(
        options.to_internal(),
        Err(RequestError::MalformedVersion("garbage".to_string()))
    );
}

#[test]
fn assemble_with_takes_the_version_it_is_given() {
    let command = full_options("ignored")
        .assemble_with(Ok(Some(EngineVersion::new(7, 0, 3))))
        .unwrap();
    assert_eq!(command.mongodb_version, Some(EngineVersion::new(7, 0, 3)));
    assert_eq!(
        full_options("8.0.0").assemble_with(Err(RequestError::MalformedVersion("x".to_string()))),
        Err(RequestError::MalformedVersion("x".to_string()))
    );
}

#[test]
fn known_source_ignores_its_text_in_a_request() {
    let mut options = empty_options();
    options.creation_source = Some(CreationSource {
        source_type: CreationSourceType::Container,
        source: "anything".to_string(),
    });
    assert_eq!(
        options.to_internal().unwrap().creation_source,
        Some(EngineCreationSource::Container)
    );
}
