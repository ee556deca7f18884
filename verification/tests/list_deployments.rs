use atlas_local_js::engine::{
    EngineBindingType, EngineCreationSource, EngineDeployment, EngineMongodbType,
    EnginePortBinding, EngineState, EngineVersion,
};
use atlas_local_js::error::RequestError;
use atlas_local_js::ip::IpAddress;
use atlas_local_js::models::list_deployments::{
    deployments_to_external, BindingType, CreationSource, CreationSourceType, Deployment,
    MongoDBPortBinding, MongodbType, State,
};

fn sample_record() -> EngineDeployment {
    EngineDeployment {
        container_id: "container_id".to_string(),
        name: Some("test_deployment".to_string()),
        state: EngineState::Running,
        port_bindings: Some(EnginePortBinding {
            binding_type: EngineBindingType::Loopback,
            port: 27017,
        }),
        mongodb_type: EngineMongodbType::Community,
        mongodb_version: EngineVersion::new(8, 0, 0),
        creation_source: Some(EngineCreationSource::AtlasCLI),
        local_seed_location: Some("/host/seed-data".to_string()),
        mongodb_initdb_database: Some("testdb".to_string()),
        mongodb_initdb_root_password_file: Some("/run/secrets/password".to_string()),
        mongodb_initdb_root_password: Some("password123".to_string()),
        mongodb_initdb_root_username_file: Some("/run/secrets/username".to_string()),
        mongodb_initdb_root_username: Some("admin".to_string()),
        mongodb_load_sample_data: None,
        voyage_api_key: None,
        mongot_log_file: Some("/tmp/mongot.log".to_string()),
        runner_log_file: Some("/tmp/runner.log".to_string()),
        do_not_track: Some("false".to_string()),
        telemetry_base_url: Some("https://telemetry.example.com".to_string()),
    }
}

#[test]
fn test_deployment_from_lib_deployment() {
    let lib_deployment = sample_record();

    let deployment = Deployment::to_external(lib_deployment);

    assert_eq!(deployment.container_id, "container_id");
    assert_eq!(deployment.name, Some("test_deployment".to_string()));
    assert_eq!(deployment.state, State::Running);
    assert!(deployment.port_bindings.is_some());
    let port_binding = deployment.port_bindings.unwrap();
    assert_eq!(port_binding.binding_type, BindingType::Loopback);
    assert_eq!(port_binding.ip, "127.0.0.1");
    assert_eq!(port_binding.port, 27017);
    assert_eq!(deployment.mongodb_type, MongodbType::Community);
    assert_eq!(deployment.mongodb_version, "8.0.0");
    assert_eq!(
        deployment.creation_source,
        Some(CreationSource {
            source_type: CreationSourceType::AtlasCLI,
            source: "ATLASCLI".to_string(),
        })
    );
    assert_eq!(
        deployment.local_seed_location,
        Some("/host/seed-data".to_string())
    );
    assert_eq!(
        deployment.mongodb_initdb_database,
        Some("testdb".to_string())
    );
    assert_eq!(
        deployment.mongodb_initdb_root_password_file,
        Some("/run/secrets/password".to_string())
    );
    assert_eq!(
        deployment.mongodb_initdb_root_password,
        Some("password123".to_string())
    );
    assert_eq!(
        deployment.mongodb_initdb_root_username_file,
        Some("/run/secrets/username".to_string())
    );
    assert_eq!(
        deployment.mongodb_initdb_root_username,
        Some("admin".to_string())
    );
    assert_eq!(
        deployment.mongot_log_file,
        Some("/tmp/mongot.log".to_string())
    );
    assert_eq!(
        deployment.runner_log_file,
        Some("/tmp/runner.log".to_string())
    );
    assert_eq!(deployment.do_not_track, Some("false".to_string()));
    assert_eq!(
        deployment.telemetry_base_url,
        Some("https://telemetry.example.com".to_string())
    );
}

#[test]
fn test_mongodb_port_binding_from_lib_mongodb_port_binding_loopback() {
    let lib_mongodb_port_binding = EnginePortBinding {
        binding_type: EngineBindingType::Loopback,
        port: 27017,
    };
    let mongodb_port_binding = MongoDBPortBinding::to_external(lib_mongodb_port_binding);
    assert_eq!(mongodb_port_binding.binding_type, BindingType::Loopback);
    assert_eq!(mongodb_port_binding.ip, "127.0.0.1");
    assert_eq!(mongodb_port_binding.port, 27017);
}

#[test]
fn test_mongodb_port_binding_from_lib_mongodb_port_binding_any_interface() {
    let lib_mongodb_port_binding = EnginePortBinding {
        binding_type: EngineBindingType::AnyInterface,
        port: 27017,
    };
    let mongodb_port_binding = MongoDBPortBinding::to_external(lib_mongodb_port_binding);
    assert_eq!(mongodb_port_binding.binding_type, BindingType::AnyInterface);
    assert_eq!(mongodb_port_binding.ip, "0.0.0.0");
    assert_eq!(mongodb_port_binding.port, 27017);
}

#[test]
fn test_mongodb_port_binding_from_lib_mongodb_port_binding_specific() {
    let lib_mongodb_port_binding = EnginePortBinding {
        binding_type: EngineBindingType::Specific(IpAddress::V4(192, 0, 2, 0)),
        port: 27017,
    };
    let mongodb_port_binding = MongoDBPortBinding::to_external(lib_mongodb_port_binding);
    assert_eq!(mongodb_port_binding.binding_type, BindingType::Specific);
    assert_eq!(mongodb_port_binding.ip, "192.0.2.0");
    assert_eq!(mongodb_port_binding.port, 27017);
}

#[test]
fn test_mongodb_port_binding_lib_into_mongodb_port_binding_loopback() {
    let mongodb_port_binding = MongoDBPortBinding {
        binding_type: BindingType::Loopback,
        ip: "127.0.0.1".to_string(),
        port: 27017,
    };
    let lib_mongodb_port_binding = mongodb_port_binding.to_internal().unwrap();
    assert_eq!(
        lib_mongodb_port_binding.binding_type,
        EngineBindingType::Loopback
    );
    assert_eq!(lib_mongodb_port_binding.port, 27017);
}

#[test]
fn test_mongodb_port_binding_lib_into_mongodb_port_binding_any_interface() {
    let mongodb_port_binding = MongoDBPortBinding {
        binding_type: BindingType::AnyInterface,
        ip: "0.0.0.0".to_string(),
        port: 27017,
    };
    let lib_mongodb_port_binding = mongodb_port_binding.to_internal().unwrap();
    assert_eq!(
        lib_mongodb_port_binding.binding_type,
        EngineBindingType::AnyInterface
    );
    assert_eq!(lib_mongodb_port_binding.port, 27017);
}

#[test]
fn test_mongodb_port_binding_lib_into_mongodb_port_binding_specific() {
    let mongodb_port_binding = MongoDBPortBinding {
        binding_type: BindingType::Specific,
        ip: "192.0.2.0".to_string(),
        port: 27017,
    };
    let lib_mongodb_port_binding = mongodb_port_binding.to_internal().unwrap();
    assert_eq!(
        lib_mongodb_port_binding.binding_type,
        EngineBindingType::Specific(IpAddress::V4(192, 0, 2, 0))
    );
    assert_eq!(lib_mongodb_port_binding.port, 27017);
}

#[test]
fn test_creation_source_from_lib_creation_source_atlas_cli() {
    let lib_creation_source = EngineCreationSource::AtlasCLI;
    let creation_source = CreationSource::to_external(lib_creation_source);
    assert_eq!(creation_source.source_type, CreationSourceType::AtlasCLI);
    assert_eq!(creation_source.source, "ATLASCLI");
}

#[test]
fn test_creation_source_from_lib_creation_source_container() {
    let lib_creation_source = EngineCreationSource::Container;
    let creation_source = CreationSource::to_external(lib_creation_source);
    assert_eq!(creation_source.source_type, CreationSourceType::Container);
    assert_eq!(creation_source.source, "CONTAINER");
}

#[test]
fn test_creation_source_from_lib_creation_source_mcp_server() {
    let lib_creation_source = EngineCreationSource::MCPServer;
    let creation_source = CreationSource::to_external(lib_creation_source);
    assert_eq!(creation_source.source_type, CreationSourceType::MCPServer);
    assert_eq!(creation_source.source, "MCPSERVER");
}

#[test]
fn test_creation_source_from_lib_creation_source_unknown() {
    let lib_creation_source = EngineCreationSource::Unknown("test".to_string());
    let creation_source = CreationSource::to_external(lib_creation_source);
    assert_eq!(creation_source.source_type, CreationSourceType::Other);
    assert_eq!(creation_source.source, "test");
}

#[test]
fn unknown_creation_source_round_trips_with_its_text() {
    let external = CreationSource::to_external(EngineCreationSource::Unknown(
        "custom-tool".to_string(),
    ));
    assert_eq!(
        external,
        CreationSource {
            source_type: CreationSourceType::Other,
            source: "custom-tool".to_string(),
        }
    );
    assert_eq!(
        external.to_internal(),
        EngineCreationSource::Unknown("custom-tool".to_string())
    );
}

#[test]
fn known_creation_sources_round_trip_to_their_fixed_text() {
    let cases = [
        (CreationSourceType::AtlasCLI, EngineCreationSource::AtlasCLI, "ATLASCLI"),
        (CreationSourceType::Container, EngineCreationSource::Container, "CONTAINER"),
        (CreationSourceType::MCPServer, EngineCreationSource::MCPServer, "MCPSERVER"),
    ];
    for (tag, internal, text) in cases {
        let sent = CreationSource {
            source_type: tag,
            source: "whatever the caller wrote".to_string(),
        };
        let inside = sent.to_internal();
        assert_eq!(inside, internal);
        let back = CreationSource::to_external(inside);
        assert_eq!(back.source_type, tag);
        assert_eq!(back.source, text);
    }
}

#[test]
fn other_creation_source_keeps_any_text() {
    for text in ["", "ATLASCLI", "custom-tool", "with space and ünïcödé"] {
        let sent = CreationSource {
            source_type: CreationSourceType::Other,
            source: text.to_string(),
        };
        let inside = sent.to_internal();
        assert_eq!(inside, EngineCreationSource::Unknown(text.to_string()));
        let back = CreationSource::to_external(inside);
        assert_eq!(back.source_type, CreationSourceType::Other);
        assert_eq!(back.source, text);
    }
}

#[test]
fn specific_binding_round_trips() {
    let sent = MongoDBPortBinding {
        binding_type: BindingType::Specific,
        ip: "192.0.2.0".to_string(),
        port: 27017,
    };
    let internal = sent.to_internal().unwrap();
    assert_eq!(
        internal,
        EnginePortBinding {
            binding_type: EngineBindingType::Specific(IpAddress::V4(192, 0, 2, 0)),
            port: 27017,
        }
    );
    assert_eq!(
        MongoDBPortBinding::to_external(internal),
        MongoDBPortBinding {
            binding_type: BindingType::Specific,
            ip: "192.0.2.0".to_string(),
            port: 27017,
        }
    );
}

#[test]
fn fixed_bindings_discard_the_address_sent() {
    let loopback = MongoDBPortBinding {
        binding_type: BindingType::Loopback,
        ip: "not even an address".to_string(),
        port: 1,
    };
    let back = MongoDBPortBinding::to_external(loopback.to_internal().unwrap());
    assert_eq!(back.binding_type, BindingType::Loopback);
    assert_eq!(back.ip, "127.0.0.1");
    assert_eq!(back.port, 1);

    let any = MongoDBPortBinding {
        binding_type: BindingType::AnyInterface,
        ip: "10.1.2.3".to_string(),
        port: 65535,
    };
    let back = MongoDBPortBinding::to_external(any.to_internal().unwrap());
    assert_eq!(back.binding_type, BindingType::AnyInterface);
    assert_eq!(back.ip, "0.0.0.0");
    assert_eq!(back.port, 65535);
}

#[test]
fn specific_binding_with_bad_address_is_refused() {
    for text in ["", "localhost", "192.0.2", "192.0.2.256", "192.0.2.0 ", "1:2:3"] {
        let sent = MongoDBPortBinding {
            binding_type: BindingType::Specific,
            ip: text.to_string(),
            port: 27017,
        };
        assert_eq!(
            sent.to_internal(),
            Err(RequestError::MalformedAddress(text.to_string()))
        );
    }
}

#[test]
fn specific_ipv6_binding_gets_canonical_text() {
    let sent = MongoDBPortBinding {
        binding_type: BindingType::Specific,
        ip: "2001:0DB8:0000:0000:0000:0000:0000:0001".to_string(),
        port: 27018,
    };
    let internal = sent.to_internal().unwrap();
    assert_eq!(
        internal.binding_type,
        EngineBindingType::Specific(IpAddress::V6(0x2001, 0xdb8, 0, 0, 0, 0, 0, 1))
    );
    let back = MongoDBPortBinding::to_external(internal);
    assert_eq!(back.binding_type, BindingType::Specific);
    assert_eq!(back.ip, "2001:db8::1");
    assert_eq!(back.port, 27018);
}

#[test]
fn every_state_and_edition_has_its_namesake() {
    assert_eq!(State::to_external(EngineState::Created), State::Created);
    assert_eq!(State::to_external(EngineState::Dead), State::Dead);
    assert_eq!(State::to_external(EngineState::Exited), State::Exited);
    assert_eq!(State::to_external(EngineState::Paused), State::Paused);
    assert_eq!(State::to_external(EngineState::Removing), State::Removing);
    assert_eq!(State::to_external(EngineState::Restarting), State::Restarting);
    assert_eq!(State::to_external(EngineState::Running), State::Running);
    assert_eq!(
        MongodbType::to_external(EngineMongodbType::Community),
        MongodbType::Community
    );
    assert_eq!(
        MongodbType::to_external(EngineMongodbType::Enterprise),
        MongodbType::Enterprise
    );
}

#[test]
fn record_without_optional_parts_projects() {
    let mut record = sample_record();
    record.name = None;
    record.port_bindings = None;
    record.creation_source = None;
    record.state = EngineState::Exited;
    record.mongodb_type = EngineMongodbType::Enterprise;
    record.mongodb_version = EngineVersion {
        major: 8,
        minor: 2,
        patch: 10,
        pre: "rc.1".to_string(),
        build: "build5".to_string(),
    };
    record.mongodb_load_sample_data = Some(true);
    record.voyage_api_key = Some("key".to_string());
    let deployment = Deployment::to_external(record);
    assert_eq!(deployment.name, None);
    assert_eq!(deployment.port_bindings, None);
    assert_eq!(deployment.creation_source, None);
    assert_eq!(deployment.state, State::Exited);
    assert_eq!(deployment.mongodb_type, MongodbType::Enterprise);
    assert_eq!(deployment.mongodb_version, "8.2.10-rc.1+build5");
    assert_eq!(deployment.mongodb_load_sample_data, Some(true));
    assert_eq!(deployment.voyage_api_key, Some("key".to_string()));
}

#[test]
fn records_are_projected_in_order() {
    let mut first = sample_record();
    first.container_id = "a".to_string();
    let mut second = sample_record();
    second.container_id = "b".to_string();
    let mut third = sample_record();
    third.container_id = "c".to_string();
    let projected = deployments_to_external(vec![first, second, third]);
    let ids: Vec<&str> = projected.iter().map(|d| d.container_id.as_str()).collect();
    assert_eq!(ids, vec!["a", "b", "c"]);
    assert!(deployments_to_external(Vec::new()).is_empty());
}
