use atlas_local_js::models::get_connection_string::GetConnectionStringOptions;

#[test]
fn test_get_connection_string_options() {
    let options = GetConnectionStringOptions {
        container_id_or_name: "test_container".into(),
        db_username: Some("test_user".into()),
        db_password: Some("test_pass".into()),
        verify: Some(true),
    };

    let get_connection_string_options = options.to_internal();

    assert_eq!(get_connection_string_options.container_id_or_name, "test_container");
    assert_eq!(get_connection_string_options.db_username, Some("test_user".into()));
    assert_eq!(get_connection_string_options.db_password, Some("test_pass".into()));
    assert_eq!(get_connection_string_options.verify, Some(true));
}

#[test]
fn connection_string_options_without_credentials() {
    let options = GetConnectionStringOptions {
        container_id_or_name: "abc".into(),
        db_username: None,
        db_password: None,
        verify: None,
    };
    let internal = options.to_internal();
    assert_eq!(internal.container_id_or_name, "abc");
    assert_eq!(internal.db_username, None);
    assert_eq!(internal.db_password, None);
    assert_eq!(internal.verify, None);
}
