use vss_server::server::{
    backend_notice, choose_backend, listen_address, server_step, startup, Backend, ServerAction,
    ServerEvent, Startup,
};

fn strings(texts: &[&str]) -> Vec<String> {
    texts.iter().map(|text| text.to_string()).collect()
}

#[test]
fn starts_as_lambda_in_its_environment() {
    assert_eq!(startup(true, true, &strings(&[])), Startup::Lambda);
    assert_eq!(startup(true, true, &strings(&["server", "config"])), Startup::Lambda);
}

#[test]
fn fails_in_lambda_environment_without_its_runtime() {
    assert_eq!(
        startup(true, false, &strings(&["server", "config"])),
        Startup::Fail("Lambda runtime not enabled. Compile with --features lambda".to_string())
    );
}

#[test]
fn starts_as_http_server_with_one_argument() {
    for enabled in [true, false] {
        assert_eq!(
            startup(false, enabled, &strings(&["server", "config.toml"])),
            Startup::HttpServer("config.toml".to_string())
        );
    }
}

#[test]
fn tells_its_usage_otherwise() {
    let usage = || Startup::Usage("Usage: server <config-file-path>".to_string());
    assert_eq!(startup(false, true, &strings(&["server"])), usage());
    assert_eq!(startup(false, true, &strings(&["server", "a", "b"])), usage());
}

#[test]
fn dynamodb_is_preferred() {
    assert_eq!(
        choose_backend(Some("t".to_string()), Some("c".to_string())),
        Ok(Backend::DynamoDb("t".to_string()))
    );
    assert_eq!(choose_backend(Some("t".to_string()), None), Ok(Backend::DynamoDb("t".to_string())));
}

#[test]
fn postgresql_is_the_fallback() {
    assert_eq!(
        choose_backend(None, Some("c".to_string())),
        Ok(Backend::PostgreSql("c".to_string()))
    );
}

#[test]
fn some_backend_is_needed() {
    assert_eq!(
        choose_backend(None, None),
        Err("Either dynamodb_config or postgresql_config must be provided in configuration"
            .to_string())
    );
}

#[test]
fn backend_is_announced() {
    assert_eq!(
        backend_notice(&Backend::DynamoDb("vss-table-dev".to_string())),
        "Using DynamoDB backend with table: vss-table-dev"
    );
    assert_eq!(
        backend_notice(&Backend::PostgreSql("secret".to_string())),
        "Using PostgreSQL backend"
    );
}

#[test]
fn address_of_host_and_port() {
    assert_eq!(listen_address("127.0.0.1", 8080), "127.0.0.1:8080");
    assert_eq!(listen_address("localhost", 0), "localhost:0");
    assert_eq!(listen_address("", u16::MAX), ":65535");
}

#[test]
fn connections_are_served() {
    assert_eq!(server_step(ServerEvent::Accepted), ServerAction::Serve);
}

#[test]
fn errors_of_connections_are_reported() {
    assert_eq!(
        server_step(ServerEvent::AcceptFailed("x".to_string())),
        ServerAction::Report("Failed to accept connection: x".to_string())
    );
    assert_eq!(
        server_step(ServerEvent::ConnectionFailed("y".to_string())),
        ServerAction::Report("Failed to serve connection: y".to_string())
    );
}

#[test]
fn signals_stop_the_server() {
    assert_eq!(
        server_step(ServerEvent::Interrupted),
        ServerAction::Stop("Received CTRL-C, shutting down..".to_string())
    );
    assert_eq!(
        server_step(ServerEvent::Terminated),
        ServerAction::Stop("Received SIGTERM, shutting down..".to_string())
    );
}
