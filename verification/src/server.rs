//! Starting the server, and running it.

use crate::text::{decimal, decimal_text, law_decimal_is_plain, numeral_value};
use crate::types::text_option;
use vstd::prelude::*;

verus! {

/// How the program starts.
#[derive(Debug, PartialEq, Eq)]
pub enum Startup {
    /// As a Lambda function.
    Lambda,
    /// As an HTTP server, with the configuration at this path.
    HttpServer(String),
    /// Not at all: it was called wrongly, and this is how to call it.
    Usage(String),
    /// Not at all, because of this error.
    Fail(String),
}

pub enum StartupView {
    Lambda,
    HttpServer(Seq<char>),
    Usage(Seq<char>),
    Fail(Seq<char>),
}

impl View for Startup {
    type V = StartupView;

    open spec fn view(&self) -> StartupView {
        match self {
            Startup::Lambda => StartupView::Lambda,
            Startup::HttpServer(path) => StartupView::HttpServer(path@),
            Startup::Usage(text) => StartupView::Usage(text@),
            Startup::Fail(text) => StartupView::Fail(text@),
        }
    }
}

/// How the program starts: as a Lambda function where it runs in that environment, else as an
/// HTTP server where it has one argument beside its own name.
pub open spec fn startup_of(
    in_lambda: bool,
    lambda_enabled: bool,
    arguments: Seq<String>,
) -> StartupView {
    if in_lambda {
        if lambda_enabled {
            StartupView::Lambda
        } else {
            StartupView::Fail("Lambda runtime not enabled. Compile with --features lambda"@)
        }
    } else if arguments.len() == 2 {
        StartupView::HttpServer(arguments[1]@)
    } else {
        StartupView::Usage("Usage: "@ + arguments[0]@ + " <config-file-path>"@)
    }
}

/// Decides how the program starts. The first argument is the name it was called by.
pub fn startup(in_lambda: bool, lambda_enabled: bool, arguments: &Vec<String>) -> (start: Startup)
    requires
        in_lambda || arguments@.len() > 0,
    ensures
        start@ == startup_of(in_lambda, lambda_enabled, arguments@),
{
    if in_lambda {
        if lambda_enabled {
            Startup::Lambda
        } else {
            Startup::Fail("Lambda runtime not enabled. Compile with --features lambda".to_owned())
        }
    } else if arguments.len() == 2 {
        Startup::HttpServer(arguments[1].clone())
    } else {
        let mut text = "Usage: ".to_owned();
        text.append(arguments[0].as_str());
        text.append(" <config-file-path>");
        Startup::Usage(text)
    }
}

/// Where the records are kept.
#[derive(Debug, PartialEq, Eq)]
pub enum Backend {
    /// In the DynamoDB table of this name.
    DynamoDb(String),
    /// In the PostgreSQL database that this connection string leads to.
    PostgreSql(String),
}

pub enum BackendView {
    DynamoDb(Seq<char>),
    PostgreSql(Seq<char>),
}

impl View for Backend {
    type V = BackendView;

    open spec fn view(&self) -> BackendView {
        match self {
            Backend::DynamoDb(table_name) => BackendView::DynamoDb(table_name@),
            Backend::PostgreSql(connection) => BackendView::PostgreSql(connection@),
        }
    }
}

/// Where the records are kept; a message where nothing says where.
pub open spec fn backend_of(
    dynamodb_table: Option<Seq<char>>,
    postgresql_connection: Option<Seq<char>>,
) -> Result<BackendView, Seq<char>> {
    match (dynamodb_table, postgresql_connection) {
        (Some(table_name), _) => Ok(BackendView::DynamoDb(table_name)),
        (None, Some(connection)) => Ok(BackendView::PostgreSql(connection)),
        (None, None) => Err(
            "Either dynamodb_config or postgresql_config must be provided in configuration"@,
        ),
    }
}

/// What the server says of the place where the records are kept.
pub open spec fn notice_of(backend: BackendView) -> Seq<char> {
    match backend {
        BackendView::DynamoDb(table_name) => "Using DynamoDB backend with table: "@ + table_name,
        BackendView::PostgreSql(_) => "Using PostgreSQL backend"@,
    }
}

/// The address of a host and a port.
pub open spec fn address_of(host: Seq<char>, port: u16) -> Seq<char> {
    host + ":"@ + decimal(port as int)
}

/// Chooses where the records are kept: in DynamoDB where it is configured, else in PostgreSQL
/// where that is.
pub fn choose_backend(dynamodb_table: Option<String>, postgresql_connection: Option<String>) -> (result:
    Result<Backend, String>)
    ensures
        match (dynamodb_table, postgresql_connection) {
            (Some(table_name), _) => result == Ok::<Backend, String>(Backend::DynamoDb(table_name)),
            (None, Some(connection)) => result == Ok::<Backend, String>(
                Backend::PostgreSql(connection),
            ),
            (None, None) => result matches Err(message) && message@
                == "Either dynamodb_config or postgresql_config must be provided in configuration"@,
        },
        ({
            let chosen = backend_of(
                text_option(dynamodb_table),
                text_option(postgresql_connection),
            );
            match result {
                Ok(backend) => chosen == Ok::<BackendView, Seq<char>>(backend@),
                Err(message) => chosen == Err::<BackendView, Seq<char>>(message@),
            }
        }),
{
    match dynamodb_table {
        Some(table_name) => Ok(Backend::DynamoDb(table_name)),
        None => match postgresql_connection {
            Some(connection) => Ok(Backend::PostgreSql(connection)),
            None => Err(
                "Either dynamodb_config or postgresql_config must be provided in configuration".to_owned(),
            ),
        },
    }
}

/// What the server says of the place where the records are kept.
pub fn backend_notice(backend: &Backend) -> (notice: String)
    ensures
        notice@ == match backend {
            Backend::DynamoDb(table_name) => "Using DynamoDB backend with table: "@ + table_name@,
            Backend::PostgreSql(_) => "Using PostgreSQL backend"@,
        },
        notice@ == notice_of(backend@),
{
    match backend {
        Backend::DynamoDb(table_name) => {
            let mut notice = "Using DynamoDB backend with table: ".to_owned();
            notice.append(table_name.as_str());
            notice
        },
        Backend::PostgreSql(_) => "Using PostgreSQL backend".to_owned(),
    }
}

/// The address that the server listens on.
pub fn listen_address(host: &str, port: u16) -> (address: String)
    ensures
        address@ == host@ + ":"@ + decimal(port as int),
        address@ == address_of(host@, port),
{
    let mut address = host.to_owned();
    address.append(":");
    address.append(decimal_text(port as i64).as_str());
    address
}

/// What can happen while the server runs.
#[derive(Debug, PartialEq, Eq)]
pub enum ServerEvent {
    /// A client connected.
    Accepted,
    /// A connection could not be accepted, for this reason.
    AcceptFailed(String),
    /// The connection of a client ended with this error.
    ConnectionFailed(String),
    /// The program was interrupted from its terminal.
    Interrupted,
    /// The program was told to terminate.
    Terminated,
}

/// What the server does about it.
#[derive(Debug, PartialEq, Eq)]
pub enum ServerAction {
    /// Serves the connection, beside the others.
    Serve,
    /// Reports an error and goes on.
    Report(String),
    /// Says so, and stops.
    Stop(String),
}

pub enum ServerActionView {
    Serve,
    Report(Seq<char>),
    Stop(Seq<char>),
}

impl View for ServerAction {
    type V = ServerActionView;

    open spec fn view(&self) -> ServerActionView {
        match self {
            ServerAction::Serve => ServerActionView::Serve,
            ServerAction::Report(text) => ServerActionView::Report(text@),
            ServerAction::Stop(text) => ServerActionView::Stop(text@),
        }
    }
}

/// What the server does about an event.
pub open spec fn server_action(event: ServerEvent) -> ServerActionView {
    match event {
        ServerEvent::Accepted => ServerActionView::Serve,
        ServerEvent::AcceptFailed(reason) => ServerActionView::Report(
            "Failed to accept connection: "@ + reason@,
        ),
        ServerEvent::ConnectionFailed(reason) => ServerActionView::Report(
            "Failed to serve connection: "@ + reason@,
        ),
        ServerEvent::Interrupted => ServerActionView::Stop("Received CTRL-C, shutting down.."@),
        ServerEvent::Terminated => ServerActionView::Stop("Received SIGTERM, shutting down.."@),
    }
}

/// Decides what the server does about an event.
pub fn server_step(event: ServerEvent) -> (action: ServerAction)
    ensures
        action@ == server_action(event),
{
    match event {
        ServerEvent::Accepted => ServerAction::Serve,
        ServerEvent::AcceptFailed(reason) => {
            let mut text = "Failed to accept connection: ".to_owned();
            text.append(reason.as_str());
            ServerAction::Report(text)
        },
        ServerEvent::ConnectionFailed(reason) => {
            let mut text = "Failed to serve connection: ".to_owned();
            text.append(reason.as_str());
            ServerAction::Report(text)
        },
        ServerEvent::Interrupted => ServerAction::Stop("Received CTRL-C, shutting down..".to_owned()),
        ServerEvent::Terminated => ServerAction::Stop("Received SIGTERM, shutting down..".to_owned()),
    }
}

/// The program starts as a Lambda function in that environment, whatever its arguments; else as an
/// HTTP server with the configuration that its one argument names; and else it tells its usage by
/// its own name.
pub proof fn law_startup_goes_by_environment_and_arguments(
    lambda_enabled: bool,
    arguments: Seq<String>,
)
    ensures
        startup_of(true, true, arguments) is Lambda,
        startup_of(true, false, arguments) == StartupView::Fail(
            "Lambda runtime not enabled. Compile with --features lambda"@,
        ),
        arguments.len() == 2 ==> startup_of(false, lambda_enabled, arguments)
            == StartupView::HttpServer(arguments[1]@),
        arguments.len() != 2 ==> startup_of(false, lambda_enabled, arguments)
            == StartupView::Usage("Usage: "@ + arguments[0]@ + " <config-file-path>"@),
{
}

/// DynamoDB is preferred, PostgreSQL is the fallback, and one of them is needed. Each is taken as it
/// is configured.
pub proof fn law_configured_backend_is_taken(
    table_name: Seq<char>,
    connection: Seq<char>,
    fallback: Option<Seq<char>>,
)
    ensures
        backend_of(Some(table_name), fallback) == Ok::<BackendView, Seq<char>>(
            BackendView::DynamoDb(table_name),
        ),
        backend_of(None, Some(connection)) == Ok::<BackendView, Seq<char>>(
            BackendView::PostgreSql(connection),
        ),
        backend_of(None, None) == Err::<BackendView, Seq<char>>(
            "Either dynamodb_config or postgresql_config must be provided in configuration"@,
        ),
        notice_of(BackendView::DynamoDb(table_name)) == "Using DynamoDB backend with table: "@
            + table_name,
        notice_of(BackendView::PostgreSql(connection)) == "Using PostgreSQL backend"@,
{
}

/// An address is the host, a colon and a numeral that denotes the port.
pub proof fn law_address_holds_host_and_port(host: Seq<char>, port: u16)
    ensures
        ({
            let address = address_of(host, port);
            let numeral = address.skip(host.len() as int + 1);
            &&& address == host + seq![':'] + numeral
            &&& numeral_value(numeral) == Some(port as int)
            &&& '0' <= numeral[0] && numeral[0] <= '9'
            &&& port > 0 ==> numeral[0] != '0'
            &&& port == 0 ==> numeral == seq!['0']
        }),
{
    reveal_strlit(":");
    let address = address_of(host, port);
    assert(address.skip(host.len() as int + 1) =~= decimal(port as int));
    assert(address =~= host + seq![':'] + decimal(port as int));
    law_decimal_is_plain(port as i64);
}

/// The server serves what it accepts, reports an error with its reason, and says why it stops.
pub proof fn law_server_reports_reasons(reason: String)
    ensures
        server_action(ServerEvent::Accepted) is Serve,
        server_action(ServerEvent::AcceptFailed(reason)) == ServerActionView::Report(
            "Failed to accept connection: "@ + reason@,
        ),
        server_action(ServerEvent::ConnectionFailed(reason)) == ServerActionView::Report(
            "Failed to serve connection: "@ + reason@,
        ),
        server_action(ServerEvent::Interrupted) == ServerActionView::Stop(
            "Received CTRL-C, shutting down.."@,
        ),
        server_action(ServerEvent::Terminated) == ServerActionView::Stop(
            "Received SIGTERM, shutting down.."@,
        ),
{
}

/// No error of a connection stops the server; only an interruption or a signal to terminate does.
pub proof fn law_server_stops_only_when_told(event: ServerEvent)
    ensures
        server_action(event) is Stop <==> event is Interrupted || event is Terminated,
{
}


/// How the program starts, where records are kept and what the server does are seen with all that
/// they say.
pub proof fn law_server_parts_are_seen_whole(text: String)
    ensures
        Startup::Lambda@ == StartupView::Lambda,
        Startup::HttpServer(text)@ == StartupView::HttpServer(text@),
        Startup::Usage(text)@ == StartupView::Usage(text@),
        Startup::Fail(text)@ == StartupView::Fail(text@),
        Backend::DynamoDb(text)@ == BackendView::DynamoDb(text@),
        Backend::PostgreSql(text)@ == BackendView::PostgreSql(text@),
        ServerAction::Serve@ == ServerActionView::Serve,
        ServerAction::Report(text)@ == ServerActionView::Report(text@),
        ServerAction::Stop(text)@ == ServerActionView::Stop(text@),
{
}

} // verus!
