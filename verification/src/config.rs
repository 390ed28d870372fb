//! Configuration, and how the daemon is started.
use vstd::prelude::*;

verus! {

/// What the daemon runs as.
#[derive(Debug, Clone, Copy, PartialEq, Eq, Structural)]
pub enum Mode {
    /// Accepts connections and forwards local input.
    Server,
    /// Connects to a server and injects the input that it receives.
    Client,
}

/// The configuration of a machine.
#[derive(Debug, Clone, PartialEq, Eq)]
pub struct Config {
    pub device_name: String,
    pub device_id: String,
    /// Whether a server announces itself on the local network.
    pub enable_mdns: bool,
    /// What to run as if nothing else is asked for.
    pub default_mode: Mode,
    /// Where to connect to if nothing else is asked for.
    pub default_server: Option<String>,
}

/// What was asked for when the daemon was started.
#[derive(Debug, Clone, PartialEq, Eq)]
pub struct Request {
    pub server: bool,
    pub client: bool,
    pub connect: Option<String>,
    pub port: u16,
}

/// The mode that is asked for. To be a server goes before to be a client, and both
/// go before the default.
pub open spec fn mode_of(server: bool, client: bool, default_mode: Mode) -> Mode {
    if server {
        Mode::Server
    } else if client {
        Mode::Client
    } else {
        default_mode
    }
}

/// Determines the mode.
pub fn choose_mode(server: bool, client: bool, default_mode: Mode) -> (r: Mode)
    ensures
        r == mode_of(server, client, default_mode),
{
    if server {
        Mode::Server
    } else if client {
        Mode::Client
    } else {
        default_mode
    }
}

/// What the daemon sets out to do.
#[derive(Debug, Clone, PartialEq, Eq)]
pub enum Launch {
    /// Serves clients on this port.
    Server(u16),
    /// Connects to the server at this address.
    Client(String),
}

/// A client does not know which server to connect to.
#[derive(Debug, Clone, Copy, PartialEq, Eq, Structural)]
pub struct NoServerAddress {}

impl NoServerAddress {
    /// The error in words.
    pub fn text(&self) -> (r: String)
        ensures
            r@ == "Client mode requires --connect address or default_server in config"@,
    {
        "Client mode requires --connect address or default_server in config".to_owned()
    }
}

/// Whether `launch` is what a request and a configuration ask for. A client connects
/// to the address of the request, or else to the one of the configuration.
pub open spec fn launches(
    request: Request,
    config: Config,
    launch: Result<Launch, NoServerAddress>,
) -> bool {
    match mode_of(request.server, request.client, config.default_mode) {
        Mode::Server => launch == Ok::<Launch, NoServerAddress>(Launch::Server(request.port)),
        Mode::Client => match (request.connect, config.default_server) {
            (Some(addr), _) => launch == Ok::<Launch, NoServerAddress>(Launch::Client(addr)),
            (None, Some(addr)) => launch matches Ok(Launch::Client(a)) && a@ == addr@,
            (None, None) => launch is Err,
        },
    }
}

/// A server listens on the port that was asked for, whatever port it is and whatever the
/// configuration says. There is a server exactly if one is asked for, or if nothing is
/// asked for and the configuration has one by default.
pub proof fn law_server_takes_the_port(
    request: Request,
    config: Config,
    launch: Result<Launch, NoServerAddress>,
)
    requires
        launches(request, config, launch),
    ensures
        launch matches Ok(Launch::Server(port)) ==> port == request.port,
        launch matches Ok(Launch::Server(_)) <==> request.server || (!request.client
            && config.default_mode == Mode::Server),
{
}

/// A client connects to the address that was asked for, whatever the configuration says;
/// without one it connects to that of the configuration, and without that one it does not
/// start. Nothing else keeps a client from starting.
pub proof fn law_client_takes_the_address(
    request: Request,
    config: Config,
    launch: Result<Launch, NoServerAddress>,
)
    requires
        launches(request, config, launch),
        !request.server,
        request.client || config.default_mode == Mode::Client,
    ensures
        request.connect matches Some(asked) ==> (launch matches Ok(Launch::Client(addr)) && addr@
            == asked@),
        request.connect is None ==> match config.default_server {
            Some(known) => launch matches Ok(Launch::Client(addr)) && addr@ == known@,
            None => launch is Err,
        },
{
}

/// Only what decides counts: two requests for the same mode with the same port launch the
/// same server, and the default mode matters only where nothing is asked for.
pub proof fn law_request_goes_before_default(
    server: bool,
    client: bool,
    one: Mode,
    other: Mode,
)
    ensures
        server || client ==> mode_of(server, client, one) == mode_of(server, client, other),
        server ==> mode_of(server, client, one) == Mode::Server,
        !server && client ==> mode_of(server, client, one) == Mode::Client,
        !server && !client ==> mode_of(server, client, one) == one,
{
}

/// Decides what the daemon sets out to do.
pub fn plan(request: Request, config: &Config) -> (r: Result<Launch, NoServerAddress>)
    ensures
        launches(request, *config, r),
        r matches Ok(Launch::Server(port)) ==> port == request.port,
        r matches Ok(Launch::Client(addr)) ==> {
            &&& request.connect matches Some(asked) ==> addr@ == asked@
            &&& request.connect is None ==> (config.default_server matches Some(known) && addr@
                == known@)
        },
        r matches Ok(Launch::Server(_)) <==> request.server || (!request.client
            && config.default_mode == Mode::Server),
        r is Err <==> {
            &&& !request.server
            &&& request.client || config.default_mode == Mode::Client
            &&& request.connect is None
            &&& config.default_server is None
        },
{
    match choose_mode(request.server, request.client, config.default_mode) {
        Mode::Server => Ok(Launch::Server(request.port)),
        Mode::Client => {
            match request.connect {
                Some(addr) => Ok(Launch::Client(addr)),
                None => match &config.default_server {
                    Some(addr) => Ok(Launch::Client(addr.clone())),
                    None => Err(NoServerAddress {  }),
                },
            }
        },
    }
}

} // verus!
