//! The settings of the server and the order in which it starts.

use crate::handlers::{operation_method, Operation};
use vstd::prelude::*;
use vstd::string::StringExecFns;

verus! {

/// The database file that holds the table of words.
pub const DATABASE_PATH: &'static str = "wordbook.db";

/// The most connections that the pool holds at a time.
pub const MAX_CONNECTIONS: u32 = 5;

/// The loopback address that the server listens on.
pub const BIND_ADDRESS: &'static str = "127.0.0.1";

/// The port that the server listens on.
pub const BIND_PORT: u16 = 8080;

/// The one origin whose pages may call the service.
pub const ALLOWED_ORIGIN: &'static str = "http://localhost:3000";

/// For how many seconds a browser may keep the answer to a preflight.
pub const PREFLIGHT_MAX_AGE: usize = 3000;

/// The cross-origin policy that every response carries.
#[derive(Clone, Debug, PartialEq, Eq)]
pub struct CorsPolicy {
    pub allowed_origin: String,
    pub allowed_methods: Vec<String>,
    pub allowed_headers: Vec<String>,
    pub max_age: usize,
}

/// The mathematical value of a [`CorsPolicy`].
pub ghost struct CorsPolicyView {
    pub allowed_origin: Seq<char>,
    pub allowed_methods: Seq<Seq<char>>,
    pub allowed_headers: Seq<Seq<char>>,
    pub max_age: usize,
}

impl View for CorsPolicy {
    type V = CorsPolicyView;

    open spec fn view(&self) -> CorsPolicyView {
        CorsPolicyView {
            allowed_origin: self.allowed_origin@,
            allowed_methods: self.allowed_methods.deep_view(),
            allowed_headers: self.allowed_headers.deep_view(),
            max_age: self.max_age,
        }
    }
}

/// The settings that the server starts with.
#[derive(Clone, Debug, PartialEq, Eq)]
pub struct ServerConfig {
    pub database_path: String,
    pub max_connections: u32,
    pub bind_address: String,
    pub bind_port: u16,
    pub cors: CorsPolicy,
}

/// The mathematical value of a [`ServerConfig`].
pub ghost struct ServerConfigView {
    pub database_path: Seq<char>,
    pub max_connections: u32,
    pub bind_address: Seq<char>,
    pub bind_port: u16,
    pub cors: CorsPolicyView,
}

impl View for ServerConfig {
    type V = ServerConfigView;

    open spec fn view(&self) -> ServerConfigView {
        ServerConfigView {
            database_path: self.database_path@,
            max_connections: self.max_connections,
            bind_address: self.bind_address@,
            bind_port: self.bind_port,
            cors: self.cors@,
        }
    }
}

/// The policy of the service: one origin, the methods of the two
/// operations, four request headers, and the preflight cache time.
pub open spec fn default_cors() -> CorsPolicyView {
    CorsPolicyView {
        allowed_origin: ALLOWED_ORIGIN@,
        allowed_methods: seq![
            operation_method(Operation::ListWords),
            operation_method(Operation::CreateWord),
        ],
        allowed_headers: seq!["authorization"@, "accept"@, "content-type"@, "origin"@],
        max_age: PREFLIGHT_MAX_AGE,
    }
}

/// The settings of the service as it is deployed.
pub open spec fn default_config() -> ServerConfigView {
    ServerConfigView {
        database_path: DATABASE_PATH@,
        max_connections: MAX_CONNECTIONS,
        bind_address: BIND_ADDRESS@,
        bind_port: BIND_PORT,
        cors: default_cors(),
    }
}

impl Default for CorsPolicy {
    fn default() -> (policy: CorsPolicy)
        ensures
            policy@ == default_cors(),
    {
        let mut allowed_methods: Vec<String> = Vec::new();
        allowed_methods.push(String::from_str(Operation::ListWords.method()));
        allowed_methods.push(String::from_str(Operation::CreateWord.method()));
        let mut allowed_headers: Vec<String> = Vec::new();
        allowed_headers.push(String::from_str("authorization"));
        allowed_headers.push(String::from_str("accept"));
        allowed_headers.push(String::from_str("content-type"));
        allowed_headers.push(String::from_str("origin"));
        let policy = CorsPolicy {
            allowed_origin: String::from_str(ALLOWED_ORIGIN),
            allowed_methods,
            allowed_headers,
            max_age: PREFLIGHT_MAX_AGE,
        };
        assert(policy@.allowed_methods =~= default_cors().allowed_methods);
        assert(policy@.allowed_headers =~= default_cors().allowed_headers);
        policy
    }
}

impl Default for ServerConfig {
    fn default() -> (config: ServerConfig)
        ensures
            config@ == default_config(),
    {
        ServerConfig {
            database_path: String::from_str(DATABASE_PATH),
            max_connections: MAX_CONNECTIONS,
            bind_address: String::from_str(BIND_ADDRESS),
            bind_port: BIND_PORT,
            cors: CorsPolicy::default(),
        }
    }
}

/// Why the server did not start.
#[derive(Clone, Copy, Debug, PartialEq, Eq)]
pub enum StartupError {
    /// The database could not be opened.
    PoolOpen,
    /// The listening socket could not be bound.
    Bind,
}

/// How far the server has come in starting.
#[derive(Clone, Copy, Debug, PartialEq, Eq)]
pub enum Startup {
    /// Nothing is open yet; the pool comes first.
    OpeningPool,
    /// The pool is open; the socket comes next.
    Binding,
    /// Pool and socket are there; requests are served.
    Serving,
    /// A step failed; the process ends without serving.
    Failed(StartupError),
}

/// What the process does next while starting.
#[derive(Clone, Copy, Debug, PartialEq, Eq)]
pub enum StartupAction {
    /// Open the connection pool on the database file.
    OpenPool,
    /// Bind the listening socket.
    Bind,
    /// Serve requests until the process is ended.
    Serve,
    /// End the process.
    Abort(StartupError),
}

/// The step that a state asks for.
pub open spec fn startup_action(state: Startup) -> StartupAction {
    match state {
        Startup::OpeningPool => StartupAction::OpenPool,
        Startup::Binding => StartupAction::Bind,
        Startup::Serving => StartupAction::Serve,
        Startup::Failed(error) => StartupAction::Abort(error),
    }
}

/// The state after the step that `state` asked for has succeeded or not.
/// A failure is final, and so is serving.
pub open spec fn startup_next(state: Startup, succeeded: bool) -> Startup {
    match state {
        Startup::OpeningPool => if succeeded {
            Startup::Binding
        } else {
            Startup::Failed(StartupError::PoolOpen)
        },
        Startup::Binding => if succeeded {
            Startup::Serving
        } else {
            Startup::Failed(StartupError::Bind)
        },
        Startup::Serving => Startup::Serving,
        Startup::Failed(error) => Startup::Failed(error),
    }
}

/// The state after a run of steps with the given outcomes, first to last.
pub open spec fn startup_run(outcomes: Seq<bool>) -> Startup
    decreases outcomes.len(),
{
    if outcomes.len() == 0 {
        Startup::OpeningPool
    } else {
        startup_next(startup_run(outcomes.drop_last()), outcomes.last())
    }
}

impl Startup {
    /// The state in which the process begins.
    pub fn begin() -> (state: Startup)
        ensures
            state == Startup::OpeningPool,
    {
        Startup::OpeningPool
    }

    /// What to do in this state.
    pub fn action(&self) -> (action: StartupAction)
        ensures
            action == startup_action(*self),
    {
        match self {
            Startup::OpeningPool => StartupAction::OpenPool,
            Startup::Binding => StartupAction::Bind,
            Startup::Serving => StartupAction::Serve,
            Startup::Failed(error) => StartupAction::Abort(*error),
        }
    }

    /// The state after the step asked for by [`Startup::action`] has
    /// succeeded or failed.
    pub fn advance(self, succeeded: bool) -> (next: Startup)
        ensures
            next == startup_next(self, succeeded),
    {
        match self {
            Startup::OpeningPool => if succeeded {
                Startup::Binding
            } else {
                Startup::Failed(StartupError::PoolOpen)
            },
            Startup::Binding => if succeeded {
                Startup::Serving
            } else {
                Startup::Failed(StartupError::Bind)
            },
            Startup::Serving => Startup::Serving,
            Startup::Failed(error) => Startup::Failed(error),
        }
    }
}

/// The server serves exactly when its first two steps, opening the pool
/// and binding the socket, both succeeded; a failure of either is fatal,
/// whatever comes after it.
pub proof fn lemma_serving_needs_pool_and_socket(outcomes: Seq<bool>)
    ensures
        startup_run(outcomes) == Startup::Serving <==> (outcomes.len() >= 2 && outcomes[0]
            && outcomes[1]),
        startup_run(outcomes) == Startup::Failed(StartupError::PoolOpen) <==> (outcomes.len() >= 1
            && !outcomes[0]),
        startup_run(outcomes) == Startup::Failed(StartupError::Bind) <==> (outcomes.len() >= 2
            && outcomes[0] && !outcomes[1]),
    decreases outcomes.len(),
{
    if outcomes.len() > 0 {
        lemma_serving_needs_pool_and_socket(outcomes.drop_last());
    }
}

} // verus!
