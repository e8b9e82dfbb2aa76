//! The command model: the closed, exhaustive tagged union of supported
//! operations, each variant carrying its own already-validated fields, and
//! the read-only invocation context that accompanies it.

use vstd::prelude::*;

verus! {

/// A read-only snapshot of the global flags accompanying a command; owned by
/// the dispatch routine for the duration of the call and never mutated after
/// construction.
#[derive(Clone, Debug, PartialEq)]
pub struct InvocationContext {
    /// The environment selection shared across handlers, when one was given.
    pub environment: Option<String>,
    /// Whether verbose output was requested for the whole invocation.
    pub verbose: bool,
}

/// The validated payload of a route-management command.
#[derive(Clone, Debug, PartialEq)]
pub enum RouteAction {
    List,
    Delete { route_id: String },
}

/// The validated payload of a secret-management command.
#[derive(Clone, Debug, PartialEq)]
pub enum SecretAction {
    Put { name: String },
    Delete { name: String },
    List,
}

/// The validated payload of an object-storage bucket command.
#[derive(Clone, Debug, PartialEq)]
pub enum R2Action {
    CreateBucket { name: String },
    DeleteBucket { name: String },
    ListBuckets,
}

/// The validated payload of a key-value namespace command.
#[derive(Clone, Debug, PartialEq)]
pub enum KvNamespaceAction {
    Create { binding: String },
    Delete { binding: String },
    List,
}

/// The validated payload of a key-value key command.
#[derive(Clone, Debug, PartialEq)]
pub enum KvKeyAction {
    Put { key: String, value: String },
    Get { key: String },
    Delete { key: String },
    List,
}

/// The validated payload of a bulk key-value command.
#[derive(Clone, Debug, PartialEq)]
pub enum KvBulkAction {
    Put { path: String },
    Delete { path: String },
}

/// One parsed, validated user-requested operation. Constructed once per
/// process invocation by the argument-parsing layer, read-only thereafter;
/// the dispatcher never re-validates its fields.
///
/// The sampling rate of `Tail` is carried in hundredths of a percent of
/// requests, already validated by the parsing layer.
#[derive(Clone, Debug, PartialEq)]
pub enum Command {
    Config {
        api_key: bool,
        no_validate: bool,
    },
    Generate {
        name: Option<String>,
        site: bool,
        template: Option<String>,
        target_type: Option<String>,
    },
    Init {
        name: Option<String>,
        site: bool,
        target_type: Option<String>,
    },
    Build,
    Preview {
        method: Option<String>,
        url: Option<String>,
        body: Option<String>,
        watch: bool,
        headless: bool,
    },
    Dev {
        host: Option<String>,
        ip: Option<String>,
        port: Option<u16>,
        local_protocol: Option<String>,
        upstream_protocol: Option<String>,
        inspect: bool,
        unauthenticated: bool,
    },
    Whoami,
    Publish {
        release: bool,
        output: Option<String>,
        migration: Option<String>,
    },
    Subdomain {
        name: Option<String>,
    },
    Route(RouteAction),
    Secret(SecretAction),
    R2(R2Action),
    KvNamespace(KvNamespaceAction),
    KvKey(KvKeyAction),
    KvBulk(KvBulkAction),
    Tail {
        name: Option<String>,
        url: Option<String>,
        format: Option<String>,
        once: bool,
        sampling_rate: Option<u32>,
        status: Vec<String>,
        method: Vec<String>,
        header: Vec<String>,
        ip_address: Vec<String>,
        search: Option<String>,
    },
    Login {
        scopes: Vec<String>,
        scopes_list: bool,
    },
    Logout,
    Report {
        log: Option<String>,
    },
}

impl Command {
    /// Whether this command is the crash-report submission command, whose
    /// success triggers the fixed confirmation message.
    pub fn is_report(&self) -> (r: bool)
        ensures
            r == (self is Report),
    {
        match self {
            Command::Report { .. } => true,
            _ => false,
        }
    }
}

} // verus!
