//! The dispatcher: a total, static mapping from each command variant to the
//! one handler invocation that serves it. Pure routing — every field is
//! passed through unchanged and no business logic runs here.

use vstd::prelude::*;

use crate::command::{
    Command, KvBulkAction, KvKeyAction, KvNamespaceAction, R2Action, RouteAction, SecretAction,
};

verus! {

/// The identity of one command handler. Each handler is an opaque external
/// collaborator; the dispatcher only selects which one runs.
#[derive(Clone, Copy, Debug, PartialEq, Eq, Structural)]
pub enum HandlerId {
    Configure,
    Generate,
    Init,
    Build,
    Preview,
    Dev,
    Whoami,
    Publish,
    Subdomain,
    Route,
    Secret,
    R2Bucket,
    KvNamespace,
    KvKey,
    KvBulk,
    Tail,
    Login,
    Logout,
    Report,
}

/// One handler invocation as the dispatcher issues it: the handler's own
/// already-validated arguments, ready to be performed.
#[derive(Clone, Debug, PartialEq)]
pub enum HandlerCall {
    Configure {
        api_key: bool,
        no_validate: bool,
    },
    Generate {
        name: Option<String>,
        site: bool,
        template: Option<String>,
        target_type: Option<String>,
    },
    Init {
        name: Option<String>,
        site: bool,
        target_type: Option<String>,
    },
    Build,
    Preview {
        method: Option<String>,
        url: Option<String>,
        body: Option<String>,
        watch: bool,
        headless: bool,
    },
    Dev {
        host: Option<String>,
        ip: Option<String>,
        port: Option<u16>,
        local_protocol: Option<String>,
        upstream_protocol: Option<String>,
        inspect: bool,
        unauthenticated: bool,
    },
    Whoami,
    Publish {
        release: bool,
        output: Option<String>,
        migration: Option<String>,
    },
    Subdomain {
        name: Option<String>,
    },
    Route(RouteAction),
    Secret(SecretAction),
    R2Bucket(R2Action),
    KvNamespace(KvNamespaceAction),
    KvKey(KvKeyAction),
    KvBulk(KvBulkAction),
    Tail {
        name: Option<String>,
        url: Option<String>,
        format: Option<String>,
        once: bool,
        sampling_rate: Option<u32>,
        status: Vec<String>,
        method: Vec<String>,
        header: Vec<String>,
        ip_address: Vec<String>,
        search: Option<String>,
    },
    Login {
        scopes: Vec<String>,
        scopes_list: bool,
    },
    Logout,
    Report {
        log: Option<String>,
    },
}

/// The one handler that serves a command: the mapping is total over the
/// closed command union.
pub open spec fn handler_of(cmd: Command) -> HandlerId {
    match cmd {
        Command::Config { .. } => HandlerId::Configure,
        Command::Generate { .. } => HandlerId::Generate,
        Command::Init { .. } => HandlerId::Init,
        Command::Build => HandlerId::Build,
        Command::Preview { .. } => HandlerId::Preview,
        Command::Dev { .. } => HandlerId::Dev,
        Command::Whoami => HandlerId::Whoami,
        Command::Publish { .. } => HandlerId::Publish,
        Command::Subdomain { .. } => HandlerId::Subdomain,
        Command::Route(..) => HandlerId::Route,
        Command::Secret(..) => HandlerId::Secret,
        Command::R2(..) => HandlerId::R2Bucket,
        Command::KvNamespace(..) => HandlerId::KvNamespace,
        Command::KvKey(..) => HandlerId::KvKey,
        Command::KvBulk(..) => HandlerId::KvBulk,
        Command::Tail { .. } => HandlerId::Tail,
        Command::Login { .. } => HandlerId::Login,
        Command::Logout => HandlerId::Logout,
        Command::Report { .. } => HandlerId::Report,
    }
}

/// Whether a handler serves a command's variant, stated independently of the
/// dispatch mapping so that exhaustiveness and mutual exclusivity of the
/// mapping are claims, not definitions.
pub open spec fn serves(h: HandlerId, cmd: Command) -> bool {
    match h {
        HandlerId::Configure => cmd is Config,
        HandlerId::Generate => cmd is Generate,
        HandlerId::Init => cmd is Init,
        HandlerId::Build => cmd is Build,
        HandlerId::Preview => cmd is Preview,
        HandlerId::Dev => cmd is Dev,
        HandlerId::Whoami => cmd is Whoami,
        HandlerId::Publish => cmd is Publish,
        HandlerId::Subdomain => cmd is Subdomain,
        HandlerId::Route => cmd is Route,
        HandlerId::Secret => cmd is Secret,
        HandlerId::R2Bucket => cmd is R2,
        HandlerId::KvNamespace => cmd is KvNamespace,
        HandlerId::KvKey => cmd is KvKey,
        HandlerId::KvBulk => cmd is KvBulk,
        HandlerId::Tail => cmd is Tail,
        HandlerId::Login => cmd is Login,
        HandlerId::Logout => cmd is Logout,
        HandlerId::Report => cmd is Report,
    }
}

/// The handler invocation a command dispatches to: the matching handler,
/// with every field of the command passed through unchanged.
pub open spec fn spec_dispatch(cmd: Command) -> HandlerCall {
    match cmd {
        Command::Config { api_key, no_validate } => HandlerCall::Configure { api_key, no_validate },
        Command::Generate { name, site, template, target_type } => HandlerCall::Generate {
            name,
            site,
            template,
            target_type,
        },
        Command::Init { name, site, target_type } => HandlerCall::Init { name, site, target_type },
        Command::Build => HandlerCall::Build,
        Command::Preview { method, url, body, watch, headless } => HandlerCall::Preview {
            method,
            url,
            body,
            watch,
            headless,
        },
        Command::Dev {
            host,
            ip,
            port,
            local_protocol,
            upstream_protocol,
            inspect,
            unauthenticated,
        } => HandlerCall::Dev {
            host,
            ip,
            port,
            local_protocol,
            upstream_protocol,
            inspect,
            unauthenticated,
        },
        Command::Whoami => HandlerCall::Whoami,
        Command::Publish { release, output, migration } => HandlerCall::Publish {
            release,
            output,
            migration,
        },
        Command::Subdomain { name } => HandlerCall::Subdomain { name },
        Command::Route(action) => HandlerCall::Route(action),
        Command::Secret(action) => HandlerCall::Secret(action),
        Command::R2(action) => HandlerCall::R2Bucket(action),
        Command::KvNamespace(action) => HandlerCall::KvNamespace(action),
        Command::KvKey(action) => HandlerCall::KvKey(action),
        Command::KvBulk(action) => HandlerCall::KvBulk(action),
        Command::Tail {
            name,
            url,
            format,
            once,
            sampling_rate,
            status,
            method,
            header,
            ip_address,
            search,
        } => HandlerCall::Tail {
            name,
            url,
            format,
            once,
            sampling_rate,
            status,
            method,
            header,
            ip_address,
            search,
        },
        Command::Login { scopes, scopes_list } => HandlerCall::Login { scopes, scopes_list },
        Command::Logout => HandlerCall::Logout,
        Command::Report { log } => HandlerCall::Report { log },
    }
}

/// The handler a dispatched invocation belongs to.
pub open spec fn handler_of_call(call: HandlerCall) -> HandlerId {
    match call {
        HandlerCall::Configure { .. } => HandlerId::Configure,
        HandlerCall::Generate { .. } => HandlerId::Generate,
        HandlerCall::Init { .. } => HandlerId::Init,
        HandlerCall::Build => HandlerId::Build,
        HandlerCall::Preview { .. } => HandlerId::Preview,
        HandlerCall::Dev { .. } => HandlerId::Dev,
        HandlerCall::Whoami => HandlerId::Whoami,
        HandlerCall::Publish { .. } => HandlerId::Publish,
        HandlerCall::Subdomain { .. } => HandlerId::Subdomain,
        HandlerCall::Route(..) => HandlerId::Route,
        HandlerCall::Secret(..) => HandlerId::Secret,
        HandlerCall::R2Bucket(..) => HandlerId::R2Bucket,
        HandlerCall::KvNamespace(..) => HandlerId::KvNamespace,
        HandlerCall::KvKey(..) => HandlerId::KvKey,
        HandlerCall::KvBulk(..) => HandlerId::KvBulk,
        HandlerCall::Tail { .. } => HandlerId::Tail,
        HandlerCall::Login { .. } => HandlerId::Login,
        HandlerCall::Logout => HandlerId::Logout,
        HandlerCall::Report { .. } => HandlerId::Report,
    }
}

/// Whether a handler's signature declares the shared invocation context;
/// the dispatcher threads the context into exactly these handlers.
pub open spec fn spec_takes_context(h: HandlerId) -> bool {
    match h {
        HandlerId::Build
        | HandlerId::Preview
        | HandlerId::Dev
        | HandlerId::Publish
        | HandlerId::Subdomain
        | HandlerId::Route
        | HandlerId::Secret
        | HandlerId::R2Bucket
        | HandlerId::KvNamespace
        | HandlerId::KvKey
        | HandlerId::KvBulk
        | HandlerId::Tail => true,
        HandlerId::Configure
        | HandlerId::Generate
        | HandlerId::Init
        | HandlerId::Whoami
        | HandlerId::Login
        | HandlerId::Logout
        | HandlerId::Report => false,
    }
}

/// Whether the handler behind an invocation declares the shared invocation
/// context.
pub fn takes_context(call: &HandlerCall) -> (r: bool)
    ensures
        r == spec_takes_context(handler_of_call(*call)),
{
    match call {
        HandlerCall::Build
        | HandlerCall::Preview { .. }
        | HandlerCall::Dev { .. }
        | HandlerCall::Publish { .. }
        | HandlerCall::Subdomain { .. }
        | HandlerCall::Route(..)
        | HandlerCall::Secret(..)
        | HandlerCall::R2Bucket(..)
        | HandlerCall::KvNamespace(..)
        | HandlerCall::KvKey(..)
        | HandlerCall::KvBulk(..)
        | HandlerCall::Tail { .. } => true,
        HandlerCall::Configure { .. }
        | HandlerCall::Generate { .. }
        | HandlerCall::Init { .. }
        | HandlerCall::Whoami
        | HandlerCall::Login { .. }
        | HandlerCall::Logout
        | HandlerCall::Report { .. } => false,
    }
}

/// Routes a validated command to its one handler invocation, passing every
/// field through unchanged. Pure routing: the result is exactly the matching
/// handler's invocation, and nothing is recomputed or re-validated.
pub fn dispatch(cmd: Command) -> (call: HandlerCall)
    ensures
        call == spec_dispatch(cmd),
{
    match cmd {
        Command::Config { api_key, no_validate } => HandlerCall::Configure { api_key, no_validate },
        Command::Generate { name, site, template, target_type } => HandlerCall::Generate {
            name,
            site,
            template,
            target_type,
        },
        Command::Init { name, site, target_type } => HandlerCall::Init { name, site, target_type },
        Command::Build => HandlerCall::Build,
        Command::Preview { method, url, body, watch, headless } => HandlerCall::Preview {
            method,
            url,
            body,
            watch,
            headless,
        },
        Command::Dev {
            host,
            ip,
            port,
            local_protocol,
            upstream_protocol,
            inspect,
            unauthenticated,
        } => HandlerCall::Dev {
            host,
            ip,
            port,
            local_protocol,
            upstream_protocol,
            inspect,
            unauthenticated,
        },
        Command::Whoami => HandlerCall::Whoami,
        Command::Publish { release, output, migration } => HandlerCall::Publish {
            release,
            output,
            migration,
        },
        Command::Subdomain { name } => HandlerCall::Subdomain { name },
        Command::Route(action) => HandlerCall::Route(action),
        Command::Secret(action) => HandlerCall::Secret(action),
        Command::R2(action) => HandlerCall::R2Bucket(action),
        Command::KvNamespace(action) => HandlerCall::KvNamespace(action),
        Command::KvKey(action) => HandlerCall::KvKey(action),
        Command::KvBulk(action) => HandlerCall::KvBulk(action),
        Command::Tail {
            name,
            url,
            format,
            once,
            sampling_rate,
            status,
            method,
            header,
            ip_address,
            search,
        } => HandlerCall::Tail {
            name,
            url,
            format,
            once,
            sampling_rate,
            status,
            method,
            header,
            ip_address,
            search,
        },
        Command::Login { scopes, scopes_list } => HandlerCall::Login { scopes, scopes_list },
        Command::Logout => HandlerCall::Logout,
        Command::Report { log } => HandlerCall::Report { log },
    }
}

/// The fixed confirmation message as a mathematical value.
pub open spec fn spec_report_confirmation() -> Seq<char> {
    "Report submission sucessful. Thank you!"@
}

/// The fixed informational message emitted to the user when the crash-report
/// handler succeeds — a side effect the dispatcher layers on top of that
/// handler's own result, not part of the handler's contract.
pub fn report_confirmation_message() -> (m: &'static str)
    ensures
        m@ == spec_report_confirmation(),
{
    "Report submission sucessful. Thank you!"
}

/// Exhaustiveness and mutual exclusivity of dispatch: every command
/// dispatches to a handler that serves its variant, and no other handler
/// serves that variant — dispatch invokes exactly one matching handler.
pub proof fn lemma_dispatch_exactly_one(cmd: Command)
    ensures
        handler_of_call(spec_dispatch(cmd)) == handler_of(cmd),
        serves(handler_of(cmd), cmd),
        forall|h: HandlerId| serves(h, cmd) ==> h == handler_of(cmd),
{
}

} // verus!
