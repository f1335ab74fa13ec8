//! Resolution of the Django template language server (`djlsp`), a server
//! with no persistent install step: a locally installed binary is
//! preferred, else it is run ephemerally through the `uvx` package runner,
//! else resolution fails with remediation instructions. The resolved
//! command descriptor is cached and reused unchanged on later calls.

use vstd::prelude::*;

use crate::error::Error;
use crate::host::Command;
use crate::host::CommandView;
use crate::host::HostEvent;
use crate::host::HostRequest;
use crate::host::plain_command;
use crate::host::plain_command_view;
use crate::language_servers::LanguageServer;
use crate::language_servers::ResolveNext;
use crate::language_servers::ResolveStep;
use crate::language_servers::ServerPhase;

verus! {

/// Name of the server executable searched for on the project's executable
/// path.
pub open spec fn djlsp_binary_name() -> Seq<char> {
    "djlsp"@
}

/// Package the ephemeral runner is told to run the server from.
pub open spec fn djlsp_package_name() -> Seq<char> {
    "django-template-lsp"@
}

/// Name of the ephemeral package runner.
pub open spec fn runner_name() -> Seq<char> {
    "uvx"@
}

/// The error message shown when neither the server nor the runner can be
/// found: manual-installation remediation with the recommended runner's
/// installation link.
pub open spec fn djlsp_missing_message() -> Seq<char> {
    "djlsp not found. Install uv (recommended): https://docs.astral.sh/uv/getting-started/installation/ or manually install django-template-lsp: pip install django-template-lsp"@
}

/// The command that runs the server ephemerally: the runner, told the
/// package to draw from and the executable to run.
pub open spec fn runner_command_view(path: Seq<char>) -> CommandView {
    CommandView {
        command: path,
        args: seq!["--from"@, "django-template-lsp"@, "djlsp"@],
        env: Seq::empty(),
    }
}

/// Phases of this server's resolution, each naming the search in flight.
#[derive(Debug)]
pub enum DjlspPhase {
    /// The project's executable path is being searched for the server.
    ProbeServer,
    /// The project's executable path is being searched for the ephemeral
    /// runner.
    ProbeRunner,
}

/// The Django template language server's resolver, holding its cached
/// command descriptor.
#[derive(Debug)]
pub struct DjangoTemplateLsp {
    pub cached_command: Option<Command>,
}

/// How resolution starts: a cached descriptor is returned unchanged with
/// no host work; otherwise the server executable is searched for.
pub open spec fn djlsp_start_spec(s: DjangoTemplateLsp, r: ResolveStep) -> bool {
    &&& r.statuses@.len() == 0
    &&& match s.cached_command {
        Some(c) => r.next matches ResolveNext::Done(res) && res matches Ok(cmd) && cmd@ == c@,
        None => r.next matches ResolveNext::Ask(req, ph) && (req
            matches HostRequest::FindExecutable(n) && n@ == djlsp_binary_name()) && ph
            == ServerPhase::Djlsp(DjlspPhase::ProbeServer),
    }
}

/// The transition relation of this server's resolution: a found server
/// binary is used and cached as it stands; a missing server falls back to
/// the runner; a found runner is cached as an ephemeral invocation; with
/// neither, resolution fails with remediation text and the cache is left
/// as it was, so the next call retries cleanly.
pub open spec fn djlsp_step_spec(
    s1: DjangoTemplateLsp,
    s2: DjangoTemplateLsp,
    phase: DjlspPhase,
    event: HostEvent,
    r: ResolveStep,
) -> bool {
    &&& r.statuses@.len() == 0
    &&& event matches HostEvent::ExecutableFound(found) && match (phase, found) {
        (DjlspPhase::ProbeServer, Some(p)) => {
            &&& s2.cached_command matches Some(c) && c@ == plain_command_view(p@)
            &&& r.next matches ResolveNext::Done(res) && res matches Ok(cmd) && cmd@
                == plain_command_view(p@)
        },
        (DjlspPhase::ProbeServer, None) => {
            &&& s2 == s1
            &&& r.next matches ResolveNext::Ask(req, ph) && (req
                matches HostRequest::FindExecutable(n) && n@ == runner_name()) && ph
                == ServerPhase::Djlsp(DjlspPhase::ProbeRunner)
        },
        (DjlspPhase::ProbeRunner, Some(p)) => {
            &&& s2.cached_command matches Some(c) && c@ == runner_command_view(p@)
            &&& r.next matches ResolveNext::Done(res) && res matches Ok(cmd) && cmd@
                == runner_command_view(p@)
        },
        (DjlspPhase::ProbeRunner, None) => {
            &&& s2 == s1
            &&& r.next matches ResolveNext::Done(res) && res matches Err(e) && e
                matches Error::NoUsableInstallation(m) && m@ == djlsp_missing_message()
        },
    }
}

impl DjangoTemplateLsp {
    /// A fresh resolver with nothing cached.
    pub fn new() -> (r: Self)
        ensures
            r.cached_command is None,
    {
        DjangoTemplateLsp { cached_command: None }
    }

    /// Starts resolving this server's command.
    pub fn language_server_command(&self) -> (r: ResolveStep)
        ensures
            djlsp_start_spec(*self, r),
    {
        match &self.cached_command {
            Some(command) => ResolveStep {
                statuses: Vec::new(),
                next: ResolveNext::Done(Ok(command.clone())),
            },
            None => ResolveStep {
                statuses: Vec::new(),
                next: ResolveNext::Ask(
                    HostRequest::FindExecutable("djlsp".to_owned()),
                    ServerPhase::Djlsp(DjlspPhase::ProbeServer),
                ),
            },
        }
    }

    /// Advances this server's resolution by one step with the host's
    /// answer to the search in flight.
    pub fn language_server_command_step(&mut self, phase: DjlspPhase, event: HostEvent) -> (r:
        ResolveStep)
        requires
            event is ExecutableFound,
        ensures
            djlsp_step_spec(*old(self), *final (self), phase, event, r),
    {
        match (phase, event) {
            (DjlspPhase::ProbeServer, HostEvent::ExecutableFound(found)) => match found {
                Some(path) => {
                    let command = plain_command(path);
                    self.cached_command = Some(command.clone());
                    ResolveStep { statuses: Vec::new(), next: ResolveNext::Done(Ok(command)) }
                },
                None => ResolveStep {
                    statuses: Vec::new(),
                    next: ResolveNext::Ask(
                        HostRequest::FindExecutable("uvx".to_owned()),
                        ServerPhase::Djlsp(DjlspPhase::ProbeRunner),
                    ),
                },
            },
            (DjlspPhase::ProbeRunner, HostEvent::ExecutableFound(found)) => match found {
                Some(path) => {
                    let command = runner_command(path);
                    self.cached_command = Some(command.clone());
                    ResolveStep { statuses: Vec::new(), next: ResolveNext::Done(Ok(command)) }
                },
                None => ResolveStep {
                    statuses: Vec::new(),
                    next: ResolveNext::Done(
                        Err(
                            Error::NoUsableInstallation(
                                "djlsp not found. Install uv (recommended): https://docs.astral.sh/uv/getting-started/installation/ or manually install django-template-lsp: pip install django-template-lsp".to_owned(),
                            ),
                        ),
                    ),
                },
            },
            _ => {
                proof {
                    assert(false);
                }
                ResolveStep {
                    statuses: Vec::new(),
                    next: ResolveNext::Done(Err(Error::UnsupportedPlatform)),
                }
            },
        }
    }
}

impl LanguageServer for DjangoTemplateLsp {
    open spec fn server_id_spec() -> Seq<char> {
        "django-template-lsp"@
    }

    fn server_id() -> (r: String) {
        "django-template-lsp".to_owned()
    }

    open spec fn command_args_spec() -> Seq<Seq<char>> {
        Seq::empty()
    }

    fn get_command_args(&self) -> (r: Vec<String>) {
        let r: Vec<String> = Vec::new();
        proof {
            assert(r.deep_view() =~= Seq::<Seq<char>>::empty());
        }
        r
    }
}

/// A resolver that already cached a descriptor returns it unchanged on the
/// next call, finishing at once: no executable search and no host work of
/// any kind is requested.
pub proof fn lemma_cached_descriptor_reused(s: DjangoTemplateLsp, r: ResolveStep)
    requires
        s.cached_command is Some,
        djlsp_start_spec(s, r),
    ensures
        s.cached_command matches Some(cached) && r.next matches ResolveNext::Done(res) && res
            matches Ok(cmd) && cmd@ == cached@,
        !(r.next is Ask),
        r.statuses@.len() == 0,
{
}

/// Builds the descriptor that runs the server ephemerally through the
/// runner found at `path`.
fn runner_command(path: String) -> (c: Command)
    ensures
        c@ == runner_command_view(path@),
{
    let mut args: Vec<String> = Vec::new();
    args.push("--from".to_owned());
    args.push("django-template-lsp".to_owned());
    args.push("djlsp".to_owned());
    let c = Command { command: path, args, env: Vec::new() };
    proof {
        assert(c@.args =~= runner_command_view(c.command@).args);
        assert(c@ =~= runner_command_view(c.command@));
    }
    c
}

} // verus!
