//! Resolution of the release-distributed Django language server (`djls`).
//!
//! This resolver caches the installed binary's path rather than a whole
//! command descriptor, and re-validates it against the filesystem before
//! reuse: if the backing path has been removed, the cache is discarded and
//! full resolution (executable search, then release-driven install) is run
//! again through the install machine of [`crate::djls`].

use vstd::prelude::*;

use crate::djls::InstallNext;
use crate::djls::InstallPhase;
use crate::djls::InstallStep;
use crate::djls::binary_name;
use crate::djls::get_or_install_djls_step;
use crate::djls::install_event_fits;
use crate::djls::install_phase_wf;
use crate::djls::install_step_spec;
use crate::error::Error;
use crate::host::Arch;
use crate::host::Command;
use crate::host::CommandView;
use crate::host::HostEvent;
use crate::host::HostRequest;
use crate::host::Os;
use crate::language_servers::LanguageServer;
use crate::language_servers::ResolveNext;
use crate::language_servers::ResolveStep;
use crate::language_servers::ServerPhase;

verus! {

/// The command that launches the installed server: the binary with its
/// fixed `serve` subcommand.
pub open spec fn djls_command_view(path: Seq<char>) -> CommandView {
    CommandView { command: path, args: seq!["serve"@], env: Seq::empty() }
}

/// Phases of this server's resolution.
#[derive(Debug)]
pub enum DjlsPhase {
    /// The cached installed path is being probed for existence before
    /// reuse.
    Revalidate,
    /// Full resolution is running through the install machine.
    Install(InstallPhase),
}

/// The release-distributed Django language server's resolver, holding the
/// path its binary was last resolved to, if any.
#[derive(Debug)]
pub struct DjangoLanguageServer {
    pub djls_path: Option<String>,
}

/// Phase data is consistent with the resolver's cache and the platform.
pub open spec fn djls_phase_wf(
    s: DjangoLanguageServer,
    os: Os,
    arch: Arch,
    phase: DjlsPhase,
) -> bool {
    match phase {
        DjlsPhase::Revalidate => s.djls_path is Some,
        DjlsPhase::Install(p) => install_phase_wf(os, arch, p),
    }
}

/// The event answers the request the phase has in flight.
pub open spec fn djls_event_fits(phase: DjlsPhase, event: HostEvent) -> bool {
    match phase {
        DjlsPhase::Revalidate => event is FileExists,
        DjlsPhase::Install(p) => install_event_fits(p, event),
    }
}

/// How resolution starts: the unsupported architecture fails at once with
/// no host work; a cached path is re-validated against the filesystem
/// before reuse; with nothing cached, full resolution begins with an
/// executable-path search.
pub open spec fn djls_start_spec(s: DjangoLanguageServer, os: Os, arch: Arch, r: ResolveStep) -> bool {
    &&& r.statuses@.len() == 0
    &&& if arch == Arch::X86 {
        r.next matches ResolveNext::Done(res) && res matches Err(e) && e
            == Error::UnsupportedPlatform
    } else {
        match s.djls_path {
            Some(p) => r.next matches ResolveNext::Ask(req, ph) && (req
                matches HostRequest::ProbeFile(q) && q@ == p@) && ph == ServerPhase::Djls(
                DjlsPhase::Revalidate,
            ),
            None => r.next matches ResolveNext::Ask(req, ph) && (req
                matches HostRequest::FindExecutable(n) && n@ == binary_name()) && ph
                == ServerPhase::Djls(DjlsPhase::Install(InstallPhase::Probe)),
        }
    }
}

/// How an install-machine step is lifted to this resolver: requests pass
/// through with the phase wrapped; an installed path is cached and turned
/// into the `serve` command; an error passes through and leaves the cache
/// as it was, so the next call retries cleanly.
pub open spec fn djls_wrap_spec(
    s1: DjangoLanguageServer,
    s2: DjangoLanguageServer,
    ist: InstallStep,
    r: ResolveStep,
) -> bool {
    &&& r.statuses@ == ist.statuses@
    &&& match ist.next {
        InstallNext::Ask(req, p) => {
            &&& s2 == s1
            &&& r.next matches ResolveNext::Ask(req2, ph) && req2 == req && ph == ServerPhase::Djls(
                DjlsPhase::Install(p),
            )
        },
        InstallNext::Done(res) => match res {
            Ok(path) => {
                &&& s2.djls_path matches Some(q) && q@ == path@
                &&& r.next matches ResolveNext::Done(res2) && res2 matches Ok(cmd) && cmd@
                    == djls_command_view(path@)
            },
            Err(e) => {
                &&& s2 == s1
                &&& r.next matches ResolveNext::Done(res2) && res2 matches Err(e2) && e2 == e
            },
        },
    }
}

/// The transition relation of this server's resolution: a still-present
/// cached path is reused as the `serve` command without further host work;
/// a removed path discards the cache's authority and restarts full
/// resolution; install phases step the install machine and lift its
/// outcome.
pub open spec fn djls_step_spec(
    s1: DjangoLanguageServer,
    s2: DjangoLanguageServer,
    os: Os,
    arch: Arch,
    phase: DjlsPhase,
    event: HostEvent,
    r: ResolveStep,
) -> bool {
    match phase {
        DjlsPhase::Revalidate => event matches HostEvent::FileExists(present) && if present {
            &&& s2 == s1
            &&& r.statuses@.len() == 0
            &&& s1.djls_path matches Some(p)
            &&& r.next matches ResolveNext::Done(res) && res matches Ok(cmd) && cmd@
                == djls_command_view(p@)
        } else {
            &&& s2 == s1
            &&& r.statuses@.len() == 0
            &&& r.next matches ResolveNext::Ask(req, ph) && (req
                matches HostRequest::FindExecutable(n) && n@ == binary_name()) && ph
                == ServerPhase::Djls(DjlsPhase::Install(InstallPhase::Probe))
        },
        DjlsPhase::Install(p) => exists|ist: InstallStep|
            #[trigger] install_step_spec(os, arch, p, event, ist) && djls_wrap_spec(s1, s2, ist, r),
    }
}

impl DjangoLanguageServer {
    /// A fresh resolver with nothing cached.
    pub fn new() -> (r: Self)
        ensures
            r.djls_path is None,
    {
        DjangoLanguageServer { djls_path: None }
    }

    /// Starts resolving this server's command for the given platform.
    pub fn language_server_command(&self, os: Os, arch: Arch) -> (r: ResolveStep)
        ensures
            djls_start_spec(*self, os, arch, r),
    {
        if let Arch::X86 = arch {
            return ResolveStep {
                statuses: Vec::new(),
                next: ResolveNext::Done(Err(Error::UnsupportedPlatform)),
            };
        }
        match &self.djls_path {
            Some(path) => ResolveStep {
                statuses: Vec::new(),
                next: ResolveNext::Ask(
                    HostRequest::ProbeFile(path.clone()),
                    ServerPhase::Djls(DjlsPhase::Revalidate),
                ),
            },
            None => ResolveStep {
                statuses: Vec::new(),
                next: ResolveNext::Ask(
                    HostRequest::FindExecutable("djls".to_owned()),
                    ServerPhase::Djls(DjlsPhase::Install(InstallPhase::Probe)),
                ),
            },
        }
    }

    /// Advances this server's resolution by one step with the host's
    /// answer.
    pub fn language_server_command_step(
        &mut self,
        os: Os,
        arch: Arch,
        phase: DjlsPhase,
        event: HostEvent,
    ) -> (r: ResolveStep)
        requires
            arch != Arch::X86,
            djls_phase_wf(*old(self), os, arch, phase),
            djls_event_fits(phase, event),
        ensures
            djls_step_spec(*old(self), *final (self), os, arch, phase, event, r),
    {
        match phase {
            DjlsPhase::Revalidate => {
                let present = match event {
                    HostEvent::FileExists(present) => present,
                    _ => {
                        proof {
                            assert(false);
                        }
                        false
                    },
                };
                if present {
                    let path = self.djls_path.as_ref().unwrap().clone();
                    let command = serve_command(path);
                    ResolveStep { statuses: Vec::new(), next: ResolveNext::Done(Ok(command)) }
                } else {
                    ResolveStep {
                        statuses: Vec::new(),
                        next: ResolveNext::Ask(
                            HostRequest::FindExecutable("djls".to_owned()),
                            ServerPhase::Djls(DjlsPhase::Install(InstallPhase::Probe)),
                        ),
                    }
                }
            },
            DjlsPhase::Install(p) => {
                let ist = get_or_install_djls_step(os, arch, p, event);
                let ghost g_ist = ist;
                let InstallStep { statuses, next } = ist;
                let r = match next {
                    InstallNext::Ask(req, p2) => ResolveStep {
                        statuses,
                        next: ResolveNext::Ask(req, ServerPhase::Djls(DjlsPhase::Install(p2))),
                    },
                    InstallNext::Done(res) => match res {
                        Ok(path) => {
                            self.djls_path = Some(path.clone());
                            let command = serve_command(path);
                            ResolveStep { statuses, next: ResolveNext::Done(Ok(command)) }
                        },
                        Err(e) => ResolveStep { statuses, next: ResolveNext::Done(Err(e)) },
                    },
                };
                proof {
                    assert(install_step_spec(os, arch, p, event, g_ist));
                    assert(djls_wrap_spec(*old(self), *self, g_ist, r));
                }
                r
            },
        }
    }
}

impl LanguageServer for DjangoLanguageServer {
    open spec fn server_id_spec() -> Seq<char> {
        "django-language-server"@
    }

    fn server_id() -> (r: String) {
        "django-language-server".to_owned()
    }

    open spec fn command_args_spec() -> Seq<Seq<char>> {
        seq!["serve"@]
    }

    fn get_command_args(&self) -> (r: Vec<String>) {
        let mut r: Vec<String> = Vec::new();
        r.push("serve".to_owned());
        proof {
            assert(r.deep_view() =~= seq!["serve"@]);
        }
        r
    }
}

/// A cached installed path that is still present on disk is reused: the
/// re-validation step finishes with the command built from exactly that
/// path, the cache is untouched, and no further host work is requested —
/// in particular no release lookup and no install work.
pub proof fn lemma_present_path_reused(
    s1: DjangoLanguageServer,
    s2: DjangoLanguageServer,
    os: Os,
    arch: Arch,
    r: ResolveStep,
)
    requires
        s1.djls_path is Some,
        djls_step_spec(s1, s2, os, arch, DjlsPhase::Revalidate, HostEvent::FileExists(true), r),
    ensures
        s2 == s1,
        s1.djls_path matches Some(p) && r.next matches ResolveNext::Done(res) && res matches Ok(
            cmd,
        ) && cmd@ == djls_command_view(p@),
        !(r.next is Ask),
        r.statuses@.len() == 0,
{
}

/// A cached installed path that has been removed between calls does not
/// yield stale data: the re-validation step restarts full resolution at
/// the executable search.
pub proof fn lemma_removed_path_restarts_resolution(
    s1: DjangoLanguageServer,
    s2: DjangoLanguageServer,
    os: Os,
    arch: Arch,
    r: ResolveStep,
)
    requires
        s1.djls_path is Some,
        djls_step_spec(s1, s2, os, arch, DjlsPhase::Revalidate, HostEvent::FileExists(false), r),
    ensures
        s2 == s1,
        r.next matches ResolveNext::Ask(req, ph) && (req matches HostRequest::FindExecutable(n)
            && n@ == binary_name()) && ph == ServerPhase::Djls(
            DjlsPhase::Install(InstallPhase::Probe),
        ),
        r.statuses@.len() == 0,
{
}

/// Builds the descriptor that launches the server binary at `path` with
/// its fixed `serve` subcommand.
fn serve_command(path: String) -> (c: Command)
    ensures
        c@ == djls_command_view(path@),
{
    let mut args: Vec<String> = Vec::new();
    args.push("serve".to_owned());
    let c = Command { command: path, args, env: Vec::new() };
    proof {
        assert(c@.args =~= djls_command_view(c.command@).args);
        assert(c@ =~= djls_command_view(c.command@));
    }
    c
}

} // verus!
