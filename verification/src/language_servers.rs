//! The supported language servers and the registry-facing dispatch over
//! them.
//!
//! Each server is a resolution machine: started, it either returns a
//! finished command descriptor or a [`HostRequest`]; the host's answer is
//! fed back through the step function until resolution finishes. The
//! [`LanguageServerInstance`] enum closes the set of supported servers and
//! dispatches both operations by variant.

mod django_language_server;
mod django_template_lsp;
mod language_server;

pub use django_language_server::DjangoLanguageServer;
pub use django_language_server::DjlsPhase;
pub use django_language_server::djls_command_view;
pub use django_language_server::djls_event_fits;
pub use django_language_server::djls_phase_wf;
pub use django_language_server::djls_start_spec;
pub use django_language_server::djls_step_spec;
pub use django_language_server::djls_wrap_spec;
pub use django_language_server::lemma_present_path_reused;
pub use django_language_server::lemma_removed_path_restarts_resolution;
pub use django_template_lsp::DjangoTemplateLsp;
pub use django_template_lsp::DjlspPhase;
pub use django_template_lsp::djlsp_missing_message;
pub use django_template_lsp::djlsp_start_spec;
pub use django_template_lsp::djlsp_step_spec;
pub use django_template_lsp::lemma_cached_descriptor_reused;
pub use django_template_lsp::runner_command_view;
pub use language_server::LanguageServer;

use vstd::prelude::*;

use crate::error::Error;
use crate::host::Arch;
use crate::host::Command;
use crate::host::HostEvent;
use crate::host::HostRequest;
use crate::host::InstallationStatus;
use crate::host::Os;

verus! {

/// Which server's resolution is in flight, and where it stands.
#[derive(Debug)]
pub enum ServerPhase {
    Djls(DjlsPhase),
    Djlsp(DjlspPhase),
}

/// What a resolution machine does after a step: hand the host another
/// request, or finish with a command descriptor or an error.
#[derive(Debug)]
pub enum ResolveNext {
    Ask(HostRequest, ServerPhase),
    Done(Result<Command, Error>),
}

/// One step of a resolution machine: the installation statuses to report,
/// in order, then what to do next.
#[derive(Debug)]
pub struct ResolveStep {
    pub statuses: Vec<InstallationStatus>,
    pub next: ResolveNext,
}

/// One of the supported language servers, holding its per-server cache.
#[derive(Debug)]
pub enum LanguageServerInstance {
    DjangoLanguageServer(DjangoLanguageServer),
    DjangoTemplateLsp(DjangoTemplateLsp),
}

impl LanguageServerInstance {
    /// Looks a logical server identifier up in the closed set of supported
    /// servers, building a fresh (nothing cached) instance on a match; an
    /// unrecognized identifier is a hard error carrying the identifier.
    pub fn from_id(id: &str) -> (r: Result<LanguageServerInstance, Error>)
        ensures
            ({
                if id@ == DjangoLanguageServer::server_id_spec() {
                    r matches Ok(inst) && inst matches LanguageServerInstance::DjangoLanguageServer(
                        s,
                    ) && s.djls_path is None
                } else if id@ == DjangoTemplateLsp::server_id_spec() {
                    r matches Ok(inst) && inst matches LanguageServerInstance::DjangoTemplateLsp(s)
                        && s.cached_command is None
                } else {
                    r matches Err(e) && e matches Error::UnknownServerId(i) && i@ == id@
                }
            }),
    {
        let owned = id.to_owned();
        if owned == DjangoLanguageServer::server_id() {
            Ok(LanguageServerInstance::DjangoLanguageServer(DjangoLanguageServer::new()))
        } else if owned == DjangoTemplateLsp::server_id() {
            Ok(LanguageServerInstance::DjangoTemplateLsp(DjangoTemplateLsp::new()))
        } else {
            Err(Error::UnknownServerId(owned))
        }
    }

    /// The phase names the variant this instance holds, and its data is
    /// consistent with the server's cache and the platform.
    pub open spec fn phase_wf(self, os: Os, arch: Arch, phase: ServerPhase) -> bool {
        match phase {
            ServerPhase::Djls(p) => self matches LanguageServerInstance::DjangoLanguageServer(s)
                && djls_phase_wf(s, os, arch, p),
            ServerPhase::Djlsp(_) => self matches LanguageServerInstance::DjangoTemplateLsp(_),
        }
    }

    /// The event answers the request the phase has in flight.
    pub open spec fn event_fits(phase: ServerPhase, event: HostEvent) -> bool {
        match phase {
            ServerPhase::Djls(p) => djls_event_fits(p, event),
            ServerPhase::Djlsp(_) => event is ExecutableFound,
        }
    }

    /// Starts resolving this server's command for the given platform.
    pub fn language_server_command(&self, os: Os, arch: Arch) -> (r: ResolveStep)
        ensures
            *self matches LanguageServerInstance::DjangoLanguageServer(s) ==> djls_start_spec(
                s,
                os,
                arch,
                r,
            ),
            *self matches LanguageServerInstance::DjangoTemplateLsp(s) ==> djlsp_start_spec(s, r),
    {
        match self {
            LanguageServerInstance::DjangoLanguageServer(s) => s.language_server_command(os, arch),
            LanguageServerInstance::DjangoTemplateLsp(s) => s.language_server_command(),
        }
    }

    /// Advances this server's resolution by one step with the host's
    /// answer.
    pub fn language_server_command_step(
        &mut self,
        os: Os,
        arch: Arch,
        phase: ServerPhase,
        event: HostEvent,
    ) -> (r: ResolveStep)
        requires
            arch != Arch::X86,
            old(self).phase_wf(os, arch, phase),
            Self::event_fits(phase, event),
        ensures
            phase matches ServerPhase::Djls(p) ==> *old(self) matches
                LanguageServerInstance::DjangoLanguageServer(s1) && *final (self) matches
                LanguageServerInstance::DjangoLanguageServer(s2) && djls_step_spec(
                s1,
                s2,
                os,
                arch,
                p,
                event,
                r,
            ),
            phase matches ServerPhase::Djlsp(p) ==> *old(self) matches
                LanguageServerInstance::DjangoTemplateLsp(s1) && *final (self) matches
                LanguageServerInstance::DjangoTemplateLsp(s2) && djlsp_step_spec(
                s1,
                s2,
                p,
                event,
                r,
            ),
    {
        match (self, phase) {
            (LanguageServerInstance::DjangoLanguageServer(s), ServerPhase::Djls(p)) => s
                .language_server_command_step(os, arch, p, event),
            (LanguageServerInstance::DjangoTemplateLsp(s), ServerPhase::Djlsp(p)) => s
                .language_server_command_step(p, event),
            _ => {
                proof {
                    assert(false);
                }
                ResolveStep {
                    statuses: Vec::new(),
                    next: ResolveNext::Done(Err(Error::UnsupportedPlatform)),
                }
            },
        }
    }
}

} // verus!
