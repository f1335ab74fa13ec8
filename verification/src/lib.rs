//! Resolution and installation broker for the two Django language servers.
//!
//! Given a logical server identifier, the library produces an invocable
//! command descriptor for that server's executable, handling "already
//! installed", "runnable through an ephemeral package runner", and "must be
//! downloaded from a versioned release" in a fixed fallback order, and
//! caching the result so repeated calls do not re-resolve.
//!
//! All interaction with the hosting environment (executable search, release
//! lookup, download, permission changes, status reporting) is expressed as
//! [`host::HostRequest`] values handed to the caller, who performs the work
//! and feeds the outcome back as a [`host::HostEvent`]. The decision logic
//! itself is pure and fully verified.

pub mod djls;
pub mod error;
pub mod host;
pub mod language_servers;

use vstd::prelude::*;

use crate::error::Error;
use crate::host::Arch;
use crate::host::HostEvent;
use crate::host::Os;
use crate::language_servers::DjangoLanguageServer;
use crate::language_servers::DjangoTemplateLsp;
use crate::language_servers::LanguageServer;
use crate::language_servers::LanguageServerInstance;
use crate::language_servers::ResolveNext;
use crate::language_servers::ResolveStep;
use crate::language_servers::ServerPhase;
use crate::language_servers::djls_phase_wf;
use crate::language_servers::djls_start_spec;
use crate::language_servers::djls_step_spec;
use crate::language_servers::djlsp_start_spec;
use crate::language_servers::djlsp_step_spec;

verus! {

/// The serialized form of the null value, substituted when no
/// initialization options are configured for a server.
pub open spec fn null_options() -> Seq<char> {
    "null"@
}

/// The per-process registry: one lazily constructed resolver per supported
/// server, each owning its cache for the rest of the process's lifetime.
#[derive(Debug)]
pub struct DjangoExtension {
    pub django_language_server: Option<DjangoLanguageServer>,
    pub django_template_lsp: Option<DjangoTemplateLsp>,
}

/// The registry's answer for the release-distributed server: its resolver
/// exists afterwards (reused if already constructed, fresh otherwise), the
/// other resolver is untouched, and the step is that resolver's start.
pub open spec fn registry_djls_start_spec(
    s1: DjangoExtension,
    s2: DjangoExtension,
    os: Os,
    arch: Arch,
    r: ResolveStep,
) -> bool {
    &&& s2.django_template_lsp == s1.django_template_lsp
    &&& s2.django_language_server matches Some(srv)
    &&& match s1.django_language_server {
        Some(prior) => srv == prior,
        None => srv.djls_path is None,
    }
    &&& djls_start_spec(srv, os, arch, r)
}

/// The registry's answer for the template server, as for
/// [`registry_djls_start_spec`].
pub open spec fn registry_djlsp_start_spec(
    s1: DjangoExtension,
    s2: DjangoExtension,
    r: ResolveStep,
) -> bool {
    &&& s2.django_language_server == s1.django_language_server
    &&& s2.django_template_lsp matches Some(srv)
    &&& match s1.django_template_lsp {
        Some(prior) => srv == prior,
        None => srv.cached_command is None,
    }
    &&& djlsp_start_spec(srv, r)
}

impl Default for DjangoExtension {
    /// The registry a fresh process starts from: no resolver constructed.
    fn default() -> (r: Self)
        ensures
            r.django_language_server is None,
            r.django_template_lsp is None,
    {
        DjangoExtension::new()
    }
}

impl DjangoExtension {
    /// A fresh registry with no resolver constructed yet.
    pub fn new() -> (r: Self)
        ensures
            r.django_language_server is None,
            r.django_template_lsp is None,
    {
        DjangoExtension { django_language_server: None, django_template_lsp: None }
    }

    /// Starts resolving the command for the named server on the given
    /// platform, constructing the server's resolver on first use and
    /// reusing it afterwards. An unrecognized identifier is a hard error
    /// carrying the identifier, with the registry untouched.
    pub fn language_server_command(
        &mut self,
        language_server_id: &str,
        os: Os,
        arch: Arch,
    ) -> (r: ResolveStep)
        ensures
            ({
                if language_server_id@ == DjangoLanguageServer::server_id_spec() {
                    registry_djls_start_spec(*old(self), *final (self), os, arch, r)
                } else if language_server_id@ == DjangoTemplateLsp::server_id_spec() {
                    registry_djlsp_start_spec(*old(self), *final (self), r)
                } else {
                    &&& *final (self) == *old(self)
                    &&& r.statuses@.len() == 0
                    &&& r.next matches ResolveNext::Done(res) && res matches Err(e) && e
                        matches Error::UnknownServerId(i) && i@ == language_server_id@
                }
            }),
    {
        let owned = language_server_id.to_owned();
        if owned == DjangoLanguageServer::server_id() {
            if self.django_language_server.is_none() {
                self.django_language_server = Some(DjangoLanguageServer::new());
            }
            self.django_language_server.as_ref().unwrap().language_server_command(os, arch)
        } else if owned == DjangoTemplateLsp::server_id() {
            if self.django_template_lsp.is_none() {
                self.django_template_lsp = Some(DjangoTemplateLsp::new());
            }
            self.django_template_lsp.as_ref().unwrap().language_server_command()
        } else {
            ResolveStep {
                statuses: Vec::new(),
                next: ResolveNext::Done(Err(Error::UnknownServerId(owned))),
            }
        }
    }

    /// Advances the resolution in flight by one step with the host's
    /// answer; the phase names which server's resolver it belongs to, and
    /// the other resolver is untouched.
    pub fn language_server_command_step(
        &mut self,
        os: Os,
        arch: Arch,
        phase: ServerPhase,
        event: HostEvent,
    ) -> (r: ResolveStep)
        requires
            arch != Arch::X86,
            phase matches ServerPhase::Djls(p) ==> old(self).django_language_server matches Some(s)
                && djls_phase_wf(s, os, arch, p),
            phase matches ServerPhase::Djlsp(_) ==> old(self).django_template_lsp is Some,
            LanguageServerInstance::event_fits(phase, event),
        ensures
            phase matches ServerPhase::Djls(p) ==> old(self).django_language_server matches Some(
                s1,
            ) && final (self).django_language_server matches Some(s2) && djls_step_spec(
                s1,
                s2,
                os,
                arch,
                p,
                event,
                r,
            ) && final (self).django_template_lsp == old(self).django_template_lsp,
            phase matches ServerPhase::Djlsp(p) ==> old(self).django_template_lsp matches Some(s1)
                && final (self).django_template_lsp matches Some(s2) && djlsp_step_spec(
                s1,
                s2,
                p,
                event,
                r,
            ) && final (self).django_language_server == old(self).django_language_server,
    {
        match phase {
            ServerPhase::Djls(p) => {
                let mut server = self.django_language_server.take().unwrap();
                let r = server.language_server_command_step(os, arch, p, event);
                self.django_language_server = Some(server);
                r
            },
            ServerPhase::Djlsp(p) => {
                let mut server = self.django_template_lsp.take().unwrap();
                let r = server.language_server_command_step(p, event);
                self.django_template_lsp = Some(server);
                r
            },
        }
    }

    /// Initialization options for a server: the per-project settings value
    /// is passed through untouched, and the null value is substituted when
    /// the settings lookup failed or configured nothing. `lsp_settings`
    /// carries the host's lookup: whether it succeeded, and if so whether
    /// options were configured, the value as its serialized text.
    pub fn language_server_initialization_options(
        &self,
        lsp_settings: Option<Option<String>>,
    ) -> (r: Option<String>)
        ensures
            r matches Some(v) && v@ == match lsp_settings {
                Some(Some(configured)) => configured@,
                _ => null_options(),
            },
    {
        match lsp_settings {
            Some(Some(configured)) => Some(configured),
            _ => Some("null".to_owned()),
        }
    }
}

} // verus!
