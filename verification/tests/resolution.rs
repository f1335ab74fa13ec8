//! The resolution machines: fallback order, caching, re-validation, status
//! reporting and the error taxonomy, driven with an in-test host.

use django_servers::DjangoExtension;
use django_servers::error::Error;
use django_servers::host::Arch;
use django_servers::host::ArchiveKind;
use django_servers::host::Command;
use django_servers::host::GithubRelease;
use django_servers::host::GithubReleaseAsset;
use django_servers::host::HostEvent;
use django_servers::host::HostRequest;
use django_servers::host::InstallationStatus;
use django_servers::host::Os;
use django_servers::language_servers::DjangoLanguageServer;
use django_servers::language_servers::DjangoTemplateLsp;
use django_servers::language_servers::DjlsPhase;
use django_servers::language_servers::DjlspPhase;
use django_servers::language_servers::LanguageServer;
use django_servers::language_servers::LanguageServerInstance;
use django_servers::language_servers::ResolveNext;
use django_servers::language_servers::ResolveStep;
use django_servers::language_servers::ServerPhase;

fn linux_release_with_asset() -> GithubRelease {
    GithubRelease {
        version: "v1.0.0".to_string(),
        assets: vec![GithubReleaseAsset {
            name: "django-language-server-v1.0.0-linux-x64.tar.gz".to_string(),
            download_url: "https://example.com/download".to_string(),
        }],
    }
}

fn expect_ask(step: ResolveStep) -> (HostRequest, ServerPhase, Vec<InstallationStatus>) {
    match step.next {
        ResolveNext::Ask(req, phase) => (req, phase, step.statuses),
        ResolveNext::Done(Ok(cmd)) => panic!("resolution finished early: {}", cmd.command),
        ResolveNext::Done(Err(e)) => panic!("resolution failed early: {}", e.message()),
    }
}

fn expect_done_ok(step: ResolveStep) -> (Command, Vec<InstallationStatus>) {
    match step.next {
        ResolveNext::Done(Ok(cmd)) => (cmd, step.statuses),
        ResolveNext::Done(Err(e)) => panic!("resolution failed: {}", e.message()),
        ResolveNext::Ask(_, _) => panic!("resolution still asking for host work"),
    }
}

fn expect_done_err(step: ResolveStep) -> (Error, Vec<InstallationStatus>) {
    match step.next {
        ResolveNext::Done(Err(e)) => (e, step.statuses),
        ResolveNext::Done(Ok(cmd)) => panic!("resolution unexpectedly succeeded: {}", cmd.command),
        ResolveNext::Ask(_, _) => panic!("resolution still asking for host work"),
    }
}

#[test]
fn djls_full_install_reports_statuses_in_order() {
    let mut server = DjangoLanguageServer::new();
    let mut statuses: Vec<InstallationStatus> = Vec::new();

    let step = server.language_server_command(Os::Linux, Arch::X8664);
    let (req, phase, emitted) = expect_ask(step);
    statuses.extend(emitted);
    assert!(matches!(req, HostRequest::FindExecutable(ref name) if name == "djls"));
    let phase = match phase {
        ServerPhase::Djls(p) => p,
        ServerPhase::Djlsp(_) => panic!("wrong server's phase"),
    };

    let step = server.language_server_command_step(
        Os::Linux,
        Arch::X8664,
        phase,
        HostEvent::ExecutableFound(None),
    );
    let (req, phase, emitted) = expect_ask(step);
    statuses.extend(emitted);
    match &req {
        HostRequest::FetchLatestRelease(repo, options) => {
            assert_eq!(repo, "joshuadavidthomas/django-language-server");
            assert!(options.require_assets);
            assert!(!options.pre_release);
        }
        _ => panic!("expected a release fetch"),
    }
    let phase = match phase {
        ServerPhase::Djls(p) => p,
        ServerPhase::Djlsp(_) => panic!("wrong server's phase"),
    };

    let step = server.language_server_command_step(
        Os::Linux,
        Arch::X8664,
        phase,
        HostEvent::ReleaseFetched(Ok(linux_release_with_asset())),
    );
    let (req, phase, emitted) = expect_ask(step);
    statuses.extend(emitted);
    assert!(matches!(
        req,
        HostRequest::ProbeFile(ref path) if path == "django-language-server-v1.0.0-linux-x64/djls"
    ));
    let phase = match phase {
        ServerPhase::Djls(p) => p,
        ServerPhase::Djlsp(_) => panic!("wrong server's phase"),
    };

    let step = server.language_server_command_step(
        Os::Linux,
        Arch::X8664,
        phase,
        HostEvent::FileExists(false),
    );
    let (req, phase, emitted) = expect_ask(step);
    statuses.extend(emitted);
    match &req {
        HostRequest::DownloadAndExtract(url, kind) => {
            assert_eq!(url, "https://example.com/download");
            assert_eq!(*kind, ArchiveKind::GzipTar);
        }
        _ => panic!("expected a download"),
    }
    let phase = match phase {
        ServerPhase::Djls(p) => p,
        ServerPhase::Djlsp(_) => panic!("wrong server's phase"),
    };

    let step = server.language_server_command_step(
        Os::Linux,
        Arch::X8664,
        phase,
        HostEvent::DownloadFinished(Ok(())),
    );
    let (req, phase, emitted) = expect_ask(step);
    statuses.extend(emitted);
    assert!(matches!(
        req,
        HostRequest::MakeExecutable(ref path)
            if path == "django-language-server-v1.0.0-linux-x64/djls"
    ));
    let phase = match phase {
        ServerPhase::Djls(p) => p,
        ServerPhase::Djlsp(_) => panic!("wrong server's phase"),
    };

    let step = server.language_server_command_step(
        Os::Linux,
        Arch::X8664,
        phase,
        HostEvent::ExecutableMarked(Ok(())),
    );
    let (cmd, emitted) = expect_done_ok(step);
    statuses.extend(emitted);

    assert_eq!(cmd.command, "django-language-server-v1.0.0-linux-x64/djls");
    assert_eq!(cmd.args, vec!["serve".to_string()]);
    assert!(cmd.env.is_empty());
    assert_eq!(
        statuses,
        vec![
            InstallationStatus::CheckingForUpdate,
            InstallationStatus::Downloading,
            InstallationStatus::Idle,
        ]
    );
}

#[test]
fn djls_existing_install_skips_download() {
    let mut server = DjangoLanguageServer::new();
    let step = server.language_server_command(Os::Linux, Arch::X8664);
    let (_, phase, _) = expect_ask(step);
    let phase = match phase {
        ServerPhase::Djls(p) => p,
        ServerPhase::Djlsp(_) => panic!("wrong server's phase"),
    };
    let step = server.language_server_command_step(
        Os::Linux,
        Arch::X8664,
        phase,
        HostEvent::ExecutableFound(None),
    );
    let (_, phase, _) = expect_ask(step);
    let phase = match phase {
        ServerPhase::Djls(p) => p,
        ServerPhase::Djlsp(_) => panic!("wrong server's phase"),
    };
    let step = server.language_server_command_step(
        Os::Linux,
        Arch::X8664,
        phase,
        HostEvent::ReleaseFetched(Ok(linux_release_with_asset())),
    );
    let (_, phase, _) = expect_ask(step);
    let phase = match phase {
        ServerPhase::Djls(p) => p,
        ServerPhase::Djlsp(_) => panic!("wrong server's phase"),
    };
    // The binary of this version is already on disk: no download happens
    // and the settled status is reported at once.
    let step = server.language_server_command_step(
        Os::Linux,
        Arch::X8664,
        phase,
        HostEvent::FileExists(true),
    );
    let (cmd, statuses) = expect_done_ok(step);
    assert_eq!(cmd.command, "django-language-server-v1.0.0-linux-x64/djls");
    assert_eq!(statuses, vec![InstallationStatus::Idle]);
}

#[test]
fn djls_local_executable_is_cached_and_revalidated() {
    let mut server = DjangoLanguageServer::new();
    let step = server.language_server_command(Os::Mac, Arch::Aarch64);
    let (req, phase, _) = expect_ask(step);
    assert!(matches!(req, HostRequest::FindExecutable(ref name) if name == "djls"));
    let phase = match phase {
        ServerPhase::Djls(p) => p,
        ServerPhase::Djlsp(_) => panic!("wrong server's phase"),
    };
    let step = server.language_server_command_step(
        Os::Mac,
        Arch::Aarch64,
        phase,
        HostEvent::ExecutableFound(Some("/usr/local/bin/djls".to_string())),
    );
    let (cmd, statuses) = expect_done_ok(step);
    assert_eq!(cmd.command, "/usr/local/bin/djls");
    assert_eq!(cmd.args, vec!["serve".to_string()]);
    assert!(statuses.is_empty());

    // Second call: the cached path is only probed for existence; while it
    // is still there the identical descriptor comes back with no release
    // lookup and no install work.
    let step = server.language_server_command(Os::Mac, Arch::Aarch64);
    let (req, phase, _) = expect_ask(step);
    assert!(matches!(req, HostRequest::ProbeFile(ref path) if path == "/usr/local/bin/djls"));
    let phase = match phase {
        ServerPhase::Djls(p) => p,
        ServerPhase::Djlsp(_) => panic!("wrong server's phase"),
    };
    assert!(matches!(phase, DjlsPhase::Revalidate));
    let step = server.language_server_command_step(
        Os::Mac,
        Arch::Aarch64,
        phase,
        HostEvent::FileExists(true),
    );
    let (cmd2, statuses) = expect_done_ok(step);
    assert_eq!(cmd2.command, cmd.command);
    assert_eq!(cmd2.args, cmd.args);
    assert_eq!(cmd2.env, cmd.env);
    assert!(statuses.is_empty());
}

#[test]
fn djls_removed_path_triggers_full_resolution() {
    let mut server = DjangoLanguageServer::new();
    let step = server.language_server_command(Os::Mac, Arch::Aarch64);
    let (_, phase, _) = expect_ask(step);
    let phase = match phase {
        ServerPhase::Djls(p) => p,
        ServerPhase::Djlsp(_) => panic!("wrong server's phase"),
    };
    server.language_server_command_step(
        Os::Mac,
        Arch::Aarch64,
        phase,
        HostEvent::ExecutableFound(Some("/usr/local/bin/djls".to_string())),
    );

    // The backing path disappeared: the next call must re-run full
    // resolution from the executable search instead of returning stale
    // data.
    let step = server.language_server_command(Os::Mac, Arch::Aarch64);
    let (_, phase, _) = expect_ask(step);
    let phase = match phase {
        ServerPhase::Djls(p) => p,
        ServerPhase::Djlsp(_) => panic!("wrong server's phase"),
    };
    let step = server.language_server_command_step(
        Os::Mac,
        Arch::Aarch64,
        phase,
        HostEvent::FileExists(false),
    );
    let (req, _, statuses) = expect_ask(step);
    assert!(matches!(req, HostRequest::FindExecutable(ref name) if name == "djls"));
    assert!(statuses.is_empty());
}

#[test]
fn djls_release_lookup_failure_does_not_poison_cache() {
    let mut server = DjangoLanguageServer::new();
    let step = server.language_server_command(Os::Linux, Arch::X8664);
    let (_, phase, _) = expect_ask(step);
    let phase = match phase {
        ServerPhase::Djls(p) => p,
        ServerPhase::Djlsp(_) => panic!("wrong server's phase"),
    };
    let step = server.language_server_command_step(
        Os::Linux,
        Arch::X8664,
        phase,
        HostEvent::ExecutableFound(None),
    );
    let (_, phase, _) = expect_ask(step);
    let phase = match phase {
        ServerPhase::Djls(p) => p,
        ServerPhase::Djlsp(_) => panic!("wrong server's phase"),
    };
    let step = server.language_server_command_step(
        Os::Linux,
        Arch::X8664,
        phase,
        HostEvent::ReleaseFetched(Err("the release API is unreachable".to_string())),
    );
    let (e, _) = expect_done_err(step);
    match &e {
        Error::ReleaseLookupFailed(cause) => {
            assert_eq!(cause, "the release API is unreachable");
        }
        _ => panic!("unexpected error: {}", e.message()),
    }

    // A failed attempt leaves nothing cached: the next call starts over
    // with the executable search, not with a stale path probe.
    let step = server.language_server_command(Os::Linux, Arch::X8664);
    let (req, _, _) = expect_ask(step);
    assert!(matches!(req, HostRequest::FindExecutable(ref name) if name == "djls"));
}

#[test]
fn djls_download_and_permission_failures_are_described() {
    let mut server = DjangoLanguageServer::new();
    let step = server.language_server_command(Os::Linux, Arch::X8664);
    let (_, phase, _) = expect_ask(step);
    let phase = match phase {
        ServerPhase::Djls(p) => p,
        ServerPhase::Djlsp(_) => panic!("wrong server's phase"),
    };
    let step = server.language_server_command_step(
        Os::Linux,
        Arch::X8664,
        phase,
        HostEvent::ExecutableFound(None),
    );
    let (_, phase, _) = expect_ask(step);
    let phase = match phase {
        ServerPhase::Djls(p) => p,
        ServerPhase::Djlsp(_) => panic!("wrong server's phase"),
    };
    let step = server.language_server_command_step(
        Os::Linux,
        Arch::X8664,
        phase,
        HostEvent::ReleaseFetched(Ok(linux_release_with_asset())),
    );
    let (_, phase, _) = expect_ask(step);
    let phase = match phase {
        ServerPhase::Djls(p) => p,
        ServerPhase::Djlsp(_) => panic!("wrong server's phase"),
    };
    let step = server.language_server_command_step(
        Os::Linux,
        Arch::X8664,
        phase,
        HostEvent::FileExists(false),
    );
    let (_, phase, _) = expect_ask(step);
    let phase = match phase {
        ServerPhase::Djls(p) => p,
        ServerPhase::Djlsp(_) => panic!("wrong server's phase"),
    };
    let step = server.language_server_command_step(
        Os::Linux,
        Arch::X8664,
        phase,
        HostEvent::DownloadFinished(Err("connection reset".to_string())),
    );
    let (e, _) = expect_done_err(step);
    assert_eq!(e.message(), "Failed to download djls: connection reset");

    // Drive a second attempt up to the permission step and fail there.
    let mut server = DjangoLanguageServer::new();
    let step = server.language_server_command(Os::Linux, Arch::X8664);
    let (_, phase, _) = expect_ask(step);
    let phase = match phase {
        ServerPhase::Djls(p) => p,
        ServerPhase::Djlsp(_) => panic!("wrong server's phase"),
    };
    let step = server.language_server_command_step(
        Os::Linux,
        Arch::X8664,
        phase,
        HostEvent::ExecutableFound(None),
    );
    let (_, phase, _) = expect_ask(step);
    let phase = match phase {
        ServerPhase::Djls(p) => p,
        ServerPhase::Djlsp(_) => panic!("wrong server's phase"),
    };
    let step = server.language_server_command_step(
        Os::Linux,
        Arch::X8664,
        phase,
        HostEvent::ReleaseFetched(Ok(linux_release_with_asset())),
    );
    let (_, phase, _) = expect_ask(step);
    let phase = match phase {
        ServerPhase::Djls(p) => p,
        ServerPhase::Djlsp(_) => panic!("wrong server's phase"),
    };
    let step = server.language_server_command_step(
        Os::Linux,
        Arch::X8664,
        phase,
        HostEvent::FileExists(false),
    );
    let (_, phase, _) = expect_ask(step);
    let phase = match phase {
        ServerPhase::Djls(p) => p,
        ServerPhase::Djlsp(_) => panic!("wrong server's phase"),
    };
    let step = server.language_server_command_step(
        Os::Linux,
        Arch::X8664,
        phase,
        HostEvent::DownloadFinished(Ok(())),
    );
    let (_, phase, _) = expect_ask(step);
    let phase = match phase {
        ServerPhase::Djls(p) => p,
        ServerPhase::Djlsp(_) => panic!("wrong server's phase"),
    };
    let step = server.language_server_command_step(
        Os::Linux,
        Arch::X8664,
        phase,
        HostEvent::ExecutableMarked(Err("read-only filesystem".to_string())),
    );
    let (e, _) = expect_done_err(step);
    match &e {
        Error::PermissionError(cause) => assert_eq!(cause, "read-only filesystem"),
        _ => panic!("unexpected error: {}", e.message()),
    }
}

#[test]
fn djls_x86_fails_before_any_host_work() {
    let server = DjangoLanguageServer::new();
    let step = server.language_server_command(Os::Linux, Arch::X86);
    let (e, statuses) = expect_done_err(step);
    assert!(matches!(e, Error::UnsupportedPlatform));
    assert_eq!(e.message(), "x86 architecture is not supported");
    assert!(statuses.is_empty());
}

#[test]
fn djlsp_prefers_local_server_and_caches_it() {
    let mut server = DjangoTemplateLsp::new();
    let step = server.language_server_command();
    let (req, phase, _) = expect_ask(step);
    assert!(matches!(req, HostRequest::FindExecutable(ref name) if name == "djlsp"));
    let phase = match phase {
        ServerPhase::Djlsp(p) => p,
        ServerPhase::Djls(_) => panic!("wrong server's phase"),
    };
    let step = server.language_server_command_step(
        phase,
        HostEvent::ExecutableFound(Some("/usr/bin/djlsp".to_string())),
    );
    let (cmd, _) = expect_done_ok(step);
    assert_eq!(cmd.command, "/usr/bin/djlsp");
    assert!(cmd.args.is_empty());
    assert!(cmd.env.is_empty());

    // Second call: the cached descriptor comes back identical, with no
    // host work at all.
    let step = server.language_server_command();
    let (cmd2, statuses) = expect_done_ok(step);
    assert_eq!(cmd2.command, cmd.command);
    assert_eq!(cmd2.args, cmd.args);
    assert_eq!(cmd2.env, cmd.env);
    assert!(statuses.is_empty());
}

#[test]
fn djlsp_falls_back_to_ephemeral_runner() {
    let mut server = DjangoTemplateLsp::new();
    let step = server.language_server_command();
    let (_, phase, _) = expect_ask(step);
    let phase = match phase {
        ServerPhase::Djlsp(p) => p,
        ServerPhase::Djls(_) => panic!("wrong server's phase"),
    };
    let step = server.language_server_command_step(phase, HostEvent::ExecutableFound(None));
    let (req, phase, _) = expect_ask(step);
    assert!(matches!(req, HostRequest::FindExecutable(ref name) if name == "uvx"));
    let phase = match phase {
        ServerPhase::Djlsp(p) => p,
        ServerPhase::Djls(_) => panic!("wrong server's phase"),
    };
    assert!(matches!(phase, DjlspPhase::ProbeRunner));
    let step = server.language_server_command_step(
        phase,
        HostEvent::ExecutableFound(Some("/usr/bin/uvx".to_string())),
    );
    let (cmd, _) = expect_done_ok(step);
    assert_eq!(cmd.command, "/usr/bin/uvx");
    assert_eq!(
        cmd.args,
        vec!["--from".to_string(), "django-template-lsp".to_string(), "djlsp".to_string()]
    );
    assert!(cmd.env.is_empty());
}

#[test]
fn djlsp_without_server_or_runner_gives_remediation() {
    let mut server = DjangoTemplateLsp::new();
    let step = server.language_server_command();
    let (_, phase, _) = expect_ask(step);
    let phase = match phase {
        ServerPhase::Djlsp(p) => p,
        ServerPhase::Djls(_) => panic!("wrong server's phase"),
    };
    let step = server.language_server_command_step(phase, HostEvent::ExecutableFound(None));
    let (_, phase, _) = expect_ask(step);
    let phase = match phase {
        ServerPhase::Djlsp(p) => p,
        ServerPhase::Djls(_) => panic!("wrong server's phase"),
    };
    let step = server.language_server_command_step(phase, HostEvent::ExecutableFound(None));
    let (e, _) = expect_done_err(step);
    let message = e.message();
    assert!(matches!(e, Error::NoUsableInstallation(_)));
    assert!(message.contains("djlsp not found"));
    assert!(message.contains("https://docs.astral.sh/uv/getting-started/installation/"));
    assert!(message.contains("pip install django-template-lsp"));

    // The failure leaves nothing cached: the next call searches again.
    let step = server.language_server_command();
    let (req, _, _) = expect_ask(step);
    assert!(matches!(req, HostRequest::FindExecutable(ref name) if name == "djlsp"));
}

#[test]
fn from_id_knows_exactly_the_two_servers() {
    assert!(matches!(
        LanguageServerInstance::from_id("django-language-server"),
        Ok(LanguageServerInstance::DjangoLanguageServer(_))
    ));
    assert!(matches!(
        LanguageServerInstance::from_id("django-template-lsp"),
        Ok(LanguageServerInstance::DjangoTemplateLsp(_))
    ));
    match LanguageServerInstance::from_id("ruff") {
        Err(e) => assert_eq!(e.message(), "unknown language server: ruff"),
        Ok(_) => panic!("unknown identifier accepted"),
    }
}

#[test]
fn registry_constructs_lazily_and_dispatches() {
    let mut extension = DjangoExtension::new();
    assert!(extension.django_language_server.is_none());
    assert!(extension.django_template_lsp.is_none());

    let step = extension.language_server_command("django-template-lsp", Os::Linux, Arch::X8664);
    let (req, phase, _) = expect_ask(step);
    assert!(matches!(req, HostRequest::FindExecutable(ref name) if name == "djlsp"));
    assert!(extension.django_language_server.is_none());
    assert!(extension.django_template_lsp.is_some());

    let step = extension.language_server_command_step(
        Os::Linux,
        Arch::X8664,
        phase,
        HostEvent::ExecutableFound(Some("/usr/bin/djlsp".to_string())),
    );
    let (cmd, _) = expect_done_ok(step);
    assert_eq!(cmd.command, "/usr/bin/djlsp");

    // The resolver is reused: its cache answers the second call directly.
    let step = extension.language_server_command("django-template-lsp", Os::Linux, Arch::X8664);
    let (cmd2, _) = expect_done_ok(step);
    assert_eq!(cmd2.command, "/usr/bin/djlsp");

    let step = extension.language_server_command("intelephense", Os::Linux, Arch::X8664);
    let (e, _) = expect_done_err(step);
    assert_eq!(e.message(), "unknown language server: intelephense");
}

#[test]
fn registry_x86_fails_before_any_host_work() {
    let mut extension = DjangoExtension::new();
    let step = extension.language_server_command("django-language-server", Os::Mac, Arch::X86);
    let (e, statuses) = expect_done_err(step);
    assert!(matches!(e, Error::UnsupportedPlatform));
    assert!(statuses.is_empty());
}

#[test]
fn initialization_options_substitute_null_when_absent() {
    let extension = DjangoExtension::new();
    assert_eq!(
        extension.language_server_initialization_options(Some(Some("{\"a\":1}".to_string()))),
        Some("{\"a\":1}".to_string())
    );
    assert_eq!(
        extension.language_server_initialization_options(Some(None)),
        Some("null".to_string())
    );
    assert_eq!(extension.language_server_initialization_options(None), Some("null".to_string()));
}

#[test]
fn server_ids_and_fixed_args() {
    assert_eq!(DjangoLanguageServer::server_id(), "django-language-server");
    assert_eq!(DjangoTemplateLsp::server_id(), "django-template-lsp");
    assert_eq!(DjangoLanguageServer::new().get_command_args(), vec!["serve".to_string()]);
    assert!(DjangoTemplateLsp::new().get_command_args().is_empty());
}
