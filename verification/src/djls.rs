//! Resolution and installation of the release-distributed Django language
//! server (`djls`).
//!
//! The naming scheme is the pure heart of this module: platform and release
//! version determine the archive basename, the asset filename and the
//! installed binary's relative path, and every other part consults these
//! functions rather than re-deriving the tags. Around it sits the install
//! machine: a step function from phase and host event to the next host
//! request, the statuses to report, or the final outcome.

use vstd::prelude::*;

use crate::error::Error;
use crate::host::Arch;
use crate::host::ArchiveKind;
use crate::host::GithubRelease;
use crate::host::GithubReleaseAsset;
use crate::host::GithubReleaseOptions;
use crate::host::HostEvent;
use crate::host::HostRequest;
use crate::host::InstallationStatus;
use crate::host::Os;

verus! {

/// Release source the server is published under.
pub open spec fn github_repo() -> Seq<char> {
    "joshuadavidthomas/django-language-server"@
}

/// Name of the server executable inside the extracted archive, and the name
/// searched for on the project's executable path.
pub open spec fn binary_name() -> Seq<char> {
    "djls"@
}

/// Package name that prefixes every release artifact.
pub open spec fn package_name() -> Seq<char> {
    "django-language-server"@
}

/// Tag naming the operating system inside artifact names.
pub open spec fn os_tag(os: Os) -> Seq<char> {
    match os {
        Os::Mac => "darwin"@,
        Os::Linux => "linux"@,
        Os::Windows => "windows"@,
    }
}

/// Tag naming the architecture inside artifact names. The unsupported
/// architecture never reaches a name; it is mapped to the empty sequence.
pub open spec fn arch_tag(arch: Arch) -> Seq<char> {
    match arch {
        Arch::Aarch64 => "arm64"@,
        Arch::X8664 => "x64"@,
        Arch::X86 => Seq::empty(),
    }
}

/// Extension of the release archive: `zip` on windows-like systems,
/// gzip-compressed tar everywhere else.
pub open spec fn archive_ext(os: Os) -> Seq<char> {
    match os {
        Os::Windows => "zip"@,
        _ => "tar.gz"@,
    }
}

/// How the release archive is packed, depending on the operating system
/// alone.
pub open spec fn archive_kind_spec(os: Os) -> ArchiveKind {
    match os {
        Os::Windows => ArchiveKind::Zip,
        _ => ArchiveKind::GzipTar,
    }
}

/// Basename of a release artifact:
/// `{package}-{version}-{os-tag}-{arch-tag}`.
pub open spec fn base_name_spec(os: Os, arch: Arch, version: Seq<char>) -> Seq<char> {
    package_name() + "-"@ + version + "-"@ + os_tag(os) + "-"@ + arch_tag(arch)
}

/// Filename of the release asset: the basename plus the archive extension.
pub open spec fn asset_name_spec(os: Os, arch: Arch, version: Seq<char>) -> Seq<char> {
    base_name_spec(os, arch, version) + "."@ + archive_ext(os)
}

/// Path of the installed binary relative to the working directory: the
/// extracted archive's directory followed by the executable's name.
pub open spec fn binary_path_spec(os: Os, arch: Arch, version: Seq<char>) -> Seq<char> {
    base_name_spec(os, arch, version) + "/"@ + binary_name()
}

/// Artifact naming is a pure function of platform and version: equal
/// inputs always name the same basename, asset and binary path.
pub proof fn lemma_artifact_naming_deterministic(
    os1: Os,
    arch1: Arch,
    v1: Seq<char>,
    os2: Os,
    arch2: Arch,
    v2: Seq<char>,
)
    requires
        os1 == os2,
        arch1 == arch2,
        v1 == v2,
    ensures
        base_name_spec(os1, arch1, v1) == base_name_spec(os2, arch2, v2),
        asset_name_spec(os1, arch1, v1) == asset_name_spec(os2, arch2, v2),
        binary_path_spec(os1, arch1, v1) == binary_path_spec(os2, arch2, v2),
{
}

/// The archive kind depends solely on the operating system: windows-like
/// systems get a zip archive, all others a gzip-compressed tar, whatever
/// the architecture and version.
pub proof fn lemma_archive_kind_solely_os(os: Os)
    ensures
        os == Os::Windows ==> archive_kind_spec(os) == ArchiveKind::Zip && archive_ext(os)
            == "zip"@,
        os != Os::Windows ==> archive_kind_spec(os) == ArchiveKind::GzipTar && archive_ext(os)
            == "tar.gz"@,
{
}

/// Download URL of the first asset whose name equals `name` exactly,
/// scanning from index `i` on.
pub open spec fn find_asset_url_from(
    assets: Seq<GithubReleaseAsset>,
    name: Seq<char>,
    i: int,
) -> Option<Seq<char>>
    decreases assets.len() - i,
{
    if i < 0 || i >= assets.len() {
        None
    } else if assets[i].name@ == name {
        Some(assets[i].download_url@)
    } else {
        find_asset_url_from(assets, name, i + 1)
    }
}

/// Download URL of the first asset whose name equals `name` exactly, if
/// any.
pub open spec fn find_asset_url(assets: Seq<GithubReleaseAsset>, name: Seq<char>) -> Option<
    Seq<char>,
> {
    find_asset_url_from(assets, name, 0)
}

/// Asset matching is exact string equality and nothing else: a URL is
/// found if and only if some asset's name equals the expected name, and
/// the URL found belongs to the first such asset.
pub proof fn lemma_find_asset_exact(assets: Seq<GithubReleaseAsset>, name: Seq<char>)
    ensures
        find_asset_url(assets, name) is Some <==> exists|i: int|
            0 <= i < assets.len() && assets[i].name@ == name,
        find_asset_url(assets, name) matches Some(url) ==> exists|i: int|
            {
                &&& 0 <= i < assets.len()
                &&& assets[i].name@ == name
                &&& url == assets[i].download_url@
                &&& forall|j: int| 0 <= j < i ==> assets[j].name@ != name
            },
{
    lemma_find_asset_exact_from(assets, name, 0);
}

proof fn lemma_find_asset_exact_from(assets: Seq<GithubReleaseAsset>, name: Seq<char>, k: int)
    requires
        0 <= k,
    ensures
        find_asset_url_from(assets, name, k) is Some <==> exists|i: int|
            k <= i < assets.len() && assets[i].name@ == name,
        find_asset_url_from(assets, name, k) matches Some(url) ==> exists|i: int|
            {
                &&& k <= i < assets.len()
                &&& assets[i].name@ == name
                &&& url == assets[i].download_url@
                &&& forall|j: int| k <= j < i ==> assets[j].name@ != name
            },
    decreases assets.len() - k,
{
    if k < assets.len() {
        if assets[k].name@ == name {
            assert(exists|i: int| k <= i < assets.len() && assets[i].name@ == name) by {
                assert(k <= k < assets.len() && assets[k].name@ == name);
            }
        } else {
            lemma_find_asset_exact_from(assets, name, k + 1);
            if find_asset_url_from(assets, name, k + 1) is Some {
                let url = find_asset_url_from(assets, name, k + 1).arrow_Some_0();
                let i = choose|i: int|
                    {
                        &&& k + 1 <= i < assets.len()
                        &&& assets[i].name@ == name
                        &&& url == assets[i].download_url@
                        &&& forall|j: int| k + 1 <= j < i ==> assets[j].name@ != name
                    };
                assert(forall|j: int| k <= j < i ==> assets[j].name@ != name);
            }
        }
    }
}

/// The deterministically named archive/binary pairing derived from the
/// current platform and a fetched release.
#[derive(Debug)]
pub struct ReleaseArtifact {
    pub os: Os,
    pub arch: Arch,
    pub release: GithubRelease,
}

impl ReleaseArtifact {
    /// Pairs a platform with a release. Callers must have rejected the
    /// unsupported architecture already; naming is total over everything
    /// else.
    pub fn new(os: Os, arch: Arch, release: GithubRelease) -> (r: Self)
        requires
            arch != Arch::X86,
        ensures
            r.os == os,
            r.arch == arch,
            r.release == release,
    {
        ReleaseArtifact { os, arch, release }
    }

    /// The archive extension and the matching extraction kind for this
    /// platform.
    pub fn archive_info(&self) -> (r: (String, ArchiveKind))
        ensures
            r.0@ == archive_ext(self.os),
            r.1 == archive_kind_spec(self.os),
    {
        match self.os {
            Os::Windows => ("zip".to_owned(), ArchiveKind::Zip),
            _ => ("tar.gz".to_owned(), ArchiveKind::GzipTar),
        }
    }

    /// Basename of this artifact, `{package}-{version}-{os}-{arch}`.
    pub fn base_name(&self) -> (r: String)
        requires
            self.arch != Arch::X86,
        ensures
            r@ == base_name_spec(self.os, self.arch, self.release.version@),
    {
        let arch: &str = match self.arch {
            Arch::Aarch64 => "arm64",
            Arch::X8664 => "x64",
            Arch::X86 => "",
        };
        let os: &str = match self.os {
            Os::Mac => "darwin",
            Os::Linux => "linux",
            Os::Windows => "windows",
        };
        let mut r = "django-language-server".to_owned();
        r.append("-");
        r.append(self.release.version.as_str());
        r.append("-");
        r.append(os);
        r.append("-");
        r.append(arch);
        r
    }

    /// Filename of the release asset expected for this platform and
    /// version.
    pub fn asset_name(&self) -> (r: String)
        requires
            self.arch != Arch::X86,
        ensures
            r@ == asset_name_spec(self.os, self.arch, self.release.version@),
    {
        let (ext, _) = self.archive_info();
        let mut r = self.base_name();
        r.append(".");
        r.append(ext.as_str());
        r
    }

    /// Path of the installed binary relative to the working directory.
    pub fn binary_path(&self) -> (r: String)
        requires
            self.arch != Arch::X86,
        ensures
            r@ == binary_path_spec(self.os, self.arch, self.release.version@),
    {
        let mut r = self.base_name();
        r.append("/");
        r.append("djls");
        r
    }

    /// The download this artifact calls for: the URL of the release asset
    /// whose name equals the expected asset name, with the extraction kind,
    /// or the error naming the expected filename when no asset matches.
    /// First match wins; matching is exact string equality.
    pub fn download_request(&self) -> (r: Result<(String, ArchiveKind), Error>)
        requires
            self.arch != Arch::X86,
        ensures
            match find_asset_url(
                self.release.assets@,
                asset_name_spec(self.os, self.arch, self.release.version@),
            ) {
                Some(url) => r matches Ok((u, kind)) && u@ == url && kind == archive_kind_spec(
                    self.os,
                ),
                None => r matches Err(e) && e matches Error::NoMatchingAsset(n) && n@
                    == asset_name_spec(self.os, self.arch, self.release.version@),
            },
    {
        let asset_name = self.asset_name();
        let ghost expected = asset_name_spec(self.os, self.arch, self.release.version@);
        let mut i: usize = 0;
        while i < self.release.assets.len()
            invariant
                i <= self.release.assets.len(),
                asset_name@ == expected,
                expected == asset_name_spec(self.os, self.arch, self.release.version@),
                find_asset_url(self.release.assets@, expected) == find_asset_url_from(
                    self.release.assets@,
                    expected,
                    i as int,
                ),
            decreases self.release.assets.len() - i,
        {
            if self.release.assets[i].name == asset_name {
                proof {
                    assert(find_asset_url_from(self.release.assets@, expected, i as int)
                        == Some(self.release.assets@[i as int].download_url@));
                }
                let url = self.release.assets[i].download_url.clone();
                let (_, kind) = self.archive_info();
                return Ok((url, kind));
            }
            i += 1;
        }
        Err(Error::NoMatchingAsset(asset_name))
    }
}

/// Phases of the install machine, each naming the host work in flight.
#[derive(Debug)]
pub enum InstallPhase {
    /// The project's executable path is being searched for the server.
    Probe,
    /// The latest release is being fetched.
    Fetch,
    /// The expected binary path is being probed for an earlier install.
    Stat(ReleaseArtifact),
    /// The matched asset is being downloaded and extracted.
    Download(ReleaseArtifact),
    /// The extracted binary is being marked executable.
    Mark(String),
}

/// What the install machine does after a step: hand the host another
/// request, or finish with the installed binary's path or an error.
#[derive(Debug)]
pub enum InstallNext {
    Ask(HostRequest, InstallPhase),
    Done(Result<String, Error>),
}

/// One step of the install machine: the statuses to report, in order, then
/// what to do next.
#[derive(Debug)]
pub struct InstallStep {
    pub statuses: Vec<InstallationStatus>,
    pub next: InstallNext,
}

/// Phase data is consistent with the platform the machine was started
/// with.
pub open spec fn install_phase_wf(os: Os, arch: Arch, phase: InstallPhase) -> bool {
    match phase {
        InstallPhase::Probe => true,
        InstallPhase::Fetch => true,
        InstallPhase::Stat(a) => a.os == os && a.arch == arch,
        InstallPhase::Download(a) => a.os == os && a.arch == arch,
        InstallPhase::Mark(_) => true,
    }
}

/// The event answers the request the phase has in flight.
pub open spec fn install_event_fits(phase: InstallPhase, event: HostEvent) -> bool {
    match phase {
        InstallPhase::Probe => event is ExecutableFound,
        InstallPhase::Fetch => event is ReleaseFetched,
        InstallPhase::Stat(_) => event is FileExists,
        InstallPhase::Download(_) => event is DownloadFinished,
        InstallPhase::Mark(_) => event is ExecutableMarked,
    }
}

/// How the install machine starts: the unsupported architecture fails at
/// once, with no host request and no status report; otherwise the project's
/// executable path is searched for the server first.
pub open spec fn install_start_spec(os: Os, arch: Arch, r: InstallStep) -> bool {
    &&& r.statuses@.len() == 0
    &&& if arch == Arch::X86 {
        r.next matches InstallNext::Done(res) && res matches Err(e) && e
            == Error::UnsupportedPlatform
    } else {
        r.next matches InstallNext::Ask(req, ph) && (req matches HostRequest::FindExecutable(n)
            && n@ == binary_name()) && ph == InstallPhase::Probe
    }
}

/// The unsupported architecture is rejected before any host work: the
/// install machine's start finishes at once with the fatal error, requests
/// nothing of the host and reports no status, so no network or filesystem
/// call can follow.
pub proof fn lemma_unsupported_arch_rejected_first(os: Os, r: InstallStep)
    requires
        install_start_spec(os, Arch::X86, r),
    ensures
        r.next matches InstallNext::Done(res) && res matches Err(e) && e
            == Error::UnsupportedPlatform,
        !(r.next is Ask),
        r.statuses@.len() == 0,
{
}

/// The transition relation of the install machine: for each phase and the
/// event answering it, the statuses reported and the step taken.
pub open spec fn install_step_spec(
    os: Os,
    arch: Arch,
    phase: InstallPhase,
    event: HostEvent,
    r: InstallStep,
) -> bool {
    match phase {
        InstallPhase::Probe => event matches HostEvent::ExecutableFound(found) && match found {
            // A locally installed server is used as it stands.
            Some(p) => {
                &&& r.statuses@.len() == 0
                &&& r.next matches InstallNext::Done(res)
                &&& res matches Ok(path) && path@ == p@
            },
            // Otherwise the update check begins and the latest release
            // with assets, pre-releases excluded, is fetched.
            None => {
                &&& r.statuses@ =~= seq![InstallationStatus::CheckingForUpdate]
                &&& r.next matches InstallNext::Ask(req, ph)
                &&& req matches HostRequest::FetchLatestRelease(repo, opts) && repo@
                    == github_repo() && opts == (GithubReleaseOptions {
                    require_assets: true,
                    pre_release: false,
                })
                &&& ph == InstallPhase::Fetch
            },
        },
        InstallPhase::Fetch => event matches HostEvent::ReleaseFetched(fetched) && match fetched {
            // With the release known, an earlier install of exactly this
            // version is looked for on disk.
            Ok(release) => {
                &&& r.statuses@.len() == 0
                &&& r.next matches InstallNext::Ask(req, ph)
                &&& req matches HostRequest::ProbeFile(p) && p@ == binary_path_spec(
                    os,
                    arch,
                    release.version@,
                )
                &&& ph matches InstallPhase::Stat(a) && a.os == os && a.arch == arch && a.release
                    == release
            },
            Err(cause) => {
                &&& r.statuses@.len() == 0
                &&& r.next matches InstallNext::Done(res)
                &&& res matches Err(e) && e matches Error::ReleaseLookupFailed(c) && c@ == cause@
            },
        },
        InstallPhase::Stat(a) => event matches HostEvent::FileExists(present) && if present {
            // Presence of the binary path is the sole "is it installed"
            // signal: the earlier install is trusted and resolution
            // settles.
            &&& r.statuses@ =~= seq![InstallationStatus::Idle]
            &&& r.next matches InstallNext::Done(res)
            &&& res matches Ok(path) && path@ == binary_path_spec(os, arch, a.release.version@)
        } else {
            &&& r.statuses@ =~= seq![InstallationStatus::Downloading]
            &&& match find_asset_url(
                a.release.assets@,
                asset_name_spec(os, arch, a.release.version@),
            ) {
                Some(url) => {
                    &&& r.next matches InstallNext::Ask(req, ph)
                    &&& req matches HostRequest::DownloadAndExtract(u, kind) && u@ == url && kind
                        == archive_kind_spec(os)
                    &&& ph matches InstallPhase::Download(a2) && a2 == a
                },
                None => {
                    &&& r.next matches InstallNext::Done(res)
                    &&& res matches Err(e) && e matches Error::NoMatchingAsset(n) && n@
                        == asset_name_spec(os, arch, a.release.version@)
                },
            }
        },
        InstallPhase::Download(a) => event matches HostEvent::DownloadFinished(dl) && match dl {
            Ok(_) => {
                &&& r.statuses@.len() == 0
                &&& r.next matches InstallNext::Ask(req, ph)
                &&& req matches HostRequest::MakeExecutable(p) && p@ == binary_path_spec(
                    os,
                    arch,
                    a.release.version@,
                )
                &&& ph matches InstallPhase::Mark(p2) && p2@ == binary_path_spec(
                    os,
                    arch,
                    a.release.version@,
                )
            },
            Err(cause) => {
                &&& r.statuses@.len() == 0
                &&& r.next matches InstallNext::Done(res)
                &&& res matches Err(e) && e matches Error::DownloadFailed(m) && m@ == cause@
            },
        },
        InstallPhase::Mark(p) => event matches HostEvent::ExecutableMarked(marked) && match marked {
            // The settled notification is reported once the binary is in
            // place and runnable.
            Ok(_) => {
                &&& r.statuses@ =~= seq![InstallationStatus::Idle]
                &&& r.next matches InstallNext::Done(res)
                &&& res matches Ok(path) && path@ == p@
            },
            Err(cause) => {
                &&& r.statuses@.len() == 0
                &&& r.next matches InstallNext::Done(res)
                &&& res matches Err(e) && e matches Error::PermissionError(c) && c@ == cause@
            },
        },
    }
}

/// Starts locating or installing the server: rejects the unsupported
/// architecture before any host work, else asks for an executable-path
/// search.
pub fn get_or_install_djls(os: Os, arch: Arch) -> (r: InstallStep)
    ensures
        install_start_spec(os, arch, r),
{
    match arch {
        Arch::X86 => InstallStep {
            statuses: Vec::new(),
            next: InstallNext::Done(Err(Error::UnsupportedPlatform)),
        },
        _ => InstallStep {
            statuses: Vec::new(),
            next: InstallNext::Ask(
                HostRequest::FindExecutable("djls".to_owned()),
                InstallPhase::Probe,
            ),
        },
    }
}

/// Advances the install machine by one step, turning the host's answer to
/// the phase's request into the statuses to report and the next request or
/// the final outcome.
pub fn get_or_install_djls_step(os: Os, arch: Arch, phase: InstallPhase, event: HostEvent) -> (r:
    InstallStep)
    requires
        arch != Arch::X86,
        install_phase_wf(os, arch, phase),
        install_event_fits(phase, event),
    ensures
        install_step_spec(os, arch, phase, event, r),
{
    match (phase, event) {
        (InstallPhase::Probe, HostEvent::ExecutableFound(found)) => match found {
            Some(path) => InstallStep { statuses: Vec::new(), next: InstallNext::Done(Ok(path)) },
            None => {
                let mut statuses: Vec<InstallationStatus> = Vec::new();
                statuses.push(InstallationStatus::CheckingForUpdate);
                let options = GithubReleaseOptions { require_assets: true, pre_release: false };
                let repo = "joshuadavidthomas/django-language-server".to_owned();
                proof {
                    assert(statuses@ =~= seq![InstallationStatus::CheckingForUpdate]);
                }
                InstallStep {
                    statuses,
                    next: InstallNext::Ask(
                        HostRequest::FetchLatestRelease(repo, options),
                        InstallPhase::Fetch,
                    ),
                }
            },
        },
        (InstallPhase::Fetch, HostEvent::ReleaseFetched(fetched)) => match fetched {
            Ok(release) => {
                let artifact = ReleaseArtifact::new(os, arch, release);
                let path = artifact.binary_path();
                InstallStep {
                    statuses: Vec::new(),
                    next: InstallNext::Ask(
                        HostRequest::ProbeFile(path),
                        InstallPhase::Stat(artifact),
                    ),
                }
            },
            Err(cause) => InstallStep {
                statuses: Vec::new(),
                next: InstallNext::Done(Err(Error::ReleaseLookupFailed(cause))),
            },
        },
        (InstallPhase::Stat(artifact), HostEvent::FileExists(present)) => {
            if present {
                let mut statuses: Vec<InstallationStatus> = Vec::new();
                statuses.push(InstallationStatus::Idle);
                let path = artifact.binary_path();
                proof {
                    assert(statuses@ =~= seq![InstallationStatus::Idle]);
                }
                InstallStep { statuses, next: InstallNext::Done(Ok(path)) }
            } else {
                let mut statuses: Vec<InstallationStatus> = Vec::new();
                statuses.push(InstallationStatus::Downloading);
                proof {
                    assert(statuses@ =~= seq![InstallationStatus::Downloading]);
                }
                match artifact.download_request() {
                    Ok((url, kind)) => InstallStep {
                        statuses,
                        next: InstallNext::Ask(
                            HostRequest::DownloadAndExtract(url, kind),
                            InstallPhase::Download(artifact),
                        ),
                    },
                    Err(e) => InstallStep { statuses, next: InstallNext::Done(Err(e)) },
                }
            }
        },
        (InstallPhase::Download(artifact), HostEvent::DownloadFinished(dl)) => match dl {
            Ok(_) => {
                let path = artifact.binary_path();
                let request_path = path.clone();
                InstallStep {
                    statuses: Vec::new(),
                    next: InstallNext::Ask(
                        HostRequest::MakeExecutable(request_path),
                        InstallPhase::Mark(path),
                    ),
                }
            },
            Err(cause) => InstallStep {
                statuses: Vec::new(),
                next: InstallNext::Done(Err(Error::DownloadFailed(cause))),
            },
        },
        (InstallPhase::Mark(path), HostEvent::ExecutableMarked(marked)) => match marked {
            Ok(_) => {
                let mut statuses: Vec<InstallationStatus> = Vec::new();
                statuses.push(InstallationStatus::Idle);
                proof {
                    assert(statuses@ =~= seq![InstallationStatus::Idle]);
                }
                InstallStep { statuses, next: InstallNext::Done(Ok(path)) }
            },
            Err(cause) => InstallStep {
                statuses: Vec::new(),
                next: InstallNext::Done(Err(Error::PermissionError(cause))),
            },
        },
        _ => {
            proof {
                assert(false);
            }
            InstallStep { statuses: Vec::new(), next: InstallNext::Done(Err(Error::UnsupportedPlatform)) }
        },
    }
}

} // verus!
