//! Plain-value models of everything the hosting environment supplies or
//! consumes: the current platform, release metadata, command descriptors,
//! installation-status notifications, and the request/event protocol through
//! which the resolution machines drive host-performed work.

use vstd::prelude::*;

verus! {

/// Operating system of the platform the host reports.
#[derive(Clone, Copy, Debug, PartialEq, Eq, Structural)]
pub enum Os {
    Mac,
    Linux,
    Windows,
}

/// CPU architecture of the platform the host reports. `X86` is recognized
/// but unsupported: resolution rejects it before doing anything else.
#[derive(Clone, Copy, Debug, PartialEq, Eq, Structural)]
pub enum Arch {
    Aarch64,
    X8664,
    X86,
}

/// How a downloaded release archive is packed, and hence how the host must
/// extract it.
#[derive(Clone, Copy, Debug, PartialEq, Eq, Structural)]
pub enum ArchiveKind {
    Zip,
    GzipTar,
}

/// Installation-status notifications the host UI is told about, in the
/// order the resolution machine emits them. `Idle` is the settled state
/// the host is returned to once resolution finishes without a download in
/// flight.
#[derive(Clone, Copy, Debug, PartialEq, Eq, Structural)]
pub enum InstallationStatus {
    CheckingForUpdate,
    Downloading,
    Idle,
}

/// Filters applied when the host looks up the latest release.
#[derive(Clone, Copy, Debug, PartialEq, Eq, Structural)]
pub struct GithubReleaseOptions {
    pub require_assets: bool,
    pub pre_release: bool,
}

/// A named, downloadable file attached to a release.
#[derive(Debug)]
pub struct GithubReleaseAsset {
    pub name: String,
    pub download_url: String,
}

/// A versioned release publication together with its assets, as fetched by
/// the host.
#[derive(Debug)]
pub struct GithubRelease {
    pub version: String,
    pub assets: Vec<GithubReleaseAsset>,
}

/// The fully resolved, invocable form of a server process.
#[derive(Debug)]
pub struct Command {
    pub command: String,
    pub args: Vec<String>,
    pub env: Vec<(String, String)>,
}

/// Mathematical model of a [`Command`]: every string replaced by its
/// character sequence.
#[verifier::ext_equal]
pub struct CommandView {
    pub command: Seq<char>,
    pub args: Seq<Seq<char>>,
    pub env: Seq<(Seq<char>, Seq<char>)>,
}

impl View for Command {
    type V = CommandView;

    open spec fn view(&self) -> CommandView {
        CommandView {
            command: self.command@,
            args: self.args.deep_view(),
            env: self.env.deep_view(),
        }
    }
}

impl Clone for Command {
    /// Cloning preserves the descriptor exactly: the cached copy a resolver
    /// hands out is indistinguishable from the one it stored.
    fn clone(&self) -> (r: Self)
        ensures
            r@ == self@,
    {
        let command = self.command.clone();
        let args = self.args.clone();
        proof {
            assert(args@ =~= self.args@);
        }
        let mut env: Vec<(String, String)> = Vec::new();
        let mut i: usize = 0;
        while i < self.env.len()
            invariant
                i <= self.env.len(),
                env@.len() == i as int,
                forall|j: int| 0 <= j < i as int ==> env@[j] == self.env@[j],
            decreases self.env.len() - i,
        {
            let key = self.env[i].0.clone();
            let value = self.env[i].1.clone();
            env.push((key, value));
            i += 1;
        }
        proof {
            assert(env@ =~= self.env@);
        }
        let r = Command { command, args, env };
        proof {
            assert(r@ =~= self@);
        }
        r
    }
}

/// A command with the given executable path and no arguments or
/// environment.
pub open spec fn plain_command_view(path: Seq<char>) -> CommandView {
    CommandView { command: path, args: Seq::empty(), env: Seq::empty() }
}

/// Builds the descriptor that launches `path` with no arguments.
pub fn plain_command(path: String) -> (c: Command)
    ensures
        c@ == plain_command_view(path@),
{
    let c = Command { command: path, args: Vec::new(), env: Vec::new() };
    proof {
        assert(c@ =~= plain_command_view(c.command@));
    }
    c
}

/// Work the resolution machine asks the host to perform. Each request is
/// answered by the matching [`HostEvent`] before the machine can take its
/// next step.
#[derive(Debug)]
pub enum HostRequest {
    /// Search the project's executable path for the named program.
    FindExecutable(String),
    /// Fetch the latest release of the named source repository that
    /// satisfies the given filters.
    FetchLatestRelease(String, GithubReleaseOptions),
    /// Report whether the file at the given path exists.
    ProbeFile(String),
    /// Download the archive at the given URL and extract it according to
    /// its archive kind.
    DownloadAndExtract(String, ArchiveKind),
    /// Mark the file at the given path executable.
    MakeExecutable(String),
}

/// The host's answer to the request of the same position in
/// [`HostRequest`].
#[derive(Debug)]
pub enum HostEvent {
    ExecutableFound(Option<String>),
    ReleaseFetched(Result<GithubRelease, String>),
    FileExists(bool),
    DownloadFinished(Result<(), String>),
    ExecutableMarked(Result<(), String>),
}

} // verus!
