//! Resolution of the running platform to a download source for the engine
//! artifact: a pure mapping from operating system and CPU architecture to
//! a URL and archive kind, fatal for any unsupported pair.

use vstd::prelude::*;
use vstd::string::StringExecFns;
use crate::status::EngineError;

verus! {

/// How a downloaded artifact is packaged.
#[derive(Clone, Copy, Debug, PartialEq, Eq, Structural)]
pub enum ArchiveKind {
    /// A directly usable binary; nothing to extract.
    Direct,
    /// A tar-based archive the external extraction tool unpacks.
    Tar,
    /// A zip archive the external extraction tool unpacks.
    Zip,
}

/// Where and how to fetch the engine artifact for one platform. Resolved
/// once; immutable for the process lifetime.
#[derive(Debug)]
pub struct DownloadSource {
    pub url: String,
    pub archive: ArchiveKind,
}

/// The download source for an operating system / architecture pair:
/// tar archives for macOS (either architecture) and Linux (x86_64 and
/// arm64), a direct binary for Windows x86_64, and a fatal
/// unsupported-platform error for every other pair.
pub open spec fn resolve_spec(os: Seq<char>, arch: Seq<char>) -> Result<
    (Seq<char>, ArchiveKind),
    EngineError,
> {
    if os == "macos"@ && (arch == "aarch64"@ || arch == "x86_64"@) {
        Ok(
            (
                "https://github.com/ollama/ollama/releases/latest/download/ollama-darwin.tgz"@,
                ArchiveKind::Tar,
            ),
        )
    } else if os == "linux"@ && arch == "x86_64"@ {
        Ok(
            (
                "https://github.com/ollama/ollama/releases/latest/download/ollama-linux-amd64.tar.zst"@,
                ArchiveKind::Tar,
            ),
        )
    } else if os == "linux"@ && arch == "aarch64"@ {
        Ok(
            (
                "https://github.com/ollama/ollama/releases/latest/download/ollama-linux-arm64.tar.zst"@,
                ArchiveKind::Tar,
            ),
        )
    } else if os == "windows"@ && arch == "x86_64"@ {
        Ok(
            (
                "https://github.com/ollama/ollama/releases/latest/download/ollama-windows-amd64.exe"@,
                ArchiveKind::Direct,
            ),
        )
    } else {
        Err(EngineError::PlatformUnsupported)
    }
}

/// Returns whether two strings hold the same characters.
fn str_eq(a: &str, b: &str) -> (r: bool)
    ensures
        r == (a@ == b@),
{
    let sa = a.to_owned();
    let sb = b.to_owned();
    sa == sb
}

/// Maps the running platform, named by its operating system and CPU
/// architecture, to the engine's download source, or fails with
/// [`EngineError::PlatformUnsupported`] for any pair outside the supported
/// set. Pure: no side effects, no retries.
pub fn resolve_download(os: &str, arch: &str) -> (r: Result<DownloadSource, EngineError>)
    ensures
        match r {
            Ok(src) => resolve_spec(os@, arch@) == Ok::<_, EngineError>((src.url@, src.archive)),
            Err(e) => resolve_spec(os@, arch@) == Err::<(Seq<char>, ArchiveKind), _>(e),
        },
{
    if str_eq(os, "macos") && (str_eq(arch, "aarch64") || str_eq(arch, "x86_64")) {
        Ok(
            DownloadSource {
                url: String::from_str(
                    "https://github.com/ollama/ollama/releases/latest/download/ollama-darwin.tgz",
                ),
                archive: ArchiveKind::Tar,
            },
        )
    } else if str_eq(os, "linux") && str_eq(arch, "x86_64") {
        Ok(
            DownloadSource {
                url: String::from_str(
                    "https://github.com/ollama/ollama/releases/latest/download/ollama-linux-amd64.tar.zst",
                ),
                archive: ArchiveKind::Tar,
            },
        )
    } else if str_eq(os, "linux") && str_eq(arch, "aarch64") {
        Ok(
            DownloadSource {
                url: String::from_str(
                    "https://github.com/ollama/ollama/releases/latest/download/ollama-linux-arm64.tar.zst",
                ),
                archive: ArchiveKind::Tar,
            },
        )
    } else if str_eq(os, "windows") && str_eq(arch, "x86_64") {
        Ok(
            DownloadSource {
                url: String::from_str(
                    "https://github.com/ollama/ollama/releases/latest/download/ollama-windows-amd64.exe",
                ),
                archive: ArchiveKind::Direct,
            },
        )
    } else {
        Err(EngineError::PlatformUnsupported)
    }
}

} // verus!
