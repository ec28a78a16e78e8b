//! What built this binary. On a machine with no dev environment, "is this the build I just
//! merged?" is otherwise unanswerable; the Actions run number answers it.

use vstd::prelude::*;

verus! {

/// The values the CI environment bakes in at compile time, each absent on a local build.
#[derive(Clone, Copy, Debug, PartialEq, Eq)]
pub struct BuildEnv {
    /// The commit sha.
    pub sha: Option<&'static str>,
    /// The Actions run number.
    pub run_number: Option<&'static str>,
    /// `owner/name` of the repository.
    pub repository: Option<&'static str>,
    /// The Actions run id.
    pub run_id: Option<&'static str>,
}

/// Provenance for the running binary.
#[derive(Clone, Debug, PartialEq, Eq)]
pub struct BuildInfo {
    /// App version, the one the updater compares.
    pub version: String,
    /// Short commit sha, or `"local"` for a build made on the development machine.
    pub commit: String,
    /// Actions run number.
    pub run_number: Option<&'static str>,
    /// Link to the Actions run that produced this binary, when there was one.
    pub run_url: Option<String>,
    /// Which `Platform` implementation is wired in: `"windows"` or `"stub"`.
    pub platform: &'static str,
}

/// The short form of a commit sha: its first seven characters.
pub open spec fn short_sha(sha: Seq<char>) -> Seq<char> {
    if sha.len() < 7 {
        sha
    } else {
        sha.take(7)
    }
}

/// The view of an optional static string.
pub open spec fn opt_view(s: Option<&'static str>) -> Option<Seq<char>> {
    match s {
        Some(x) => Some(x@),
        None => None,
    }
}

/// The link to the Actions run, when both the repository and the run are known.
pub open spec fn run_link(repository: Option<Seq<char>>, run_id: Option<Seq<char>>) -> Option<Seq<char>> {
    match (repository, run_id) {
        (Some(repo), Some(id)) => Some("https://github.com/"@ + repo + "/actions/runs/"@ + id),
        _ => None,
    }
}

impl BuildInfo {
    /// Assemble the provenance from the app's version, the platform's name and what CI baked in.
    pub fn new(version: String, platform: &'static str, env: BuildEnv) -> (b: BuildInfo)
        ensures
            b.version@ == version@,
            b.commit@ == match env.sha {
                Some(sha) => short_sha(sha@),
                None => "local"@,
            },
            b.run_number == env.run_number,
            opt_view_string(b.run_url) == run_link(opt_view(env.repository), opt_view(env.run_id)),
            b.platform == platform,
    {
        let commit = match env.sha {
            Some(sha) => {
                let chars = crate::text::chars_of(sha);
                let n = if chars.len() < 7 {
                    chars.len()
                } else {
                    7
                };
                let head = crate::text::copy_range(chars.as_slice(), 0, n);
                assert(chars@.subrange(0, n as int) =~= short_sha(sha@));
                crate::text::string_of(head.as_slice())
            },
            None => String::from_str("local"),
        };
        let run_url = match (env.repository, env.run_id) {
            (Some(repo), Some(id)) => {
                let mut url = String::from_str("https://github.com/");
                url.append(repo);
                url.append("/actions/runs/");
                url.append(id);
                Some(url)
            },
            _ => None,
        };
        BuildInfo { version, commit, run_number: env.run_number, run_url, platform }
    }

    /// One line for the log, so the log itself says which build wrote it.
    pub fn summary(&self) -> (s: String)
        ensures
            s@ == "poe-graft "@ + self.version@ + " · commit "@ + self.commit@ + " · platform "@
                + self.platform@ + " · run "@ + match self.run_number {
                Some(n) => n@,
                None => "local"@,
            },
    {
        let mut s = String::from_str("poe-graft ");
        s.append(self.version.as_str());
        s.append(" · commit ");
        s.append(self.commit.as_str());
        s.append(" · platform ");
        s.append(self.platform);
        s.append(" · run ");
        match self.run_number {
            Some(n) => s.append(n),
            None => s.append("local"),
        }
        s
    }
}

/// The view of an optional string.
pub open spec fn opt_view_string(s: Option<String>) -> Option<Seq<char>> {
    match s {
        Some(x) => Some(x@),
        None => None,
    }
}

} // verus!
