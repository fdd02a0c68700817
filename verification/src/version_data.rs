//! Build and version information.

use vstd::prelude::*;

verus! {

/// What a build knows about itself.
#[derive(Debug, PartialEq)]
pub struct VersionData {
    pub build: String,
    pub name: String,
    pub version: String,
    pub branch: String,
    pub commit: String,
    pub clean_worktree: bool,
    pub os: String,
    pub arch: String,
    pub timestamp: String,
}

/// Spec-level view of `VersionData`.
pub struct VersionDataView {
    pub build: Seq<char>,
    pub name: Seq<char>,
    pub version: Seq<char>,
    pub branch: Seq<char>,
    pub commit: Seq<char>,
    pub clean_worktree: bool,
    pub os: Seq<char>,
    pub arch: Seq<char>,
    pub timestamp: Seq<char>,
}

impl View for VersionData {
    type V = VersionDataView;

    open spec fn view(&self) -> VersionDataView {
        VersionDataView {
            build: self.build@,
            name: self.name@,
            version: self.version@,
            branch: self.branch@,
            commit: self.commit@,
            clean_worktree: self.clean_worktree,
            os: self.os@,
            arch: self.arch@,
            timestamp: self.timestamp@,
        }
    }
}

/// The one-line description of a build: name, version, branch and commit
/// (a `*` marks a dirty worktree), build kind, platform, and timestamp.
pub open spec fn spec_describe(v: VersionDataView) -> Seq<char> {
    v.name + " "@ + v.version + " ("@ + v.branch + ":"@ + v.commit + (
    if v.clean_worktree {
        Seq::<char>::empty()
    } else {
        "*"@
    }) + ", "@ + v.build + " build, "@ + v.os + " ["@ + v.arch + "], "@ + v.timestamp + ")"@
}

impl VersionData {
    /// Renders the one-line description of this build.
    pub fn describe(&self) -> (r: String)
        ensures
            r@ == spec_describe(self@),
    {
        let mut r: String = self.name.clone();
        r.append(" ");
        r.append(self.version.as_str());
        r.append(" (");
        r.append(self.branch.as_str());
        r.append(":");
        r.append(self.commit.as_str());
        if !self.clean_worktree {
            r.append("*");
        }
        r.append(", ");
        r.append(self.build.as_str());
        r.append(" build, ");
        r.append(self.os.as_str());
        r.append(" [");
        r.append(self.arch.as_str());
        r.append("], ");
        r.append(self.timestamp.as_str());
        r.append(")");
        proof {
            assert(r@ =~= spec_describe(self@));
        }
        r
    }
}

} // verus!
