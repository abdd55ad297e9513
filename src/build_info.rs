use vstd::prelude::*;
use vstd::string::StringExecFns;

verus! {

/// Build metadata of the running binary, captured once at process start and
/// handed to the handlers that report it.
pub struct BuildInfo {
    pub pkg_version: String,
    pub short_commit: String,
    pub build_time: String,
    pub rust_version: String,
    pub rust_channel: String,
    pub cargo_version: String,
}

/// The version text reported to clients:
/// `"<pkg> (<commit> <time>), build_env: <rustc>, <channel>, <cargo>"`.
pub open spec fn version_text(b: BuildInfo) -> Seq<char> {
    b.pkg_version@ + " ("@ + b.short_commit@ + " "@ + b.build_time@ + "), build_env: "@
        + b.rust_version@ + ", "@ + b.rust_channel@ + ", "@ + b.cargo_version@
}

impl BuildInfo {
    /// Assembles the version text out of the individual build fields.
    pub fn app_version(&self) -> (r: String)
        ensures
            r@ == version_text(*self),
    {
        let mut s = self.pkg_version.clone();
        s.append(" (");
        s.append(self.short_commit.as_str());
        s.append(" ");
        s.append(self.build_time.as_str());
        s.append("), build_env: ");
        s.append(self.rust_version.as_str());
        s.append(", ");
        s.append(self.rust_channel.as_str());
        s.append(", ");
        s.append(self.cargo_version.as_str());
        s
    }
}

} // verus!
