use vstd::prelude::*;
use vstd::string::StringExecFns;
use crate::text::same_text;

verus! {

/// Operating-system families that a build can target.
#[derive(Clone, Copy, Debug, PartialEq, Eq, Structural)]
pub enum Platform {
    Linux,
    Macos,
    Ios,
    Freebsd,
    Dragonfly,
    Netbsd,
    Openbsd,
    Solaris,
    Android,
    Windows,
}

impl Platform {
    /// The canonical identifier of the platform, as the UI layer receives it.
    pub open spec fn spec_identifier(self) -> Seq<char> {
        match self {
            Platform::Linux => "linux"@,
            Platform::Macos => "macos"@,
            Platform::Ios => "ios"@,
            Platform::Freebsd => "freebsd"@,
            Platform::Dragonfly => "dragonfly"@,
            Platform::Netbsd => "netbsd"@,
            Platform::Openbsd => "openbsd"@,
            Platform::Solaris => "solaris"@,
            Platform::Android => "android"@,
            Platform::Windows => "windows"@,
        }
    }

    /// The identifier of the platform.
    pub fn identifier(&self) -> (r: &'static str)
        ensures
            r@ == self.spec_identifier(),
    {
        match self {
            Platform::Linux => "linux",
            Platform::Macos => "macos",
            Platform::Ios => "ios",
            Platform::Freebsd => "freebsd",
            Platform::Dragonfly => "dragonfly",
            Platform::Netbsd => "netbsd",
            Platform::Openbsd => "openbsd",
            Platform::Solaris => "solaris",
            Platform::Android => "android",
            Platform::Windows => "windows",
        }
    }

    /// Reads a platform identifier; `None` for a name outside the known set.
    pub fn from_identifier(s: &str) -> (r: Option<Platform>)
        ensures
            r == platform_of(s@),
    {
        if same_text(s, "linux") {
            Some(Platform::Linux)
        } else if same_text(s, "macos") {
            Some(Platform::Macos)
        } else if same_text(s, "ios") {
            Some(Platform::Ios)
        } else if same_text(s, "freebsd") {
            Some(Platform::Freebsd)
        } else if same_text(s, "dragonfly") {
            Some(Platform::Dragonfly)
        } else if same_text(s, "netbsd") {
            Some(Platform::Netbsd)
        } else if same_text(s, "openbsd") {
            Some(Platform::Openbsd)
        } else if same_text(s, "solaris") {
            Some(Platform::Solaris)
        } else if same_text(s, "android") {
            Some(Platform::Android)
        } else if same_text(s, "windows") {
            Some(Platform::Windows)
        } else {
            None
        }
    }
}

/// The platform named by an identifier, if any.
pub open spec fn platform_of(s: Seq<char>) -> Option<Platform> {
    if s == "linux"@ {
        Some(Platform::Linux)
    } else if s == "macos"@ {
        Some(Platform::Macos)
    } else if s == "ios"@ {
        Some(Platform::Ios)
    } else if s == "freebsd"@ {
        Some(Platform::Freebsd)
    } else if s == "dragonfly"@ {
        Some(Platform::Dragonfly)
    } else if s == "netbsd"@ {
        Some(Platform::Netbsd)
    } else if s == "openbsd"@ {
        Some(Platform::Openbsd)
    } else if s == "solaris"@ {
        Some(Platform::Solaris)
    } else if s == "android"@ {
        Some(Platform::Android)
    } else if s == "windows"@ {
        Some(Platform::Windows)
    } else {
        None
    }
}

/// The answer of the `get_platform` command on a build for `target`.
pub fn get_platform(target: Platform) -> (r: String)
    ensures
        r@ == target.spec_identifier(),
{
    String::from_str(target.identifier())
}

/// Every platform has a non-empty identifier, which reads back as that platform,
/// and no two platforms share an identifier.
pub proof fn lemma_identifier_round_trip(p: Platform, q: Platform)
    ensures
        p.spec_identifier().len() > 0,
        platform_of(p.spec_identifier()) == Some(p),
        p != q ==> p.spec_identifier() != q.spec_identifier(),
{
    reveal_strlit("linux");
    reveal_strlit("macos");
    reveal_strlit("ios");
    reveal_strlit("freebsd");
    reveal_strlit("dragonfly");
    reveal_strlit("netbsd");
    reveal_strlit("openbsd");
    reveal_strlit("solaris");
    reveal_strlit("android");
    reveal_strlit("windows");
    // the identifiers already differ in their first character
    assert(p.spec_identifier()[0] == q.spec_identifier()[0] ==> p == q);
    if p.spec_identifier() == q.spec_identifier() {
        assert(p.spec_identifier()[0] == q.spec_identifier()[0]);
    }
    let s = p.spec_identifier();
    assert(s[0] == "linux"@[0] ==> p == Platform::Linux);
    assert(s[0] == "macos"@[0] ==> p == Platform::Macos);
    assert(s[0] == "ios"@[0] ==> p == Platform::Ios);
    assert(s[0] == "freebsd"@[0] ==> p == Platform::Freebsd);
    assert(s[0] == "dragonfly"@[0] ==> p == Platform::Dragonfly);
    assert(s[0] == "netbsd"@[0] ==> p == Platform::Netbsd);
    assert(s[0] == "openbsd"@[0] ==> p == Platform::Openbsd);
    assert(s[0] == "solaris"@[0] ==> p == Platform::Solaris);
    assert(s[0] == "android"@[0] ==> p == Platform::Android);
}

} // verus!
