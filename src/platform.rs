use vstd::prelude::*;

verus! {

/// The operating systems whose identifiers the host reports, as the
/// platform's own identifier facility spells them.
#[derive(Clone, Copy, Debug, PartialEq, Eq, Structural)]
pub enum Platform {
    Linux,
    Macos,
    Ios,
    Freebsd,
    Dragonfly,
    Netbsd,
    Openbsd,
    Solaris,
    Android,
    Windows,
}

/// The identifier of a platform, in lower case and without normalization.
pub open spec fn platform_name(p: Platform) -> Seq<char> {
    match p {
        Platform::Linux => "linux"@,
        Platform::Macos => "macos"@,
        Platform::Ios => "ios"@,
        Platform::Freebsd => "freebsd"@,
        Platform::Dragonfly => "dragonfly"@,
        Platform::Netbsd => "netbsd"@,
        Platform::Openbsd => "openbsd"@,
        Platform::Solaris => "solaris"@,
        Platform::Android => "android"@,
        Platform::Windows => "windows"@,
    }
}

/// Whether some platform has `s` as its identifier.
pub open spec fn is_platform_name(s: Seq<char>) -> bool {
    exists|p: Platform| platform_name(p) == s
}

/// No two platforms share an identifier.
pub proof fn lemma_platform_name_injective(p: Platform, q: Platform)
    ensures
        platform_name(p) == platform_name(q) ==> p == q,
{
    reveal_strlit("linux");
    reveal_strlit("macos");
    reveal_strlit("ios");
    reveal_strlit("freebsd");
    reveal_strlit("dragonfly");
    reveal_strlit("netbsd");
    reveal_strlit("openbsd");
    reveal_strlit("solaris");
    reveal_strlit("android");
    reveal_strlit("windows");
    // Length and first letter tell any two identifiers apart.
    assert("linux"@.len() == 5 && "linux"@[0] == 'l');
    assert("macos"@.len() == 5 && "macos"@[0] == 'm');
    assert("ios"@.len() == 3 && "ios"@[0] == 'i');
    assert("freebsd"@.len() == 7 && "freebsd"@[0] == 'f');
    assert("dragonfly"@.len() == 9 && "dragonfly"@[0] == 'd');
    assert("netbsd"@.len() == 6 && "netbsd"@[0] == 'n');
    assert("openbsd"@.len() == 7 && "openbsd"@[0] == 'o');
    assert("solaris"@.len() == 7 && "solaris"@[0] == 's');
    assert("android"@.len() == 7 && "android"@[0] == 'a');
    assert("windows"@.len() == 7 && "windows"@[0] == 'w');
}

/// Whether two texts are equal.
pub(crate) fn same_text(a: &str, b: &str) -> (r: bool)
    ensures
        r == (a@ == b@),
{
    let x = a.to_owned();
    let y = b.to_owned();
    x == y
}

impl Platform {
    /// The platform's identifier.
    pub fn name(&self) -> (r: &'static str)
        ensures
            r@ == platform_name(*self),
    {
        match self {
            Platform::Linux => "linux",
            Platform::Macos => "macos",
            Platform::Ios => "ios",
            Platform::Freebsd => "freebsd",
            Platform::Dragonfly => "dragonfly",
            Platform::Netbsd => "netbsd",
            Platform::Openbsd => "openbsd",
            Platform::Solaris => "solaris",
            Platform::Android => "android",
            Platform::Windows => "windows",
        }
    }

    /// The platform whose identifier is `s`, if any.
    pub fn from_name(s: &str) -> (r: Option<Platform>)
        ensures
            r matches Some(p) ==> platform_name(p) == s@,
            r is None <==> !is_platform_name(s@),
    {
        let r = if same_text(s, "linux") {
            Some(Platform::Linux)
        } else if same_text(s, "macos") {
            Some(Platform::Macos)
        } else if same_text(s, "ios") {
            Some(Platform::Ios)
        } else if same_text(s, "freebsd") {
            Some(Platform::Freebsd)
        } else if same_text(s, "dragonfly") {
            Some(Platform::Dragonfly)
        } else if same_text(s, "netbsd") {
            Some(Platform::Netbsd)
        } else if same_text(s, "openbsd") {
            Some(Platform::Openbsd)
        } else if same_text(s, "solaris") {
            Some(Platform::Solaris)
        } else if same_text(s, "android") {
            Some(Platform::Android)
        } else if same_text(s, "windows") {
            Some(Platform::Windows)
        } else {
            None
        };
        proof {
            match r {
                Some(p) => assert(platform_name(p) == s@),
                None => {
                    assert forall|p: Platform| platform_name(p) != s@ by {
                        match p {
                        Platform::Linux => {},
                        Platform::Macos => {},
                        Platform::Ios => {},
                        Platform::Freebsd => {},
                        Platform::Dragonfly => {},
                        Platform::Netbsd => {},
                        Platform::Openbsd => {},
                        Platform::Solaris => {},
                        Platform::Android => {},
                        Platform::Windows => {},
                        }
                    }
                },
            }
        }
        r
    }
}

} // verus!
