use vstd::prelude::*;

use crate::text::{chars_of, contains, contains_text, lowercase, text_is, to_lowercase};

verus! {

/// Detected operating system family.
#[derive(Clone, Copy, Debug, PartialEq, Eq, Structural)]
pub enum Os {
    /// Android user-agent.
    Android,
    /// macOS or iOS/iPadOS user-agent.
    Apple,
    /// Any other platform (Linux, Windows, unknown).
    Other,
}

/// Runtime platform capabilities detected once at startup.
#[derive(Clone, Copy, Debug, PartialEq, Eq, Structural)]
pub struct Platform {
    /// Detected OS family.
    pub os: Os,
    /// `window.nostr` is present (NIP-07 browser extension installed).
    pub has_nostr_extension: bool,
    /// `navigator.credentials` exists (WebAuthn is available; PRF confirmed at runtime).
    pub supports_webauthn: bool,
}

/// The family that a lower-cased Client Hints platform name stands for.
pub open spec fn os_for_platform_name(lower: Seq<char>) -> Os {
    if lower == "android"@ {
        Os::Android
    } else if lower == "ios"@ || lower == "macos"@ {
        Os::Apple
    } else {
        Os::Other
    }
}

/// The Client Hints table: `"android"` is Android, `"ios"` and `"macos"` are
/// Apple, and every other lower-cased name (`"chrome os"`, `"windows"`,
/// `"linux"`, ...) is another family.
pub proof fn law_platform_name_table(lower: Seq<char>)
    ensures
        os_for_platform_name(lower) == Os::Android <==> lower == "android"@,
        os_for_platform_name(lower) == Os::Apple <==> (lower == "ios"@ || lower == "macos"@),
        os_for_platform_name(lower) == Os::Other <==> (lower != "android"@ && lower != "ios"@
            && lower != "macos"@),
{
    reveal_strlit("android");
    reveal_strlit("ios");
    reveal_strlit("macos");
    assert("android"@.len() != "ios"@.len());
    assert("android"@.len() != "macos"@.len());
}

/// The family that a lower-cased user-agent string stands for: Android wins over
/// the Apple markers, since iPadOS reports itself as a Macintosh.
pub open spec fn os_for_user_agent(lower: Seq<char>) -> Os {
    if contains_text(lower, "android"@) {
        Os::Android
    } else if contains_text(lower, "macintosh"@) || contains_text(lower, "iphone"@)
        || contains_text(lower, "ipad"@) {
        Os::Apple
    } else {
        Os::Other
    }
}

/// The family named by `navigator.userAgentData.platform`, or `None` when the
/// name is empty (the caller passes `None` on when the API is absent).
pub fn os_from_ua_platform(platform: &str) -> (r: Option<Os>)
    ensures
        platform@.len() == 0 ==> r is None,
        platform@.len() > 0 ==> r == Some(os_for_platform_name(lowercase(platform@))),
        platform@.len() > 0 ==> (r == Some(Os::Android) <==> lowercase(platform@) == "android"@),
        platform@.len() > 0 ==> (r == Some(Os::Apple) <==> (lowercase(platform@) == "ios"@
            || lowercase(platform@) == "macos"@)),
        platform@.len() > 0 ==> (r == Some(Os::Other) <==> (lowercase(platform@) != "android"@
            && lowercase(platform@) != "ios"@ && lowercase(platform@) != "macos"@)),
{
    if platform.unicode_len() == 0 {
        return None;
    }
    let lower = to_lowercase(platform);
    let os = if text_is(lower.as_str(), "android") {
        Os::Android
    } else if text_is(lower.as_str(), "ios") || text_is(lower.as_str(), "macos") {
        Os::Apple
    } else {
        Os::Other
    };
    proof {
        law_platform_name_table(lowercase(platform@));
    }
    Some(os)
}

/// The family read from a `navigator.userAgent` string.
pub fn os_from_user_agent(user_agent: &str) -> (r: Os)
    ensures
        r == os_for_user_agent(lowercase(user_agent@)),
{
    let lower = to_lowercase(user_agent);
    let ua = chars_of(lower.as_str());
    let is_android = contains(ua.as_slice(), chars_of("android").as_slice());
    let is_apple = (contains(ua.as_slice(), chars_of("macintosh").as_slice()) || contains(
        ua.as_slice(),
        chars_of("iphone").as_slice(),
    ) || contains(ua.as_slice(), chars_of("ipad").as_slice())) && !is_android;
    if is_android {
        Os::Android
    } else if is_apple {
        Os::Apple
    } else {
        Os::Other
    }
}

impl Platform {
    /// The platform as the browser reports it: the Client Hints platform name
    /// decides the family where it is given and not empty, the user-agent string
    /// otherwise.
    pub fn from_browser(
        has_nostr_extension: bool,
        ua_platform: Option<&str>,
        user_agent: &str,
        has_credentials: bool,
    ) -> (p: Platform)
        ensures
            p.has_nostr_extension == has_nostr_extension,
            p.supports_webauthn == has_credentials,
            p.os == (match ua_platform {
                Some(name) if name@.len() > 0 => os_for_platform_name(lowercase(name@)),
                _ => os_for_user_agent(lowercase(user_agent@)),
            }),
    {
        let from_hints = match ua_platform {
            Some(name) => os_from_ua_platform(name),
            None => None,
        };
        let os = match from_hints {
            Some(os) => os,
            None => os_from_user_agent(user_agent),
        };
        Platform { os, has_nostr_extension, supports_webauthn: has_credentials }
    }

    /// Used on the server and as the pre-hydration initial state on the client:
    /// every capability is assumed present so that the complete method list is
    /// rendered, and the family is `Other` for a neutral ordering.
    pub fn server_default() -> (p: Platform)
        ensures
            p == (Platform { os: Os::Other, has_nostr_extension: true, supports_webauthn: true }),
    {
        Platform { os: Os::Other, has_nostr_extension: true, supports_webauthn: true }
    }
}

} // verus!
