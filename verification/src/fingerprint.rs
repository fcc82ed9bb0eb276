//! Synthetic browser fingerprints.  A fingerprint is drawn jointly from a
//! small platform catalog and a browser-version catalog, so that every
//! identification signal it carries is consistent with every other.

use crate::rng::{random_i64_range, random_u64_range};
use vstd::prelude::*;
use vstd::string::StringExecFns;

verus! {

/// An immutable synthetic browser identity.
pub struct Fingerprint {
    pub user_agent: String,
    pub chrome_major: String,
    pub sec_ch_ua: String,
    pub sec_ch_ua_mobile: String,
    pub sec_ch_ua_platform: String,
    pub viewport_width: u32,
    pub viewport_height: u32,
    pub screen_width: u32,
    pub screen_height: u32,
    pub timezone_offset: i32,
    pub language: String,
    pub platform: String,
    pub webgl_vendor: String,
    pub webgl_renderer: String,
    pub created_at: u64,
}

pub open spec fn platform_count() -> int {
    3
}

/// Catalog of joint platform tuples: user-agent platform string, platform
/// name, screen width and height, viewport width and height.
pub open spec fn platform_entry(i: int) -> (Seq<char>, Seq<char>, u32, u32, u32, u32) {
    if i == 0 {
        ("Windows NT 10.0; Win64; x64"@, "Windows"@, 1920u32, 1080u32, 1920u32, 1040u32)
    } else if i == 1 {
        ("Macintosh; Intel Mac OS X 10_15_7"@, "macOS"@, 1440u32, 900u32, 1440u32, 877u32)
    } else {
        ("X11; Linux x86_64"@, "Linux"@, 1920u32, 1080u32, 1920u32, 1053u32)
    }
}

pub open spec fn version_count() -> int {
    4
}

/// Catalog of browser versions: full version string and its major version.
pub open spec fn version_entry(j: int) -> (Seq<char>, Seq<char>) {
    if j == 0 {
        ("120.0.0.0"@, "120"@)
    } else if j == 1 {
        ("119.0.0.0"@, "119"@)
    } else if j == 2 {
        ("121.0.0.0"@, "121"@)
    } else {
        ("118.0.0.0"@, "118"@)
    }
}

/// The user-agent string for a platform string and a full browser version.
pub open spec fn spec_ua(platform_str: Seq<char>, ver: Seq<char>) -> Seq<char> {
    "Mozilla/5.0 ("@ + platform_str + ") AppleWebKit/537.36 (KHTML, like Gecko) Chrome/"@ + ver
        + " Safari/537.36"@
}

/// The client-hint brand string for a major browser version.
pub open spec fn spec_ch(major: Seq<char>) -> Seq<char> {
    "\"Not_A Brand\";v=\"8\", \"Chromium\";v=\""@ + major + "\", \"Google Chrome\";v=\""@ + major
        + "\""@
}

/// A platform name wrapped in double quotes.
pub open spec fn spec_quoted(name: Seq<char>) -> Seq<char> {
    "\""@ + name + "\""@
}

/// The fingerprint's fields all come from catalog entries `i` and `j`:
/// the platform tuple jointly from entry `i`, and both the user-agent's
/// embedded version and the client-hint's major version from entry `j`.
pub open spec fn fp_from_catalog(fp: Fingerprint, i: int, j: int) -> bool {
    let (ps, name, sw, sh, vw, vh) = platform_entry(i);
    let (ver, major) = version_entry(j);
    &&& fp.user_agent@ == spec_ua(ps, ver)
    &&& fp.chrome_major@ == major
    &&& fp.sec_ch_ua@ == spec_ch(major)
    &&& fp.sec_ch_ua_platform@ == spec_quoted(name)
    &&& fp.platform@ == name
    &&& fp.screen_width == sw
    &&& fp.screen_height == sh
    &&& fp.viewport_width == vw
    &&& fp.viewport_height == vh
}

/// Well-formedness of a fingerprint: all signals drawn consistently.
pub open spec fn fp_wf(fp: Fingerprint) -> bool {
    &&& exists|i: int, j: int|
        0 <= i < platform_count() && 0 <= j < version_count() && fp_from_catalog(fp, i, j)
    &&& fp.sec_ch_ua_mobile@ == "?0"@
    &&& fp.language@ == "en-US"@
    &&& -720 <= fp.timezone_offset <= 840
}

impl Fingerprint {
    /// Draw a fresh fingerprint: one joint platform tuple, one browser
    /// version, and a timezone offset from the real-world range of UTC
    /// offsets in minutes.
    pub fn generate(now: u64) -> (fp: Fingerprint)
        ensures
            fp_wf(fp),
            fp.created_at == now,
    {
        let pi = random_u64_range(0, 3);
        let (ps, name, sw, sh, vw, vh): (&str, &str, u32, u32, u32, u32) = if pi == 0 {
            ("Windows NT 10.0; Win64; x64", "Windows", 1920, 1080, 1920, 1040)
        } else if pi == 1 {
            ("Macintosh; Intel Mac OS X 10_15_7", "macOS", 1440, 900, 1440, 877)
        } else {
            ("X11; Linux x86_64", "Linux", 1920, 1080, 1920, 1053)
        };
        let vj = random_u64_range(0, 4);
        let (ver, major): (&str, &str) = if vj == 0 {
            ("120.0.0.0", "120")
        } else if vj == 1 {
            ("119.0.0.0", "119")
        } else if vj == 2 {
            ("121.0.0.0", "121")
        } else {
            ("118.0.0.0", "118")
        };

        let mut user_agent = String::from_str("Mozilla/5.0 (");
        user_agent.append(ps);
        user_agent.append(") AppleWebKit/537.36 (KHTML, like Gecko) Chrome/");
        user_agent.append(ver);
        user_agent.append(" Safari/537.36");

        let mut sec_ch_ua = String::from_str("\"Not_A Brand\";v=\"8\", \"Chromium\";v=\"");
        sec_ch_ua.append(major);
        sec_ch_ua.append("\", \"Google Chrome\";v=\"");
        sec_ch_ua.append(major);
        sec_ch_ua.append("\"");

        let mut sec_ch_ua_platform = String::from_str("\"");
        sec_ch_ua_platform.append(name);
        sec_ch_ua_platform.append("\"");

        let timezone_offset = random_i64_range(-720, 841) as i32;

        let fp = Fingerprint {
            user_agent,
            chrome_major: String::from_str(major),
            sec_ch_ua,
            sec_ch_ua_mobile: String::from_str("?0"),
            sec_ch_ua_platform,
            viewport_width: vw,
            viewport_height: vh,
            screen_width: sw,
            screen_height: sh,
            timezone_offset,
            language: String::from_str("en-US"),
            platform: String::from_str(name),
            webgl_vendor: String::from_str("Google Inc. (Intel)"),
            webgl_renderer: String::from_str(
                "ANGLE (Intel, Intel(R) UHD Graphics 630 Direct3D11 vs_5_0 ps_5_0, D3D11)",
            ),
            created_at: now,
        };
        proof {
            let gi: int = if pi == 0 {
                0
            } else if pi == 1 {
                1
            } else {
                2
            };
            let gj: int = if vj == 0 {
                0
            } else if vj == 1 {
                1
            } else if vj == 2 {
                2
            } else {
                3
            };
            assert(fp.user_agent@ =~= spec_ua(platform_entry(gi).0, version_entry(gj).0));
            assert(fp.sec_ch_ua@ =~= spec_ch(version_entry(gj).1));
            assert(fp.sec_ch_ua_platform@ =~= spec_quoted(platform_entry(gi).1));
            assert(fp_from_catalog(fp, gi, gj));
        }
        fp
    }
}

/// Law: a well-formed fingerprint draws its platform string, screen
/// resolution and viewport resolution jointly from a single catalog entry,
/// and the browser version embedded in its user-agent string is the same
/// catalog entry whose major version its client-hint string embeds.
pub proof fn lemma_fingerprint_consistent(fp: Fingerprint)
    requires
        fp_wf(fp),
    ensures
        exists|i: int, j: int|
            0 <= i < platform_count() && 0 <= j < version_count() && fp_from_catalog(fp, i, j),
{
}

} // verus!
