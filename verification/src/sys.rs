//! System metadata reported with every event.
use vstd::prelude::*;
use vstd::string::*;

use crate::config::{opt_view, InitOptions};
use crate::text::chars_of;

verus! {

/// Metadata about the running program and its host.
#[derive(Debug)]
pub struct SystemProperties {
    pub is_debug: bool,
    pub os_name: String,
    pub os_version: String,
    pub locale: String,
    pub engine_name: String,
    pub engine_version: String,
}

impl SystemProperties {
    /// A field-by-field copy.
    pub fn duplicate(&self) -> (r: SystemProperties)
        ensures
            r == *self,
    {
        SystemProperties {
            is_debug: self.is_debug,
            os_name: self.os_name.clone(),
            os_version: self.os_version.clone(),
            locale: self.locale.clone(),
            engine_name: self.engine_name.clone(),
            engine_version: self.engine_version.clone(),
        }
    }
}

/// The operating-system families that get a name of their own.
#[derive(Debug, Clone, Copy, PartialEq, Eq)]
pub enum OsFamily {
    MacOs,
    Windows,
    Other,
}

/// What the host reports about itself, read by the caller.
#[derive(Debug)]
pub struct PlatformInfo {
    /// Whether this is a debug build.
    pub is_debug: bool,
    /// The operating-system family.
    pub os_family: OsFamily,
    /// The operating system's own display name.
    pub os_type_name: String,
    /// The operating-system version.
    pub os_version: String,
    /// Whether the program runs inside a Flatpak sandbox.
    pub is_flatpak: bool,
    /// The user's locale, when the host reports one.
    pub locale: Option<String>,
}

/// The operating-system name reported for a platform.
pub open spec fn os_name_of(p: PlatformInfo) -> Seq<char> {
    match p.os_family {
        OsFamily::MacOs => "macOS"@,
        OsFamily::Windows => "Windows"@,
        OsFamily::Other => if p.is_flatpak {
            "Flatpak"@
        } else {
            p.os_type_name@
        },
    }
}

/// `value`, or `default` when it is absent.
pub open spec fn view_or(value: Option<String>, default: Seq<char>) -> Seq<char> {
    match opt_view(value) {
        Some(v) => v,
        None => default,
    }
}

pub open spec fn default_engine_name() -> Seq<char> {
    "Rust"@
}

pub open spec fn default_engine_version() -> Seq<char> {
    "unknown"@
}

/// Whether `props` are the system properties of platform `p` under options `o`.
pub open spec fn system_properties_of(p: PlatformInfo, o: InitOptions, props: SystemProperties) -> bool {
    &&& props.is_debug == p.is_debug
    &&& props.os_name@ == os_name_of(p)
    &&& props.os_version@ == p.os_version@
    &&& props.locale@ == view_or(p.locale, Seq::<char>::empty())
    &&& props.engine_name@ == view_or(o.engine_name, default_engine_name())
    &&& props.engine_version@ == view_or(o.engine_version, default_engine_version())
}

fn string_or(value: &Option<String>, default: &str) -> (r: String)
    ensures
        r@ == match opt_view(*value) {
            Some(v) => v,
            None => default@,
        },
{
    match value {
        Some(v) => v.clone(),
        None => String::from_str(default),
    }
}

/// Collects the system properties from what the platform reports and the engine overrides.
pub fn get_info(platform: PlatformInfo, options: &InitOptions) -> (r: SystemProperties)
    ensures
        system_properties_of(platform, *options, r),
{
    let macos = "macOS";
    let windows = "Windows";
    let flatpak = "Flatpak";
    let os_name = match platform.os_family {
        OsFamily::MacOs => String::from_str(macos),
        OsFamily::Windows => String::from_str(windows),
        OsFamily::Other => if platform.is_flatpak {
            String::from_str(flatpak)
        } else {
            platform.os_type_name.clone()
        },
    };
    let locale = match &platform.locale {
        Some(l) => l.clone(),
        None => String::new(),
    };
    SystemProperties {
        is_debug: platform.is_debug,
        os_name,
        os_version: platform.os_version,
        locale,
        engine_name: string_or(&options.engine_name, "Rust"),
        engine_version: string_or(&options.engine_version, "unknown"),
    }
}

/// What `str::to_lowercase` gives for a text.
pub uninterp spec fn lowercased(s: Seq<char>) -> Seq<char>;

/// Calls `str::to_lowercase`. Trusted: the result is `lowercased` of the text.
#[verifier::external_body]
fn to_lowercase(s: &str) -> (r: String)
    ensures
        r@ == lowercased(s@),
{
    s.to_lowercase()
}

/// Whether a character has the Unicode `White_Space` property, which `str::trim` strips.
pub open spec fn is_white_space(c: char) -> bool {
    let u = c as u32;
    ||| 0x09 <= u <= 0x0D
    ||| u == 0x20
    ||| u == 0x85
    ||| u == 0xA0
    ||| u == 0x1680
    ||| 0x2000 <= u <= 0x200A
    ||| u == 0x2028
    ||| u == 0x2029
    ||| u == 0x202F
    ||| u == 0x205F
    ||| u == 0x3000
}

/// `s` without its leading white space.
pub open spec fn trim_start(s: Seq<char>) -> Seq<char>
    decreases s.len(),
{
    if s.len() > 0 && is_white_space(s[0]) {
        trim_start(s.drop_first())
    } else {
        s
    }
}

/// `s` without its trailing white space.
pub open spec fn trim_end(s: Seq<char>) -> Seq<char>
    decreases s.len(),
{
    if s.len() > 0 && is_white_space(s.last()) {
        trim_end(s.drop_last())
    } else {
        s
    }
}

/// `s` without leading and trailing white space, as `str::trim` gives it.
pub open spec fn trimmed(s: Seq<char>) -> Seq<char> {
    trim_end(trim_start(s))
}

fn white_space(c: char) -> (r: bool)
    ensures
        r == is_white_space(c),
{
    let u = c as u32;
    (0x09 <= u && u <= 0x0D) || u == 0x20 || u == 0x85 || u == 0xA0 || u == 0x1680 || (0x2000 <= u
        && u <= 0x200A) || u == 0x2028 || u == 0x2029 || u == 0x202F || u == 0x205F || u == 0x3000
}

/// Strips leading and trailing white space.
pub fn trim(s: &str) -> (r: String)
    ensures
        r@ == trimmed(s@),
{
    let chars = chars_of(s);
    let n = chars.len();
    let mut i: usize = 0;
    assert(s@.subrange(0, n as int) =~= s@);
    while i < n && white_space(chars[i])
        invariant
            chars@ == s@,
            n == s@.len(),
            i <= n,
            trim_start(s@) == trim_start(s@.subrange(i as int, n as int)),
        decreases n - i,
    {
        assert(s@.subrange(i as int, n as int).drop_first() =~= s@.subrange(i + 1, n as int));
        i = i + 1;
    }
    assert(trim_start(s@) == s@.subrange(i as int, n as int));
    let mut j: usize = n;
    while j > i && white_space(chars[j - 1])
        invariant
            chars@ == s@,
            n == s@.len(),
            i <= j <= n,
            trimmed(s@) == trim_end(s@.subrange(i as int, j as int)),
        decreases j,
    {
        assert(s@.subrange(i as int, j as int).drop_last() =~= s@.subrange(i as int, j - 1));
        j = j - 1;
    }
    String::from_str(s.substring_char(i, j))
}

/// Whether the environment marks a Flatpak sandbox: `FLATPAK_ID` is set, or the `container`
/// variable reads `flatpak` once lower-cased and trimmed.
pub fn is_flatpak(flatpak_id_set: bool, container: Option<String>) -> (r: bool)
    ensures
        r == (flatpak_id_set || match opt_view(container) {
            Some(c) => trimmed(lowercased(c)) == "flatpak"@,
            None => false,
        }),
{
    if flatpak_id_set {
        return true;
    }
    match container {
        Some(c) => {
            let lower = to_lowercase(c.as_str());
            let owned = trim(lower.as_str());
            let expected = String::from_str("flatpak");
            owned == expected
        },
        None => false,
    }
}

} // verus!
