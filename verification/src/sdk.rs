//! The OHOS SDK and the hvigor build tool: which ABI a Rust target builds
//! for, where an SDK version and the hvigor files lie, and how the SDK's
//! version is shown.
use vstd::prelude::*;
use crate::cli::{abi_name, Abi};
use crate::error::{AppResult, OhosAppError};
use crate::paths::{components, join_all, joins_to, open_ended, path_exists, plain, views};
use crate::text::{ascii_lowercase, concat3, owned, str_eq, to_ascii_lower};

verus! {

/// The OHOS ABI that a Rust target triple builds for, if it is an OHOS target.
pub open spec fn abi_of_target(target: Seq<char>) -> Option<Seq<char>> {
    if target == "aarch64-unknown-linux-ohos"@ {
        Some("arm64-v8a"@)
    } else if target == "armv7-unknown-linux-ohos"@ {
        Some("armeabi-v7a"@)
    } else if target == "x86_64-unknown-linux-ohos"@ {
        Some("x86_64"@)
    } else if target == "loongarch64-unknown-linux-ohos"@ {
        Some("loongarch64"@)
    } else {
        None
    }
}

/// The Rust target triple that builds for an OHOS ABI, if it is one.
pub open spec fn target_of_abi(abi: Seq<char>) -> Option<Seq<char>> {
    if abi == "arm64-v8a"@ {
        Some("aarch64-unknown-linux-ohos"@)
    } else if abi == "armeabi-v7a"@ {
        Some("armv7-unknown-linux-ohos"@)
    } else if abi == "x86_64"@ {
        Some("x86_64-unknown-linux-ohos"@)
    } else if abi == "loongarch64"@ {
        Some("loongarch64-unknown-linux-ohos"@)
    } else {
        None
    }
}

pub fn target_to_abi(target: &str) -> (res: AppResult<&'static str>)
    ensures
        match res {
            Ok(abi) => abi_of_target(target@) == Some(abi@),
            Err(e) => abi_of_target(target@) is None && (e matches OhosAppError::UnsupportedTarget {
                target: t,
            } && t@ == target@),
        },
{
    if str_eq(target, "aarch64-unknown-linux-ohos") {
        Ok("arm64-v8a")
    } else if str_eq(target, "armv7-unknown-linux-ohos") {
        Ok("armeabi-v7a")
    } else if str_eq(target, "x86_64-unknown-linux-ohos") {
        Ok("x86_64")
    } else if str_eq(target, "loongarch64-unknown-linux-ohos") {
        Ok("loongarch64")
    } else {
        Err(OhosAppError::UnsupportedTarget { target: owned(target) })
    }
}

/// The message given for an ABI that is not an OHOS ABI.
pub open spec fn unsupported_abi_message(abi: Seq<char>) -> Seq<char> {
    "unsupported OHOS ABI ["@ + abi + "]"@
}

pub fn abi_to_target(abi: &str) -> (res: AppResult<&'static str>)
    ensures
        match res {
            Ok(target) => target_of_abi(abi@) == Some(target@),
            Err(e) => target_of_abi(abi@) is None && (e matches OhosAppError::Message(m) && m@
                == unsupported_abi_message(abi@)),
        },
{
    if str_eq(abi, "arm64-v8a") {
        Ok("aarch64-unknown-linux-ohos")
    } else if str_eq(abi, "armeabi-v7a") {
        Ok("armv7-unknown-linux-ohos")
    } else if str_eq(abi, "x86_64") {
        Ok("x86_64-unknown-linux-ohos")
    } else if str_eq(abi, "loongarch64") {
        Ok("loongarch64-unknown-linux-ohos")
    } else {
        Err(OhosAppError::Message(concat3("unsupported OHOS ABI [", abi, "]")))
    }
}

proof fn lemma_names_distinct()
    ensures
        "aarch64-unknown-linux-ohos"@.len() == 26,
        "armv7-unknown-linux-ohos"@.len() == 24,
        "x86_64-unknown-linux-ohos"@.len() == 25,
        "loongarch64-unknown-linux-ohos"@.len() == 30,
        "arm64-v8a"@.len() == 9,
        "armeabi-v7a"@.len() == 11,
        "x86_64"@.len() == 6,
        "loongarch64"@.len() == 11,
        "armeabi-v7a"@[0] == 'a',
        "loongarch64"@[0] == 'l',
{
    reveal_strlit("aarch64-unknown-linux-ohos");
    reveal_strlit("armv7-unknown-linux-ohos");
    reveal_strlit("x86_64-unknown-linux-ohos");
    reveal_strlit("loongarch64-unknown-linux-ohos");
    reveal_strlit("arm64-v8a");
    reveal_strlit("armeabi-v7a");
    reveal_strlit("x86_64");
    reveal_strlit("loongarch64");
}

/// A target builds for an ABI exactly when that ABI is built with that
/// target: `target_to_abi` and `abi_to_target` undo each other.
pub proof fn lemma_target_abi_inverse(target: Seq<char>, abi: Seq<char>)
    ensures
        abi_of_target(target) == Some(abi) <==> target_of_abi(abi) == Some(target),
{
    lemma_names_distinct();
}

/// Every ABI that the command line offers has a Rust target, and that target
/// builds for the same ABI again.
pub proof fn lemma_cli_abi_has_target(abi: Abi)
    ensures
        target_of_abi(abi_name(abi)) is Some,
        abi_of_target(target_of_abi(abi_name(abi))->0) == Some(abi_name(abi)),
{
    lemma_names_distinct();
}


/// Where an installed SDK lies.
#[derive(Debug, Clone)]
pub struct SdkInfo {
    pub root: String,
    pub version: String,
    pub version_dir: String,
    pub display_version: String,
    pub native_dir: String,
    pub toolchains_dir: String,
}

/// Where the hvigor wrapper scripts and packages of DevEco Studio lie.
#[derive(Debug, Clone)]
pub struct HvigorInfo {
    pub wrapper_bat: String,
    pub wrapper_js: String,
    pub hvigor_package_dir: String,
    pub hvigor_plugin_package_dir: String,
}

/// One entry of the SDK root directory: its name and whether it is a directory.
#[derive(Debug, Clone)]
pub struct SdkDirEntry {
    pub name: String,
    pub is_dir: bool,
}

pub open spec fn is_digit(c: char) -> bool {
    '0' <= c <= '9'
}

pub open spec fn all_digits(s: Seq<char>) -> bool {
    forall|i: int| 0 <= i < s.len() ==> is_digit(#[trigger] s[i])
}

/// The number that a string of decimal digits denotes.
pub open spec fn digits_value(s: Seq<char>) -> int
    decreases s.len(),
{
    if s.len() == 0 {
        0
    } else {
        digits_value(s.drop_last()) * 10 + (s.last() as int - '0' as int)
    }
}

/// What `str::parse::<u32>` accepts: an optional `+`, then one or more
/// decimal digits whose value fits in a `u32`.
pub open spec fn parsed_u32(s: Seq<char>) -> Option<int> {
    let d = if s.len() > 0 && s[0] == '+' {
        s.skip(1)
    } else {
        s
    };
    if d.len() > 0 && all_digits(d) && digits_value(d) <= u32::MAX {
        Some(digits_value(d))
    } else {
        None
    }
}

proof fn lemma_digits_value_nonneg(s: Seq<char>)
    requires
        all_digits(s),
    ensures
        digits_value(s) >= 0,
    decreases s.len(),
{
    if s.len() > 0 {
        assert(all_digits(s.drop_last())) by {
            assert forall|i: int| 0 <= i < s.drop_last().len() implies is_digit(#[trigger] s.drop_last()[i]) by {
                assert(s.drop_last()[i] == s[i]);
            }
        }
        lemma_digits_value_nonneg(s.drop_last());
        assert(is_digit(s[s.len() - 1]));
    }
}

/// `str::parse::<u32>`.
pub fn parse_u32(s: &str) -> (res: Option<u32>)
    ensures
        match res {
            Some(v) => parsed_u32(s@) == Some(v as int),
            None => parsed_u32(s@) is None,
        },
{
    let cs = crate::text::chars_of(s);
    let n = cs.len();
    let start: usize = if n > 0 && cs[0] == '+' { 1 } else { 0 };
    let ghost d = if s@.len() > 0 && s@[0] == '+' { s@.skip(1) } else { s@ };
    assert(d =~= s@.skip(start as int));
    if start == n {
        return None;
    }
    let mut v: u64 = 0;
    let mut big = false;
    let mut i: usize = start;
    assert(d.take(0) =~= Seq::<char>::empty());
    while i < n
        invariant
            cs@ == s@,
            n == cs.len(),
            start <= i <= n,
            start < n,
            d == s@.skip(start as int),
            d == (if s@.len() > 0 && s@[0] == '+' { s@.skip(1) } else { s@ }),
            all_digits(d.take(i - start)),
            !big ==> v == digits_value(d.take(i - start)) && v <= u32::MAX,
            big ==> digits_value(d.take(i - start)) > u32::MAX,
        decreases n - i,
    {
        let c = cs[i];
        let k: usize = i - start;
        assert(d[k as int] == c);
        if !('0' <= c && c <= '9') {
            assert(!all_digits(d)) by {
                assert(!is_digit(d[k as int]));
            }
            return None;
        }
        assert(d.take(k + 1).drop_last() =~= d.take(k as int));
        assert(all_digits(d.take(k + 1))) by {
            assert forall|j: int| 0 <= j < k + 1 implies is_digit(#[trigger] d.take(k + 1)[j]) by {
                if j < k {
                    assert(d.take(k + 1)[j] == d.take(k as int)[j]);
                }
            }
        }
        let dv: u64 = ((c as u32) - ('0' as u32)) as u64;
        if !big {
            v = v * 10 + dv;
            if v > 4294967295 {
                big = true;
            }
        } else {
            proof {
                lemma_digits_value_nonneg(d.take(k as int));
            }
        }
        i = i + 1;
    }
    assert(d.take(n - start) =~= d);
    if big {
        None
    } else {
        Some(v as u32)
    }
}

pub open spec fn is_version_dir(e: SdkDirEntry) -> bool {
    e.is_dir && parsed_u32(e.name@) is Some
}

pub open spec fn version_number(e: SdkDirEntry) -> int {
    parsed_u32(e.name@)->0
}

/// Entry `k` is the SDK version picked from `es`: a numeric directory with
/// the greatest number, and the last one in order among those with it.
pub open spec fn latest_at(es: Seq<SdkDirEntry>, k: int) -> bool {
    &&& 0 <= k < es.len()
    &&& is_version_dir(es[k])
    &&& forall|j: int|
        0 <= j < es.len() && #[trigger] is_version_dir(es[j]) ==> version_number(es[j])
            <= version_number(es[k]) && (j > k ==> version_number(es[j]) < version_number(es[k]))
}

/// Picks the installed SDK version with the greatest number among the
/// numeric directory names under `root`.
pub fn latest_sdk_version(root: &str, entries: &Vec<SdkDirEntry>) -> (res: AppResult<String>)
    ensures
        match res {
            Ok(v) => exists|k: int| latest_at(entries@, k) && v@ == entries@[k].name@,
            Err(e) => (forall|j: int| 0 <= j < entries@.len() ==> !is_version_dir(#[trigger] entries@[j]))
                && (e matches OhosAppError::NoSdkVersionsFound { root: r } && r@ == root@),
        },
{
    let n = entries.len();
    let mut best: Option<usize> = None;
    let mut best_value: u32 = 0;
    let mut i: usize = 0;
    while i < n
        invariant
            n == entries@.len(),
            i <= n,
            match best {
                None => forall|j: int| 0 <= j < i ==> !is_version_dir(#[trigger] entries@[j]),
                Some(b) => {
                    &&& b < i
                    &&& is_version_dir(entries@[b as int])
                    &&& version_number(entries@[b as int]) == best_value
                    &&& forall|j: int|
                        0 <= j < i && #[trigger] is_version_dir(entries@[j]) ==> version_number(entries@[j])
                            <= best_value && (j > b ==> version_number(entries@[j]) < best_value)
                },
            },
        decreases n - i,
    {
        let e = &entries[i];
        if e.is_dir {
            match parse_u32(e.name.as_str()) {
                Some(v) => {
                    let better = match best {
                        None => true,
                        Some(_) => v >= best_value,
                    };
                    if better {
                        best = Some(i);
                        best_value = v;
                    }
                },
                None => {},
            }
        }
        i = i + 1;
    }
    match best {
        Some(b) => {
            assert(latest_at(entries@, b as int));
            Ok(entries[b].name.clone())
        },
        None => Err(OhosAppError::NoSdkVersionsFound { root: owned(root) }),
    }
}

/// The first `n` (at least one) fields of `s` separated by `.`, joined by
/// `.` again: what `s.split('.').take(n)` gives once joined with ".".
pub open spec fn leading_fields(s: Seq<char>, n: nat) -> Seq<char>
    decreases s.len(),
{
    if s.len() == 0 {
        s
    } else if s[0] == '.' {
        if n <= 1 {
            Seq::empty()
        } else {
            seq!['.'] + leading_fields(s.skip(1), (n - 1) as nat)
        }
    } else {
        seq![s[0]] + leading_fields(s.skip(1), n)
    }
}

/// How an SDK is shown: the first three fields of its version, then its API
/// version in brackets, as in `6.0.0(20)`.
pub open spec fn spec_display_version(version: Seq<char>, api_version: Seq<char>) -> Seq<char> {
    leading_fields(version, 3) + "("@ + api_version + ")"@
}

pub fn display_version(version: &str, api_version: &str) -> (res: String)
    ensures
        res@ == spec_display_version(version@, api_version@),
{
    let cs = crate::text::chars_of(version);
    let n = cs.len();
    let mut out = String::new();
    let mut left: usize = 3;
    let mut i: usize = 0;
    assert(version@.skip(0) =~= version@);
    while i < n
        invariant
            cs@ == version@,
            n == cs.len(),
            i <= n,
            1 <= left <= 3,
            leading_fields(version@, 3) == out@ + leading_fields(version@.skip(i as int), left as nat),
        ensures
            leading_fields(version@, 3) == out@,
        decreases n - i,
    {
        let c = cs[i];
        let ghost rest = version@.skip(i as int);
        assert(rest[0] == c);
        assert(rest.skip(1) =~= version@.skip(i + 1));
        if c == '.' {
            if left <= 1 {
                assert(leading_fields(rest, left as nat) =~= Seq::<char>::empty());
                assert(out@ + Seq::<char>::empty() =~= out@);
                break;
            }
            crate::text::push_char(&mut out, '.');
            left = left - 1;
        } else {
            crate::text::push_char(&mut out, c);
        }
        assert(out@ + leading_fields(version@.skip(i + 1), left as nat) =~= out@.drop_last() + (seq![c] + leading_fields(version@.skip(i + 1), left as nat)));
        i = i + 1;
    }
    let mut res = out;
    res.append("(");
    res.append(api_version);
    res.append(")");
    res
}

pub open spec fn hvigor_dir_parts() -> Seq<Seq<char>> {
    seq!["tools"@, "hvigor"@]
}

/// The hvigor files of a DevEco Studio installation at `dir`, as joined paths.
pub open spec fn hvigor_layout(info: HvigorInfo, dir: Seq<char>) -> bool {
    &&& joins_to(info.wrapper_bat@, dir, hvigor_dir_parts() + seq!["bin"@, "hvigorw.bat"@])
    &&& joins_to(info.wrapper_js@, dir, hvigor_dir_parts() + seq!["bin"@, "hvigorw.js"@])
    &&& joins_to(info.hvigor_package_dir@, dir, hvigor_dir_parts() + seq!["hvigor"@])
    &&& joins_to(info.hvigor_plugin_package_dir@, dir, hvigor_dir_parts() + seq!["hvigor-ohos-plugin"@])
}

proof fn lemma_hvigor_names_plain()
    ensures
        plain("tools"@),
        plain("hvigor"@),
        plain("bin"@),
        plain("hvigorw.bat"@),
        plain("hvigorw.js"@),
        plain("hvigor-ohos-plugin"@),
{
    reveal_strlit("tools");
    reveal_strlit("hvigor");
    reveal_strlit("bin");
    reveal_strlit("hvigorw.bat");
    reveal_strlit("hvigorw.js");
    reveal_strlit("hvigor-ohos-plugin");
}

/// The paths of the hvigor files under a DevEco Studio directory.
pub fn hvigor_paths(deveco_studio_dir: &str) -> (info: HvigorInfo)
    ensures
        open_ended(deveco_studio_dir@) ==> hvigor_layout(info, deveco_studio_dir@),
{
    proof {
        lemma_hvigor_names_plain();
    }
    let bat_parts = components(&["tools", "hvigor", "bin", "hvigorw.bat"]);
    let js_parts = components(&["tools", "hvigor", "bin", "hvigorw.js"]);
    let package_parts = components(&["tools", "hvigor", "hvigor"]);
    let plugin_parts = components(&["tools", "hvigor", "hvigor-ohos-plugin"]);
    assert(views(bat_parts@) =~= hvigor_dir_parts() + seq!["bin"@, "hvigorw.bat"@]);
    assert(views(js_parts@) =~= hvigor_dir_parts() + seq!["bin"@, "hvigorw.js"@]);
    assert(views(package_parts@) =~= hvigor_dir_parts() + seq!["hvigor"@]);
    assert(views(plugin_parts@) =~= hvigor_dir_parts() + seq!["hvigor-ohos-plugin"@]);
    HvigorInfo {
        wrapper_bat: join_all(deveco_studio_dir, &bat_parts),
        wrapper_js: join_all(deveco_studio_dir, &js_parts),
        hvigor_package_dir: join_all(deveco_studio_dir, &package_parts),
        hvigor_plugin_package_dir: join_all(deveco_studio_dir, &plugin_parts),
    }
}

/// The hvigor files pass when all four exist; otherwise the first missing
/// one, in the order of the fields of `HvigorInfo`, is reported.
pub open spec fn hvigor_check_result(info: HvigorInfo, present: Seq<bool>) -> AppResult<HvigorInfo> {
    if !present[0] {
        Err(OhosAppError::MissingFile { path: info.wrapper_bat })
    } else if !present[1] {
        Err(OhosAppError::MissingFile { path: info.wrapper_js })
    } else if !present[2] {
        Err(OhosAppError::MissingFile { path: info.hvigor_package_dir })
    } else if !present[3] {
        Err(OhosAppError::MissingFile { path: info.hvigor_plugin_package_dir })
    } else {
        Ok(info)
    }
}

pub fn hvigor_check(info: HvigorInfo, present: [bool; 4]) -> (res: AppResult<HvigorInfo>)
    ensures
        res == hvigor_check_result(info, present@),
{
    if !present[0] {
        return Err(OhosAppError::MissingFile { path: info.wrapper_bat });
    }
    if !present[1] {
        return Err(OhosAppError::MissingFile { path: info.wrapper_js });
    }
    if !present[2] {
        return Err(OhosAppError::MissingFile { path: info.hvigor_package_dir });
    }
    if !present[3] {
        return Err(OhosAppError::MissingFile { path: info.hvigor_plugin_package_dir });
    }
    Ok(info)
}

/// Finds the hvigor files of DevEco Studio, failing on the first of them
/// that is not on disk (checked in the order of the fields of `HvigorInfo`,
/// up to the first missing one). Which of them exist is not stated: that
/// depends on the disk.
pub fn discover_hvigor(deveco_studio_dir: &str) -> (res: AppResult<HvigorInfo>)
    ensures
        exists|info: HvigorInfo, present: [bool; 4]|
            (open_ended(deveco_studio_dir@) ==> hvigor_layout(info, deveco_studio_dir@))
                && #[trigger] hvigor_check_result(info, present@) == res,
{
    let info = hvigor_paths(deveco_studio_dir);
    let bat = path_exists(&info.wrapper_bat);
    let js = bat && path_exists(&info.wrapper_js);
    let package = js && path_exists(&info.hvigor_package_dir);
    let plugin = package && path_exists(&info.hvigor_plugin_package_dir);
    let present = [bat, js, package, plugin];
    let ghost i = info;
    let res = hvigor_check(info, present);
    assert(hvigor_check_result(i, present@) == res);
    assert((open_ended(deveco_studio_dir@) ==> hvigor_layout(i, deveco_studio_dir@)));
    res
}

/// Whether a requested SDK version asks for the newest installed one.
pub open spec fn auto_requested(v: Seq<char>) -> bool {
    ascii_lowercase(v) == "auto"@
}

/// The SDK version asked for, or `None` when the newest installed one is
/// to be picked (no request, or `auto` in any ASCII case).
pub fn requested_sdk_version(requested: Option<&str>) -> (res: Option<String>)
    ensures
        match requested {
            Some(v) => if auto_requested(v@) {
                res is None
            } else {
                res matches Some(r) && r@ == v@
            },
            None => res is None,
        },
{
    match requested {
        Some(v) => {
            let lower = to_ascii_lower(v);
            if str_eq(lower.as_str(), "auto") {
                None
            } else {
                Some(owned(v))
            }
        },
        None => None,
    }
}

proof fn lemma_sdk_names_plain()
    ensures
        plain("ets"@),
        plain("oh-uni-package.json"@),
        plain("native"@),
        plain("toolchains"@),
{
    reveal_strlit("ets");
    reveal_strlit("oh-uni-package.json");
    reveal_strlit("native");
    reveal_strlit("toolchains");
}

/// Where an SDK version describes itself: `ets/oh-uni-package.json`.
pub fn sdk_manifest_path(version_dir: &str) -> (res: String)
    ensures
        open_ended(version_dir@) ==> joins_to(res@, version_dir@, seq!["ets"@, "oh-uni-package.json"@]),
{
    proof {
        lemma_sdk_names_plain();
    }
    let parts = components(&["ets", "oh-uni-package.json"]);
    assert(views(parts@) =~= seq!["ets"@, "oh-uni-package.json"@]);
    join_all(version_dir, &parts)
}

/// The SDK found at `version_dir`, given the `version` and `apiVersion`
/// fields of its package description.
pub fn sdk_info(root: &str, version: &str, version_dir: &str, package_version: &str, api_version: &str) -> (res: SdkInfo)
    ensures
        res.root@ == root@,
        res.version@ == version@,
        res.version_dir@ == version_dir@,
        res.display_version@ == spec_display_version(package_version@, api_version@),
        open_ended(version_dir@) ==> joins_to(res.native_dir@, version_dir@, seq!["native"@]),
        open_ended(version_dir@) ==> joins_to(res.toolchains_dir@, version_dir@, seq!["toolchains"@]),
{
    proof {
        lemma_sdk_names_plain();
    }
    let native = components(&["native"]);
    let toolchains = components(&["toolchains"]);
    assert(views(native@) =~= seq!["native"@]);
    assert(views(toolchains@) =~= seq!["toolchains"@]);
    SdkInfo {
        root: owned(root),
        version: owned(version),
        version_dir: owned(version_dir),
        display_version: display_version(package_version, api_version),
        native_dir: join_all(version_dir, &native),
        toolchains_dir: join_all(version_dir, &toolchains),
    }
}

/// The directory of an SDK version under the SDK root.
pub fn version_dir_of(root: &str, version: &str) -> (res: String)
    ensures
        open_ended(root@) && plain(version@) ==> joins_to(res@, root@, seq![version@]),
{
    let parts = components(&[version]);
    assert(views(parts@) =~= seq![version@]);
    join_all(root, &parts)
}

/// What SDK discovery asks the program for next.
#[derive(Debug)]
pub enum SdkAsk {
    /// Answer with `SdkAnswer::Exists` whether something is on disk there.
    Exists(String),
    /// Answer with `SdkAnswer::Listed` the entries of this directory.
    List(String),
    /// Answer with `SdkAnswer::Manifest` the `version` and `apiVersion`
    /// fields of the package description at this path.
    ReadManifest(String),
    /// The SDK has been found.
    Found(SdkInfo),
    /// Discovery has failed with this error.
    Failed(OhosAppError),
}

/// What the program found out for the last request.
#[derive(Debug)]
pub enum SdkAnswer {
    Exists(bool),
    Listed(AppResult<Vec<SdkDirEntry>>),
    /// The `version` and `apiVersion` fields, or why they could not be read.
    Manifest(AppResult<(String, String)>),
}

/// What SDK discovery waits for.
#[derive(Debug, PartialEq, Eq, Structural)]
pub enum SdkStage {
    /// Whether the root exists.
    Root,
    /// The entries of the root, to pick the newest version.
    Listing,
    /// Whether the version directory exists.
    VersionDir,
    /// The fields of the package description.
    Manifest,
    /// Nothing: discovery is over.
    Over,
}

/// Finding the SDK under `root`: the root must exist; the requested version
/// is used, or (when `requested` is `None`) the newest installed one; its
/// directory must exist; its package description gives the shown version.
pub struct SdkDiscovery {
    pub root: String,
    pub requested: Option<String>,
    pub stage: SdkStage,
    pub version: String,
    pub version_dir: String,
}

pub open spec fn unexpected_answer_message() -> Seq<char> {
    "unexpected answer during SDK discovery"@
}

/// Going on to the version directory check for `version`.
pub open spec fn checks_version_dir(before: SdkDiscovery, after: SdkDiscovery, ask: SdkAsk, version: Seq<char>) -> bool {
    &&& after.stage == SdkStage::VersionDir
    &&& after.version@ == version
    &&& (open_ended(before.root@) && plain(version) ==> joins_to(after.version_dir@, before.root@, seq![version]))
    &&& ask == SdkAsk::Exists(after.version_dir)
}

pub open spec fn fails_with(after: SdkDiscovery, ask: SdkAsk) -> bool {
    after.stage == SdkStage::Over && ask is Failed
}

pub open spec fn fails_unexpectedly(after: SdkDiscovery, ask: SdkAsk) -> bool {
    fails_with(after, ask) && (ask matches SdkAsk::Failed(OhosAppError::Message(m)) && m@ == unexpected_answer_message())
}

/// One move of SDK discovery on an answer.
pub open spec fn sdk_step(before: SdkDiscovery, answer: SdkAnswer, after: SdkDiscovery, ask: SdkAsk) -> bool {
    &&& after.root == before.root
    &&& after.requested == before.requested
    &&& match before.stage {
        SdkStage::Root => match answer {
            SdkAnswer::Exists(false) => fails_with(after, ask) && (ask matches SdkAsk::Failed(
                OhosAppError::MissingSdkRoot { path },
            ) && path@ == before.root@),
            SdkAnswer::Exists(true) => match before.requested {
                Some(v) => checks_version_dir(before, after, ask, v@),
                None => after.stage == SdkStage::Listing && ask == SdkAsk::List(before.root),
            },
            _ => fails_unexpectedly(after, ask),
        },
        SdkStage::Listing => match answer {
            SdkAnswer::Listed(Err(e)) => fails_with(after, ask) && ask == SdkAsk::Failed(e),
            SdkAnswer::Listed(Ok(entries)) => if exists|k: int|
                0 <= k < entries@.len() && #[trigger] is_version_dir(entries@[k]) {
                exists|k: int| latest_at(entries@, k) && checks_version_dir(before, after, ask, entries@[k].name@)
            } else {
                fails_with(after, ask) && (ask matches SdkAsk::Failed(OhosAppError::NoSdkVersionsFound { root })
                    && root@ == before.root@)
            },
            _ => fails_unexpectedly(after, ask),
        },
        SdkStage::VersionDir => match answer {
            SdkAnswer::Exists(false) => fails_with(after, ask) && ask == SdkAsk::Failed(
                OhosAppError::MissingSdkVersion { path: before.version_dir },
            ),
            SdkAnswer::Exists(true) => {
                &&& after.stage == SdkStage::Manifest
                &&& after.version == before.version
                &&& after.version_dir == before.version_dir
                &&& ask matches SdkAsk::ReadManifest(path) && (open_ended(before.version_dir@) ==> joins_to(
                    path@,
                    before.version_dir@,
                    seq!["ets"@, "oh-uni-package.json"@],
                ))
            },
            _ => fails_unexpectedly(after, ask),
        },
        SdkStage::Manifest => match answer {
            SdkAnswer::Manifest(Err(e)) => fails_with(after, ask) && ask == SdkAsk::Failed(e),
            SdkAnswer::Manifest(Ok((package_version, api_version))) => {
                &&& after.stage == SdkStage::Over
                &&& ask matches SdkAsk::Found(info)
                &&& info.root@ == before.root@
                &&& info.version@ == before.version@
                &&& info.version_dir@ == before.version_dir@
                &&& info.display_version@ == spec_display_version(package_version@, api_version@)
                &&& open_ended(before.version_dir@) ==> joins_to(info.native_dir@, before.version_dir@, seq!["native"@])
                &&& open_ended(before.version_dir@) ==> joins_to(info.toolchains_dir@, before.version_dir@, seq!["toolchains"@])
            },
            _ => fails_unexpectedly(after, ask),
        },
        SdkStage::Over => fails_unexpectedly(after, ask),
    }
}

impl SdkDiscovery {
    /// Starts discovery under `root` for the requested version (`None`, or
    /// `auto` in any ASCII case, for the newest installed one); the first
    /// request is whether the root exists.
    pub fn start(root: &str, requested: Option<&str>) -> (res: (SdkDiscovery, SdkAsk))
        ensures
            res.0.root@ == root@,
            match requested {
                Some(v) => if auto_requested(v@) {
                    res.0.requested is None
                } else {
                    res.0.requested matches Some(r) && r@ == v@
                },
                None => res.0.requested is None,
            },
            res.0.stage == SdkStage::Root,
            res.1 == SdkAsk::Exists(res.0.root),
    {
        let discovery = SdkDiscovery {
            root: owned(root),
            requested: requested_sdk_version(requested),
            stage: SdkStage::Root,
            version: String::new(),
            version_dir: String::new(),
        };
        let ask = SdkAsk::Exists(discovery.root.clone());
        (discovery, ask)
    }

    fn fail(&mut self, error: OhosAppError) -> (ask: SdkAsk)
        ensures
            final(self).stage == SdkStage::Over,
            final(self).root == old(self).root,
            final(self).requested == old(self).requested,
            ask == SdkAsk::Failed(error),
    {
        self.stage = SdkStage::Over;
        SdkAsk::Failed(error)
    }

    fn check_version(&mut self, version: String) -> (ask: SdkAsk)
        ensures
            final(self).root == old(self).root,
            final(self).requested == old(self).requested,
            checks_version_dir(*old(self), *final(self), ask, version@),
    {
        let dir = version_dir_of(self.root.as_str(), version.as_str());
        self.version = version;
        self.version_dir = dir;
        self.stage = SdkStage::VersionDir;
        SdkAsk::Exists(self.version_dir.clone())
    }

    /// The next request, given the answer to the last one.
    pub fn next(&mut self, answer: SdkAnswer) -> (ask: SdkAsk)
        ensures
            sdk_step(*old(self), answer, *final(self), ask),
    {
        match self.stage {
            SdkStage::Root => match answer {
                SdkAnswer::Exists(false) => {
                    let root = self.root.clone();
                    self.fail(OhosAppError::MissingSdkRoot { path: root })
                },
                SdkAnswer::Exists(true) => match &self.requested {
                    Some(v) => {
                        let v = v.clone();
                        self.check_version(v)
                    },
                    None => {
                        self.stage = SdkStage::Listing;
                        SdkAsk::List(self.root.clone())
                    },
                },
                _ => self.fail(OhosAppError::Message(owned("unexpected answer during SDK discovery"))),
            },
            SdkStage::Listing => match answer {
                SdkAnswer::Listed(Err(e)) => self.fail(e),
                SdkAnswer::Listed(Ok(entries)) => match latest_sdk_version(self.root.as_str(), &entries) {
                    Ok(v) => {
                        proof {
                            let k = choose|k: int| latest_at(entries@, k) && v@ == entries@[k].name@;
                            assert(is_version_dir(entries@[k]));
                        }
                        self.check_version(v)
                    },
                    Err(e) => self.fail(e),
                },
                _ => self.fail(OhosAppError::Message(owned("unexpected answer during SDK discovery"))),
            },
            SdkStage::VersionDir => match answer {
                SdkAnswer::Exists(false) => {
                    let dir = self.version_dir.clone();
                    self.fail(OhosAppError::MissingSdkVersion { path: dir })
                },
                SdkAnswer::Exists(true) => {
                    self.stage = SdkStage::Manifest;
                    SdkAsk::ReadManifest(sdk_manifest_path(self.version_dir.as_str()))
                },
                _ => self.fail(OhosAppError::Message(owned("unexpected answer during SDK discovery"))),
            },
            SdkStage::Manifest => match answer {
                SdkAnswer::Manifest(Err(e)) => self.fail(e),
                SdkAnswer::Manifest(Ok((package_version, api_version))) => {
                    self.stage = SdkStage::Over;
                    SdkAsk::Found(
                        sdk_info(
                            self.root.as_str(),
                            self.version.as_str(),
                            self.version_dir.as_str(),
                            package_version.as_str(),
                            api_version.as_str(),
                        ),
                    )
                },
                _ => self.fail(OhosAppError::Message(owned("unexpected answer during SDK discovery"))),
            },
            SdkStage::Over => self.fail(OhosAppError::Message(owned("unexpected answer during SDK discovery"))),
        }
    }
}

} // verus!
