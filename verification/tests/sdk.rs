use ohos_app::cli::Abi;
use ohos_app::error::OhosAppError;
use ohos_app::sdk::{
    abi_to_target, discover_hvigor, display_version, hvigor_check, hvigor_paths, latest_sdk_version, parse_u32,
    requested_sdk_version, sdk_info, sdk_manifest_path, target_to_abi, SdkAnswer, SdkAsk, SdkDirEntry, SdkDiscovery,
};

#[test]
fn maps_targets_to_abis() {
    assert_eq!(
        target_to_abi("aarch64-unknown-linux-ohos").unwrap(),
        "arm64-v8a"
    );
    assert_eq!(
        target_to_abi("armv7-unknown-linux-ohos").unwrap(),
        "armeabi-v7a"
    );
    assert_eq!(
        abi_to_target("x86_64").unwrap(),
        "x86_64-unknown-linux-ohos"
    );
}

#[test]
fn target_and_abi_round_trip() {
    for target in [
        "aarch64-unknown-linux-ohos",
        "armv7-unknown-linux-ohos",
        "x86_64-unknown-linux-ohos",
        "loongarch64-unknown-linux-ohos",
    ] {
        let abi = target_to_abi(target).unwrap();
        assert_eq!(abi_to_target(abi).unwrap(), target);
    }
    for abi in [Abi::Arm64V8a, Abi::ArmeabiV7a, Abi::X86_64, Abi::Loongarch64] {
        let target = abi_to_target(abi.as_str()).unwrap();
        assert_eq!(target_to_abi(target).unwrap(), abi.as_str());
    }
}

#[test]
fn abi_names() {
    assert_eq!(Abi::Arm64V8a.as_str(), "arm64-v8a");
    assert_eq!(Abi::ArmeabiV7a.as_str(), "armeabi-v7a");
    assert_eq!(Abi::X86_64.as_str(), "x86_64");
    assert_eq!(Abi::Loongarch64.as_str(), "loongarch64");
}

#[test]
fn rejects_unknown_target() {
    match target_to_abi("x86_64-unknown-linux-gnu") {
        Err(OhosAppError::UnsupportedTarget { target }) => assert_eq!(target, "x86_64-unknown-linux-gnu"),
        other => panic!("unexpected {other:?}"),
    }
}

#[test]
fn rejects_unknown_abi() {
    match abi_to_target("mips") {
        Err(OhosAppError::Message(m)) => assert_eq!(m, "unsupported OHOS ABI [mips]"),
        other => panic!("unexpected {other:?}"),
    }
}

fn entry(name: &str, is_dir: bool) -> SdkDirEntry {
    SdkDirEntry { name: name.to_string(), is_dir }
}

#[test]
fn picks_largest_numeric_sdk_version() {
    let entries = vec![entry("12", true), entry("20", true), entry("9", true), entry("30", false), entry("toolchains", true)];
    assert_eq!(latest_sdk_version("/sdk", &entries).unwrap(), "20");
}

#[test]
fn picks_last_of_equal_sdk_versions() {
    let entries = vec![entry("020", true), entry("+20", true), entry("12", true)];
    assert_eq!(latest_sdk_version("/sdk", &entries).unwrap(), "+20");
}

#[test]
fn no_numeric_sdk_version() {
    let entries = vec![entry("ets", true), entry("5000000000", true)];
    match latest_sdk_version("/sdk", &entries) {
        Err(OhosAppError::NoSdkVersionsFound { root }) => assert_eq!(root, "/sdk"),
        other => panic!("unexpected {other:?}"),
    }
}

#[test]
fn parses_u32_like_std() {
    for s in ["0", "12", "+7", "4294967295", "", "+", "-1", "4294967296", "1a", " 1"] {
        assert_eq!(parse_u32(s), s.parse::<u32>().ok(), "{s}");
    }
}

#[test]
fn shows_sdk_version() {
    assert_eq!(display_version("6.0.0.47", "20"), "6.0.0(20)");
    assert_eq!(display_version("5.1", "18"), "5.1(18)");
    assert_eq!(display_version("", "12"), "(12)");
    assert_eq!(display_version("1.2.3.4.5", "9"), "1.2.3(9)");
}

#[test]
fn auto_requests_latest_sdk() {
    assert_eq!(requested_sdk_version(None), None);
    assert_eq!(requested_sdk_version(Some("AuTo")), None);
    assert_eq!(requested_sdk_version(Some("20")), Some("20".to_string()));
}

#[test]
fn sdk_layout() {
    assert_eq!(sdk_manifest_path("/sdk/20"), "/sdk/20/ets/oh-uni-package.json");
    let info = sdk_info("/sdk", "20", "/sdk/20", "6.0.0.47", "20");
    assert_eq!(info.native_dir, "/sdk/20/native");
    assert_eq!(info.toolchains_dir, "/sdk/20/toolchains");
    assert_eq!(info.display_version, "6.0.0(20)");
}

#[test]
fn hvigor_layout_and_missing_files() {
    let info = hvigor_paths("/deveco");
    assert_eq!(info.wrapper_bat, "/deveco/tools/hvigor/bin/hvigorw.bat");
    assert_eq!(info.wrapper_js, "/deveco/tools/hvigor/bin/hvigorw.js");
    assert_eq!(info.hvigor_package_dir, "/deveco/tools/hvigor/hvigor");
    assert_eq!(info.hvigor_plugin_package_dir, "/deveco/tools/hvigor/hvigor-ohos-plugin");
    match discover_hvigor("/nonexistent/deveco") {
        Err(OhosAppError::MissingFile { path }) => assert_eq!(path, "/nonexistent/deveco/tools/hvigor/bin/hvigorw.bat"),
        other => panic!("unexpected {other:?}"),
    }
}

#[test]
fn hvigor_check_reports_first_missing() {
    let info = hvigor_paths("/d");
    assert_eq!(hvigor_check(info.clone(), [true, true, true, true]).unwrap().wrapper_js, "/d/tools/hvigor/bin/hvigorw.js");
    match hvigor_check(info.clone(), [true, true, false, false]) {
        Err(OhosAppError::MissingFile { path }) => assert_eq!(path, "/d/tools/hvigor/hvigor"),
        other => panic!("unexpected {other:?}"),
    }
    match hvigor_check(info, [true, true, true, false]) {
        Err(OhosAppError::MissingFile { path }) => assert_eq!(path, "/d/tools/hvigor/hvigor-ohos-plugin"),
        other => panic!("unexpected {other:?}"),
    }
}

#[test]
fn sdk_discovery_sequence() {
    let (mut d, ask) = SdkDiscovery::start("/sdk", None);
    assert!(matches!(ask, SdkAsk::Exists(ref p) if p == "/sdk"));
    let ask = d.next(SdkAnswer::Exists(true));
    assert!(matches!(ask, SdkAsk::List(ref p) if p == "/sdk"));
    let ask = d.next(SdkAnswer::Listed(Ok(vec![entry("12", true), entry("20", true), entry("9", true)])));
    assert!(matches!(ask, SdkAsk::Exists(ref p) if p == "/sdk/20"));
    let ask = d.next(SdkAnswer::Exists(true));
    assert!(matches!(ask, SdkAsk::ReadManifest(ref p) if p == "/sdk/20/ets/oh-uni-package.json"));
    match d.next(SdkAnswer::Manifest(Ok(("6.0.0.47".to_string(), "20".to_string())))) {
        SdkAsk::Found(sdk) => {
            assert_eq!(sdk.version, "20");
            assert_eq!(sdk.display_version, "6.0.0(20)");
            assert_eq!(sdk.native_dir, "/sdk/20/native");
        }
        other => panic!("unexpected {other:?}"),
    }
    let (mut d, _) = SdkDiscovery::start("/sdk", Some("18"));
    assert!(matches!(d.next(SdkAnswer::Exists(true)), SdkAsk::Exists(ref p) if p == "/sdk/18"));
    match d.next(SdkAnswer::Exists(false)) {
        SdkAsk::Failed(OhosAppError::MissingSdkVersion { path }) => assert_eq!(path, "/sdk/18"),
        other => panic!("unexpected {other:?}"),
    }
    let (mut d, _) = SdkDiscovery::start("/none", Some("auto"));
    match d.next(SdkAnswer::Exists(false)) {
        SdkAsk::Failed(OhosAppError::MissingSdkRoot { path }) => assert_eq!(path, "/none"),
        other => panic!("unexpected {other:?}"),
    }
}

#[test]
fn hvigor_layout_under_dir_with_trailing_slash() {
    let info = hvigor_paths("/deveco/");
    assert_eq!(info.wrapper_bat, "/deveco/tools/hvigor/bin/hvigorw.bat");
    assert_eq!(info.wrapper_js, "/deveco/tools/hvigor/bin/hvigorw.js");
    assert_eq!(info.hvigor_package_dir, "/deveco/tools/hvigor/hvigor");
    assert_eq!(info.hvigor_plugin_package_dir, "/deveco/tools/hvigor/hvigor-ohos-plugin");
}

#[test]
fn sdk_layout_under_root_with_trailing_slash() {
    assert_eq!(sdk_manifest_path("/sdk/20/"), "/sdk/20/ets/oh-uni-package.json");
    let info = sdk_info("/sdk/", "20", "/sdk/20/", "6.0.0.47", "20");
    assert_eq!(info.native_dir, "/sdk/20/native");
    assert_eq!(info.toolchains_dir, "/sdk/20/toolchains");
}
