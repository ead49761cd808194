use ohos_app::error::OhosAppError;

fn failed(code: Option<i32>) -> String {
    OhosAppError::CommandFailed { program: "ohpm".to_string(), cwd: "/p".to_string(), code }.describe()
}

#[test]
fn describes_command_failures_with_exit_codes() {
    assert_eq!(failed(Some(0)), "command [ohpm] failed in [/p] with exit code 0");
    assert_eq!(failed(Some(137)), "command [ohpm] failed in [/p] with exit code 137");
    assert_eq!(failed(Some(-1)), "command [ohpm] failed in [/p] with exit code -1");
    assert_eq!(failed(Some(i32::MIN)), format!("command [ohpm] failed in [/p] with exit code {}", i32::MIN));
    assert_eq!(failed(Some(i32::MAX)), format!("command [ohpm] failed in [/p] with exit code {}", i32::MAX));
    assert_eq!(failed(None), "command [ohpm] failed in [/p]");
}

#[test]
fn describes_each_error() {
    let s = |v: &str| v.to_string();
    let cases = vec![
        (OhosAppError::Io { path: s("/x"), message: s("denied") }, "I/O error at [/x]: denied"),
        (OhosAppError::Message(s("plain")), "plain"),
        (OhosAppError::MissingFile { path: s("/f") }, "required file does not exist: [/f]"),
        (OhosAppError::ConfigRead { path: s("/c"), message: s("m") }, "failed to read config [/c]: m"),
        (OhosAppError::ConfigParse { path: s("/c"), message: s("m") }, "failed to parse config [/c]: m"),
        (
            OhosAppError::CommandSpawn { program: s("npm"), cwd: s("/p"), message: s("gone") },
            "failed to start [npm] in [/p]: gone",
        ),
        (OhosAppError::MissingLibraryTarget { manifest_path: s("/p/Cargo.toml") }, "no library target found in [/p/Cargo.toml]"),
        (OhosAppError::MissingSdkRoot { path: s("/sdk") }, "OpenHarmony SDK root does not exist: [/sdk]"),
        (OhosAppError::MissingSdkVersion { path: s("/sdk/9") }, "OpenHarmony SDK version does not exist: [/sdk/9]"),
        (OhosAppError::NoSdkVersionsFound { root: s("/sdk") }, "no OpenHarmony SDK versions found under [/sdk]"),
        (OhosAppError::UnsupportedTarget { target: s("t") }, "unsupported OHOS target [t]"),
        (OhosAppError::PackageArtifactNotFound { search_root: s("/o") }, "no package artifact found under [/o]"),
        (OhosAppError::Metadata(s("bad")), "cargo metadata failed: bad"),
        (OhosAppError::Output(s("pipe")), "failed to write output: pipe"),
    ];
    for (error, text) in cases {
        assert_eq!(error.describe(), text);
    }
}
