use ohos_app::normalize_args;
use ohos_app::text::{has_char, remove_chars, replace_all, replace_char, to_ascii_lower, to_ascii_upper};

#[test]
fn strips_cargo_forwarded_subcommand_name() {
    for subcommand in ["ohos-app", "harmony-app"] {
        let args = normalize_args(vec![
            String::from("cargo-ohos-app"),
            String::from(subcommand),
            String::from("init"),
        ]);
        let rendered = args
            .iter()
            .map(|value| value.to_string())
            .collect::<Vec<_>>();
        assert_eq!(rendered, vec!["cargo-ohos-app", "init"]);
    }
}

#[test]
fn keeps_arguments_without_subcommand_name() {
    let args = vec!["cargo-ohos-app".to_string(), "init".to_string(), "ohos-app".to_string()];
    assert_eq!(normalize_args(args.clone()), args);
    assert_eq!(normalize_args(vec!["x".to_string()]), vec!["x".to_string()]);
}

#[test]
fn string_helpers() {
    assert_eq!(replace_all("aaa", "aa", "b"), "ba");
    assert_eq!(replace_all("héllo wörld", "ö", "o"), "héllo world");
    assert_eq!(replace_char("a-b-c", '-', '_'), "a_b_c");
    assert_eq!(remove_chars("demo-app_x", '-', '_'), "demoappx");
    assert_eq!(to_ascii_lower("Demo-É"), "demo-É");
    assert_eq!(to_ascii_upper("x86_64"), "X86_64");
    assert!(has_char("a b", ' '));
    assert!(!has_char("ab", ' '));
}
