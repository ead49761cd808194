use ohos_app::template::{generated_files, icon_png_bytes, path_for_package_json, render_template, template_files, TemplateContext};

fn context() -> TemplateContext {
    TemplateContext {
        app_name: "demo".to_string(),
        bundle_name: "com.example.demo".to_string(),
        module_name: "entry".to_string(),
        sdk_api_version: "20".to_string(),
        sdk_display_version: "6.0.0(20)".to_string(),
        abi: "arm64-v8a".to_string(),
        rust_lib_name: "counter_native".to_string(),
        hvigor_package_path: "D:/hvigor".to_string(),
        hvigor_plugin_package_path: "D:/hvigor-ohos-plugin".to_string(),
    }
}

#[test]
fn renders_bundle_and_module_names() {
    let files = generated_files(&TemplateContext {
        app_name: "demo".to_string(),
        bundle_name: "com.example.demo".to_string(),
        module_name: "entry".to_string(),
        sdk_api_version: "20".to_string(),
        sdk_display_version: "6.0.0(20)".to_string(),
        abi: "arm64-v8a".to_string(),
        rust_lib_name: "counter_native".to_string(),
        hvigor_package_path: "D:/hvigor".to_string(),
        hvigor_plugin_package_path: "D:/hvigor-ohos-plugin".to_string(),
    });
    let app_json = files
        .iter()
        .find(|file| file.relative_path == "AppScope/app.json5")
        .unwrap();
    assert!(app_json.contents.contains("com.example.demo"));
}

#[test]
fn renders_every_placeholder() {
    let files = generated_files(&context());
    assert_eq!(files.len(), 25);
    for file in &files {
        assert!(!file.contents.contains("{{"), "{}", file.relative_path);
    }
    let cmake = files.iter().find(|f| f.relative_path == "entry/src/main/cpp/CMakeLists.txt").unwrap();
    assert!(cmake.contents.contains("libs/arm64-v8a/libcounter_native.a"));
    let package = files.iter().find(|f| f.relative_path == "package.json").unwrap();
    assert!(package.contents.contains("\"name\": \"demo-ohos-app\""));
    assert!(package.contents.contains("\"@ohos/hvigor\": \"file:D:/hvigor\""));
    let profile = files.iter().find(|f| f.relative_path == "build-profile.json5").unwrap();
    assert!(profile.contents.contains("\"compileSdkVersion\": 20,"));
}

#[test]
fn plain_templates_are_unchanged() {
    let ctx = context();
    for (path, template) in template_files() {
        if !template.contains("{{") {
            assert_eq!(render_template(template, &ctx), template, "{path}");
        }
    }
}

#[test]
fn replaces_like_std() {
    let ctx = TemplateContext { app_name: "{{ABI}}".to_string(), ..context() };
    let template = "{{APP_NAME}}-{{APP_NAME}}{{APP_NAME";
    let expected = template
        .replace("{{APP_NAME}}", "{{ABI}}")
        .replace("{{ABI}}", "arm64-v8a");
    assert_eq!(render_template(template, &ctx), expected);
}

#[test]
fn package_json_paths_use_slashes() {
    assert_eq!(path_for_package_json("D:\\Apps\\DevEco Studio\\tools"), "D:/Apps/DevEco Studio/tools");
}

#[test]
fn icon_is_png() {
    let bytes = icon_png_bytes();
    assert_eq!(bytes.len(), 70);
    assert_eq!(&bytes[..8], &[0x89, 0x50, 0x4E, 0x47, 0x0D, 0x0A, 0x1A, 0x0A]);
}

#[test]
fn generated_paths_are_distinct() {
    let files = generated_files(&context());
    let mut paths: Vec<&str> = files.iter().map(|f| f.relative_path).collect();
    paths.sort();
    paths.dedup();
    assert_eq!(paths.len(), 25);
    assert_eq!(files[0].relative_path, "AppScope/app.json5");
}
