//! The OHOS shell project: the files it is made of, each rendered from a
//! template by filling in the placeholders, and where everything is written.
use vstd::prelude::*;
use crate::config::AppContext;
use crate::paths::{components, join_all, joins_to, open_ended, plain, views};
use crate::text::{lemma_occurs_at, lemma_replaced_absent, lemma_swapped_removes, occurs_in, replace_all, replace_char, replaced, swapped};

verus! {

/// The values that fill the placeholders of the templates.
#[derive(Debug, Clone)]
pub struct TemplateContext {
    pub app_name: String,
    pub bundle_name: String,
    pub module_name: String,
    pub sdk_api_version: String,
    pub sdk_display_version: String,
    pub abi: String,
    pub rust_lib_name: String,
    pub hvigor_package_path: String,
    pub hvigor_plugin_package_path: String,
}

/// A rendered file of the shell project, by its path relative to the
/// project's root.
#[derive(Debug, Clone)]
pub struct GeneratedFile {
    pub relative_path: &'static str,
    pub contents: String,
}

pub const APPSCOPE_APP_JSON5_TEMPLATE: &'static str = r#"{
  "app": {
    "bundleName": "{{BUNDLE_NAME}}",
    "vendor": "example",
    "versionCode": 1000000,
    "versionName": "1.0.0",
    "icon": "$media:layered_image",
    "label": "$string:app_name"
  }
}
"#;

pub const APPSCOPE_RESOURCES_BASE_ELEMENT_STRING_JSON_TEMPLATE: &'static str = r#"{
  "string": [
    {
      "name": "app_name",
      "value": "{{APP_NAME}}"
    }
  ]
}
"#;

pub const APPSCOPE_RESOURCES_BASE_MEDIA_LAYERED_IMAGE_JSON_TEMPLATE: &'static str = r#"{
  "layered-image": {
    "background": "$media:background",
    "foreground": "$media:foreground"
  }
}
"#;

pub const BUILD_PROFILE_JSON5_TEMPLATE: &'static str = r#"{
  "app": {
    "signingConfigs": [],
    "products": [
      {
        "name": "default",
        "signingConfig": "default",
        "compileSdkVersion": {{SDK_API_VERSION}},
        "compatibleSdkVersion": {{SDK_API_VERSION}},
        "targetSdkVersion": {{SDK_API_VERSION}},
        "runtimeOS": "OpenHarmony"
      }
    ],
    "buildModeSet": [
      {
        "name": "debug"
      },
      {
        "name": "release"
      }
    ]
  },
  "modules": [
    {
      "name": "{{MODULE_NAME}}",
      "srcPath": "./entry",
      "targets": [
        {
          "name": "default",
          "applyToProducts": [
            "default"
          ]
        }
      ]
    }
  ]
}
"#;

pub const HVIGOR_HVIGOR_CONFIG_JSON5_TEMPLATE: &'static str = r#"{
  "modelVersion": "5.0.0",
  "dependencies": {},
  "execution": {
    "daemon": false
  }
}
"#;

pub const HVIGORFILE_TS_TEMPLATE: &'static str = r#"import { appTasks } from '@ohos/hvigor-ohos-plugin';

export default {
  system: appTasks,
  plugins: []
}
"#;

pub const OH_PACKAGE_JSON5_TEMPLATE: &'static str = r#"{
  "modelVersion": "5.0.0",
  "description": "Generated by cargo-ohos-app",
  "dependencies": {},
  "devDependencies": {}
}
"#;

pub const OH_PACKAGE_LOCK_JSON5_TEMPLATE: &'static str = r#"{
  "meta": {
    "stableOrder": true
  },
  "lockfileVersion": 3,
  "ATTENTION": "THIS IS AN AUTOGENERATED FILE. DO NOT EDIT THIS FILE DIRECTLY.",
  "specifiers": {},
  "packages": {}
}
"#;

pub const PACKAGE_JSON_TEMPLATE: &'static str = r#"{
  "name": "{{APP_NAME}}-ohos-app",
  "version": "1.0.0",
  "private": true,
  "description": "Generated by cargo-ohos-app",
  "devDependencies": {
    "@ohos/hvigor": "file:{{HVIGOR_PACKAGE_PATH}}",
    "@ohos/hvigor-ohos-plugin": "file:{{HVIGOR_PLUGIN_PACKAGE_PATH}}"
  }
}
"#;

pub const CODE_LINTER_JSON5_TEMPLATE: &'static str = r#"{
  "files": [
    "**/*.ets"
  ],
  "ignore": [
    "**/node_modules/**/*",
    "**/oh_modules/**/*",
    "**/build/**/*",
    "**/.preview/**/*"
  ],
  "ruleSet": [
    "plugin:@typescript-eslint/recommended"
  ]
}
"#;

pub const ENTRY_BUILD_PROFILE_JSON5_TEMPLATE: &'static str = r#"{
  "apiType": "stageMode",
  "buildOption": {
    "externalNativeOptions": {
      "path": "./src/main/cpp/CMakeLists.txt",
      "arguments": "",
      "cppFlags": "",
      "abiFilters": [
        "{{ABI}}"
      ]
    }
  },
  "buildOptionSet": [
    {
      "name": "release",
      "arkOptions": {
        "obfuscation": {
          "ruleOptions": {
            "enable": false,
            "files": [
              "./obfuscation-rules.txt"
            ]
          }
        }
      }
    }
  ],
  "targets": [
    {
      "name": "default"
    }
  ]
}
"#;

pub const ENTRY_HVIGORFILE_TS_TEMPLATE: &'static str = r#"import { hapTasks } from '@ohos/hvigor-ohos-plugin';

export default {
  system: hapTasks,
  plugins: []
}
"#;

pub const ENTRY_OBFUSCATION_RULES_TXT_TEMPLATE: &'static str = "# Generated by cargo-ohos-app.\n";

pub const ENTRY_OH_PACKAGE_JSON5_TEMPLATE: &'static str = r#"{
  "name": "{{MODULE_NAME}}",
  "version": "1.0.0",
  "description": "OHOS shell generated by cargo-ohos-app",
  "main": "",
  "author": "",
  "license": "",
  "dependencies": {
    "libentry.so": "file:./src/main/cpp/types/libentry"
  }
}
"#;

pub const ENTRY_SRC_MAIN_MODULE_JSON5_TEMPLATE: &'static str = r#"{
  "module": {
    "name": "{{MODULE_NAME}}",
    "type": "entry",
    "description": "$string:module_desc",
    "mainElement": "EntryAbility",
    "deviceTypes": [
      "default"
    ],
    "deliveryWithInstall": true,
    "installationFree": false,
    "pages": "$profile:main_pages",
    "abilities": [
      {
        "name": "EntryAbility",
        "srcEntry": "./ets/entryability/EntryAbility.ets",
        "description": "$string:EntryAbility_desc",
        "label": "$string:EntryAbility_label",
        "startWindowIcon": "$media:startIcon",
        "startWindowBackground": "$color:start_window_background",
        "exported": true,
        "skills": [
          {
            "entities": [
              "entity.system.home"
            ],
            "actions": [
              "action.system.home"
            ]
          }
        ]
      }
    ]
  }
}
"#;

pub const ENTRY_SRC_MAIN_ETS_ENTRYABILITY_ENTRYABILITY_ETS_TEMPLATE: &'static str = r#"import { AbilityConstant, UIAbility, Want } from '@kit.AbilityKit';
import { hilog } from '@kit.PerformanceAnalysisKit';
import { window } from '@kit.ArkUI';

const DOMAIN = 0x0000;

export default class EntryAbility extends UIAbility {
  onCreate(want: Want, launchParam: AbilityConstant.LaunchParam): void {
    hilog.info(DOMAIN, 'cargo-ohos-app', '%{public}s', 'Ability onCreate');
  }

  onWindowStageCreate(windowStage: window.WindowStage): void {
    windowStage.loadContent('pages/Index', (err) => {
      if (err.code) {
        hilog.error(DOMAIN, 'cargo-ohos-app', 'Failed to load page: %{public}s', JSON.stringify(err));
      }
    });
  }
}
"#;

pub const ENTRY_SRC_MAIN_ETS_PAGES_INDEX_ETS_TEMPLATE: &'static str = r#"import bridge from 'libentry.so';

const runtimeBridge = bridge ?? {
  getMessage: (): string => 'Native bridge is unavailable.',
  incrementCounter: (): number => 0
};

@Entry
@Component
struct Index {
  @State message: string = runtimeBridge.getMessage();
  @State counter: number = 0;

  build() {
    Column({ space: 16 }) {
      Text('Rust -> OHOS')
        .fontSize(28)
        .fontWeight(FontWeight.Bold)

      Text(this.message)
        .fontSize(20)

      Text('Counter: ' + this.counter)
        .fontSize(18)

      Button('Call Rust')
        .onClick(() => {
          this.counter = runtimeBridge.incrementCounter();
          this.message = runtimeBridge.getMessage();
        })
    }
    .width('100%')
    .height('100%')
    .justifyContent(FlexAlign.Center)
    .alignItems(HorizontalAlign.Center)
    .padding(24)
  }
}
"#;

pub const ENTRY_SRC_MAIN_RESOURCES_BASE_PROFILE_MAIN_PAGES_JSON_TEMPLATE: &'static str = r#"{
  "src": [
    "pages/Index"
  ]
}
"#;

pub const ENTRY_SRC_MAIN_RESOURCES_BASE_ELEMENT_STRING_JSON_TEMPLATE: &'static str = r#"{
  "string": [
    {
      "name": "module_desc",
      "value": "Rust generated OHOS module"
    },
    {
      "name": "EntryAbility_desc",
      "value": "Entry ability"
    },
    {
      "name": "EntryAbility_label",
      "value": "{{APP_NAME}}"
    }
  ]
}
"#;

pub const ENTRY_SRC_MAIN_RESOURCES_BASE_ELEMENT_FLOAT_JSON_TEMPLATE: &'static str = r#"{
  "float": [
    {
      "name": "page_text_font_size",
      "value": "18fp"
    }
  ]
}
"#;

pub const ENTRY_SRC_MAIN_RESOURCES_BASE_ELEMENT_COLOR_JSON_TEMPLATE: &'static str = r##"{
  "color": [
    {
      "name": "start_window_background",
      "value": "#FFFFFF"
    }
  ]
}
"##;

pub const ENTRY_SRC_MAIN_CPP_CMAKELISTS_TXT_TEMPLATE: &'static str = r#"cmake_minimum_required(VERSION 3.5.0)
project(ohos_app_bridge)

set(NATIVERENDER_ROOT_PATH ${CMAKE_CURRENT_SOURCE_DIR})

add_library(rust_bridge STATIC IMPORTED)
set_target_properties(rust_bridge PROPERTIES
    IMPORTED_LOCATION ${NATIVERENDER_ROOT_PATH}/libs/{{ABI}}/lib{{RUST_LIB_NAME}}.a
)

add_library(entry SHARED napi_init.cpp)
set_target_properties(entry PROPERTIES
    LIBRARY_OUTPUT_DIRECTORY ${CMAKE_CURRENT_BINARY_DIR}/out
)
target_link_libraries(entry PUBLIC libace_napi.z.so rust_bridge)
"#;

pub const ENTRY_SRC_MAIN_CPP_NAPI_INIT_CPP_TEMPLATE: &'static str = r#"#include <napi/native_api.h>
#include <stdint.h>

extern "C" {
const char* ohos_app_get_message();
uint32_t ohos_app_increment_counter();
}

static napi_value GetMessage(napi_env env, napi_callback_info info)
{
    const char* message = ohos_app_get_message();
    napi_value result = nullptr;
    napi_create_string_utf8(env, message, NAPI_AUTO_LENGTH, &result);
    return result;
}

static napi_value IncrementCounter(napi_env env, napi_callback_info info)
{
    napi_value result = nullptr;
    napi_create_uint32(env, ohos_app_increment_counter(), &result);
    return result;
}

static napi_value Init(napi_env env, napi_value exports)
{
    napi_property_descriptor descriptors[] = {
        { "getMessage", nullptr, GetMessage, nullptr, nullptr, nullptr, napi_default, nullptr },
        { "incrementCounter", nullptr, IncrementCounter, nullptr, nullptr, nullptr, napi_default, nullptr }
    };
    napi_define_properties(env, exports, sizeof(descriptors) / sizeof(descriptors[0]), descriptors);
    return exports;
}

static napi_module cargoOhosAppModule = {
    .nm_version = 1,
    .nm_flags = 0,
    .nm_filename = nullptr,
    .nm_register_func = Init,
    .nm_modname = "entry",
    .nm_priv = nullptr,
    .reserved = { 0 }
};

extern "C" __attribute__((constructor)) void RegisterCargoOhosAppModule(void)
{
    napi_module_register(&cargoOhosAppModule);
}
"#;

pub const ENTRY_SRC_MAIN_CPP_TYPES_LIBENTRY_INDEX_D_TS_TEMPLATE: &'static str = r#"declare const bridge: {
  getMessage(): string;
  incrementCounter(): number;
};

export default bridge;
"#;

pub const ENTRY_SRC_MAIN_CPP_TYPES_LIBENTRY_OH_PACKAGE_JSON5_TEMPLATE: &'static str = r#"{
  "name": "libentry.so",
  "version": "1.0.0",
  "description": "Type definitions for the generated native bridge",
  "types": "./index.d.ts"
}
"#;

/// The templates of the shell project: relative path and template text.
pub open spec fn template_table() -> Seq<(Seq<char>, Seq<char>)> {
    seq![
        ("AppScope/app.json5"@, APPSCOPE_APP_JSON5_TEMPLATE@),
        ("AppScope/resources/base/element/string.json"@, APPSCOPE_RESOURCES_BASE_ELEMENT_STRING_JSON_TEMPLATE@),
        ("AppScope/resources/base/media/layered_image.json"@, APPSCOPE_RESOURCES_BASE_MEDIA_LAYERED_IMAGE_JSON_TEMPLATE@),
        ("build-profile.json5"@, BUILD_PROFILE_JSON5_TEMPLATE@),
        ("hvigor/hvigor-config.json5"@, HVIGOR_HVIGOR_CONFIG_JSON5_TEMPLATE@),
        ("hvigorfile.ts"@, HVIGORFILE_TS_TEMPLATE@),
        ("oh-package.json5"@, OH_PACKAGE_JSON5_TEMPLATE@),
        ("oh-package-lock.json5"@, OH_PACKAGE_LOCK_JSON5_TEMPLATE@),
        ("package.json"@, PACKAGE_JSON_TEMPLATE@),
        ("code-linter.json5"@, CODE_LINTER_JSON5_TEMPLATE@),
        ("entry/build-profile.json5"@, ENTRY_BUILD_PROFILE_JSON5_TEMPLATE@),
        ("entry/hvigorfile.ts"@, ENTRY_HVIGORFILE_TS_TEMPLATE@),
        ("entry/obfuscation-rules.txt"@, ENTRY_OBFUSCATION_RULES_TXT_TEMPLATE@),
        ("entry/oh-package.json5"@, ENTRY_OH_PACKAGE_JSON5_TEMPLATE@),
        ("entry/src/main/module.json5"@, ENTRY_SRC_MAIN_MODULE_JSON5_TEMPLATE@),
        ("entry/src/main/ets/entryability/EntryAbility.ets"@, ENTRY_SRC_MAIN_ETS_ENTRYABILITY_ENTRYABILITY_ETS_TEMPLATE@),
        ("entry/src/main/ets/pages/Index.ets"@, ENTRY_SRC_MAIN_ETS_PAGES_INDEX_ETS_TEMPLATE@),
        ("entry/src/main/resources/base/profile/main_pages.json"@, ENTRY_SRC_MAIN_RESOURCES_BASE_PROFILE_MAIN_PAGES_JSON_TEMPLATE@),
        ("entry/src/main/resources/base/element/string.json"@, ENTRY_SRC_MAIN_RESOURCES_BASE_ELEMENT_STRING_JSON_TEMPLATE@),
        ("entry/src/main/resources/base/element/float.json"@, ENTRY_SRC_MAIN_RESOURCES_BASE_ELEMENT_FLOAT_JSON_TEMPLATE@),
        ("entry/src/main/resources/base/element/color.json"@, ENTRY_SRC_MAIN_RESOURCES_BASE_ELEMENT_COLOR_JSON_TEMPLATE@),
        ("entry/src/main/cpp/CMakeLists.txt"@, ENTRY_SRC_MAIN_CPP_CMAKELISTS_TXT_TEMPLATE@),
        ("entry/src/main/cpp/napi_init.cpp"@, ENTRY_SRC_MAIN_CPP_NAPI_INIT_CPP_TEMPLATE@),
        ("entry/src/main/cpp/types/libentry/index.d.ts"@, ENTRY_SRC_MAIN_CPP_TYPES_LIBENTRY_INDEX_D_TS_TEMPLATE@),
        ("entry/src/main/cpp/types/libentry/oh-package.json5"@, ENTRY_SRC_MAIN_CPP_TYPES_LIBENTRY_OH_PACKAGE_JSON5_TEMPLATE@),
    ]
}

pub open spec fn template_views(files: Seq<(&'static str, &'static str)>) -> Seq<(Seq<char>, Seq<char>)> {
    files.map_values(|f: (&'static str, &'static str)| (f.0@, f.1@))
}

/// The templates of the shell project, in the order they are written.
pub fn template_files() -> (res: Vec<(&'static str, &'static str)>)
    ensures
        template_views(res@) == template_table(),
{
    let res = vec![
        ("AppScope/app.json5", APPSCOPE_APP_JSON5_TEMPLATE),
        ("AppScope/resources/base/element/string.json", APPSCOPE_RESOURCES_BASE_ELEMENT_STRING_JSON_TEMPLATE),
        ("AppScope/resources/base/media/layered_image.json", APPSCOPE_RESOURCES_BASE_MEDIA_LAYERED_IMAGE_JSON_TEMPLATE),
        ("build-profile.json5", BUILD_PROFILE_JSON5_TEMPLATE),
        ("hvigor/hvigor-config.json5", HVIGOR_HVIGOR_CONFIG_JSON5_TEMPLATE),
        ("hvigorfile.ts", HVIGORFILE_TS_TEMPLATE),
        ("oh-package.json5", OH_PACKAGE_JSON5_TEMPLATE),
        ("oh-package-lock.json5", OH_PACKAGE_LOCK_JSON5_TEMPLATE),
        ("package.json", PACKAGE_JSON_TEMPLATE),
        ("code-linter.json5", CODE_LINTER_JSON5_TEMPLATE),
        ("entry/build-profile.json5", ENTRY_BUILD_PROFILE_JSON5_TEMPLATE),
        ("entry/hvigorfile.ts", ENTRY_HVIGORFILE_TS_TEMPLATE),
        ("entry/obfuscation-rules.txt", ENTRY_OBFUSCATION_RULES_TXT_TEMPLATE),
        ("entry/oh-package.json5", ENTRY_OH_PACKAGE_JSON5_TEMPLATE),
        ("entry/src/main/module.json5", ENTRY_SRC_MAIN_MODULE_JSON5_TEMPLATE),
        ("entry/src/main/ets/entryability/EntryAbility.ets", ENTRY_SRC_MAIN_ETS_ENTRYABILITY_ENTRYABILITY_ETS_TEMPLATE),
        ("entry/src/main/ets/pages/Index.ets", ENTRY_SRC_MAIN_ETS_PAGES_INDEX_ETS_TEMPLATE),
        ("entry/src/main/resources/base/profile/main_pages.json", ENTRY_SRC_MAIN_RESOURCES_BASE_PROFILE_MAIN_PAGES_JSON_TEMPLATE),
        ("entry/src/main/resources/base/element/string.json", ENTRY_SRC_MAIN_RESOURCES_BASE_ELEMENT_STRING_JSON_TEMPLATE),
        ("entry/src/main/resources/base/element/float.json", ENTRY_SRC_MAIN_RESOURCES_BASE_ELEMENT_FLOAT_JSON_TEMPLATE),
        ("entry/src/main/resources/base/element/color.json", ENTRY_SRC_MAIN_RESOURCES_BASE_ELEMENT_COLOR_JSON_TEMPLATE),
        ("entry/src/main/cpp/CMakeLists.txt", ENTRY_SRC_MAIN_CPP_CMAKELISTS_TXT_TEMPLATE),
        ("entry/src/main/cpp/napi_init.cpp", ENTRY_SRC_MAIN_CPP_NAPI_INIT_CPP_TEMPLATE),
        ("entry/src/main/cpp/types/libentry/index.d.ts", ENTRY_SRC_MAIN_CPP_TYPES_LIBENTRY_INDEX_D_TS_TEMPLATE),
        ("entry/src/main/cpp/types/libentry/oh-package.json5", ENTRY_SRC_MAIN_CPP_TYPES_LIBENTRY_OH_PACKAGE_JSON5_TEMPLATE),
    ];
    assert(template_views(res@) =~= template_table());
    res
}

/// The values that fill the placeholders, in the order of `TemplateContext`.
pub open spec fn context_values(ctx: TemplateContext) -> Seq<Seq<char>> {
    seq![
        ctx.app_name@,
        ctx.bundle_name@,
        ctx.module_name@,
        ctx.sdk_api_version@,
        ctx.sdk_display_version@,
        ctx.abi@,
        ctx.rust_lib_name@,
        ctx.hvigor_package_path@,
        ctx.hvigor_plugin_package_path@,
    ]
}

/// A template with each placeholder replaced by its value, one placeholder
/// after the other in the order of `TemplateContext`.
pub open spec fn rendered_with(template: Seq<char>, v: Seq<Seq<char>>) -> Seq<char> {
    let t = replaced(template, "{{APP_NAME}}"@, v[0]);
    let t = replaced(t, "{{BUNDLE_NAME}}"@, v[1]);
    let t = replaced(t, "{{MODULE_NAME}}"@, v[2]);
    let t = replaced(t, "{{SDK_API_VERSION}}"@, v[3]);
    let t = replaced(t, "{{SDK_DISPLAY_VERSION}}"@, v[4]);
    let t = replaced(t, "{{ABI}}"@, v[5]);
    let t = replaced(t, "{{RUST_LIB_NAME}}"@, v[6]);
    let t = replaced(t, "{{HVIGOR_PACKAGE_PATH}}"@, v[7]);
    replaced(t, "{{HVIGOR_PLUGIN_PACKAGE_PATH}}"@, v[8])
}

pub open spec fn rendered(template: Seq<char>, ctx: TemplateContext) -> Seq<char> {
    rendered_with(template, context_values(ctx))
}

proof fn lemma_placeholders_not_empty()
    ensures
        "{{APP_NAME}}"@.len() > 0,
        "{{BUNDLE_NAME}}"@.len() > 0,
        "{{MODULE_NAME}}"@.len() > 0,
        "{{SDK_API_VERSION}}"@.len() > 0,
        "{{SDK_DISPLAY_VERSION}}"@.len() > 0,
        "{{ABI}}"@.len() > 0,
        "{{RUST_LIB_NAME}}"@.len() > 0,
        "{{HVIGOR_PACKAGE_PATH}}"@.len() > 0,
        "{{HVIGOR_PLUGIN_PACKAGE_PATH}}"@.len() > 0,
{
    reveal_strlit("{{APP_NAME}}");
    reveal_strlit("{{BUNDLE_NAME}}");
    reveal_strlit("{{MODULE_NAME}}");
    reveal_strlit("{{SDK_API_VERSION}}");
    reveal_strlit("{{SDK_DISPLAY_VERSION}}");
    reveal_strlit("{{ABI}}");
    reveal_strlit("{{RUST_LIB_NAME}}");
    reveal_strlit("{{HVIGOR_PACKAGE_PATH}}");
    reveal_strlit("{{HVIGOR_PLUGIN_PACKAGE_PATH}}");
}

pub fn render_template(template: &str, context: &TemplateContext) -> (res: String)
    ensures
        res@ == rendered(template@, *context),
{
    proof {
        lemma_placeholders_not_empty();
    }
    let t = replace_all(template, "{{APP_NAME}}", context.app_name.as_str());
    let t = replace_all(t.as_str(), "{{BUNDLE_NAME}}", context.bundle_name.as_str());
    let t = replace_all(t.as_str(), "{{MODULE_NAME}}", context.module_name.as_str());
    let t = replace_all(t.as_str(), "{{SDK_API_VERSION}}", context.sdk_api_version.as_str());
    let t = replace_all(t.as_str(), "{{SDK_DISPLAY_VERSION}}", context.sdk_display_version.as_str());
    let t = replace_all(t.as_str(), "{{ABI}}", context.abi.as_str());
    let t = replace_all(t.as_str(), "{{RUST_LIB_NAME}}", context.rust_lib_name.as_str());
    let t = replace_all(t.as_str(), "{{HVIGOR_PACKAGE_PATH}}", context.hvigor_package_path.as_str());
    replace_all(t.as_str(), "{{HVIGOR_PLUGIN_PACKAGE_PATH}}", context.hvigor_plugin_package_path.as_str())
}

/// Every file of the shell project, rendered for `context`, in table order.
pub fn generated_files(context: &TemplateContext) -> (res: Vec<GeneratedFile>)
    ensures
        res@.len() == template_table().len(),
        forall|i: int|
            0 <= i < res@.len() ==> (#[trigger] res@[i]).relative_path@ == template_table()[i].0
                && res@[i].contents@ == rendered(template_table()[i].1, *context),
{
    let templates = template_files();
    let n = templates.len();
    let mut res: Vec<GeneratedFile> = Vec::new();
    let mut i: usize = 0;
    while i < n
        invariant
            n == templates@.len(),
            template_views(templates@) == template_table(),
            i <= n,
            res@.len() == i,
            forall|k: int|
                0 <= k < i ==> (#[trigger] res@[k]).relative_path@ == template_table()[k].0
                    && res@[k].contents@ == rendered(template_table()[k].1, *context),
        decreases n - i,
    {
        let (path, template) = templates[i];
        assert(template_table()[i as int] == (path@, template@));
        res.push(GeneratedFile { relative_path: path, contents: render_template(template, context) });
        i = i + 1;
    }
    res
}

/// A path as written into `package.json`: with `/` for every `\`.
pub fn path_for_package_json(path: &str) -> (res: String)
    ensures
        res@ == swapped(path@, '\\', '/'),
{
    replace_char(path, '\\', '/')
}

/// The values that fill the templates for a run: names from the project and
/// the settings, the SDK's versions, and the hvigor packages' paths with `/`.
pub open spec fn app_values(app: AppContext) -> Seq<Seq<char>> {
    seq![
        app.project.package_name@,
        app.config.bundle_name@,
        app.config.module_name@,
        app.sdk.version@,
        app.sdk.display_version@,
        app.config.abi@,
        app.project.lib_name@,
        swapped(app.hvigor.hvigor_package_dir@, '\\', '/'),
        swapped(app.hvigor.hvigor_plugin_package_dir@, '\\', '/'),
    ]
}

/// The values that fill the templates for a run.
pub fn template_context(app: &AppContext) -> (res: TemplateContext)
    ensures
        context_values(res) == app_values(*app),
        res.app_name@ == app.project.package_name@,
        res.bundle_name@ == app.config.bundle_name@,
        res.module_name@ == app.config.module_name@,
        res.sdk_api_version@ == app.sdk.version@,
        res.sdk_display_version@ == app.sdk.display_version@,
        res.abi@ == app.config.abi@,
        res.rust_lib_name@ == app.project.lib_name@,
        res.hvigor_package_path@ == swapped(app.hvigor.hvigor_package_dir@, '\\', '/'),
        res.hvigor_plugin_package_path@ == swapped(app.hvigor.hvigor_plugin_package_dir@, '\\', '/'),
{
    let res = TemplateContext {
        app_name: app.project.package_name.clone(),
        bundle_name: app.config.bundle_name.clone(),
        module_name: app.config.module_name.clone(),
        sdk_api_version: app.sdk.version.clone(),
        sdk_display_version: app.sdk.display_version.clone(),
        abi: app.config.abi.clone(),
        rust_lib_name: app.project.lib_name.clone(),
        hvigor_package_path: path_for_package_json(app.hvigor.hvigor_package_dir.as_str()),
        hvigor_plugin_package_path: path_for_package_json(app.hvigor.hvigor_plugin_package_dir.as_str()),
    };
    assert(context_values(res) =~= app_values(*app));
    res
}

/// The bytes of the PNG image used for the app icon layers and the start
/// window icon.
pub open spec fn icon_png() -> Seq<u8> {
    seq![
        0x89, 0x50, 0x4E, 0x47, 0x0D, 0x0A, 0x1A, 0x0A, 0x00, 0x00, 0x00, 0x0D, 0x49, 0x48,
        0x44, 0x52, 0x00, 0x00, 0x00, 0x01, 0x00, 0x00, 0x00, 0x01, 0x08, 0x06, 0x00, 0x00,
        0x00, 0x1F, 0x15, 0xC4, 0x89, 0x00, 0x00, 0x00, 0x0D, 0x49, 0x44, 0x41, 0x54, 0x78,
        0x9C, 0x63, 0xF8, 0xCF, 0xC0, 0xF0, 0x1F, 0x00, 0x05, 0x00, 0x01, 0xFF, 0x89, 0x99,
        0x3D, 0x1D, 0x00, 0x00, 0x00, 0x00, 0x49, 0x45, 0x4E, 0x44, 0xAE, 0x42, 0x60, 0x82,
    ]
}

pub fn icon_png_bytes() -> (res: Vec<u8>)
    ensures
        res@ == icon_png(),
{
    let res: Vec<u8> = vec![
        0x89, 0x50, 0x4E, 0x47, 0x0D, 0x0A, 0x1A, 0x0A, 0x00, 0x00, 0x00, 0x0D, 0x49, 0x48,
        0x44, 0x52, 0x00, 0x00, 0x00, 0x01, 0x00, 0x00, 0x00, 0x01, 0x08, 0x06, 0x00, 0x00,
        0x00, 0x1F, 0x15, 0xC4, 0x89, 0x00, 0x00, 0x00, 0x0D, 0x49, 0x44, 0x41, 0x54, 0x78,
        0x9C, 0x63, 0xF8, 0xCF, 0xC0, 0xF0, 0x1F, 0x00, 0x05, 0x00, 0x01, 0xFF, 0x89, 0x99,
        0x3D, 0x1D, 0x00, 0x00, 0x00, 0x00, 0x49, 0x45, 0x4E, 0x44, 0xAE, 0x42, 0x60, 0x82,
    ];
    assert(res@ =~= icon_png());
    res
}

/// What writing the shell project consists of: the rendered files, the
/// icon images, the directory for the native library, and the hvigor
/// wrapper scripts copied from DevEco Studio, all under `output_dir`.
#[derive(Debug)]
pub struct ShellPlan {
    pub output_dir: String,
    pub files: Vec<(String, String)>,
    pub icon_paths: Vec<String>,
    pub libs_dir: String,
    pub wrapper_copies: Vec<(String, String)>,
}

/// Where the icon image is written, relative to the shell project.
pub open spec fn icon_table() -> Seq<Seq<char>> {
    seq![
        "AppScope/resources/base/media/background.png"@,
        "AppScope/resources/base/media/foreground.png"@,
        "entry/src/main/resources/base/media/startIcon.png"@,
    ]
}

pub open spec fn under(path: Seq<char>, out: Seq<char>, rel: Seq<char>) -> bool {
    open_ended(out) && plain(rel) ==> joins_to(path, out, seq![rel])
}

pub open spec fn is_shell_plan(plan: ShellPlan, app: AppContext) -> bool {
    let out = app.config.output_dir@;
    &&& plan.output_dir@ == out
    &&& plan.files@.len() == template_table().len()
    &&& forall|i: int|
        0 <= i < plan.files@.len() ==> under((#[trigger] plan.files@[i]).0@, out, template_table()[i].0)
            && plan.files@[i].1@ == rendered_with(template_table()[i].1, app_values(app))
    &&& plan.icon_paths@.len() == icon_table().len()
    &&& forall|i: int| 0 <= i < plan.icon_paths@.len() ==> under(#[trigger] plan.icon_paths@[i]@, out, icon_table()[i])
    &&& open_ended(out) && plain(app.config.abi@) ==> joins_to(
        plan.libs_dir@,
        out,
        crate::commands::build::libs_dir_parts(app.config.abi@),
    )
    &&& plan.wrapper_copies@.len() == 2
    &&& plan.wrapper_copies@[0].0 == app.hvigor.wrapper_bat
    &&& under(plan.wrapper_copies@[0].1@, out, "hvigorw.bat"@)
    &&& plan.wrapper_copies@[1].0 == app.hvigor.wrapper_js
    &&& under(plan.wrapper_copies@[1].1@, out, "hvigorw.js"@)
}

fn path_under(out: &str, rel: &str) -> (res: String)
    ensures
        under(res@, out@, rel@),
{
    let parts = components(&[rel]);
    assert(views(parts@) =~= seq![rel@]);
    join_all(out, &parts)
}

/// The layout of the shell project for a run.
pub fn shell_plan(app: &AppContext) -> (res: ShellPlan)
    ensures
        is_shell_plan(res, *app),
{
    let context = template_context(app);
    let out = app.config.output_dir.as_str();
    let generated = generated_files(&context);
    let n = generated.len();
    let mut files: Vec<(String, String)> = Vec::new();
    let mut i: usize = 0;
    while i < n
        invariant
            n == generated@.len(),
            n == template_table().len(),
            context_values(context) == app_values(*app),
            out@ == app.config.output_dir@,
            i <= n,
            files@.len() == i,
            forall|k: int|
                0 <= k < n ==> (#[trigger] generated@[k]).relative_path@ == template_table()[k].0
                    && generated@[k].contents@ == rendered(template_table()[k].1, context),
            forall|k: int|
                0 <= k < i ==> under((#[trigger] files@[k]).0@, out@, template_table()[k].0) && files@[k].1@
                    == rendered_with(template_table()[k].1, app_values(*app)),
        decreases n - i,
    {
        let file = &generated[i];
        let path = path_under(out, file.relative_path);
        files.push((path, file.contents.clone()));
        i = i + 1;
    }
    let icon_paths = vec![
        path_under(out, "AppScope/resources/base/media/background.png"),
        path_under(out, "AppScope/resources/base/media/foreground.png"),
        path_under(out, "entry/src/main/resources/base/media/startIcon.png"),
    ];
    proof {
        crate::commands::build::lemma_layout_names_plain();
    }
    let libs_parts = components(&["entry", "src", "main", "cpp", "libs", app.config.abi.as_str()]);
    assert(views(libs_parts@) =~= crate::commands::build::libs_dir_parts(app.config.abi@));
    let libs_dir = join_all(out, &libs_parts);
    let wrapper_copies = vec![
        (app.hvigor.wrapper_bat.clone(), path_under(out, "hvigorw.bat")),
        (app.hvigor.wrapper_js.clone(), path_under(out, "hvigorw.js")),
    ];
    let res = ShellPlan { output_dir: app.config.output_dir.clone(), files, icon_paths, libs_dir, wrapper_copies };
    assert forall|k: int| 0 <= k < res.icon_paths@.len() implies under(#[trigger] res.icon_paths@[k]@, out@, icon_table()[k]) by {
        assert(icon_table()[0] == "AppScope/resources/base/media/background.png"@);
    }
    res
}

/// The placeholders that templates may hold.
pub open spec fn placeholders() -> Seq<Seq<char>> {
    seq![
        "{{APP_NAME}}"@,
        "{{BUNDLE_NAME}}"@,
        "{{MODULE_NAME}}"@,
        "{{SDK_API_VERSION}}"@,
        "{{SDK_DISPLAY_VERSION}}"@,
        "{{ABI}}"@,
        "{{RUST_LIB_NAME}}"@,
        "{{HVIGOR_PACKAGE_PATH}}"@,
        "{{HVIGOR_PLUGIN_PACKAGE_PATH}}"@,
    ]
}

/// A template that holds no placeholder is written as it is, whatever the
/// values.
pub proof fn lemma_plain_template_unchanged(template: Seq<char>, values: Seq<Seq<char>>)
    requires
        forall|k: int| 0 <= k < 9 ==> !occurs_in(template, #[trigger] placeholders()[k]),
    ensures
        rendered_with(template, values) == template,
{
    assert(!occurs_in(template, placeholders()[0]));
    assert(!occurs_in(template, placeholders()[1]));
    assert(!occurs_in(template, placeholders()[2]));
    assert(!occurs_in(template, placeholders()[3]));
    assert(!occurs_in(template, placeholders()[4]));
    assert(!occurs_in(template, placeholders()[5]));
    assert(!occurs_in(template, placeholders()[6]));
    assert(!occurs_in(template, placeholders()[7]));
    assert(!occurs_in(template, placeholders()[8]));
    lemma_replaced_absent(template, "{{APP_NAME}}"@, values[0]);
    lemma_replaced_absent(template, "{{BUNDLE_NAME}}"@, values[1]);
    lemma_replaced_absent(template, "{{MODULE_NAME}}"@, values[2]);
    lemma_replaced_absent(template, "{{SDK_API_VERSION}}"@, values[3]);
    lemma_replaced_absent(template, "{{SDK_DISPLAY_VERSION}}"@, values[4]);
    lemma_replaced_absent(template, "{{ABI}}"@, values[5]);
    lemma_replaced_absent(template, "{{RUST_LIB_NAME}}"@, values[6]);
    lemma_replaced_absent(template, "{{HVIGOR_PACKAGE_PATH}}"@, values[7]);
    lemma_replaced_absent(template, "{{HVIGOR_PLUGIN_PACKAGE_PATH}}"@, values[8]);
}

/// The paths written into `package.json` hold no `\`.
pub proof fn lemma_package_json_paths_use_slashes(app: AppContext)
    ensures
        !app_values(app)[7].contains('\\'),
        !app_values(app)[8].contains('\\'),
{
    lemma_swapped_removes(app.hvigor.hvigor_package_dir@, '\\', '/');
    lemma_swapped_removes(app.hvigor.hvigor_plugin_package_dir@, '\\', '/');
}

/// The position in the template table of a relative path of the shell
/// project, told apart by its length and, where two share a length, by a
/// character at which they differ.
pub open spec fn template_path_index(p: Seq<char>) -> int {
    if p.len() == 12 {
        8
    } else if p.len() == 13 {
        5
    } else if p.len() == 16 {
        6
    } else if p.len() == 17 {
        9
    } else if p.len() == 18 {
        0
    } else if p.len() == 19 {
        if p[0] == 'b' { 3 } else { 11 }
    } else if p.len() == 21 {
        7
    } else if p.len() == 22 {
        13
    } else if p.len() == 25 {
        10
    } else if p.len() == 26 {
        4
    } else if p.len() == 27 {
        if p[6] == 'o' { 12 } else { 14 }
    } else if p.len() == 32 {
        22
    } else if p.len() == 33 {
        21
    } else if p.len() == 34 {
        16
    } else if p.len() == 43 {
        1
    } else if p.len() == 44 {
        23
    } else if p.len() == 48 {
        if p[0] == 'A' { 2 } else if p[15] == 'e' { 15 } else if p[38] == 'f' { 19 } else { 20 }
    } else if p.len() == 49 {
        18
    } else if p.len() == 50 {
        24
    } else if p.len() == 53 {
        17
    } else {
        -1
    }
}

/// Each relative path of the template table is plain, and
/// `template_path_index` gives back its position.
proof fn lemma_template_path_index(i: int)
    requires
        0 <= i < template_table().len(),
    ensures
        template_path_index(template_table()[i].0) == i,
        plain(template_table()[i].0),
{
    reveal_strlit("AppScope/app.json5");
    reveal_strlit("AppScope/resources/base/element/string.json");
    reveal_strlit("AppScope/resources/base/media/layered_image.json");
    reveal_strlit("build-profile.json5");
    reveal_strlit("hvigor/hvigor-config.json5");
    reveal_strlit("hvigorfile.ts");
    reveal_strlit("oh-package.json5");
    reveal_strlit("oh-package-lock.json5");
    reveal_strlit("package.json");
    reveal_strlit("code-linter.json5");
    reveal_strlit("entry/build-profile.json5");
    reveal_strlit("entry/hvigorfile.ts");
    reveal_strlit("entry/obfuscation-rules.txt");
    reveal_strlit("entry/oh-package.json5");
    reveal_strlit("entry/src/main/module.json5");
    reveal_strlit("entry/src/main/ets/entryability/EntryAbility.ets");
    reveal_strlit("entry/src/main/ets/pages/Index.ets");
    reveal_strlit("entry/src/main/resources/base/profile/main_pages.json");
    reveal_strlit("entry/src/main/resources/base/element/string.json");
    reveal_strlit("entry/src/main/resources/base/element/float.json");
    reveal_strlit("entry/src/main/resources/base/element/color.json");
    reveal_strlit("entry/src/main/cpp/CMakeLists.txt");
    reveal_strlit("entry/src/main/cpp/napi_init.cpp");
    reveal_strlit("entry/src/main/cpp/types/libentry/index.d.ts");
    reveal_strlit("entry/src/main/cpp/types/libentry/oh-package.json5");
    if i == 0 {
        assert(template_table()[0].0 == "AppScope/app.json5"@);
    } else if i == 1 {
        assert(template_table()[1].0 == "AppScope/resources/base/element/string.json"@);
    } else if i == 2 {
        assert(template_table()[2].0 == "AppScope/resources/base/media/layered_image.json"@);
    } else if i == 3 {
        assert(template_table()[3].0 == "build-profile.json5"@);
    } else if i == 4 {
        assert(template_table()[4].0 == "hvigor/hvigor-config.json5"@);
    } else if i == 5 {
        assert(template_table()[5].0 == "hvigorfile.ts"@);
    } else if i == 6 {
        assert(template_table()[6].0 == "oh-package.json5"@);
    } else if i == 7 {
        assert(template_table()[7].0 == "oh-package-lock.json5"@);
    } else if i == 8 {
        assert(template_table()[8].0 == "package.json"@);
    } else if i == 9 {
        assert(template_table()[9].0 == "code-linter.json5"@);
    } else if i == 10 {
        assert(template_table()[10].0 == "entry/build-profile.json5"@);
    } else if i == 11 {
        assert(template_table()[11].0 == "entry/hvigorfile.ts"@);
    } else if i == 12 {
        assert(template_table()[12].0 == "entry/obfuscation-rules.txt"@);
    } else if i == 13 {
        assert(template_table()[13].0 == "entry/oh-package.json5"@);
    } else if i == 14 {
        assert(template_table()[14].0 == "entry/src/main/module.json5"@);
    } else if i == 15 {
        assert(template_table()[15].0 == "entry/src/main/ets/entryability/EntryAbility.ets"@);
    } else if i == 16 {
        assert(template_table()[16].0 == "entry/src/main/ets/pages/Index.ets"@);
    } else if i == 17 {
        assert(template_table()[17].0 == "entry/src/main/resources/base/profile/main_pages.json"@);
    } else if i == 18 {
        assert(template_table()[18].0 == "entry/src/main/resources/base/element/string.json"@);
    } else if i == 19 {
        assert(template_table()[19].0 == "entry/src/main/resources/base/element/float.json"@);
    } else if i == 20 {
        assert(template_table()[20].0 == "entry/src/main/resources/base/element/color.json"@);
    } else if i == 21 {
        assert(template_table()[21].0 == "entry/src/main/cpp/CMakeLists.txt"@);
    } else if i == 22 {
        assert(template_table()[22].0 == "entry/src/main/cpp/napi_init.cpp"@);
    } else if i == 23 {
        assert(template_table()[23].0 == "entry/src/main/cpp/types/libentry/index.d.ts"@);
    } else if i == 24 {
        assert(template_table()[24].0 == "entry/src/main/cpp/types/libentry/oh-package.json5"@);
    }
}

/// The files of the shell project have pairwise distinct relative paths, so
/// none of them is written over another.
pub proof fn lemma_template_paths_distinct()
    ensures
        forall|i: int, j: int|
            0 <= i < template_table().len() && 0 <= j < template_table().len() && i != j
                ==> #[trigger] template_table()[i].0 != #[trigger] template_table()[j].0,
{
    assert forall|i: int, j: int|
        0 <= i < template_table().len() && 0 <= j < template_table().len() && i != j
            implies #[trigger] template_table()[i].0 != #[trigger] template_table()[j].0 by {
        lemma_template_path_index(i);
        lemma_template_path_index(j);
    }
}

/// Two plans made for one run write the same text to each file, in table
/// order, and copy the wrapper scripts from the same places: writing the
/// shell project again leaves every file it writes as the first write left
/// it. Each file's path is the output directory joined with the same
/// relative path in both.
pub proof fn lemma_shell_plan_repeatable(first: ShellPlan, second: ShellPlan, app: AppContext)
    requires
        is_shell_plan(first, app),
        is_shell_plan(second, app),
    ensures
        first.output_dir@ == second.output_dir@,
        first.files@.len() == second.files@.len(),
        forall|i: int|
            0 <= i < first.files@.len() ==> (#[trigger] first.files@[i]).1@ == second.files@[i].1@ && under(
                first.files@[i].0@,
                app.config.output_dir@,
                template_table()[i].0,
            ) && under(second.files@[i].0@, app.config.output_dir@, template_table()[i].0),
        first.wrapper_copies@[0].0 == second.wrapper_copies@[0].0,
        first.wrapper_copies@[1].0 == second.wrapper_copies@[1].0,
{
}

/// Under an output directory onto which paths join alike on every platform,
/// the files of a shell plan go to pairwise distinct paths.
pub proof fn lemma_shell_plan_paths_distinct(plan: ShellPlan, app: AppContext)
    requires
        is_shell_plan(plan, app),
        open_ended(app.config.output_dir@),
    ensures
        forall|i: int, j: int|
            0 <= i < plan.files@.len() && 0 <= j < plan.files@.len() && i != j ==> (#[trigger] plan.files@[i]).0@
                != (#[trigger] plan.files@[j]).0@,
{
    let out = app.config.output_dir@;
    assert forall|i: int, j: int|
        0 <= i < plan.files@.len() && 0 <= j < plan.files@.len() && i != j implies (#[trigger] plan.files@[i]).0@
            != (#[trigger] plan.files@[j]).0@ by {
        lemma_template_path_index(i);
        lemma_template_path_index(j);
        lemma_template_paths_distinct();
        assert(template_table()[i].0 != template_table()[j].0);
        crate::paths::lemma_join_distinct(
            out,
            template_table()[i].0,
            template_table()[j].0,
            plan.files@[i].0@,
            plan.files@[j].0@,
        );
    }
}

/// A text that the template of a shell project file holds and that no
/// other template holds: what makes the file what it is. The project's
/// `hvigorfile.ts` runs hvigor's `appTasks`, the module's
/// `entry/hvigorfile.ts` its `hapTasks`.
pub open spec fn template_marker(path: Seq<char>) -> Seq<char> {
    let k = template_path_index(path);
    if k == 0 {
        // AppScope/app.json5
        "\"bundleName\": \"{{BUNDLE_NAME}}\","@
    } else if k == 1 {
        // AppScope/resources/base/element/string.json
        "\"name\": \"app_name\","@
    } else if k == 2 {
        // AppScope/resources/base/media/layered_image.json
        "\"background\": \"$media:background\","@
    } else if k == 3 {
        // build-profile.json5
        "\"compileSdkVersion\": {{SDK_API_VERSION}},"@
    } else if k == 4 {
        // hvigor/hvigor-config.json5
        "\"daemon\": false"@
    } else if k == 5 {
        // hvigorfile.ts
        "system: appTasks"@
    } else if k == 6 {
        // oh-package.json5
        "\"devDependencies\": {}"@
    } else if k == 7 {
        // oh-package-lock.json5
        "\"ATTENTION\": \"THIS IS AN AUTOGENERATED"@
    } else if k == 8 {
        // package.json
        "\"@ohos/hvigor\": \"file:{{HVIGOR_PACKAGE_PATH}}\","@
    } else if k == 9 {
        // code-linter.json5
        "\"plugin:@typescript-eslint/recommended\""@
    } else if k == 10 {
        // entry/build-profile.json5
        "\"{{ABI}}\""@
    } else if k == 11 {
        // entry/hvigorfile.ts
        "system: hapTasks"@
    } else if k == 12 {
        // entry/obfuscation-rules.txt
        "# Generated by cargo-ohos-app."@
    } else if k == 13 {
        // entry/oh-package.json5
        "\"description\": \"OHOS shell generated by cargo-ohos-app\","@
    } else if k == 14 {
        // entry/src/main/module.json5
        "\"srcEntry\": \"./ets/entryability/EntryAbility.ets\","@
    } else if k == 15 {
        // entry/src/main/ets/entryability/EntryAbility.ets
        "import { AbilityConstant, UIAbility,"@
    } else if k == 16 {
        // entry/src/main/ets/pages/Index.ets
        "getMessage: (): string => 'Native bridge is unavailable.',"@
    } else if k == 17 {
        // entry/src/main/resources/base/profile/main_pages.json
        "\"pages/Index\""@
    } else if k == 18 {
        // entry/src/main/resources/base/element/string.json
        "\"value\": \"Rust generated OHOS module\""@
    } else if k == 19 {
        // entry/src/main/resources/base/element/float.json
        "\"name\": \"page_text_font_size\","@
    } else if k == 20 {
        // entry/src/main/resources/base/element/color.json
        "\"name\": \"start_window_background\","@
    } else if k == 21 {
        // entry/src/main/cpp/CMakeLists.txt
        "IMPORTED_LOCATION"@
    } else if k == 22 {
        // entry/src/main/cpp/napi_init.cpp
        "static napi_value GetMessage(napi_env"@
    } else if k == 23 {
        // entry/src/main/cpp/types/libentry/index.d.ts
        "incrementCounter(): number;"@
    } else if k == 24 {
        // entry/src/main/cpp/types/libentry/oh-package.json5
        "\"description\": \"Type definitions for"@
    } else {
        Seq::empty()
    }
}

proof fn lemma_template_marker_at(i: int)
    requires
        0 <= i < template_table().len(),
    ensures
        occurs_in(template_table()[i].1, template_marker(template_table()[i].0)),
{
    lemma_template_path_index(i);
    if i == 0 {
        reveal_strlit("\"bundleName\": \"{{BUNDLE_NAME}}\",");
        reveal_strlit(r#"{
  "app": {
    "bundleName": "{{BUNDLE_NAME}}",
    "vendor": "example",
    "versionCode": 1000000,
    "versionName": "1.0.0",
    "icon": "$media:layered_image",
    "label": "$string:app_name"
  }
}
"#);
        assert(template_marker(template_table()[0].0) == "\"bundleName\": \"{{BUNDLE_NAME}}\","@);
        assert(template_table()[0].1.subrange(17, 49) =~= "\"bundleName\": \"{{BUNDLE_NAME}}\","@);
        lemma_occurs_at(template_table()[0].1, "\"bundleName\": \"{{BUNDLE_NAME}}\","@, 17);
    } else if i == 1 {
        reveal_strlit("\"name\": \"app_name\",");
        reveal_strlit(r#"{
  "string": [
    {
      "name": "app_name",
      "value": "{{APP_NAME}}"
    }
  ]
}
"#);
        assert(template_marker(template_table()[1].0) == "\"name\": \"app_name\","@);
        assert(template_table()[1].1.subrange(28, 47) =~= "\"name\": \"app_name\","@);
        lemma_occurs_at(template_table()[1].1, "\"name\": \"app_name\","@, 28);
    } else if i == 2 {
        reveal_strlit("\"background\": \"$media:background\",");
        reveal_strlit(r#"{
  "layered-image": {
    "background": "$media:background",
    "foreground": "$media:foreground"
  }
}
"#);
        assert(template_marker(template_table()[2].0) == "\"background\": \"$media:background\","@);
        assert(template_table()[2].1.subrange(27, 61) =~= "\"background\": \"$media:background\","@);
        lemma_occurs_at(template_table()[2].1, "\"background\": \"$media:background\","@, 27);
    } else if i == 3 {
        reveal_strlit("\"compileSdkVersion\": {{SDK_API_VERSION}},");
        reveal_strlit(r#"{
  "app": {
    "signingConfigs": [],
    "products": [
      {
        "name": "default",
        "signingConfig": "default",
        "compileSdkVersion": {{SDK_API_VERSION}},
        "compatibleSdkVersion": {{SDK_API_VERSION}},
        "targetSdkVersion": {{SDK_API_VERSION}},
        "runtimeOS": "OpenHarmony"
      }
    ],
    "buildModeSet": [
      {
        "name": "debug"
      },
      {
        "name": "release"
      }
    ]
  },
  "modules": [
    {
      "name": "{{MODULE_NAME}}",
      "srcPath": "./entry",
      "targets": [
        {
          "name": "default",
          "applyToProducts": [
            "default"
          ]
        }
      ]
    }
  ]
}
"#);
        assert(template_marker(template_table()[3].0) == "\"compileSdkVersion\": {{SDK_API_VERSION}},"@);
        assert(template_table()[3].1.subrange(136, 177) =~= "\"compileSdkVersion\": {{SDK_API_VERSION}},"@);
        lemma_occurs_at(template_table()[3].1, "\"compileSdkVersion\": {{SDK_API_VERSION}},"@, 136);
    } else if i == 4 {
        reveal_strlit("\"daemon\": false");
        reveal_strlit(r#"{
  "modelVersion": "5.0.0",
  "dependencies": {},
  "execution": {
    "daemon": false
  }
}
"#);
        assert(template_marker(template_table()[4].0) == "\"daemon\": false"@);
        assert(template_table()[4].1.subrange(72, 87) =~= "\"daemon\": false"@);
        lemma_occurs_at(template_table()[4].1, "\"daemon\": false"@, 72);
    } else if i == 5 {
        reveal_strlit("system: appTasks");
        reveal_strlit(r#"import { appTasks } from '@ohos/hvigor-ohos-plugin';

export default {
  system: appTasks,
  plugins: []
}
"#);
        assert(template_marker(template_table()[5].0) == "system: appTasks"@);
        assert(template_table()[5].1.subrange(73, 89) =~= "system: appTasks"@);
        lemma_occurs_at(template_table()[5].1, "system: appTasks"@, 73);
    } else if i == 6 {
        reveal_strlit("\"devDependencies\": {}");
        reveal_strlit(r#"{
  "modelVersion": "5.0.0",
  "description": "Generated by cargo-ohos-app",
  "dependencies": {},
  "devDependencies": {}
}
"#);
        assert(template_marker(template_table()[6].0) == "\"devDependencies\": {}"@);
        assert(template_table()[6].1.subrange(101, 122) =~= "\"devDependencies\": {}"@);
        lemma_occurs_at(template_table()[6].1, "\"devDependencies\": {}"@, 101);
    } else if i == 7 {
        reveal_strlit("\"ATTENTION\": \"THIS IS AN AUTOGENERATED");
        reveal_strlit(r#"{
  "meta": {
    "stableOrder": true
  },
  "lockfileVersion": 3,
  "ATTENTION": "THIS IS AN AUTOGENERATED FILE. DO NOT EDIT THIS FILE DIRECTLY.",
  "specifiers": {},
  "packages": {}
}
"#);
        assert(template_marker(template_table()[7].0) == "\"ATTENTION\": \"THIS IS AN AUTOGENERATED"@);
        assert(template_table()[7].1.subrange(69, 107) =~= "\"ATTENTION\": \"THIS IS AN AUTOGENERATED"@);
        lemma_occurs_at(template_table()[7].1, "\"ATTENTION\": \"THIS IS AN AUTOGENERATED"@, 69);
    } else if i == 8 {
        reveal_strlit("\"@ohos/hvigor\": \"file:{{HVIGOR_PACKAGE_PATH}}\",");
        reveal_strlit(r#"{
  "name": "{{APP_NAME}}-ohos-app",
  "version": "1.0.0",
  "private": true,
  "description": "Generated by cargo-ohos-app",
  "devDependencies": {
    "@ohos/hvigor": "file:{{HVIGOR_PACKAGE_PATH}}",
    "@ohos/hvigor-ohos-plugin": "file:{{HVIGOR_PLUGIN_PACKAGE_PATH}}"
  }
}
"#);
        assert(template_marker(template_table()[8].0) == "\"@ohos/hvigor\": \"file:{{HVIGOR_PACKAGE_PATH}}\","@);
        assert(template_table()[8].1.subrange(153, 200) =~= "\"@ohos/hvigor\": \"file:{{HVIGOR_PACKAGE_PATH}}\","@);
        lemma_occurs_at(template_table()[8].1, "\"@ohos/hvigor\": \"file:{{HVIGOR_PACKAGE_PATH}}\","@, 153);
    } else if i == 9 {
        reveal_strlit("\"plugin:@typescript-eslint/recommended\"");
        reveal_strlit(r#"{
  "files": [
    "**/*.ets"
  ],
  "ignore": [
    "**/node_modules/**/*",
    "**/oh_modules/**/*",
    "**/build/**/*",
    "**/.preview/**/*"
  ],
  "ruleSet": [
    "plugin:@typescript-eslint/recommended"
  ]
}
"#);
        assert(template_marker(template_table()[9].0) == "\"plugin:@typescript-eslint/recommended\""@);
        assert(template_table()[9].1.subrange(171, 210) =~= "\"plugin:@typescript-eslint/recommended\""@);
        lemma_occurs_at(template_table()[9].1, "\"plugin:@typescript-eslint/recommended\""@, 171);
    } else if i == 10 {
        reveal_strlit("\"{{ABI}}\"");
        reveal_strlit(r#"{
  "apiType": "stageMode",
  "buildOption": {
    "externalNativeOptions": {
      "path": "./src/main/cpp/CMakeLists.txt",
      "arguments": "",
      "cppFlags": "",
      "abiFilters": [
        "{{ABI}}"
      ]
    }
  },
  "buildOptionSet": [
    {
      "name": "release",
      "arkOptions": {
        "obfuscation": {
          "ruleOptions": {
            "enable": false,
            "files": [
              "./obfuscation-rules.txt"
            ]
          }
        }
      }
    }
  ],
  "targets": [
    {
      "name": "default"
    }
  ]
}
"#);
        assert(template_marker(template_table()[10].0) == "\"{{ABI}}\""@);
        assert(template_table()[10].1.subrange(200, 209) =~= "\"{{ABI}}\""@);
        lemma_occurs_at(template_table()[10].1, "\"{{ABI}}\""@, 200);
    } else if i == 11 {
        reveal_strlit("system: hapTasks");
        reveal_strlit(r#"import { hapTasks } from '@ohos/hvigor-ohos-plugin';

export default {
  system: hapTasks,
  plugins: []
}
"#);
        assert(template_marker(template_table()[11].0) == "system: hapTasks"@);
        assert(template_table()[11].1.subrange(73, 89) =~= "system: hapTasks"@);
        lemma_occurs_at(template_table()[11].1, "system: hapTasks"@, 73);
    } else if i == 12 {
        reveal_strlit("# Generated by cargo-ohos-app.");
        reveal_strlit("# Generated by cargo-ohos-app.\n");
        assert(template_marker(template_table()[12].0) == "# Generated by cargo-ohos-app."@);
        assert(template_table()[12].1.subrange(0, 30) =~= "# Generated by cargo-ohos-app."@);
        lemma_occurs_at(template_table()[12].1, "# Generated by cargo-ohos-app."@, 0);
    } else if i == 13 {
        reveal_strlit("\"description\": \"OHOS shell generated by cargo-ohos-app\",");
        reveal_strlit(r#"{
  "name": "{{MODULE_NAME}}",
  "version": "1.0.0",
  "description": "OHOS shell generated by cargo-ohos-app",
  "main": "",
  "author": "",
  "license": "",
  "dependencies": {
    "libentry.so": "file:./src/main/cpp/types/libentry"
  }
}
"#);
        assert(template_marker(template_table()[13].0) == "\"description\": \"OHOS shell generated by cargo-ohos-app\","@);
        assert(template_table()[13].1.subrange(55, 111) =~= "\"description\": \"OHOS shell generated by cargo-ohos-app\","@);
        lemma_occurs_at(template_table()[13].1, "\"description\": \"OHOS shell generated by cargo-ohos-app\","@, 55);
    } else if i == 14 {
        reveal_strlit("\"srcEntry\": \"./ets/entryability/EntryAbility.ets\",");
        reveal_strlit(r#"{
  "module": {
    "name": "{{MODULE_NAME}}",
    "type": "entry",
    "description": "$string:module_desc",
    "mainElement": "EntryAbility",
    "deviceTypes": [
      "default"
    ],
    "deliveryWithInstall": true,
    "installationFree": false,
    "pages": "$profile:main_pages",
    "abilities": [
      {
        "name": "EntryAbility",
        "srcEntry": "./ets/entryability/EntryAbility.ets",
        "description": "$string:EntryAbility_desc",
        "label": "$string:EntryAbility_label",
        "startWindowIcon": "$media:startIcon",
        "startWindowBackground": "$color:start_window_background",
        "exported": true,
        "skills": [
          {
            "entities": [
              "entity.system.home"
            ],
            "actions": [
              "action.system.home"
            ]
          }
        ]
      }
    ]
  }
}
"#);
        assert(template_marker(template_table()[14].0) == "\"srcEntry\": \"./ets/entryability/EntryAbility.ets\","@);
        assert(template_table()[14].1.subrange(356, 406) =~= "\"srcEntry\": \"./ets/entryability/EntryAbility.ets\","@);
        lemma_occurs_at(template_table()[14].1, "\"srcEntry\": \"./ets/entryability/EntryAbility.ets\","@, 356);
    } else if i == 15 {
        reveal_strlit("import { AbilityConstant, UIAbility,");
        reveal_strlit(r#"import { AbilityConstant, UIAbility, Want } from '@kit.AbilityKit';
import { hilog } from '@kit.PerformanceAnalysisKit';
import { window } from '@kit.ArkUI';

const DOMAIN = 0x0000;

export default class EntryAbility extends UIAbility {
  onCreate(want: Want, launchParam: AbilityConstant.LaunchParam): void {
    hilog.info(DOMAIN, 'cargo-ohos-app', '%{public}s', 'Ability onCreate');
  }

  onWindowStageCreate(windowStage: window.WindowStage): void {
    windowStage.loadContent('pages/Index', (err) => {
      if (err.code) {
        hilog.error(DOMAIN, 'cargo-ohos-app', 'Failed to load page: %{public}s', JSON.stringify(err));
      }
    });
  }
}
"#);
        assert(template_marker(template_table()[15].0) == "import { AbilityConstant, UIAbility,"@);
        assert(template_table()[15].1.subrange(0, 36) =~= "import { AbilityConstant, UIAbility,"@);
        lemma_occurs_at(template_table()[15].1, "import { AbilityConstant, UIAbility,"@, 0);
    } else if i == 16 {
        reveal_strlit("getMessage: (): string => 'Native bridge is unavailable.',");
        reveal_strlit(r#"import bridge from 'libentry.so';

const runtimeBridge = bridge ?? {
  getMessage: (): string => 'Native bridge is unavailable.',
  incrementCounter: (): number => 0
};

@Entry
@Component
struct Index {
  @State message: string = runtimeBridge.getMessage();
  @State counter: number = 0;

  build() {
    Column({ space: 16 }) {
      Text('Rust -> OHOS')
        .fontSize(28)
        .fontWeight(FontWeight.Bold)

      Text(this.message)
        .fontSize(20)

      Text('Counter: ' + this.counter)
        .fontSize(18)

      Button('Call Rust')
        .onClick(() => {
          this.counter = runtimeBridge.incrementCounter();
          this.message = runtimeBridge.getMessage();
        })
    }
    .width('100%')
    .height('100%')
    .justifyContent(FlexAlign.Center)
    .alignItems(HorizontalAlign.Center)
    .padding(24)
  }
}
"#);
        assert(template_marker(template_table()[16].0) == "getMessage: (): string => 'Native bridge is unavailable.',"@);
        assert(template_table()[16].1.subrange(71, 129) =~= "getMessage: (): string => 'Native bridge is unavailable.',"@);
        lemma_occurs_at(template_table()[16].1, "getMessage: (): string => 'Native bridge is unavailable.',"@, 71);
    } else if i == 17 {
        reveal_strlit("\"pages/Index\"");
        reveal_strlit(r#"{
  "src": [
    "pages/Index"
  ]
}
"#);
        assert(template_marker(template_table()[17].0) == "\"pages/Index\""@);
        assert(template_table()[17].1.subrange(17, 30) =~= "\"pages/Index\""@);
        lemma_occurs_at(template_table()[17].1, "\"pages/Index\""@, 17);
    } else if i == 18 {
        reveal_strlit("\"value\": \"Rust generated OHOS module\"");
        reveal_strlit(r#"{
  "string": [
    {
      "name": "module_desc",
      "value": "Rust generated OHOS module"
    },
    {
      "name": "EntryAbility_desc",
      "value": "Entry ability"
    },
    {
      "name": "EntryAbility_label",
      "value": "{{APP_NAME}}"
    }
  ]
}
"#);
        assert(template_marker(template_table()[18].0) == "\"value\": \"Rust generated OHOS module\""@);
        assert(template_table()[18].1.subrange(57, 94) =~= "\"value\": \"Rust generated OHOS module\""@);
        lemma_occurs_at(template_table()[18].1, "\"value\": \"Rust generated OHOS module\""@, 57);
    } else if i == 19 {
        reveal_strlit("\"name\": \"page_text_font_size\",");
        reveal_strlit(r#"{
  "float": [
    {
      "name": "page_text_font_size",
      "value": "18fp"
    }
  ]
}
"#);
        assert(template_marker(template_table()[19].0) == "\"name\": \"page_text_font_size\","@);
        assert(template_table()[19].1.subrange(27, 57) =~= "\"name\": \"page_text_font_size\","@);
        lemma_occurs_at(template_table()[19].1, "\"name\": \"page_text_font_size\","@, 27);
    } else if i == 20 {
        reveal_strlit("\"name\": \"start_window_background\",");
        reveal_strlit(r##"{
  "color": [
    {
      "name": "start_window_background",
      "value": "#FFFFFF"
    }
  ]
}
"##);
        assert(template_marker(template_table()[20].0) == "\"name\": \"start_window_background\","@);
        assert(template_table()[20].1.subrange(27, 61) =~= "\"name\": \"start_window_background\","@);
        lemma_occurs_at(template_table()[20].1, "\"name\": \"start_window_background\","@, 27);
    } else if i == 21 {
        reveal_strlit("IMPORTED_LOCATION");
        reveal_strlit(r#"cmake_minimum_required(VERSION 3.5.0)
project(ohos_app_bridge)

set(NATIVERENDER_ROOT_PATH ${CMAKE_CURRENT_SOURCE_DIR})

add_library(rust_bridge STATIC IMPORTED)
set_target_properties(rust_bridge PROPERTIES
    IMPORTED_LOCATION ${NATIVERENDER_ROOT_PATH}/libs/{{ABI}}/lib{{RUST_LIB_NAME}}.a
)

add_library(entry SHARED napi_init.cpp)
set_target_properties(entry PROPERTIES
    LIBRARY_OUTPUT_DIRECTORY ${CMAKE_CURRENT_BINARY_DIR}/out
)
target_link_libraries(entry PUBLIC libace_napi.z.so rust_bridge)
"#);
        assert(template_marker(template_table()[21].0) == "IMPORTED_LOCATION"@);
        assert(template_table()[21].1.subrange(211, 228) =~= "IMPORTED_LOCATION"@);
        lemma_occurs_at(template_table()[21].1, "IMPORTED_LOCATION"@, 211);
    } else if i == 22 {
        reveal_strlit("static napi_value GetMessage(napi_env");
        reveal_strlit(r#"#include <napi/native_api.h>
#include <stdint.h>

extern "C" {
const char* ohos_app_get_message();
uint32_t ohos_app_increment_counter();
}

static napi_value GetMessage(napi_env env, napi_callback_info info)
{
    const char* message = ohos_app_get_message();
    napi_value result = nullptr;
    napi_create_string_utf8(env, message, NAPI_AUTO_LENGTH, &result);
    return result;
}

static napi_value IncrementCounter(napi_env env, napi_callback_info info)
{
    napi_value result = nullptr;
    napi_create_uint32(env, ohos_app_increment_counter(), &result);
    return result;
}

static napi_value Init(napi_env env, napi_value exports)
{
    napi_property_descriptor descriptors[] = {
        { "getMessage", nullptr, GetMessage, nullptr, nullptr, nullptr, napi_default, nullptr },
        { "incrementCounter", nullptr, IncrementCounter, nullptr, nullptr, nullptr, napi_default, nullptr }
    };
    napi_define_properties(env, exports, sizeof(descriptors) / sizeof(descriptors[0]), descriptors);
    return exports;
}

static napi_module cargoOhosAppModule = {
    .nm_version = 1,
    .nm_flags = 0,
    .nm_filename = nullptr,
    .nm_register_func = Init,
    .nm_modname = "entry",
    .nm_priv = nullptr,
    .reserved = { 0 }
};

extern "C" __attribute__((constructor)) void RegisterCargoOhosAppModule(void)
{
    napi_module_register(&cargoOhosAppModule);
}
"#);
        assert(template_marker(template_table()[22].0) == "static napi_value GetMessage(napi_env"@);
        assert(template_table()[22].1.subrange(141, 178) =~= "static napi_value GetMessage(napi_env"@);
        lemma_occurs_at(template_table()[22].1, "static napi_value GetMessage(napi_env"@, 141);
    } else if i == 23 {
        reveal_strlit("incrementCounter(): number;");
        reveal_strlit(r#"declare const bridge: {
  getMessage(): string;
  incrementCounter(): number;
};

export default bridge;
"#);
        assert(template_marker(template_table()[23].0) == "incrementCounter(): number;"@);
        assert(template_table()[23].1.subrange(50, 77) =~= "incrementCounter(): number;"@);
        lemma_occurs_at(template_table()[23].1, "incrementCounter(): number;"@, 50);
    } else if i == 24 {
        reveal_strlit("\"description\": \"Type definitions for");
        reveal_strlit(r#"{
  "name": "libentry.so",
  "version": "1.0.0",
  "description": "Type definitions for the generated native bridge",
  "types": "./index.d.ts"
}
"#);
        assert(template_marker(template_table()[24].0) == "\"description\": \"Type definitions for"@);
        assert(template_table()[24].1.subrange(51, 87) =~= "\"description\": \"Type definitions for"@);
        lemma_occurs_at(template_table()[24].1, "\"description\": \"Type definitions for"@, 51);
    }
}

/// Each file of the shell project is rendered from its own template: the
/// template given for a path holds the text that marks that path's file,
/// which no other template holds. So the project's `hvigorfile.ts` is built
/// from the template that runs `appTasks` and `entry/hvigorfile.ts` from the
/// one that runs `hapTasks`, and no two files have their templates swapped.
pub proof fn lemma_templates_fit_paths()
    ensures
        forall|i: int|
            0 <= i < template_table().len() ==> occurs_in(
                #[trigger] template_table()[i].1,
                template_marker(template_table()[i].0),
            ),
        forall|i: int|
            0 <= i < template_table().len() && template_table()[i].0 == "hvigorfile.ts"@ ==> occurs_in(
                #[trigger] template_table()[i].1,
                "system: appTasks"@,
            ),
        forall|i: int|
            0 <= i < template_table().len() && template_table()[i].0 == "entry/hvigorfile.ts"@ ==> occurs_in(
                #[trigger] template_table()[i].1,
                "system: hapTasks"@,
            ),
{
    reveal_strlit("hvigorfile.ts");
    reveal_strlit("entry/hvigorfile.ts");
    assert forall|i: int| 0 <= i < template_table().len() implies occurs_in(
        #[trigger] template_table()[i].1,
        template_marker(template_table()[i].0),
    ) by {
        lemma_template_marker_at(i);
    }
}

} // verus!
