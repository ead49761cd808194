//! The `init`, `build` and `package` commands, and the environment that the
//! tools they run are given.
use vstd::prelude::*;
use crate::config::AppContext;
use crate::paths::{components, join_all, joins_to, open_ended, plain, views};
use crate::text::{ascii_uppercase, concat2, concat3, owned, replace_char, str_eq, swapped, to_ascii_upper};
use vstd::string::StringExecFns;

pub mod build;
pub mod init;
pub mod package;
pub mod workflow;

verus! {

/// The target triple that clang is given for a Rust OHOS target; any other
/// target is passed on as it is.
pub open spec fn spec_clang_target(rust_target: Seq<char>) -> Seq<char> {
    if rust_target == "aarch64-unknown-linux-ohos"@ {
        "aarch64-linux-ohos"@
    } else if rust_target == "armv7-unknown-linux-ohos"@ {
        "arm-linux-ohos"@
    } else if rust_target == "x86_64-unknown-linux-ohos"@ {
        "x86_64-linux-ohos"@
    } else if rust_target == "loongarch64-unknown-linux-ohos"@ {
        "loongarch64-linux-ohos"@
    } else {
        rust_target
    }
}

pub fn clang_target(rust_target: &str) -> (res: String)
    ensures
        res@ == spec_clang_target(rust_target@),
{
    if str_eq(rust_target, "aarch64-unknown-linux-ohos") {
        owned("aarch64-linux-ohos")
    } else if str_eq(rust_target, "armv7-unknown-linux-ohos") {
        owned("arm-linux-ohos")
    } else if str_eq(rust_target, "x86_64-unknown-linux-ohos") {
        owned("x86_64-linux-ohos")
    } else if str_eq(rust_target, "loongarch64-unknown-linux-ohos") {
        owned("loongarch64-linux-ohos")
    } else {
        owned(rust_target)
    }
}

/// A target triple as it appears in the names of environment variables:
/// with `_` for `-`.
pub open spec fn env_target(target: Seq<char>) -> Seq<char> {
    swapped(target, '-', '_')
}

/// The names of the variables that the tools are given, in the order they
/// are set.
pub open spec fn env_keys_for(target: Seq<char>) -> Seq<Seq<char>> {
    seq![
        "DEVECO_STUDIO_HOME"@,
        "HARMONY_APP_SDK_ROOT"@,
        "OHOS_BASE_SDK_HOME"@,
        "HARMONY_APP_SDK_VERSION"@,
        "OHOS_SDK_HOME"@,
        "DEVECO_SDK_HOME"@,
        "OHOS_SDK_NATIVE"@,
        "OHOS_SDK_TOOLCHAINS"@,
        "CARGO_TARGET_"@ + ascii_uppercase(env_target(target)) + "_LINKER"@,
        "RUSTFLAGS"@,
        "CC_"@ + env_target(target),
        "CXX_"@ + env_target(target),
        "AR_"@ + env_target(target),
    ]
}

pub open spec fn env_keys(env: Seq<(String, String)>) -> Seq<Seq<char>> {
    env.map_values(|e: (String, String)| e.0@)
}

/// The linker flags: the clang target, the SDK's sysroot, and musl.
pub open spec fn spec_rustflags(clang_target: Seq<char>, sysroot: Seq<char>) -> Seq<char> {
    "-Clink-arg=--target="@ + clang_target + " -Clink-arg=--sysroot="@ + sysroot + " -Clink-arg=-D__MUSL__"@
}

pub open spec fn llvm_tool(native_dir: Seq<char>, path: Seq<char>, tool: Seq<char>) -> bool {
    open_ended(native_dir) ==> joins_to(path, native_dir, seq!["llvm"@, "bin"@, tool])
}

/// The environment of the tools for a run.
pub open spec fn is_command_env(env: Seq<(String, String)>, app: AppContext) -> bool {
    let native = app.sdk.native_dir@;
    &&& env.len() == 13
    &&& env_keys(env) == env_keys_for(app.config.target@)
    &&& env[0].1@ == app.config.deveco_studio_dir@
    &&& env[1].1@ == app.sdk.root@
    &&& env[2].1@ == app.sdk.root@
    &&& env[3].1@ == app.sdk.version@
    &&& env[4].1@ == app.sdk.version_dir@
    &&& env[5].1@ == app.sdk.root@
    &&& env[6].1@ == native
    &&& env[7].1@ == app.sdk.toolchains_dir@
    &&& llvm_tool(native, env[8].1@, "clang.exe"@)
    &&& exists|sysroot: Seq<char>|
        (open_ended(native) ==> joins_to(sysroot, native, seq!["sysroot"@])) && env[9].1@ == spec_rustflags(
            spec_clang_target(app.config.target@),
            sysroot,
        )
    &&& env[10].1@ == env[8].1@
    &&& llvm_tool(native, env[11].1@, "clang++.exe"@)
    &&& llvm_tool(native, env[12].1@, "llvm-ar.exe"@)
}

proof fn lemma_tool_names_plain()
    ensures
        plain("llvm"@),
        plain("bin"@),
        plain("clang.exe"@),
        plain("clang++.exe"@),
        plain("llvm-ar.exe"@),
        plain("sysroot"@),
{
    reveal_strlit("llvm");
    reveal_strlit("bin");
    reveal_strlit("clang.exe");
    reveal_strlit("clang++.exe");
    reveal_strlit("llvm-ar.exe");
    reveal_strlit("sysroot");
}

fn llvm_tool_path(native_dir: &str, tool: &str) -> (res: String)
    requires
        plain(tool@),
    ensures
        llvm_tool(native_dir@, res@, tool@),
{
    proof {
        lemma_tool_names_plain();
    }
    let parts = components(&["llvm", "bin", tool]);
    assert(views(parts@) =~= seq!["llvm"@, "bin"@, tool@]);
    join_all(native_dir, &parts)
}

fn entry(key: String, value: String) -> (res: (String, String))
    ensures
        res.0 == key,
        res.1 == value,
{
    (key, value)
}

/// The environment that cargo, ohpm and hvigor run in: where DevEco Studio
/// and the SDK lie, and the linker, compilers and flags for the target.
pub fn command_env(app: &AppContext) -> (res: Vec<(String, String)>)
    ensures
        is_command_env(res@, *app),
        forall|i: int, j: int|
            0 <= i < j < res@.len() ==> #[trigger] res@[i].0@ != #[trigger] res@[j].0@,
{
    proof {
        lemma_tool_names_plain();
        lemma_env_keys_distinct(app.config.target@);
    }
    let native = app.sdk.native_dir.as_str();
    let clang_bin = llvm_tool_path(native, "clang.exe");
    let cxx = llvm_tool_path(native, "clang++.exe");
    let ar = llvm_tool_path(native, "llvm-ar.exe");
    let normalized_target = replace_char(app.config.target.as_str(), '-', '_');
    let clang = clang_target(app.config.target.as_str());
    let sysroot_parts = components(&["sysroot"]);
    assert(views(sysroot_parts@) =~= seq!["sysroot"@]);
    let sysroot = join_all(native, &sysroot_parts);
    let upper = to_ascii_upper(normalized_target.as_str());
    let mut flags = concat3("-Clink-arg=--target=", clang.as_str(), " -Clink-arg=--sysroot=");
    flags.append(sysroot.as_str());
    flags.append(" -Clink-arg=-D__MUSL__");
    let mut env: Vec<(String, String)> = Vec::new();
    env.push(entry(owned("DEVECO_STUDIO_HOME"), app.config.deveco_studio_dir.clone()));
    env.push(entry(owned("HARMONY_APP_SDK_ROOT"), app.sdk.root.clone()));
    env.push(entry(owned("OHOS_BASE_SDK_HOME"), app.sdk.root.clone()));
    env.push(entry(owned("HARMONY_APP_SDK_VERSION"), app.sdk.version.clone()));
    env.push(entry(owned("OHOS_SDK_HOME"), app.sdk.version_dir.clone()));
    env.push(entry(owned("DEVECO_SDK_HOME"), app.sdk.root.clone()));
    env.push(entry(owned("OHOS_SDK_NATIVE"), app.sdk.native_dir.clone()));
    env.push(entry(owned("OHOS_SDK_TOOLCHAINS"), app.sdk.toolchains_dir.clone()));
    env.push(entry(concat3("CARGO_TARGET_", upper.as_str(), "_LINKER"), clang_bin.clone()));
    env.push(entry(owned("RUSTFLAGS"), flags));
    env.push(entry(concat2("CC_", normalized_target.as_str()), clang_bin));
    env.push(entry(concat2("CXX_", normalized_target.as_str()), cxx));
    env.push(entry(concat2("AR_", normalized_target.as_str()), ar));
    assert(env_keys(env@) =~= env_keys_for(app.config.target@));
    assert(env@[9].1@ == spec_rustflags(spec_clang_target(app.config.target@), sysroot@));
    assert(open_ended(app.sdk.native_dir@) ==> joins_to(sysroot@, app.sdk.native_dir@, seq!["sysroot"@]));
    assert(env@[8].1@ == clang_bin@);
    assert(env@[10].1@ == env@[8].1@);
    assert forall|i: int, j: int| 0 <= i < j < env@.len() implies #[trigger] env@[i].0@ != #[trigger] env@[j].0@ by {
        assert(env@[i].0@ == env_keys(env@)[i]);
        assert(env@[j].0@ == env_keys(env@)[j]);
        assert(env_keys_for(app.config.target@)[i] != env_keys_for(app.config.target@)[j]);
    }
    env
}

/// The first two characters of every variable name, and the lengths of the
/// fixed names.
proof fn lemma_env_key_shapes()
    ensures
        "DEVECO_STUDIO_HOME"@.len() == 18 && "DEVECO_STUDIO_HOME"@[0] == 'D',
        "HARMONY_APP_SDK_ROOT"@.len() == 20 && "HARMONY_APP_SDK_ROOT"@[0] == 'H',
        "OHOS_BASE_SDK_HOME"@.len() == 18 && "OHOS_BASE_SDK_HOME"@[0] == 'O',
        "HARMONY_APP_SDK_VERSION"@.len() == 23 && "HARMONY_APP_SDK_VERSION"@[0] == 'H',
        "OHOS_SDK_HOME"@.len() == 13 && "OHOS_SDK_HOME"@[0] == 'O',
        "DEVECO_SDK_HOME"@.len() == 15 && "DEVECO_SDK_HOME"@[0] == 'D',
        "OHOS_SDK_NATIVE"@.len() == 15 && "OHOS_SDK_NATIVE"@[0] == 'O',
        "OHOS_SDK_TOOLCHAINS"@.len() == 19 && "OHOS_SDK_TOOLCHAINS"@[0] == 'O',
        "RUSTFLAGS"@.len() == 9 && "RUSTFLAGS"@[0] == 'R',
        "CARGO_TARGET_"@.len() == 13 && "CARGO_TARGET_"@[0] == 'C' && "CARGO_TARGET_"@[1] == 'A',
        "CC_"@.len() == 3 && "CC_"@[0] == 'C' && "CC_"@[1] == 'C',
        "CXX_"@.len() == 4 && "CXX_"@[0] == 'C' && "CXX_"@[1] == 'X',
        "AR_"@.len() == 3 && "AR_"@[0] == 'A' && "AR_"@[1] == 'R',
{
    reveal_strlit("DEVECO_STUDIO_HOME");
    reveal_strlit("HARMONY_APP_SDK_ROOT");
    reveal_strlit("OHOS_BASE_SDK_HOME");
    reveal_strlit("HARMONY_APP_SDK_VERSION");
    reveal_strlit("OHOS_SDK_HOME");
    reveal_strlit("DEVECO_SDK_HOME");
    reveal_strlit("OHOS_SDK_NATIVE");
    reveal_strlit("OHOS_SDK_TOOLCHAINS");
    reveal_strlit("RUSTFLAGS");
    reveal_strlit("CARGO_TARGET_");
    reveal_strlit("CC_");
    reveal_strlit("CXX_");
    reveal_strlit("AR_");
}

/// No two variables of the tools' environment share a name, whatever the
/// target: setting them one after the other loses none of them.
pub proof fn lemma_env_keys_distinct(target: Seq<char>)
    ensures
        forall|i: int, j: int|
            0 <= i < j < env_keys_for(target).len() ==> #[trigger] env_keys_for(target)[i] != #[trigger] env_keys_for(
                target,
            )[j],
{
    lemma_env_key_shapes();
    let k = env_keys_for(target);
    let t = env_target(target);
    let u = ascii_uppercase(t);
    assert(k[8][0] == 'C' && k[8][1] == 'A');
    assert(k[10][0] == 'C' && k[10][1] == 'C');
    assert(k[11][0] == 'C' && k[11][1] == 'X');
    assert(k[12][0] == 'A' && k[12][1] == 'R');
    assert forall|i: int, j: int| 0 <= i < j < k.len() implies #[trigger] k[i] != #[trigger] k[j] by {
        if k[i] == k[j] {
            assert(k[i].len() == k[j].len());
            assert(k[i][0] == k[j][0]);
            if i >= 8 && i != 9 && j >= 8 && j != 9 {
                assert(k[i][1] == k[j][1]);
            }
        }
    }
}

/// Clang is given a target of the same architecture as the Rust target:
/// for an OHOS target `<arch>-unknown-linux-ohos` it is
/// `<arch>-linux-ohos`, but for `armv7`, which clang names `arm`. So the
/// linker flags of the tools' environment build for the ABI of the run.
pub proof fn lemma_clang_target_keeps_arch(arch: Seq<char>, env: Seq<(String, String)>, app: AppContext)
    requires
        crate::sdk::abi_of_target(arch + "-unknown-linux-ohos"@) is Some,
    ensures
        arch != "armv7"@ ==> spec_clang_target(arch + "-unknown-linux-ohos"@) == arch + "-linux-ohos"@,
        arch == "armv7"@ ==> spec_clang_target(arch + "-unknown-linux-ohos"@) == "arm-linux-ohos"@,
        is_command_env(env, app) && app.config.target@ == arch + "-unknown-linux-ohos"@ && arch != "armv7"@
            ==> exists|sysroot: Seq<char>| env[9].1@ == spec_rustflags(arch + "-linux-ohos"@, sysroot),
{
    let t = arch + "-unknown-linux-ohos"@;
    reveal_strlit("-unknown-linux-ohos");
    reveal_strlit("-linux-ohos");
    reveal_strlit("aarch64-unknown-linux-ohos");
    reveal_strlit("armv7-unknown-linux-ohos");
    reveal_strlit("x86_64-unknown-linux-ohos");
    reveal_strlit("loongarch64-unknown-linux-ohos");
    reveal_strlit("aarch64-linux-ohos");
    reveal_strlit("arm-linux-ohos");
    reveal_strlit("x86_64-linux-ohos");
    reveal_strlit("loongarch64-linux-ohos");
    reveal_strlit("armv7");
    assert(arch =~= t.subrange(0, t.len() - 19));
    if t == "aarch64-unknown-linux-ohos"@ {
        assert(arch =~= "aarch64-linux-ohos"@.subrange(0, 7));
        assert(arch + "-linux-ohos"@ =~= "aarch64-linux-ohos"@);
    } else if t == "armv7-unknown-linux-ohos"@ {
        assert(arch =~= "armv7"@);
    } else if t == "x86_64-unknown-linux-ohos"@ {
        assert(arch =~= "x86_64-linux-ohos"@.subrange(0, 6));
        assert(arch + "-linux-ohos"@ =~= "x86_64-linux-ohos"@);
    } else {
        assert(arch =~= "loongarch64-linux-ohos"@.subrange(0, 11));
        assert(arch + "-linux-ohos"@ =~= "loongarch64-linux-ohos"@);
    }
}

} // verus!
