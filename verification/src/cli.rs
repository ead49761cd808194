//! The commands and options of `cargo ohos-app`, as plain values. Parsing the
//! command line into them is done outside the library.
use vstd::prelude::*;

verus! {

/// Options shared by every command. Paths are held as strings.
#[derive(Debug, Clone)]
pub struct CommonArgs {
    pub deveco_studio_dir: Option<String>,
    pub ohpm_path: Option<String>,
    pub sdk_root: Option<String>,
    pub sdk_version: Option<String>,
    pub manifest_path: Option<String>,
    pub target: Option<String>,
    pub abi: Option<Abi>,
    pub out_dir: Option<String>,
    pub bundle_name: Option<String>,
    pub module_name: Option<String>,
    pub release: bool,
    pub dry_run: bool,
}

#[derive(Debug, Clone)]
pub struct InitCommand {
    pub common: CommonArgs,
}

#[derive(Debug, Clone)]
pub struct BuildCommand {
    pub common: CommonArgs,
}

#[derive(Debug, Clone)]
pub struct PackageCommand {
    pub common: CommonArgs,
    pub artifact: PackageArtifact,
    pub skip_init: bool,
    pub skip_rust_build: bool,
}

#[derive(Debug, Clone)]
pub enum Commands {
    Init(InitCommand),
    Build(BuildCommand),
    Package(PackageCommand),
}

#[derive(Debug, Clone)]
pub struct Cli {
    pub command: Commands,
}

/// What `package` produces: a `.hap` module or an `.app` bundle.
#[derive(Debug, Clone, Copy, PartialEq, Eq, Structural)]
pub enum PackageArtifact {
    Hap,
    App,
}

/// The OHOS ABIs that can be built for.
#[derive(Debug, Clone, Copy, PartialEq, Eq, Structural)]
pub enum Abi {
    Arm64V8a,
    ArmeabiV7a,
    X86_64,
    Loongarch64,
}

/// The name by which the command line and OHOS know an ABI.
pub open spec fn abi_name(abi: Abi) -> Seq<char> {
    match abi {
        Abi::Arm64V8a => "arm64-v8a"@,
        Abi::ArmeabiV7a => "armeabi-v7a"@,
        Abi::X86_64 => "x86_64"@,
        Abi::Loongarch64 => "loongarch64"@,
    }
}

impl Abi {
    pub fn as_str(self) -> (s: &'static str)
        ensures
            s@ == abi_name(self),
    {
        match self {
            Abi::Arm64V8a => "arm64-v8a",
            Abi::ArmeabiV7a => "armeabi-v7a",
            Abi::X86_64 => "x86_64",
            Abi::Loongarch64 => "loongarch64",
        }
    }
}

} // verus!
