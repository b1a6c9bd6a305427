use vstd::prelude::*;

use rustc_hash::FxHashMap;

use crate::tool::Tool;

verus! {

/// rustc-hash's hasher builder, the third parameter of `FxHashMap`; values of
/// it are only carried inside the environment map.
#[verifier::external_type_specification]
#[verifier::external_body]
pub struct ExFxBuildHasher(rustc_hash::FxBuildHasher);

/// The flag that asks a toolchain binary for its version.
pub const VERSION_FLAG: &'static str = "--version";

/// The root of a toolchain installation, under which its binaries are found;
/// `None` leaves the choice of binary to the environment.
#[derive(Debug)]
pub struct Sysroot {
    pub root: Option<String>,
}

/// The location of a `Cargo.toml`: the directory that holds it and its file name.
#[derive(Debug)]
pub struct ManifestPath {
    pub dir: String,
    pub file_name: String,
}

impl ManifestPath {
    /// The directory that holds the manifest.
    pub fn parent(&self) -> (r: &str)
        ensures
            r@ == self.dir@,
    {
        self.dir.as_str()
    }
}

/// Which tool to ask for its version, and where.
#[derive(Debug)]
pub enum QueryConfig {
    /// Ask `cargo`, in the directory of the given manifest.
    Cargo(Sysroot, ManifestPath),
    /// Ask `rustc`, in the given working directory.
    Rustc(Sysroot, String),
}

/// The tool that `config` asks.
pub open spec fn config_tool(config: QueryConfig) -> Tool {
    match config {
        QueryConfig::Cargo(..) => Tool::Cargo,
        QueryConfig::Rustc(..) => Tool::Rustc,
    }
}

/// The directory that `config` asks in.
pub open spec fn config_dir(config: QueryConfig) -> Seq<char> {
    match config {
        QueryConfig::Cargo(_, manifest) => manifest.dir@,
        QueryConfig::Rustc(_, dir) => dir@,
    }
}

/// The toolchain that `config` asks.
pub open spec fn config_sysroot(config: QueryConfig) -> Sysroot {
    match config {
        QueryConfig::Cargo(sysroot, _) => sysroot,
        QueryConfig::Rustc(sysroot, _) => sysroot,
    }
}

/// A command to run: a toolchain binary, the directory to run it in, its
/// arguments and the environment variables to set for it.
#[derive(Debug)]
pub struct Invocation {
    pub tool: Tool,
    pub sysroot: Sysroot,
    pub current_dir: String,
    pub args: Vec<String>,
    pub envs: FxHashMap<String, String>,
}

/// `inv` is the version query that `config` describes, with the variables of
/// `env` set.
pub open spec fn is_version_query(inv: Invocation, config: QueryConfig, env: Map<String, String>) -> bool {
    &&& inv.tool == config_tool(config)
    &&& inv.sysroot == config_sysroot(config)
    &&& inv.current_dir@ == config_dir(config)
    &&& inv.args@.len() == 1
    &&& inv.args@[0]@ == VERSION_FLAG@
    &&& inv.envs@ == env
}

impl Invocation {
    /// The command that asks the tool of `config` for its version, with every
    /// variable of `extra_env` set.
    pub fn for_query(config: QueryConfig, extra_env: &FxHashMap<String, String>) -> (r: Invocation)
        ensures
            is_version_query(r, config, extra_env@),
    {
        let (tool, sysroot, current_dir) = match config {
            QueryConfig::Cargo(sysroot, manifest) => (Tool::Cargo, sysroot, manifest.dir),
            QueryConfig::Rustc(sysroot, dir) => (Tool::Rustc, sysroot, dir),
        };
        let args = vec![String::from_str(VERSION_FLAG)];
        Invocation { tool, sysroot, current_dir, args, envs: extra_env.clone() }
    }
}

} // verus!
