//! Where the interpreter and its entry scripts are found.
//!
//! The strategies are tried in a fixed order, and the first that applies
//! wins: an explicit override, then a path fixed at build time, then the
//! virtual environment of a development checkout where it is present, then
//! the runtime packaged with the application where it is present. No
//! system-wide interpreter is ever taken. Nothing here reads the
//! environment or the disk: the caller hands over what it found there.
use vstd::prelude::*;
use vstd::string::*;
use crate::outcome::Operation;

verus! {

/// The platform family, which decides how executables are laid out.
#[derive(Clone, Copy, Debug, PartialEq, Eq, Structural)]
pub enum Platform {
    /// `Scripts/` and a `.exe` suffix.
    Windows,
    /// `bin/` and no suffix.
    Unix,
}

/// The strategy that produced a runtime location.
#[derive(Clone, Copy, Debug, PartialEq, Eq, Structural)]
pub enum Strategy {
    Override,
    Baked,
    DevLocal,
    Packaged,
}

/// The interpreter could not be found by any strategy.
#[derive(Clone, Copy, Debug, PartialEq, Eq, Structural)]
pub enum LocatorError {
    RuntimeNotFound,
}

/// A resolved interpreter path and the strategy that gave it.
#[derive(Clone, Debug, PartialEq, Eq)]
pub struct RuntimeLocation {
    pub path: String,
    pub strategy: Strategy,
}

/// What the caller found in the environment, the build and on disk.
#[derive(Clone, Debug, PartialEq, Eq)]
pub struct LocatorInputs {
    /// The override variable, where it is set.
    pub override_path: Option<String>,
    /// The path fixed at build time, in builds that have one.
    pub baked_path: Option<String>,
    /// The root of the development checkout, in development builds.
    pub source_root: Option<String>,
    /// Whether `dev_local_path` of that root exists.
    pub dev_present: bool,
    /// The application's resource directory, where it could be resolved.
    pub resource_dir: Option<String>,
    /// Whether `packaged_path` of that directory exists.
    pub packaged_present: bool,
    pub platform: Platform,
}

/// The interpreter inside a virtual environment.
pub open spec fn venv_executable(p: Platform) -> Seq<char> {
    match p {
        Platform::Windows => "Scripts/python.exe"@,
        Platform::Unix => "bin/python"@,
    }
}

/// The interpreter inside the packaged runtime.
pub open spec fn packaged_executable(p: Platform) -> Seq<char> {
    match p {
        Platform::Windows => "python.exe"@,
        Platform::Unix => "bin/python"@,
    }
}

/// The development-local interpreter under a checkout's root.
pub open spec fn dev_local(root: Seq<char>, p: Platform) -> Seq<char> {
    root + "/src-python/.venv/"@ + venv_executable(p)
}

/// The packaged interpreter under the resource directory.
pub open spec fn packaged(dir: Seq<char>, p: Platform) -> Seq<char> {
    dir + "/python-runtime/"@ + packaged_executable(p)
}

/// The file name of the entry script for an operation.
pub open spec fn script_name(op: Operation) -> Seq<char> {
    match op {
        Operation::Read => "read_assets_file.py"@,
        Operation::Write => "write_assets_file.py"@,
    }
}

/// The entry script for an operation under the resource directory.
pub open spec fn script(dir: Seq<char>, op: Operation) -> Seq<char> {
    dir + "/src-python/scripts/"@ + script_name(op)
}

/// The first strategy that applies, with the path it gives.
pub open spec fn resolution(i: LocatorInputs) -> Option<(Seq<char>, Strategy)> {
    if i.override_path is Some {
        Some((i.override_path->Some_0@, Strategy::Override))
    } else if i.baked_path is Some {
        Some((i.baked_path->Some_0@, Strategy::Baked))
    } else if i.source_root is Some && i.dev_present {
        Some((dev_local(i.source_root->Some_0@, i.platform), Strategy::DevLocal))
    } else if i.resource_dir is Some && i.packaged_present {
        Some((packaged(i.resource_dir->Some_0@, i.platform), Strategy::Packaged))
    } else {
        None
    }
}

/// The development-local interpreter path under `root`.
pub fn dev_local_path(root: &str, platform: Platform) -> (r: String)
    ensures
        r@ == dev_local(root@, platform),
{
    let mut r = String::from_str(root);
    r.append("/src-python/.venv/");
    match platform {
        Platform::Windows => r.append("Scripts/python.exe"),
        Platform::Unix => r.append("bin/python"),
    }
    r
}

/// The packaged interpreter path under the resource directory `dir`.
pub fn packaged_path(dir: &str, platform: Platform) -> (r: String)
    ensures
        r@ == packaged(dir@, platform),
{
    let mut r = String::from_str(dir);
    r.append("/python-runtime/");
    match platform {
        Platform::Windows => r.append("python.exe"),
        Platform::Unix => r.append("bin/python"),
    }
    r
}

/// The entry script that performs `op`, under the resource directory `dir`.
pub fn script_path(dir: &str, op: Operation) -> (r: String)
    ensures
        r@ == script(dir@, op),
{
    let mut r = String::from_str(dir);
    r.append("/src-python/scripts/");
    match op {
        Operation::Read => r.append("read_assets_file.py"),
        Operation::Write => r.append("write_assets_file.py"),
    }
    r
}

/// Resolves the interpreter by the first strategy that applies, or fails
/// with `RuntimeNotFound` where none does.
pub fn resolve(inputs: &LocatorInputs) -> (r: Result<RuntimeLocation, LocatorError>)
    ensures
        match r {
            Ok(loc) => resolution(*inputs) == Some((loc.path@, loc.strategy)),
            Err(e) => resolution(*inputs) is None && e == LocatorError::RuntimeNotFound,
        },
{
    if let Some(o) = &inputs.override_path {
        return Ok(RuntimeLocation { path: o.clone(), strategy: Strategy::Override });
    }
    if let Some(b) = &inputs.baked_path {
        return Ok(RuntimeLocation { path: b.clone(), strategy: Strategy::Baked });
    }
    if let Some(root) = &inputs.source_root {
        if inputs.dev_present {
            return Ok(
                RuntimeLocation {
                    path: dev_local_path(root.as_str(), inputs.platform),
                    strategy: Strategy::DevLocal,
                },
            );
        }
    }
    if let Some(dir) = &inputs.resource_dir {
        if inputs.packaged_present {
            return Ok(
                RuntimeLocation {
                    path: packaged_path(dir.as_str(), inputs.platform),
                    strategy: Strategy::Packaged,
                },
            );
        }
    }
    Err(LocatorError::RuntimeNotFound)
}

/// An override that is set always wins, whatever else is available.
pub proof fn override_always_wins(i: LocatorInputs)
    requires
        i.override_path is Some,
    ensures
        resolution(i) == Some((i.override_path->Some_0@, Strategy::Override)),
{
}

/// Without an override and without a baked path, the development-local
/// interpreter is chosen where it is present, otherwise the packaged one
/// where that is present, and otherwise none.
pub proof fn dev_local_then_packaged(i: LocatorInputs, root: Seq<char>, dir: Seq<char>)
    requires
        i.override_path is None,
        i.baked_path is None,
        i.resource_dir matches Some(d) && d@ == dir,
        i.source_root matches Some(s) && s@ == root,
    ensures
        i.dev_present ==> resolution(i) == Some((dev_local(root, i.platform), Strategy::DevLocal)),
        !i.dev_present && i.packaged_present ==> resolution(i) == Some(
            (packaged(dir, i.platform), Strategy::Packaged),
        ),
        !i.dev_present && !i.packaged_present ==> resolution(i) is None,
{
}

} // verus!
