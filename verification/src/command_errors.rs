//! The errors of the `run`, `install`, `compose` and `registry` commands,
//! each with a stable diagnostic code, a message and a help text.
use vstd::prelude::*;
use crate::text::{concat2, to_owned};

verus! {

/// Error type for `wasm run` command failures.
#[derive(Debug, Clone)]
pub enum RunError {
    /// The binary is a core WebAssembly module, not a component.
    CoreModule,
    /// The binary could not be parsed as valid WebAssembly.
    InvalidBinary {
        /// The parser error message.
        reason: String,
    },
    /// The binary has no version header.
    NoVersionHeader,
    /// The pulled image has no manifest.
    NoManifest,
    /// The manifest has no `application/wasm` layer.
    NoWasmLayer,
    /// The component is in the manifest but not in the lockfile.
    NotInLockfile {
        /// The component's manifest key.
        name: String,
    },
    /// The lockfile's registry path is not `host/repository`.
    InvalidRegistryPath {
        /// The registry path found.
        path: String,
        /// The component's manifest key.
        name: String,
    },
    /// The vendored file of the component is missing.
    VendoredFileMissing {
        /// The path looked for.
        path: String,
        /// The component's manifest key.
        name: String,
    },
}

/// The diagnostic code of a [`RunError`].
pub open spec fn run_error_code(e: RunError) -> Seq<char> {
    match e {
        RunError::CoreModule => "wasm::run::core_module"@,
        RunError::InvalidBinary { .. } => "wasm::run::invalid_binary"@,
        RunError::NoVersionHeader => "wasm::run::no_version_header"@,
        RunError::NoManifest => "wasm::run::no_manifest"@,
        RunError::NoWasmLayer => "wasm::run::no_wasm_layer"@,
        RunError::NotInLockfile { .. } => "wasm::run::not_in_lockfile"@,
        RunError::InvalidRegistryPath { .. } => "wasm::run::invalid_registry_path"@,
        RunError::VendoredFileMissing { .. } => "wasm::run::vendored_file_missing"@,
    }
}

/// The help text of a [`RunError`].
pub open spec fn run_error_help(e: RunError) -> Seq<char> {
    match e {
        RunError::CoreModule => "use a tool like `wasm-tools component new` to wrap the module as a component"@,
        RunError::InvalidBinary { reason } => reason@ + "; ensure the file is a valid WebAssembly binary"@,
        RunError::NoVersionHeader => "ensure the file is a valid WebAssembly binary"@,
        RunError::NoManifest => "ensure the OCI reference points to a valid Wasm package"@,
        RunError::NoWasmLayer => "ensure the image contains an `application/wasm` layer"@,
        RunError::NotInLockfile { name } => "run `wasm install "@ + name@ + "` to populate the lockfile"@,
        RunError::InvalidRegistryPath { path, name } => "registry path '"@ + path@ + "' for '"@ + name@ + "' should have format 'host/repository'"@,
        RunError::VendoredFileMissing { path, name } => "'"@ + path@ + "' not found; run `wasm install "@ + name@ + "` to vendor the component"@,
    }
}

/// The message of a [`RunError`].
pub open spec fn run_error_message(e: RunError) -> Seq<char> {
    match e {
        RunError::CoreModule => "only Wasm Components can be executed; this appears to be a core module"@,
        RunError::InvalidBinary { reason } => "invalid Wasm binary: "@ + reason@,
        RunError::NoVersionHeader => "invalid Wasm binary: no version header found"@,
        RunError::NoManifest => "pulled image has no manifest"@,
        RunError::NoWasmLayer => "manifest contains no application/wasm layer"@,
        RunError::NotInLockfile { name } => "component '"@ + name@ + "' is in the manifest but not in the lockfile"@,
        RunError::InvalidRegistryPath { path, name } => "invalid registry path '"@ + path@ + "' in lockfile for '"@ + name@ + "'"@,
        RunError::VendoredFileMissing { path, name } => "vendored file '"@ + path@ + "' not found for component '"@ + name@ + "'"@,
    }
}

impl RunError {
    /// The stable diagnostic code that identifies this failure.
    pub fn code(&self) -> (r: &'static str)
        ensures
            r@ == run_error_code(*self),
    {
        match self {
            RunError::CoreModule => "wasm::run::core_module",
            RunError::InvalidBinary { .. } => "wasm::run::invalid_binary",
            RunError::NoVersionHeader => "wasm::run::no_version_header",
            RunError::NoManifest => "wasm::run::no_manifest",
            RunError::NoWasmLayer => "wasm::run::no_wasm_layer",
            RunError::NotInLockfile { .. } => "wasm::run::not_in_lockfile",
            RunError::InvalidRegistryPath { .. } => "wasm::run::invalid_registry_path",
            RunError::VendoredFileMissing { .. } => "wasm::run::vendored_file_missing",
        }
    }

    /// What the user can do about this failure.
    pub fn help(&self) -> (r: String)
        ensures
            r@ == run_error_help(*self),
    {
        match self {
            RunError::CoreModule => to_owned("use a tool like `wasm-tools component new` to wrap the module as a component"),
            RunError::InvalidBinary { reason } => concat2(reason.as_str(), "; ensure the file is a valid WebAssembly binary"),
            RunError::NoVersionHeader => to_owned("ensure the file is a valid WebAssembly binary"),
            RunError::NoManifest => to_owned("ensure the OCI reference points to a valid Wasm package"),
            RunError::NoWasmLayer => to_owned("ensure the image contains an `application/wasm` layer"),
            RunError::NotInLockfile { name } => concat2(concat2("run `wasm install ", name.as_str()).as_str(), "` to populate the lockfile"),
            RunError::InvalidRegistryPath { path, name } => concat2(concat2(concat2(concat2("registry path '", path.as_str()).as_str(), "' for '").as_str(), name.as_str()).as_str(), "' should have format 'host/repository'"),
            RunError::VendoredFileMissing { path, name } => concat2(concat2(concat2(concat2("'", path.as_str()).as_str(), "' not found; run `wasm install ").as_str(), name.as_str()).as_str(), "` to vendor the component"),
        }
    }

    /// The error's message.
    pub fn message(&self) -> (r: String)
        ensures
            r@ == run_error_message(*self),
    {
        match self {
            RunError::CoreModule => to_owned("only Wasm Components can be executed; this appears to be a core module"),
            RunError::InvalidBinary { reason } => concat2("invalid Wasm binary: ", reason.as_str()),
            RunError::NoVersionHeader => to_owned("invalid Wasm binary: no version header found"),
            RunError::NoManifest => to_owned("pulled image has no manifest"),
            RunError::NoWasmLayer => to_owned("manifest contains no application/wasm layer"),
            RunError::NotInLockfile { name } => concat2(concat2("component '", name.as_str()).as_str(), "' is in the manifest but not in the lockfile"),
            RunError::InvalidRegistryPath { path, name } => concat2(concat2(concat2(concat2("invalid registry path '", path.as_str()).as_str(), "' in lockfile for '").as_str(), name.as_str()).as_str(), "'"),
            RunError::VendoredFileMissing { path, name } => concat2(concat2(concat2(concat2("vendored file '", path.as_str()).as_str(), "' not found for component '").as_str(), name.as_str()).as_str(), "'"),
        }
    }

}

/// Error type for `wasm install` command failures.
#[derive(Debug, Clone)]
pub enum InstallError {
    /// No `wasm.toml` manifest was found in the project.
    NoManifest,
    /// The input could not be resolved as an OCI reference or manifest key.
    InvalidInput {
        /// The input string that could not be resolved.
        input: String,
    },
    /// A dependency string from the manifest could not be parsed as an OCI reference.
    InvalidReference {
        /// The reason the reference is invalid.
        reason: String,
    },
    /// A WIT-style package name could not be resolved via the known-package index.
    UnknownPackage {
        /// The input string that could not be resolved.
        input: String,
    },
    /// Dependency resolution failed: no compatible set of versions exists.
    DependencyConflict {
        /// The explanation of the conflict.
        message: String,
    },
}

/// The diagnostic code of an [`InstallError`].
pub open spec fn install_error_code(e: InstallError) -> Seq<char> {
    match e {
        InstallError::NoManifest => "wasm::install::no_manifest"@,
        InstallError::InvalidInput { .. } => "wasm::install::invalid_input"@,
        InstallError::InvalidReference { .. } => "wasm::install::invalid_reference"@,
        InstallError::UnknownPackage { .. } => "wasm::install::unknown_package"@,
        InstallError::DependencyConflict { .. } => "wasm::install::dependency_conflict"@,
    }
}

/// The help text of an [`InstallError`].
pub open spec fn install_error_help(e: InstallError) -> Seq<char> {
    match e {
        InstallError::NoManifest => "call `wasm init` to create a `wasm.toml` manifest locally\ncall `wasm registry fetch <component>` to fetch the package without affecting the local manifest"@,
        InstallError::InvalidInput { input } => "'"@ + input@ + "' is not a recognized manifest key (e.g., wasi:logging) or OCI reference (e.g., ghcr.io/owner/repo:tag)"@,
        InstallError::InvalidReference { reason } => "check the dependency value in wasm.toml: "@ + reason@,
        InstallError::UnknownPackage { input } => "'"@ + input@ + "' looks like a WIT package name but was not found in the \nregistry index. Try running `wasm registry fetch` first to update \nthe index, or use a full OCI reference instead \n(e.g. ghcr.io/webassembly/wasi/http:latest)"@,
        InstallError::DependencyConflict { .. } => "Run `wasm registry fetch` to update the registry index.\nIf the conflict persists, check for incompatible dependency\nversion constraints in the packages you are installing."@,
    }
}

/// The message of an [`InstallError`].
pub open spec fn install_error_message(e: InstallError) -> Seq<char> {
    match e {
        InstallError::NoManifest => "no local `wasm.toml` manifest found"@,
        InstallError::InvalidInput { input } => "'"@ + input@ + "' is not a valid OCI reference or manifest key"@,
        InstallError::InvalidReference { reason } => "invalid OCI reference in manifest: "@ + reason@,
        InstallError::UnknownPackage { input } => "package '"@ + input@ + "' not found in the registry index"@,
        InstallError::DependencyConflict { message } => "dependency conflict: "@ + message@,
    }
}

impl InstallError {
    /// The stable diagnostic code that identifies this failure.
    pub fn code(&self) -> (r: &'static str)
        ensures
            r@ == install_error_code(*self),
    {
        match self {
            InstallError::NoManifest => "wasm::install::no_manifest",
            InstallError::InvalidInput { .. } => "wasm::install::invalid_input",
            InstallError::InvalidReference { .. } => "wasm::install::invalid_reference",
            InstallError::UnknownPackage { .. } => "wasm::install::unknown_package",
            InstallError::DependencyConflict { .. } => "wasm::install::dependency_conflict",
        }
    }

    /// What the user can do about this failure.
    pub fn help(&self) -> (r: String)
        ensures
            r@ == install_error_help(*self),
    {
        match self {
            InstallError::NoManifest => to_owned("call `wasm init` to create a `wasm.toml` manifest locally\ncall `wasm registry fetch <component>` to fetch the package without affecting the local manifest"),
            InstallError::InvalidInput { input } => concat2(concat2("'", input.as_str()).as_str(), "' is not a recognized manifest key (e.g., wasi:logging) or OCI reference (e.g., ghcr.io/owner/repo:tag)"),
            InstallError::InvalidReference { reason } => concat2("check the dependency value in wasm.toml: ", reason.as_str()),
            InstallError::UnknownPackage { input } => concat2(concat2("'", input.as_str()).as_str(), "' looks like a WIT package name but was not found in the \nregistry index. Try running `wasm registry fetch` first to update \nthe index, or use a full OCI reference instead \n(e.g. ghcr.io/webassembly/wasi/http:latest)"),
            InstallError::DependencyConflict { .. } => to_owned("Run `wasm registry fetch` to update the registry index.\nIf the conflict persists, check for incompatible dependency\nversion constraints in the packages you are installing."),
        }
    }

    /// The error's message.
    pub fn message(&self) -> (r: String)
        ensures
            r@ == install_error_message(*self),
    {
        match self {
            InstallError::NoManifest => to_owned("no local `wasm.toml` manifest found"),
            InstallError::InvalidInput { input } => concat2(concat2("'", input.as_str()).as_str(), "' is not a valid OCI reference or manifest key"),
            InstallError::InvalidReference { reason } => concat2("invalid OCI reference in manifest: ", reason.as_str()),
            InstallError::UnknownPackage { input } => concat2(concat2("package '", input.as_str()).as_str(), "' not found in the registry index"),
            InstallError::DependencyConflict { message } => concat2("dependency conflict: ", message.as_str()),
        }
    }

}

/// Error type for `wasm compose` command failures.
#[derive(Debug, Clone)]
pub enum ComposeError {
    /// No `.wac` files were found in `seams/`.
    NoWacFiles,
    /// The composition name contains path separators.
    InvalidName {
        /// The name given.
        name: String,
    },
    /// The named `.wac` file does not exist.
    WacNotFound {
        /// The name given.
        name: String,
        /// What to try instead.
        hint: String,
    },
}

/// The diagnostic code of a [`ComposeError`].
pub open spec fn compose_error_code(e: ComposeError) -> Seq<char> {
    match e {
        ComposeError::NoWacFiles => "wasm::compose::no_wac_files"@,
        ComposeError::InvalidName { .. } => "wasm::compose::invalid_name"@,
        ComposeError::WacNotFound { .. } => "wasm::compose::wac_not_found"@,
    }
}

/// The help text of a [`ComposeError`].
pub open spec fn compose_error_help(e: ComposeError) -> Seq<char> {
    match e {
        ComposeError::NoWacFiles => "add `.wac` files to the `seams/` directory"@,
        ComposeError::InvalidName { name } => "'"@ + name@ + "' contains path separators; use a plain name like 'foo'"@,
        ComposeError::WacNotFound { name, hint } => "'seams/"@ + name@ + ".wac' not found; "@ + hint@,
    }
}

/// The message of a [`ComposeError`].
pub open spec fn compose_error_message(e: ComposeError) -> Seq<char> {
    match e {
        ComposeError::NoWacFiles => "no .wac files found; add files to `seams/`"@,
        ComposeError::InvalidName { name } => "invalid composition name '"@ + name@ + "': must be a plain name, not a path"@,
        ComposeError::WacNotFound { name, .. } => "WAC file 'seams/"@ + name@ + ".wac' not found"@,
    }
}

impl ComposeError {
    /// The stable diagnostic code that identifies this failure.
    pub fn code(&self) -> (r: &'static str)
        ensures
            r@ == compose_error_code(*self),
    {
        match self {
            ComposeError::NoWacFiles => "wasm::compose::no_wac_files",
            ComposeError::InvalidName { .. } => "wasm::compose::invalid_name",
            ComposeError::WacNotFound { .. } => "wasm::compose::wac_not_found",
        }
    }

    /// What the user can do about this failure.
    pub fn help(&self) -> (r: String)
        ensures
            r@ == compose_error_help(*self),
    {
        match self {
            ComposeError::NoWacFiles => to_owned("add `.wac` files to the `seams/` directory"),
            ComposeError::InvalidName { name } => concat2(concat2("'", name.as_str()).as_str(), "' contains path separators; use a plain name like 'foo'"),
            ComposeError::WacNotFound { name, hint } => concat2(concat2(concat2("'seams/", name.as_str()).as_str(), ".wac' not found; ").as_str(), hint.as_str()),
        }
    }

    /// The error's message.
    pub fn message(&self) -> (r: String)
        ensures
            r@ == compose_error_message(*self),
    {
        match self {
            ComposeError::NoWacFiles => to_owned("no .wac files found; add files to `seams/`"),
            ComposeError::InvalidName { name } => concat2(concat2("invalid composition name '", name.as_str()).as_str(), "': must be a plain name, not a path"),
            ComposeError::WacNotFound { name, .. } => concat2(concat2("WAC file 'seams/", name.as_str()).as_str(), ".wac' not found"),
        }
    }

}

/// Error type for `wasm registry inspect` failures.
#[derive(Debug, Clone)]
pub enum InspectError {
    /// No manifest was found for the reference.
    NoManifest {
        /// The reference inspected.
        reference: String,
    },
    /// The image has no `application/wasm` layer.
    NoWasmLayer {
        /// The reference inspected.
        reference: String,
    },
}

/// The diagnostic code of an [`InspectError`].
pub open spec fn inspect_error_code(e: InspectError) -> Seq<char> {
    match e {
        InspectError::NoManifest { .. } => "wasm::registry::inspect_no_manifest"@,
        InspectError::NoWasmLayer { .. } => "wasm::registry::inspect_no_wasm_layer"@,
    }
}

/// The help text of an [`InspectError`].
pub open spec fn inspect_error_help(e: InspectError) -> Seq<char> {
    match e {
        InspectError::NoManifest { reference } => "verify the reference '"@ + reference@ + "' points to a valid OCI image"@,
        InspectError::NoWasmLayer { reference } => "'"@ + reference@ + "' does not contain an `application/wasm` layer"@,
    }
}

/// The message of an [`InspectError`].
pub open spec fn inspect_error_message(e: InspectError) -> Seq<char> {
    match e {
        InspectError::NoManifest { reference } => "no manifest found for '"@ + reference@ + "'"@,
        InspectError::NoWasmLayer { reference } => "no wasm layers found for '"@ + reference@ + "'"@,
    }
}

impl InspectError {
    /// The stable diagnostic code that identifies this failure.
    pub fn code(&self) -> (r: &'static str)
        ensures
            r@ == inspect_error_code(*self),
    {
        match self {
            InspectError::NoManifest { .. } => "wasm::registry::inspect_no_manifest",
            InspectError::NoWasmLayer { .. } => "wasm::registry::inspect_no_wasm_layer",
        }
    }

    /// What the user can do about this failure.
    pub fn help(&self) -> (r: String)
        ensures
            r@ == inspect_error_help(*self),
    {
        match self {
            InspectError::NoManifest { reference } => concat2(concat2("verify the reference '", reference.as_str()).as_str(), "' points to a valid OCI image"),
            InspectError::NoWasmLayer { reference } => concat2(concat2("'", reference.as_str()).as_str(), "' does not contain an `application/wasm` layer"),
        }
    }

    /// The error's message.
    pub fn message(&self) -> (r: String)
        ensures
            r@ == inspect_error_message(*self),
    {
        match self {
            InspectError::NoManifest { reference } => concat2(concat2("no manifest found for '", reference.as_str()).as_str(), "'"),
            InspectError::NoWasmLayer { reference } => concat2(concat2("no wasm layers found for '", reference.as_str()).as_str(), "'"),
        }
    }

}

/// Error type for `wasm registry sync` failures.
#[derive(Debug, Clone)]
pub enum SyncError {
    /// The sync with the meta-registry failed.
    Degraded {
        /// What went wrong.
        reason: String,
    },
}

/// The diagnostic code of a [`SyncError`].
pub open spec fn sync_error_code(e: SyncError) -> Seq<char> {
    match e {
        SyncError::Degraded { .. } => "wasm::registry::sync_failed"@,
    }
}

/// The help text of a [`SyncError`].
pub open spec fn sync_error_help(e: SyncError) -> Seq<char> {
    match e {
        SyncError::Degraded { reason } => "check your network connection and try again: "@ + reason@,
    }
}

/// The message of a [`SyncError`].
pub open spec fn sync_error_message(e: SyncError) -> Seq<char> {
    match e {
        SyncError::Degraded { reason } => "sync failed: "@ + reason@,
    }
}

impl SyncError {
    /// The stable diagnostic code that identifies this failure.
    pub fn code(&self) -> (r: &'static str)
        ensures
            r@ == sync_error_code(*self),
    {
        match self {
            SyncError::Degraded { .. } => "wasm::registry::sync_failed",
        }
    }

    /// What the user can do about this failure.
    pub fn help(&self) -> (r: String)
        ensures
            r@ == sync_error_help(*self),
    {
        match self {
            SyncError::Degraded { reason } => concat2("check your network connection and try again: ", reason.as_str()),
        }
    }

    /// The error's message.
    pub fn message(&self) -> (r: String)
        ensures
            r@ == sync_error_message(*self),
    {
        match self {
            SyncError::Degraded { reason } => concat2("sync failed: ", reason.as_str()),
        }
    }

}

} // verus!
