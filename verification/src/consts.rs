//! Names and addresses that the rest of the crate agrees on.

use vstd::prelude::*;

verus! {

/// Name of the Casper backend.
pub const ODRA_CASPER_BACKEND: &'static str = "casper";

/// Environment variable that carries the active backend's name.
pub const ODRA_BACKEND_ENV_KEY: &'static str = "ODRA_BACKEND";

/// Environment variable that carries the active contract's name.
pub const ODRA_MODULE_ENV_KEY: &'static str = "ODRA_MODULE";

/// Name under which the framework crate appears in a manifest.
pub const ODRA_CRATE_NAME: &'static str = "odra";

/// Repository that holds the framework and its templates.
pub const ODRA_TEMPLATE_GH_REPO: &'static str = "https://github.com/odradev/odra.git";

/// Base address of the repository's raw files.
pub const ODRA_TEMPLATE_GH_RAW_REPO: &'static str = "https://raw.githubusercontent.com/odradev/odra";

/// Address of the metadata of the latest release.
pub const ODRA_GITHUB_API_DATA: &'static str =
    "https://api.github.com/repos/odradev/odra/releases/latest";

/// Branch used where none is given.
pub const ODRA_TEMPLATE_GH_BRANCH: &'static str = "releases/latest";

/// Name of the default project template.
pub const ODRA_TEMPLATE_DEFAULT_TEMPLATE: &'static str = "full";

/// Name of the module template.
pub const MODULE_TEMPLATE: &'static str = "module";

/// Name of the snippet that registers a module.
pub const MODULE_REGISTER: &'static str = "module_register";

/// File that marks the root of a project and lists its contracts.
pub const ODRA_TOML_FILENAME: &'static str = "Odra.toml";

/// File that holds a crate's build manifest.
pub const CARGO_TOML_FILENAME: &'static str = "Cargo.toml";

/// Compilation target of every contract.
pub const WASM_TARGET: &'static str = "wasm32-unknown-unknown";

/// Pattern of a published version: three dotted runs of digits.
pub const VERSION_PATTERN: &'static str = r"^\d+\.\d+\.\d+$";

/// Prefix of a shared library's file name.
pub const PLATFORM_FILE_PREFIX: &'static str = "lib";

/// Extension of a shared library's file name.
pub const PLATFORM_FILE_EXTENSION: &'static str = "so";

} // verus!
