use vstd::prelude::*;

pub mod manifest;
pub mod platform;
pub mod workflow;

verus! {

/// Name of the staging directory, relative to the project root.
pub const RUN_DIR: &'static str = ".run";

/// Name of the plugin folder inside the staging directory.
pub const PLUGINS_DIR: &'static str = "plugins";

/// Name of the companion source tree, relative to the project root.
pub const COMPANION_DIR: &'static str = "Pumpkin";

/// Remote repository that the companion tree is cloned from.
pub const COMPANION_REPO_URL: &'static str = "https://github.com/Pumpkin-MC/Pumpkin.git";

/// File name of the companion server binary.
pub const SERVER_BINARY: &'static str = "pumpkin";

/// Where the companion build leaves the server binary, relative to the
/// companion tree.
pub const SERVER_BUILD_DIR: &'static str = "target/debug";

/// Name of the local project's manifest file.
pub const MANIFEST_FILE: &'static str = "Cargo.toml";

} // verus!
