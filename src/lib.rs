//! Container build-file generation and container-engine command planning
//! for a package described by a manifest with a container-settings table.

pub mod command;
pub mod metadata;
pub mod template;

pub use command::{
    build, engine_exit_code, generate, plan, push, select_action, Action, GeneratedFiles, Plan,
    BUILD_FILE, ENGINE, IGNORE_FILE,
};
pub use metadata::{
    get_docker_tag, load_metadata, ContainerConfig, DockError, PackageMetadata, RawContainer,
    RawPackage,
};
pub use template::{decimal_text, render_dockerfile, render_dockerignore};
