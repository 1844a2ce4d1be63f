use vstd::prelude::*;
use crate::metadata::{complete, get_docker_tag, load_metadata, loaded_from, tag_of, DockError, PackageMetadata, RawPackage};
use crate::template::{dockerfile_text, dockerignore_text, string_views, render_dockerfile, render_dockerignore};

verus! {

/// Name of the generated build file.
pub const BUILD_FILE: &'static str = "Dockerfile";

/// Name of the generated ignore file.
pub const IGNORE_FILE: &'static str = ".dockerignore";

/// Name of the container-engine executable.
pub const ENGINE: &'static str = "docker";

/// The action that the command line asks for.
#[derive(Debug, Clone, Copy, PartialEq, Eq, Structural)]
pub enum Action {
    Usage,
    Generate,
    Build,
    Push,
}

/// The action for the name of the subcommand given under the tool's namespace:
/// `generate`, `build` or `push`; anything else, or none, asks for the usage text.
pub open spec fn action_of(name: Option<Seq<char>>) -> Action {
    match name {
        Some(n) => if n == "generate"@ {
            Action::Generate
        } else if n == "build"@ {
            Action::Build
        } else if n == "push"@ {
            Action::Push
        } else {
            Action::Usage
        },
        None => Action::Usage,
    }
}

/// Picks the action for the subcommand name, if one was given.
pub fn select_action(name: Option<&String>) -> (r: Action)
    ensures
        r == action_of(match name { Some(n) => Some(n@), None => None }),
{
    match name {
        None => Action::Usage,
        Some(n) => {
            if *n == String::from_str("generate") {
                Action::Generate
            } else if *n == String::from_str("build") {
                Action::Build
            } else if *n == String::from_str("push") {
                Action::Push
            } else {
                Action::Usage
            }
        },
    }
}

/// Engine arguments that build the image under a tag from the working directory.
pub open spec fn build_args(tag: Seq<char>) -> Seq<Seq<char>> {
    seq!["build"@, "-t"@, tag, "."@]
}

/// Engine arguments that push the image under a tag.
pub open spec fn push_args(tag: Seq<char>) -> Seq<Seq<char>> {
    seq!["push"@, tag]
}

/// The engine arguments that build the package's image.
pub fn build(package: &PackageMetadata) -> (r: Vec<String>)
    ensures
        string_views(r@) == build_args(tag_of(package.docker.repo@, package.version@)),
{
    let mut args: Vec<String> = Vec::new();
    args.push(String::from_str("build"));
    args.push(String::from_str("-t"));
    args.push(get_docker_tag(package));
    args.push(String::from_str("."));
    assert(string_views(args@) =~= build_args(tag_of(package.docker.repo@, package.version@)));
    args
}

/// The engine arguments that push the package's image.
pub fn push(package: &PackageMetadata) -> (r: Vec<String>)
    ensures
        string_views(r@) == push_args(tag_of(package.docker.repo@, package.version@)),
{
    let mut args: Vec<String> = Vec::new();
    args.push(String::from_str("push"));
    args.push(get_docker_tag(package));
    assert(string_views(args@) =~= push_args(tag_of(package.docker.repo@, package.version@)));
    args
}

/// What an action comes to once the manifest has been read.
pub enum Plan {
    /// Print the usage text; nothing is read, written or run.
    Usage,
    /// Write the two generated files for this package.
    Generate(PackageMetadata),
    /// Run the container engine with these arguments.
    Engine(Vec<String>),
}

/// Decides what an action does with the manifest table. Every action but the
/// usage text loads the metadata first, and fails with a parse error, before
/// any file is written or any process started, where the table is incomplete.
pub fn plan(action: Action, raw: &RawPackage) -> (r: Result<Plan, DockError>)
    ensures
        action == Action::Usage ==> r matches Ok(Plan::Usage),
        action != Action::Usage ==> (r.is_ok() <==> complete(*raw)),
        action != Action::Usage && !complete(*raw) ==> r == Err::<Plan, DockError>(DockError::ConfigParse),
        action != Action::Usage && raw.docker.is_none() ==> r == Err::<Plan, DockError>(DockError::ConfigParse),
        action == Action::Generate && complete(*raw) ==> (r matches Ok(Plan::Generate(m)) && loaded_from(m, *raw)),
        action == Action::Build && complete(*raw) ==> (r matches Ok(Plan::Engine(args))
            && string_views(args@) == build_args(tag_of(raw.docker.unwrap().repo.unwrap()@, raw.version.unwrap()@))),
        action == Action::Push && complete(*raw) ==> (r matches Ok(Plan::Engine(args))
            && string_views(args@) == push_args(tag_of(raw.docker.unwrap().repo.unwrap()@, raw.version.unwrap()@))),
{
    match action {
        Action::Usage => Ok(Plan::Usage),
        Action::Generate => {
            let package = load_metadata(raw)?;
            Ok(Plan::Generate(package))
        },
        Action::Build => {
            let package = load_metadata(raw)?;
            Ok(Plan::Engine(build(&package)))
        },
        Action::Push => {
            let package = load_metadata(raw)?;
            Ok(Plan::Engine(push(&package)))
        },
    }
}

/// The two generated files.
pub struct GeneratedFiles {
    pub dockerfile: String,
    pub dockerignore: String,
}

/// Renders the build file and the ignore file for the package, built with the
/// given toolchain version.
pub fn generate(toolchain: &str, package: &PackageMetadata) -> (r: GeneratedFiles)
    ensures
        r.dockerfile@ == dockerfile_text(toolchain@, *package),
        r.dockerignore@ == dockerignore_text(),
{
    GeneratedFiles { dockerfile: render_dockerfile(toolchain, package), dockerignore: render_dockerignore() }
}

/// The tool's exit code once the engine has finished: 0 where it exited with
/// status 0, else 1, whatever its own status was, or where a signal ended it.
pub fn engine_exit_code(status: Option<i32>) -> (r: i32)
    ensures
        r == (if status == Some(0i32) { 0i32 } else { 1i32 }),
{
    match status {
        Some(0) => 0,
        _ => 1,
    }
}

} // verus!
