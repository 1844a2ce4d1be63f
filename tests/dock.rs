use cargo_dock::{
    build, decimal_text, engine_exit_code, generate, get_docker_tag, load_metadata, plan, push,
    render_dockerfile, render_dockerignore, select_action, Action, ContainerConfig, DockError,
    PackageMetadata, Plan, RawContainer, RawPackage,
};

fn package(name: &str, version: &str, repo: &str, expose: u32) -> PackageMetadata {
    PackageMetadata {
        name: name.to_string(),
        version: version.to_string(),
        docker: ContainerConfig { repo: repo.to_string(), expose },
    }
}

fn raw(with_docker: bool) -> RawPackage {
    RawPackage {
        name: Some("app".to_string()),
        version: Some("0.1.0".to_string()),
        docker: if with_docker {
            Some(RawContainer { repo: Some("me/app".to_string()), expose: Some(8080) })
        } else {
            None
        },
    }
}

const APP_DOCKERFILE: &str = "FROM jimmycuadra/rust:1.70.0 AS builder\nWORKDIR /app\nADD . /app/\nRUN cargo build --release\n\nFROM debian\nWORKDIR /\nCOPY --from=builder /app/target/release/app /app-0.1.0\nEXPOSE 8080\nCMD [\"./app-0.1.0\"]\n";

const IGNORE: &str = ".git\n*/.git\n*/*/.git\n\n.gitignore\n*/.gitignore\n*/*/.gitignore\n\ntarget\n*/target\n*/*/target\n\nDockerfile\n.dockerignore\n";

#[test]
fn tag_is_repository_colon_version() {
    assert_eq!(get_docker_tag(&package("app", "1.2.3", "me/app", 80)), "me/app:1.2.3");
}

#[test]
fn tag_ignores_name_and_port() {
    let a = get_docker_tag(&package("one", "2.0.0", "registry.io/x", 80));
    let b = get_docker_tag(&package("two", "2.0.0", "registry.io/x", 9000));
    assert_eq!(a, b);
    assert_eq!(a, "registry.io/x:2.0.0");
}

#[test]
fn dockerfile_is_rendered_exactly() {
    let text = render_dockerfile("1.70.0", &package("app", "0.1.0", "me/app", 8080));
    assert_eq!(text, APP_DOCKERFILE);
}

#[test]
fn dockerfile_has_one_expose_line_and_artifact() {
    let text = render_dockerfile("1.75.0", &package("web", "3.1.4", "me/web", 443));
    assert_eq!(text.lines().filter(|l| *l == "EXPOSE 443").count(), 1);
    assert!(text.contains("/web-3.1.4"));
    assert!(text.contains("CMD [\"./web-3.1.4\"]"));
    assert!(text.starts_with("FROM jimmycuadra/rust:1.75.0 AS builder\n"));
}

#[test]
fn dockerignore_is_rendered_exactly() {
    let text = render_dockerignore();
    assert_eq!(text, IGNORE);
    for entry in [".git", "target", "Dockerfile", ".dockerignore"] {
        assert!(text.lines().any(|l| l == entry));
    }
}

#[test]
fn generate_renders_both_files_and_repeats() {
    let p = package("app", "0.1.0", "me/app", 8080);
    let first = generate("1.70.0", &p);
    let second = generate("1.70.0", &p);
    assert_eq!(first.dockerfile, APP_DOCKERFILE);
    assert_eq!(first.dockerignore, IGNORE);
    assert_eq!(first.dockerfile, second.dockerfile);
    assert_eq!(first.dockerignore, second.dockerignore);
}

#[test]
fn decimal_text_of_edges() {
    assert_eq!(decimal_text(0), "0");
    assert_eq!(decimal_text(7), "7");
    assert_eq!(decimal_text(10), "10");
    assert_eq!(decimal_text(8080), "8080");
    assert_eq!(decimal_text(u32::MAX), "4294967295");
}

#[test]
fn load_metadata_takes_complete_table() {
    let m = load_metadata(&raw(true)).unwrap();
    assert_eq!(m.name, "app");
    assert_eq!(m.version, "0.1.0");
    assert_eq!(m.docker.repo, "me/app");
    assert_eq!(m.docker.expose, 8080);
}

#[test]
fn load_metadata_rejects_missing_container_table() {
    assert_eq!(load_metadata(&raw(false)).err(), Some(DockError::ConfigParse));
}

#[test]
fn load_metadata_rejects_missing_keys() {
    let mut r = raw(true);
    r.name = None;
    assert_eq!(load_metadata(&r).err(), Some(DockError::ConfigParse));
    let mut r = raw(true);
    r.version = None;
    assert_eq!(load_metadata(&r).err(), Some(DockError::ConfigParse));
    let mut r = raw(true);
    r.docker = Some(RawContainer { repo: None, expose: Some(80) });
    assert_eq!(load_metadata(&r).err(), Some(DockError::ConfigParse));
    let mut r = raw(true);
    r.docker = Some(RawContainer { repo: Some("x".to_string()), expose: None });
    assert_eq!(load_metadata(&r).err(), Some(DockError::ConfigParse));
}

#[test]
fn load_metadata_checks_port_range() {
    let mut r = raw(true);
    r.docker = Some(RawContainer { repo: Some("x".to_string()), expose: Some(-1) });
    assert_eq!(load_metadata(&r).err(), Some(DockError::ConfigParse));
    r.docker = Some(RawContainer { repo: Some("x".to_string()), expose: Some(4294967296) });
    assert_eq!(load_metadata(&r).err(), Some(DockError::ConfigParse));
    r.docker = Some(RawContainer { repo: Some("x".to_string()), expose: Some(4294967295) });
    assert_eq!(load_metadata(&r).unwrap().docker.expose, u32::MAX);
}

#[test]
fn build_and_push_arguments() {
    let p = package("app", "0.1.0", "me/app", 8080);
    assert_eq!(build(&p), vec!["build", "-t", "me/app:0.1.0", "."]);
    assert_eq!(push(&p), vec!["push", "me/app:0.1.0"]);
}

#[test]
fn missing_container_table_fails_every_command() {
    for action in [Action::Generate, Action::Build, Action::Push] {
        assert!(matches!(plan(action, &raw(false)), Err(DockError::ConfigParse)));
    }
}

#[test]
fn plans_for_complete_table() {
    match plan(Action::Build, &raw(true)) {
        Ok(Plan::Engine(args)) => assert_eq!(args, vec!["build", "-t", "me/app:0.1.0", "."]),
        _ => panic!("expected engine arguments"),
    }
    match plan(Action::Push, &raw(true)) {
        Ok(Plan::Engine(args)) => assert_eq!(args, vec!["push", "me/app:0.1.0"]),
        _ => panic!("expected engine arguments"),
    }
    match plan(Action::Generate, &raw(true)) {
        Ok(Plan::Generate(m)) => assert_eq!(m.name, "app"),
        _ => panic!("expected metadata"),
    }
}

#[test]
fn engine_failure_exits_with_one() {
    assert_eq!(engine_exit_code(Some(137)), 1);
    assert_eq!(engine_exit_code(Some(2)), 1);
    assert_eq!(engine_exit_code(None), 1);
    assert_eq!(engine_exit_code(Some(0)), 0);
}

#[test]
fn no_subcommand_prints_usage() {
    assert_eq!(select_action(None), Action::Usage);
    assert!(matches!(plan(Action::Usage, &raw(false)), Ok(Plan::Usage)));
}

#[test]
fn subcommand_names_select_actions() {
    let name = |s: &str| s.to_string();
    assert_eq!(select_action(Some(&name("generate"))), Action::Generate);
    assert_eq!(select_action(Some(&name("build"))), Action::Build);
    assert_eq!(select_action(Some(&name("push"))), Action::Push);
    assert_eq!(select_action(Some(&name("deploy"))), Action::Usage);
}
