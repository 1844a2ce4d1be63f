use vstd::prelude::*;

verus! {

/// Container settings of a package: the image repository and the exposed port.
pub struct ContainerConfig {
    pub repo: String,
    pub expose: u32,
}

/// Package metadata that every command needs, read from the manifest.
pub struct PackageMetadata {
    pub name: String,
    pub version: String,
    pub docker: ContainerConfig,
}

/// The container-settings table as found in the manifest, with each key
/// present or absent.
pub struct RawContainer {
    pub repo: Option<String>,
    pub expose: Option<i64>,
}

/// The package table as found in the manifest, with each key present or absent.
pub struct RawPackage {
    pub name: Option<String>,
    pub version: Option<String>,
    pub docker: Option<RawContainer>,
}

/// What can make a command fail before the container engine runs.
#[derive(Debug, Clone, Copy, PartialEq, Eq, Structural)]
pub enum DockError {
    ConfigRead,
    ConfigParse,
    ToolchainVersion,
    Write,
    ProcessSpawn,
}

/// A port number as the manifest gives it fits the port field.
pub open spec fn port_in_range(p: i64) -> bool {
    0 <= p <= u32::MAX
}

/// The manifest table holds every key that a command needs, each of the right kind.
pub open spec fn complete(raw: RawPackage) -> bool {
    &&& raw.name.is_some()
    &&& raw.version.is_some()
    &&& raw.docker.is_some()
    &&& raw.docker.unwrap().repo.is_some()
    &&& raw.docker.unwrap().expose.is_some()
    &&& port_in_range(raw.docker.unwrap().expose.unwrap())
}

/// The metadata holds exactly the values of a complete manifest table.
pub open spec fn loaded_from(m: PackageMetadata, raw: RawPackage) -> bool {
    &&& m.name@ == raw.name.unwrap()@
    &&& m.version@ == raw.version.unwrap()@
    &&& m.docker.repo@ == raw.docker.unwrap().repo.unwrap()@
    &&& m.docker.expose as int == raw.docker.unwrap().expose.unwrap() as int
}

/// The image tag of a repository and a version: `repository:version`.
pub open spec fn tag_of(repo: Seq<char>, version: Seq<char>) -> Seq<char> {
    repo + seq![':'] + version
}

/// Takes the metadata out of a manifest table, all or nothing: any absent key,
/// the container-settings table included, or a port out of range is a parse error.
pub fn load_metadata(raw: &RawPackage) -> (r: Result<PackageMetadata, DockError>)
    ensures
        complete(*raw) <==> r.is_ok(),
        r matches Ok(m) ==> loaded_from(m, *raw),
        r matches Err(e) ==> e == DockError::ConfigParse,
{
    let name = match &raw.name {
        Some(n) => n.clone(),
        None => return Err(DockError::ConfigParse),
    };
    let version = match &raw.version {
        Some(v) => v.clone(),
        None => return Err(DockError::ConfigParse),
    };
    let docker = match &raw.docker {
        Some(d) => d,
        None => return Err(DockError::ConfigParse),
    };
    let repo = match &docker.repo {
        Some(s) => s.clone(),
        None => return Err(DockError::ConfigParse),
    };
    let expose = match docker.expose {
        Some(p) => p,
        None => return Err(DockError::ConfigParse),
    };
    if expose < 0 || expose > u32::MAX as i64 {
        return Err(DockError::ConfigParse);
    }
    Ok(PackageMetadata { name, version, docker: ContainerConfig { repo, expose: expose as u32 } })
}

/// The image tag for the package: its repository, a colon, and its version.
pub fn get_docker_tag(package: &PackageMetadata) -> (r: String)
    ensures
        r@ == tag_of(package.docker.repo@, package.version@),
{
    let mut tag = package.docker.repo.clone();
    tag.append(":");
    tag.append(package.version.as_str());
    proof {
        reveal_strlit(":");
    }
    tag
}

/// The tag depends on the repository and the version alone: two packages that
/// agree on those get the same tag, whatever their names and ports.
pub proof fn tag_ignores_name_and_port(a: PackageMetadata, b: PackageMetadata)
    requires
        a.docker.repo@ == b.docker.repo@,
        a.version@ == b.version@,
    ensures
        tag_of(a.docker.repo@, a.version@) == tag_of(b.docker.repo@, b.version@),
        tag_of(a.docker.repo@, a.version@).len() == a.docker.repo@.len() + 1 + a.version@.len(),
{
}

} // verus!
