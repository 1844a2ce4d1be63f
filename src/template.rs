use vstd::prelude::*;
use crate::metadata::PackageMetadata;

verus! {

/// The indentation that each nonempty template line carries before
/// `unindent` takes it away.
pub const INDENT: &'static str = "        ";

/// The decimal digit for `d`, a number below ten.
pub open spec fn digit_char(d: nat) -> char {
    if d == 0 { '0' }
    else if d == 1 { '1' }
    else if d == 2 { '2' }
    else if d == 3 { '3' }
    else if d == 4 { '4' }
    else if d == 5 { '5' }
    else if d == 6 { '6' }
    else if d == 7 { '7' }
    else if d == 8 { '8' }
    else { '9' }
}

/// The decimal notation of `n`, without sign or leading zeros.
pub open spec fn decimal(n: nat) -> Seq<char>
    decreases n,
{
    if n < 10 {
        seq![digit_char(n)]
    } else {
        decimal(n / 10) + seq![digit_char(n % 10)]
    }
}

/// A template body: each nonempty line indented, each line ended by a newline.
pub open spec fn indented(lines: Seq<Seq<char>>) -> Seq<char>
    decreases lines.len(),
{
    if lines.len() == 0 {
        Seq::empty()
    } else {
        let init = lines.drop_last();
        let line = lines.last();
        indented(init) + (if line.len() == 0 { seq!['\n'] } else { INDENT@ + line + seq!['\n'] })
    }
}

/// A template as it is handed to `unindent`: a leading newline, the body,
/// and the indentation of the closing line.
pub open spec fn template_source(lines: Seq<Seq<char>>) -> Seq<char> {
    seq!['\n'] + indented(lines) + INDENT@
}

/// The name under which the package's built executable is copied into the image.
pub open spec fn artifact(name: Seq<char>, version: Seq<char>) -> Seq<char> {
    name + seq!['-'] + version
}

/// The port declaration of the build file.
pub open spec fn expose_line(port: Seq<char>) -> Seq<char> {
    "EXPOSE "@ + port
}

/// The lines of the build file: a build stage on the toolchain image that
/// compiles the package, then a runtime stage that copies the executable,
/// declares the port and runs it.
pub open spec fn dockerfile_lines(
    toolchain: Seq<char>,
    name: Seq<char>,
    version: Seq<char>,
    port: Seq<char>,
) -> Seq<Seq<char>> {
    seq![
        "FROM jimmycuadra/rust:"@ + toolchain + " AS builder"@,
        "WORKDIR /app"@,
        "ADD . /app/"@,
        "RUN cargo build --release"@,
        Seq::empty(),
        "FROM debian"@,
        "WORKDIR /"@,
        "COPY --from=builder /app/target/release/"@ + name + " /"@ + artifact(name, version),
        expose_line(port),
        "CMD [\"./"@ + artifact(name, version) + "\"]"@,
    ]
}

/// The lines of the ignore file: version-control metadata, build output and
/// the two generated files, a blank line between groups.
pub open spec fn dockerignore_lines() -> Seq<Seq<char>> {
    seq![
        ".git"@, "*/.git"@, "*/*/.git"@, Seq::empty(),
        ".gitignore"@, "*/.gitignore"@, "*/*/.gitignore"@, Seq::empty(),
        "target"@, "*/target"@, "*/*/target"@, Seq::empty(),
        "Dockerfile"@, ".dockerignore"@,
    ]
}

/// What `unindent` makes of a text.
pub uninterp spec fn unindented(s: Seq<char>) -> Seq<char>;

/// Relies on unindent::unindent: drops a leading newline and the run of spaces
/// and tabs that all non-blank lines after the first share; its result depends
/// on the text alone.
#[verifier::external_body]
fn unindent_text(s: &str) -> (r: String)
    ensures
        r@ == unindented(s@),
{
    unindent::unindent(s)
}

/// The decimal notation of a number.
pub fn decimal_text(n: u32) -> (r: String)
    ensures
        r@ == decimal(n as nat),
    decreases n,
{
    let digits = "0123456789";
    let d = n % 10;
    proof {
        reveal_strlit("0123456789");
    }
    let digit = digits.substring_char(d as usize, d as usize + 1);
    assert(digit@ =~= seq![digit_char(d as nat)]);
    if n < 10 {
        String::from_str(digit)
    } else {
        let mut text = decimal_text(n / 10);
        text.append(digit);
        text
    }
}

/// The views of a list of strings.
pub open spec fn string_views(lines: Seq<String>) -> Seq<Seq<char>> {
    lines.map_values(|l: String| l@)
}

/// The body of a template: each nonempty line indented, each line ended by a newline.
pub fn indent_lines(lines: &Vec<String>) -> (r: String)
    ensures
        r@ == indented(string_views(lines@)),
{
    let mut body = String::new();
    let mut i: usize = 0;
    while i < lines.len()
        invariant
            i <= lines@.len(),
            body@ == indented(string_views(lines@.subrange(0, i as int))),
        decreases lines.len() - i,
    {
        let line = &lines[i];
        if line.as_str().unicode_len() > 0 {
            body.append(INDENT);
        }
        body.append(line.as_str());
        body.append("\n");
        proof {
            reveal_strlit("\n");
            let done = string_views(lines@.subrange(0, i as int + 1));
            assert(done.drop_last() =~= string_views(lines@.subrange(0, i as int)));
            assert(done.last() == line@);
        }
        i = i + 1;
    }
    assert(lines@.subrange(0, lines@.len() as int) =~= lines@);
    body
}

/// A template as it is handed to `unindent`.
pub fn template_text(lines: &Vec<String>) -> (r: String)
    ensures
        r@ == template_source(string_views(lines@)),
{
    let mut text = String::from_str("\n");
    let body = indent_lines(lines);
    text.append(body.as_str());
    text.append(INDENT);
    proof {
        reveal_strlit("\n");
    }
    text
}

/// A line made of three parts.
fn joined(a: &str, b: &str, c: &str) -> (r: String)
    ensures
        r@ == a@ + b@ + c@,
{
    let mut line = String::from_str(a);
    line.append(b);
    line.append(c);
    line
}

/// The lines of the build file for a toolchain version, a package name and
/// version, and a port written out in decimal.
pub fn build_file_lines(toolchain: &str, name: &str, version: &str, port: &str) -> (r: Vec<String>)
    ensures
        string_views(r@) == dockerfile_lines(toolchain@, name@, version@, port@),
{
    let artifact_name = joined(name, "-", version);
    let mut lines: Vec<String> = Vec::new();
    lines.push(joined("FROM jimmycuadra/rust:", toolchain, " AS builder"));
    lines.push(String::from_str("WORKDIR /app"));
    lines.push(String::from_str("ADD . /app/"));
    lines.push(String::from_str("RUN cargo build --release"));
    lines.push(String::new());
    lines.push(String::from_str("FROM debian"));
    lines.push(String::from_str("WORKDIR /"));
    let copy_from = joined("COPY --from=builder /app/target/release/", name, " /");
    lines.push(joined(copy_from.as_str(), artifact_name.as_str(), ""));
    lines.push(joined("EXPOSE ", port, ""));
    lines.push(joined("CMD [\"./", artifact_name.as_str(), "\"]"));
    proof {
        reveal_strlit("-");
        reveal_strlit("");
        let want = dockerfile_lines(toolchain@, name@, version@, port@);
        let got = string_views(lines@);
        assert(got.len() == want.len());
        assert(got[0] =~= want[0]);
        assert(got[1] =~= want[1]);
        assert(got[2] =~= want[2]);
        assert(got[3] =~= want[3]);
        assert(got[4] =~= want[4]);
        assert(got[5] =~= want[5]);
        assert(got[6] =~= want[6]);
        assert(got[7] =~= want[7]);
        assert(got[8] =~= want[8]);
        assert(got[9] =~= want[9]);
    }
    assert(string_views(lines@) =~= dockerfile_lines(toolchain@, name@, version@, port@));
    lines
}

/// The lines of the ignore file.
pub fn ignore_file_lines() -> (r: Vec<String>)
    ensures
        string_views(r@) == dockerignore_lines(),
{
    let mut lines: Vec<String> = Vec::new();
    lines.push(String::from_str(".git"));
    lines.push(String::from_str("*/.git"));
    lines.push(String::from_str("*/*/.git"));
    lines.push(String::new());
    lines.push(String::from_str(".gitignore"));
    lines.push(String::from_str("*/.gitignore"));
    lines.push(String::from_str("*/*/.gitignore"));
    lines.push(String::new());
    lines.push(String::from_str("target"));
    lines.push(String::from_str("*/target"));
    lines.push(String::from_str("*/*/target"));
    lines.push(String::new());
    lines.push(String::from_str("Dockerfile"));
    lines.push(String::from_str(".dockerignore"));
    assert(string_views(lines@) =~= dockerignore_lines());
    lines
}

/// The build-file text for the package, built with the given toolchain version.
pub open spec fn dockerfile_text(toolchain: Seq<char>, package: PackageMetadata) -> Seq<char> {
    unindented(template_source(
        dockerfile_lines(toolchain, package.name@, package.version@, decimal(package.docker.expose as nat)),
    ))
}

/// The ignore-file text.
pub open spec fn dockerignore_text() -> Seq<char> {
    unindented(template_source(dockerignore_lines()))
}

/// Renders the build file for the package, built with the given toolchain version.
pub fn render_dockerfile(toolchain: &str, package: &PackageMetadata) -> (r: String)
    ensures
        r@ == dockerfile_text(toolchain@, *package),
{
    let port = decimal_text(package.docker.expose);
    let lines = build_file_lines(toolchain, package.name.as_str(), package.version.as_str(), port.as_str());
    let source = template_text(&lines);
    unindent_text(source.as_str())
}

/// Renders the ignore file, the same for every package.
pub fn render_dockerignore() -> (r: String)
    ensures
        r@ == dockerignore_text(),
{
    let lines = ignore_file_lines();
    let source = template_text(&lines);
    unindent_text(source.as_str())
}

/// The build file declares the port on exactly one line, which no other line
/// equals whatever the toolchain, name and version are, and copies and runs
/// the executable under `name-version`; the ignore file lists version-control
/// metadata, build output and both generated files. Both are stated of the
/// template lines that `unindent` receives.
pub proof fn generated_lines_declare_port_and_artifact(
    toolchain: Seq<char>,
    name: Seq<char>,
    version: Seq<char>,
    port: u32,
)
    ensures
        ({
            let lines = dockerfile_lines(toolchain, name, version, decimal(port as nat));
            &&& lines[8] == expose_line(decimal(port as nat))
            &&& forall|j: int| 0 <= j < lines.len() && j != 8 ==> lines[j] != expose_line(decimal(port as nat))
            &&& lines[7] == "COPY --from=builder /app/target/release/"@ + name + " /"@ + artifact(name, version)
            &&& lines[9] == "CMD [\"./"@ + artifact(name, version) + "\"]"@
        }),
        dockerignore_lines().contains(".git"@),
        dockerignore_lines().contains("target"@),
        dockerignore_lines().contains("Dockerfile"@),
        dockerignore_lines().contains(".dockerignore"@),
{
    let p = decimal(port as nat);
    let lines = dockerfile_lines(toolchain, name, version, p);
    let e = expose_line(p);
    reveal_strlit("EXPOSE ");
    reveal_strlit("FROM jimmycuadra/rust:");
    reveal_strlit("WORKDIR /app");
    reveal_strlit("ADD . /app/");
    reveal_strlit("RUN cargo build --release");
    reveal_strlit("FROM debian");
    reveal_strlit("WORKDIR /");
    reveal_strlit("COPY --from=builder /app/target/release/");
    reveal_strlit("CMD [\"./");
    assert forall|j: int| 0 <= j < lines.len() && j != 8 implies lines[j] != e by {
        if j == 4 {
            assert(lines[j].len() != e.len());
        } else {
            assert(lines[j][0] != e[0]);
        }
    }
    assert(dockerignore_lines()[0] == ".git"@);
    assert(dockerignore_lines()[8] == "target"@);
    assert(dockerignore_lines()[12] == "Dockerfile"@);
    assert(dockerignore_lines()[13] == ".dockerignore"@);
}

/// Generating twice from the same toolchain version and the same metadata
/// gives the same build file; the ignore file is the same on every call.
pub proof fn generation_is_repeatable(
    toolchain1: Seq<char>,
    toolchain2: Seq<char>,
    package1: PackageMetadata,
    package2: PackageMetadata,
)
    requires
        toolchain1 == toolchain2,
        package1.name@ == package2.name@,
        package1.version@ == package2.version@,
        package1.docker.expose == package2.docker.expose,
    ensures
        dockerfile_text(toolchain1, package1) == dockerfile_text(toolchain2, package2),
{
}

} // verus!
