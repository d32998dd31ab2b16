//! The installation plan: the commands that fetch and set up the project,
//! and the command that runs it.

use vstd::prelude::*;
use crate::metadata::ProjectMetadata;
use crate::text::{split_by, split_from, split_text, views_of};

verus! {

/// A kind of project, told by a manifest file in the working directory.
#[derive(Clone, Copy, Debug, PartialEq, Eq, Structural)]
pub enum Ecosystem {
    /// A `Cargo.toml` is present.
    Cargo,
    /// A `package.json` is present.
    Npm,
    /// A `requirements.txt` is present.
    Pip,
}

impl Ecosystem {
    pub open spec fn install_text(self) -> Seq<char> {
        match self {
            Ecosystem::Cargo => "cargo install"@,
            Ecosystem::Npm => "npm install"@,
            Ecosystem::Pip => "pip install -r requirements.txt"@,
        }
    }

    pub open spec fn run_text(self) -> Seq<char> {
        match self {
            Ecosystem::Cargo => "cargo run"@,
            Ecosystem::Npm => "npm start"@,
            Ecosystem::Pip => "python main.py"@,
        }
    }

    /// The command that installs a project of this kind.
    pub fn install_line(&self) -> (r: String)
        ensures
            r@ == self.install_text(),
    {
        match self {
            Ecosystem::Cargo => String::from_str("cargo install"),
            Ecosystem::Npm => String::from_str("npm install"),
            Ecosystem::Pip => String::from_str("pip install -r requirements.txt"),
        }
    }

    /// The command that runs a project of this kind.
    pub fn run_line(&self) -> (r: String)
        ensures
            r@ == self.run_text(),
    {
        match self {
            Ecosystem::Cargo => String::from_str("cargo run"),
            Ecosystem::Npm => String::from_str("npm start"),
            Ecosystem::Pip => String::from_str("python main.py"),
        }
    }
}

/// The first kind whose manifest is present, in the order `Cargo.toml`,
/// `package.json`, `requirements.txt`.
pub open spec fn first_ecosystem(
    has_cargo_manifest: bool,
    has_package_json: bool,
    has_requirements: bool,
) -> Option<Ecosystem> {
    if has_cargo_manifest {
        Some(Ecosystem::Cargo)
    } else if has_package_json {
        Some(Ecosystem::Npm)
    } else if has_requirements {
        Some(Ecosystem::Pip)
    } else {
        None
    }
}

/// Tells the kind of project from which manifest files are present; the
/// first in priority order wins.
pub fn detect_ecosystem(has_cargo_manifest: bool, has_package_json: bool, has_requirements: bool) -> (r:
    Option<Ecosystem>)
    ensures
        r == first_ecosystem(has_cargo_manifest, has_package_json, has_requirements),
{
    if has_cargo_manifest {
        Some(Ecosystem::Cargo)
    } else if has_package_json {
        Some(Ecosystem::Npm)
    } else if has_requirements {
        Some(Ecosystem::Pip)
    } else {
        None
    }
}

/// The usage text when no run command is known.
pub open spec fn placeholder_run() -> Seq<char> {
    "write use command here"@
}

/// Command lines to put in the installation block, and the command for the
/// usage block.
#[derive(Clone, Debug)]
pub struct InstallPlan {
    pub lines: Vec<String>,
    pub run_command: String,
}

impl InstallPlan {
    pub open spec fn lines_view(&self) -> Seq<Seq<char>> {
        views_of(self.lines@)
    }
}

/// An install command counts as given when it is longer than five characters.
pub open spec fn is_explicit(install_command: Seq<char>) -> bool {
    install_command.len() > 5
}

/// Whether the (trimmed) install command is used as it stands, so that no
/// plan needs to be inferred.
pub fn uses_explicit_command(install_command: &str) -> (r: bool)
    ensures
        r == is_explicit(install_command@),
{
    install_command.unicode_len() > 5
}

/// A `git clone` line for each non-empty line of `ls`, in order.
pub open spec fn clone_commands(ls: Seq<Seq<char>>) -> Seq<Seq<char>>
    decreases ls.len(),
{
    if ls.len() == 0 {
        Seq::empty()
    } else if ls.last().len() == 0 {
        clone_commands(ls.drop_last())
    } else {
        clone_commands(ls.drop_last()).push("git clone "@ + ls.last())
    }
}

/// The commands of an inferred plan: a clone of each remote URL, a change
/// into the project's directory, and the install command of its kind if
/// one was told.
pub open spec fn inferred_lines(name: Seq<char>, remote_output: Seq<char>, eco: Option<Ecosystem>) -> Seq<
    Seq<char>,
> {
    let base = clone_commands(split_by(remote_output, "\n"@)).push("cd "@ + name);
    match eco {
        Some(e) => base.push(e.install_text()),
        None => base,
    }
}

/// The run command of an inferred plan.
pub open spec fn inferred_run(eco: Option<Ecosystem>) -> Seq<char> {
    match eco {
        Some(e) => e.run_text(),
        None => placeholder_run(),
    }
}

/// The lines of the plan for a project named `name` whose install command
/// is `install_command`.
pub open spec fn plan_lines(
    install_command: Seq<char>,
    name: Seq<char>,
    remote_output: Seq<char>,
    eco: Option<Ecosystem>,
) -> Seq<Seq<char>> {
    if is_explicit(install_command) {
        split_by(install_command, "&& "@)
    } else {
        inferred_lines(name, remote_output, eco)
    }
}

/// The run command of the plan.
pub open spec fn plan_run(install_command: Seq<char>, eco: Option<Ecosystem>) -> Seq<char> {
    if is_explicit(install_command) {
        placeholder_run()
    } else {
        inferred_run(eco)
    }
}

/// One `git clone` line for each non-empty line of what the version-control
/// tool printed as the remote URL.
pub fn clone_lines(remote_output: &str) -> (r: Vec<String>)
    ensures
        views_of(r@) == clone_commands(split_by(remote_output@, "\n"@)),
{
    proof {
        reveal_strlit("\n");
    }
    let urls = split_text(remote_output, "\n");
    let ghost ls = views_of(urls@);
    let mut out: Vec<String> = Vec::new();
    let mut i: usize = 0;
    assert(ls.subrange(0, 0) =~= Seq::<Seq<char>>::empty());
    while i < urls.len()
        invariant
            i <= urls@.len(),
            ls == views_of(urls@),
            views_of(out@) == clone_commands(ls.subrange(0, i as int)),
        decreases urls@.len() - i,
    {
        assert(ls.subrange(0, i + 1).drop_last() =~= ls.subrange(0, i as int));
        let url = &urls[i];
        if url.as_str().unicode_len() > 0 {
            let mut line = String::from_str("git clone ");
            line.append(url.as_str());
            proof {
                assert(views_of(out@.push(line)) =~= views_of(out@).push(line@));
            }
            out.push(line);
        }
        i = i + 1;
    }
    assert(ls.subrange(0, urls@.len() as int) =~= ls);
    out
}

/// The plan for a command given by the user: one line per `"&& "`-separated
/// piece, and no known run command.
pub fn explicit_plan(install_command: &str) -> (r: InstallPlan)
    ensures
        r.lines_view() == split_by(install_command@, "&& "@),
        r.run_command@ == placeholder_run(),
{
    proof {
        reveal_strlit("&& ");
    }
    InstallPlan {
        lines: split_text(install_command, "&& "),
        run_command: String::from_str("write use command here"),
    }
}

/// The plan inferred for a project named `name`, from the remote-URL query's
/// output and the kind of project told by its manifest files.
pub fn inferred_plan(name: &str, remote_output: &str, eco: Option<Ecosystem>) -> (r: InstallPlan)
    ensures
        r.lines_view() == inferred_lines(name@, remote_output@, eco),
        r.run_command@ == inferred_run(eco),
{
    let mut lines = clone_lines(remote_output);
    let mut cd = String::from_str("cd ");
    cd.append(name);
    proof {
        assert(views_of(lines@.push(cd)) =~= views_of(lines@).push(cd@));
    }
    lines.push(cd);
    match eco {
        Some(e) => {
            let install = e.install_line();
            proof {
                assert(views_of(lines@.push(install)) =~= views_of(lines@).push(install@));
            }
            lines.push(install);
            InstallPlan { lines, run_command: e.run_line() }
        },
        None => InstallPlan { lines, run_command: String::from_str("write use command here") },
    }
}

/// The plan for `meta`: its own install command when one is given,
/// otherwise one inferred from the remote-URL query's output and the kind of
/// project (both unused when the command is given).
pub fn plan_install(meta: &ProjectMetadata, remote_output: &str, eco: Option<Ecosystem>) -> (r:
    InstallPlan)
    ensures
        r.lines_view() == plan_lines(meta.install_command@, meta.name@, remote_output@, eco),
        r.run_command@ == plan_run(meta.install_command@, eco),
{
    if uses_explicit_command(meta.install_command.as_str()) {
        explicit_plan(meta.install_command.as_str())
    } else {
        inferred_plan(meta.name.as_str(), remote_output, eco)
    }
}

/// Without a given command, the install block ends with the install command
/// of the project's kind and the usage block holds its run command; with no
/// kind told, it ends with the change of directory and the usage block keeps
/// the placeholder.
pub proof fn lemma_inferred_plan_ends_with_kind(
    install_command: Seq<char>,
    name: Seq<char>,
    remote_output: Seq<char>,
    eco: Option<Ecosystem>,
)
    requires
        !is_explicit(install_command),
    ensures
        plan_lines(install_command, name, remote_output, eco).len() > 0,
        eco matches Some(e) ==> plan_lines(install_command, name, remote_output, eco).last()
            == e.install_text() && plan_run(install_command, eco) == e.run_text(),
        eco is None ==> plan_lines(install_command, name, remote_output, eco).last() == "cd "@
            + name && plan_run(install_command, eco) == placeholder_run(),
{
}

/// A given command becomes one line per `"&& "`-separated piece, in order,
/// and the usage block keeps the placeholder.
pub proof fn lemma_explicit_plan_splits(
    install_command: Seq<char>,
    name: Seq<char>,
    remote_output: Seq<char>,
    eco: Option<Ecosystem>,
)
    requires
        is_explicit(install_command),
    ensures
        plan_lines(install_command, name, remote_output, eco) == split_by(install_command, "&& "@),
        plan_run(install_command, eco) == placeholder_run(),
{
}

proof fn lemma_split_one_line(rest: Seq<char>, cur: Seq<char>)
    requires
        forall|i: int| 0 <= i < rest.len() ==> rest[i] != '\n',
    ensures
        split_from(rest + "\n"@, "\n"@, cur) == seq![cur + rest, Seq::<char>::empty()],
    decreases rest.len(),
{
    reveal_strlit("\n");
    let s = rest + "\n"@;
    if rest.len() == 0 {
        assert(s =~= "\n"@);
        assert(s.subrange(0, 1) =~= "\n"@);
        assert(s.subrange(1, 1) =~= Seq::<char>::empty());
        assert(split_from(Seq::<char>::empty(), "\n"@, Seq::empty()) == seq![Seq::<char>::empty()]);
        assert(cur + rest =~= cur);
        assert(seq![cur] + seq![Seq::<char>::empty()] =~= seq![cur, Seq::<char>::empty()]);
    } else {
        assert(s.subrange(0, 1)[0] == rest[0]);
        assert(s.subrange(0, 1) != "\n"@);
        assert(s.drop_first() =~= rest.drop_first() + "\n"@);
        lemma_split_one_line(rest.drop_first(), cur.push(rest[0]));
        assert(cur.push(rest[0]) + rest.drop_first() =~= cur + rest);
    }
}

/// When the remote-URL query prints one URL and a line feed, the plan clones
/// that URL once and then changes into the project's directory.
pub proof fn lemma_single_remote_clone(url: Seq<char>, name: Seq<char>, eco: Option<Ecosystem>)
    requires
        url.len() > 0,
        forall|i: int| 0 <= i < url.len() ==> url[i] != '\n',
    ensures
        inferred_lines(name, url + "\n"@, eco).subrange(0, 2) == seq![
            "git clone "@ + url,
            "cd "@ + name,
        ],
        clone_commands(split_by(url + "\n"@, "\n"@)) == seq!["git clone "@ + url],
{
    lemma_split_one_line(url, Seq::empty());
    let ls = split_by(url + "\n"@, "\n"@);
    assert(Seq::<char>::empty() + url =~= url);
    assert(ls.drop_last() =~= seq![url]);
    assert(seq![url].drop_last() =~= Seq::<Seq<char>>::empty());
    assert(clone_commands(Seq::<Seq<char>>::empty()) == Seq::<Seq<char>>::empty());
    assert(clone_commands(seq![url]) =~= seq!["git clone "@ + url]);
    assert(inferred_lines(name, url + "\n"@, eco).subrange(0, 2) =~= seq![
        "git clone "@ + url,
        "cd "@ + name,
    ]);
}

} // verus!
