//! The sandbox: a per-run overlay copy of the workspace, its paths, and the
//! steps that commit overlay changes back and push them.

use vstd::prelude::*;
use vstd::string::*;
use crate::components::{strip_by_components, strip_components};
use crate::text::{
    chars_of, concat2, concat3, decimal, decimal_string, is_prefix, owned, starts_with_str,
    str_eq, string_from, string_views,
};

verus! {

/// `rel` appended to `base` as `PathBuf::join` does on Unix: an absolute
/// `rel` replaces `base`; otherwise a `/` goes between them unless `base` is
/// empty or already ends in one.
pub open spec fn path_join(base: Seq<char>, rel: Seq<char>) -> Seq<char> {
    if rel.len() > 0 && rel[0] == '/' {
        rel
    } else if base.len() == 0 || base.last() == '/' {
        base + rel
    } else {
        base + "/"@ + rel
    }
}

/// A path that `path_join` puts in place of its base.
pub open spec fn is_absolute(p: Seq<char>) -> bool {
    p.len() > 0 && p[0] == '/'
}

/// A relative path joined to a base stays under the base.
pub proof fn lemma_join_stays_under(base: Seq<char>, rel: Seq<char>)
    requires
        !is_absolute(rel),
    ensures
        is_prefix(base, path_join(base, rel)),
{
    let j = path_join(base, rel);
    if base.len() == 0 || base.last() == '/' {
        assert(j.subrange(0, base.len() as int) =~= base);
    } else {
        assert(j.subrange(0, base.len() as int) =~= base);
    }
}

/// Whether `path_join` would put `p` in place of its base.
pub fn absolute_path(p: &str) -> (r: bool)
    ensures
        r == is_absolute(p@),
{
    let v = chars_of(p);
    v.len() > 0 && v[0] == '/'
}

/// Joins two paths.
pub fn join_path(base: &str, rel: &str) -> (r: String)
    ensures
        r@ == path_join(base@, rel@),
{
    let b = chars_of(base);
    let v = chars_of(rel);
    if v.len() > 0 && v[0] == '/' {
        owned(rel)
    } else if b.len() == 0 || b[b.len() - 1] == '/' {
        concat2(base, rel)
    } else {
        concat3(base, "/", rel)
    }
}

/// A program to run, with its arguments and working directory.
#[derive(Clone, Debug)]
pub struct CommandSpec {
    pub cwd: String,
    pub program: String,
    pub args: Vec<String>,
}

/// One step of a sandbox operation.
#[derive(Clone, Debug)]
pub enum SandboxStep {
    /// Copy every file under `from` to the same place under `to`.
    CopyTree { from: String, to: String },
    /// Run a command; the operation fails if it fails.
    Run(CommandSpec),
    /// Append a line to the sandbox log.
    Log(String),
}

/// A command spec with the given parts.
pub open spec fn is_command(c: CommandSpec, cwd: Seq<char>, program: Seq<char>, args: Seq<Seq<char>>) -> bool {
    c.cwd@ == cwd && c.program@ == program && string_views(c.args@) == args
}

#[derive(Debug, Clone)]
pub struct Sandbox {
    pub workspace_root: String,
    pub overlay_root: String,
    pub run_dir: String,
    pub run_id: String,
}

/// The directory under which runs keep their files.
pub open spec fn runs_dir(workspace_root: Seq<char>) -> Seq<char> {
    path_join(path_join(workspace_root, ".gorkforge"@), "runs"@)
}

/// The run identifier for a start time in nanoseconds.
pub fn run_id_for(nanos: u128) -> (r: String)
    ensures
        r@ == "run_"@ + decimal(nanos as nat),
{
    let d = decimal_string(nanos);
    concat2("run_", d.as_str())
}

/// The top-level entries of the workspace that the overlay copy leaves out.
pub fn overlay_skip_entries() -> (r: Vec<String>)
    ensures
        string_views(r@) == seq![".git"@, "target"@, ".gorkforge"@],
{
    let mut r: Vec<String> = Vec::new();
    r.push(owned(".git"));
    r.push(owned("target"));
    r.push(owned(".gorkforge"));
    assert(string_views(r@) =~= seq![".git"@, "target"@, ".gorkforge"@]);
    r
}

impl Sandbox {
    /// The sandbox layout for a workspace and run: the run directory is
    /// `.gorkforge/runs/<run_id>` in the workspace, the overlay `overlay` in it.
    pub fn layout(workspace_root: String, run_id: String) -> (r: Sandbox)
        ensures
            r.workspace_root == workspace_root,
            r.run_id == run_id,
            r.run_dir@ == path_join(runs_dir(workspace_root@), run_id@),
            r.overlay_root@ == path_join(r.run_dir@, "overlay"@),
    {
        let g = join_path(workspace_root.as_str(), ".gorkforge");
        let runs = join_path(g.as_str(), "runs");
        let run_dir = join_path(runs.as_str(), run_id.as_str());
        let overlay_root = join_path(run_dir.as_str(), "overlay");
        Sandbox { workspace_root, overlay_root, run_dir, run_id }
    }

    pub fn workspace_path(&self, rel: &str) -> (r: String)
        ensures
            r@ == path_join(self.workspace_root@, rel@),
    {
        join_path(self.workspace_root.as_str(), rel)
    }

    pub fn overlay_path(&self, rel: &str) -> (r: String)
        ensures
            r@ == path_join(self.overlay_root@, rel@),
    {
        join_path(self.overlay_root.as_str(), rel)
    }

    pub fn log_path(&self) -> (r: String)
        ensures
            r@ == path_join(self.run_dir@, "sandbox.log"@),
    {
        join_path(self.run_dir.as_str(), "sandbox.log")
    }

    /// A `git` command run in the workspace.
    fn git(&self, args: Vec<String>) -> (r: SandboxStep)
        ensures
            r matches SandboxStep::Run(c) && c.cwd == self.workspace_root && c.program@ == "git"@
                && c.args == args,
    {
        SandboxStep::Run(
            CommandSpec { cwd: self.workspace_root.clone(), program: owned("git"), args },
        )
    }

    /// Committing: copy the overlay over the workspace, stage everything,
    /// commit with `message`, then log it. The operation's output is that of
    /// the commit command.
    pub fn commit(&self, message: &str) -> (r: Vec<SandboxStep>)
        ensures
            r@.len() == 4,
            r@[0] matches SandboxStep::CopyTree { from, to } && from == self.overlay_root && to
                == self.workspace_root,
            r@[1] matches SandboxStep::Run(c) && is_command(
                c,
                self.workspace_root@,
                "git"@,
                seq!["add"@, "-A"@],
            ),
            r@[2] matches SandboxStep::Run(c) && is_command(
                c,
                self.workspace_root@,
                "git"@,
                seq!["commit"@, "-m"@, message@],
            ),
            r@[3] matches SandboxStep::Log(line) && line@ == "git commit: "@ + message@,
    {
        let mut r: Vec<SandboxStep> = Vec::new();
        r.push(
            SandboxStep::CopyTree { from: self.overlay_root.clone(), to: self.workspace_root.clone() },
        );
        let mut add: Vec<String> = Vec::new();
        add.push(owned("add"));
        add.push(owned("-A"));
        assert(string_views(add@) =~= seq!["add"@, "-A"@]);
        r.push(self.git(add));
        let mut commit: Vec<String> = Vec::new();
        commit.push(owned("commit"));
        commit.push(owned("-m"));
        commit.push(owned(message));
        assert(string_views(commit@) =~= seq!["commit"@, "-m"@, message@]);
        r.push(self.git(commit));
        r.push(SandboxStep::Log(concat2("git commit: ", message)));
        r
    }

    /// Pushing `branch` to `remote`, then logging it. The operation's output
    /// is that of the push command.
    pub fn push(&self, remote: &str, branch: &str) -> (r: Vec<SandboxStep>)
        ensures
            r@.len() == 2,
            r@[0] matches SandboxStep::Run(c) && is_command(
                c,
                self.workspace_root@,
                "git"@,
                seq!["push"@, remote@, branch@],
            ),
            r@[1] matches SandboxStep::Log(line) && line@ == "git push: "@ + remote@ + " "@
                + branch@,
    {
        let mut r: Vec<SandboxStep> = Vec::new();
        let mut args: Vec<String> = Vec::new();
        args.push(owned("push"));
        args.push(owned(remote));
        args.push(owned(branch));
        assert(string_views(args@) =~= seq!["push"@, remote@, branch@]);
        r.push(self.git(args));
        let mut line = concat3("git push: ", remote, " ");
        line.append(branch);
        r.push(SandboxStep::Log(line));
        r
    }
}

/// `path` relative to `base`, as `Path::strip_prefix` gives it: the two are
/// compared component by component, so repeated `/` and `.` pieces do not
/// count, and the rest of `path` comes back without leading or trailing
/// separators.
pub open spec fn strip_path_prefix(path: Seq<char>, base: Seq<char>) -> Option<Seq<char>> {
    strip_components(path, base)
}

/// Removes the base directory from a path.
pub fn strip_prefix_path(path: &str, base: &str) -> (r: Option<String>)
    ensures
        match strip_path_prefix(path@, base@) {
            Some(s) => r matches Some(x) && x@ == s,
            None => r is None,
        },
{
    strip_by_components(path, base)
}

/// Backslashes turned into forward slashes.
pub open spec fn slashes_forward(s: Seq<char>) -> Seq<char> {
    s.map_values(|c: char| if c == '\\' { '/' } else { c })
}

/// Whether the entry `candidate`, found while copying `base`, is covered by
/// the skip entry: its path relative to `base` is the skip entry itself or
/// lies below it.
pub open spec fn skip_matches(skip_entry: Seq<char>, candidate: Seq<char>, base: Seq<char>) -> bool {
    match strip_path_prefix(candidate, base) {
        Some(rel) => rel == skip_entry || is_prefix(slashes_forward(skip_entry) + "/"@, rel),
        None => false,
    }
}

pub fn matches_skip(skip_entry: &str, candidate: &str, base: &str) -> (r: bool)
    ensures
        r == skip_matches(skip_entry@, candidate@, base@),
{
    match strip_prefix_path(candidate, base) {
        Some(rel) => {
            if str_eq(rel.as_str(), skip_entry) {
                return true;
            }
            let v = chars_of(skip_entry);
            let mut norm: Vec<char> = Vec::new();
            let mut i: usize = 0;
            while i < v.len()
                invariant
                    i <= v.len(),
                    v@ == skip_entry@,
                    norm@ == slashes_forward(skip_entry@).subrange(0, i as int),
                decreases v.len() - i,
            {
                if v[i] == '\\' {
                    norm.push('/');
                } else {
                    norm.push(v[i]);
                }
                i = i + 1;
                assert(norm@ =~= slashes_forward(skip_entry@).subrange(0, i as int));
            }
            assert(norm@ =~= slashes_forward(skip_entry@));
            norm.push('/');
            proof {
                reveal_strlit("/");
                assert(norm@ =~= slashes_forward(skip_entry@) + "/"@);
            }
            let prefix = string_from(&norm);
            starts_with_str(rel.as_str(), prefix.as_str())
        },
        None => false,
    }
}

} // verus!
