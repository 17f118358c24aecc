//! Build-time packaging: the artifact's name, the choice of the platform
//! triple, and the decisions that follow the bundler's run.
use vstd::prelude::*;
use vstd::string::*;
use crate::text::{opt_view, contains, contains_exec, occurs_at, occurs_at_exec, string_of};

verus! {

/// The word that marks a Windows target in a platform triple.
pub open spec fn windows_marker() -> Seq<char> {
    seq!['w', 'i', 'n', 'd', 'o', 'w', 's']
}

/// A triple names a Windows target when it holds the word `windows`.
pub open spec fn is_windows_triple(triple: Seq<char>) -> bool {
    contains(triple, windows_marker())
}

/// The extension that executables carry on the target: `.exe` on Windows,
/// none elsewhere.
pub open spec fn executable_suffix(triple: Seq<char>) -> Seq<char> {
    if is_windows_triple(triple) {
        seq!['.', 'e', 'x', 'e']
    } else {
        seq![]
    }
}

/// The name of the packaged artifact: `<basename>-<triple>[.exe]`.
pub open spec fn artifact_name(basename: Seq<char>, triple: Seq<char>) -> Seq<char> {
    basename + seq!['-'] + triple + executable_suffix(triple)
}

/// The name under which the bundler writes its output, before the rename.
pub open spec fn bundled_name(basename: Seq<char>, triple: Seq<char>) -> Seq<char> {
    basename + executable_suffix(triple)
}

/// Tells whether `triple` names a Windows target.
pub fn is_windows(triple: &str) -> (r: bool)
    ensures
        r == is_windows_triple(triple@),
{
    let marker: [char; 7] = ['w', 'i', 'n', 'd', 'o', 'w', 's'];
    assert(marker@ =~= windows_marker());
    contains_exec(triple, marker.as_slice())
}

/// Appends the executable extension of `triple`'s target to `s`.
fn push_suffix(s: &mut String, triple: &str)
    ensures
        final(s)@ == old(s)@ + executable_suffix(triple@),
{
    if is_windows(triple) {
        let ext = ".exe";
        proof {
            reveal_strlit(".exe");
        }
        s.append(ext);
        assert(final(s)@ =~= old(s)@ + executable_suffix(triple@));
    } else {
        assert(old(s)@ + executable_suffix(triple@) =~= old(s)@);
    }
}

/// The file name of the packaged artifact for `basename` on `triple`.
pub fn artifact_file_name(basename: &str, triple: &str) -> (r: String)
    ensures
        r@ == artifact_name(basename@, triple@),
{
    let mut s = String::from_str(basename);
    let dash = "-";
    proof {
        reveal_strlit("-");
    }
    s.append(dash);
    s.append(triple);
    push_suffix(&mut s, triple);
    assert(s@ =~= artifact_name(basename@, triple@));
    s
}

/// The file name under which the bundler leaves its output for `triple`.
pub fn bundled_file_name(basename: &str, triple: &str) -> (r: String)
    ensures
        r@ == bundled_name(basename@, triple@),
{
    let mut s = String::from_str(basename);
    push_suffix(&mut s, triple);
    s
}

/// The words that open the toolchain's line naming the host triple.
pub open spec fn host_prefix() -> Seq<char> {
    seq!['h', 'o', 's', 't', ':', ' ']
}

/// Position `p` of `s` begins a line.
pub open spec fn line_starts_at(s: Seq<char>, p: int) -> bool {
    p == 0 || (0 < p <= s.len() && s[p - 1] == '\n')
}

/// A line of `s` that begins at `p` names the host triple.
pub open spec fn host_line_at(s: Seq<char>, p: int) -> bool {
    line_starts_at(s, p) && occurs_at(s, host_prefix(), p)
}

/// Where the line that holds position `p` ends: the next newline at or after
/// `p`, or the end of `s`.
pub open spec fn line_end(s: Seq<char>, p: int) -> int
    decreases s.len() - p,
{
    if p < 0 || p >= s.len() || s[p] == '\n' {
        p
    } else {
        line_end(s, p + 1)
    }
}

/// The first position at or after `p` where a host line begins, if any.
pub open spec fn first_host_line_from(s: Seq<char>, p: int) -> Option<int>
    decreases s.len() + 1 - p,
{
    if p < 0 || p > s.len() {
        None
    } else if host_line_at(s, p) {
        Some(p)
    } else {
        first_host_line_from(s, p + 1)
    }
}

/// The triple named by the toolchain's report `s`: the rest of its first
/// `host: ` line, when that is not empty.
pub open spec fn reported_host_triple(s: Seq<char>) -> Option<Seq<char>> {
    match first_host_line_from(s, 0) {
        Some(p) => {
            let v = s.subrange(p + 6, line_end(s, p + 6));
            if v.len() > 0 {
                Some(v)
            } else {
                None
            }
        },
        None => None,
    }
}

/// The triple named by the toolchain's report `report`, read from its first
/// line of the form `host: <triple>`.
pub fn parse_host_triple(report: &str) -> (r: Option<String>)
    ensures
        r is Some <==> reported_host_triple(report@) is Some,
        r matches Some(t) ==> reported_host_triple(report@) == Some(t@),
{
    let prefix: [char; 6] = ['h', 'o', 's', 't', ':', ' '];
    let pre = prefix.as_slice();
    assert(pre@ =~= host_prefix());
    let n = report.unicode_len();
    let mut p: usize = 0;
    while p <= n
        invariant
            n == report@.len(),
            pre@ == host_prefix(),
            p <= n + 1,
            first_host_line_from(report@, 0) == first_host_line_from(report@, p as int),
        decreases n + 1 - p,
    {
        let starts = p == 0 || report.get_char(p - 1) == '\n';
        let here = occurs_at_exec(report, pre, p);
        if starts && here {
            assert(host_line_at(report@, p as int));
            let start = p + 6;
            let mut e: usize = start;
            while e < n && report.get_char(e) != '\n'
                invariant
                    n == report@.len(),
                    start <= e <= n,
                    line_end(report@, start as int) == line_end(report@, e as int),
                decreases n - e,
            {
                e = e + 1;
            }
            if e == start {
                return None;
            }
            let v = report.substring_char(start, e);
            return Some(string_of(v));
        }
        if p == n {
            assert(first_host_line_from(report@, n + 1) == None::<int>);
            return None;
        }
        p = p + 1;
    }
    None
}

/// Why packaging stopped.
#[derive(Debug, Clone, PartialEq, Eq)]
pub enum PackError {
    /// The bundler ended with the given status, or `None` when it was killed
    /// without one.
    BundlerFailed { code: Option<i32> },
    /// Neither the toolchain nor the environment named a target triple.
    NoTargetTriple,
    /// The bundler reported success but left no file at `expected`, which was
    /// to be renamed to `destination`.
    MissingArtifact { expected: String, destination: String },
}

/// The triple that packaging uses: the one the toolchain reports, else the
/// one the environment holds, else none.
pub open spec fn chosen_triple(report: Option<Seq<char>>, env_target: Option<Seq<char>>) -> Option<Seq<char>> {
    let from_report = match report {
        Some(s) => reported_host_triple(s),
        None => None,
    };
    if from_report is Some {
        from_report
    } else {
        match env_target {
            Some(t) => if t.len() > 0 { Some(t) } else { None },
            None => None,
        }
    }
}

/// Chooses the target triple: the toolchain's report `report` first, then
/// the environment's value `env_target`.
pub fn select_triple(report: Option<&str>, env_target: Option<&str>) -> (r: Result<String, PackError>)
    ensures
        r is Ok <==> chosen_triple(opt_view(report), opt_view(env_target)) is Some,
        r matches Ok(t) ==> chosen_triple(opt_view(report), opt_view(env_target)) == Some(t@),
        r matches Err(e) ==> e == PackError::NoTargetTriple,
{
    if let Some(s) = report {
        if let Some(t) = parse_host_triple(s) {
            return Ok(t);
        }
    }
    match env_target {
        Some(t) => {
            if t.unicode_len() > 0 {
                Ok(string_of(t))
            } else {
                Err(PackError::NoTargetTriple)
            }
        },
        None => Err(PackError::NoTargetTriple),
    }
}

/// The path of `name` inside directory `dir`.
pub open spec fn joined(dir: Seq<char>, name: Seq<char>) -> Seq<char> {
    dir + seq!['/'] + name
}

/// The path of `name` inside directory `dir`.
pub fn join_path(dir: &str, name: &str) -> (r: String)
    ensures
        r@ == joined(dir@, name@),
{
    let mut s = String::from_str(dir);
    let slash = "/";
    proof {
        reveal_strlit("/");
    }
    s.append(slash);
    s.append(name);
    assert(s@ =~= joined(dir@, name@));
    s
}

/// The one rename that packaging performs: the bundler's output `from`
/// becomes the platform-tagged artifact `to`.
#[derive(Debug, Clone, PartialEq, Eq)]
pub struct RenamePlan {
    pub from: String,
    pub to: String,
}

/// The rename that turns the bundler's output in `dist_dir` into the artifact
/// for `triple`.
pub fn rename_plan(dist_dir: &str, basename: &str, triple: &str) -> (r: RenamePlan)
    ensures
        r.from@ == joined(dist_dir@, bundled_name(basename@, triple@)),
        r.to@ == joined(dist_dir@, artifact_name(basename@, triple@)),
{
    let bundled = bundled_file_name(basename, triple);
    let artifact = artifact_file_name(basename, triple);
    RenamePlan { from: join_path(dist_dir, bundled.as_str()), to: join_path(dist_dir, artifact.as_str()) }
}

/// The bundler's exit status means success.
pub open spec fn bundler_succeeded(code: Option<i32>) -> bool {
    code == Some(0i32)
}

/// Accepts the bundler's exit status `code`, or stops packaging with it.
pub fn check_bundler(code: Option<i32>) -> (r: Result<(), PackError>)
    ensures
        r is Ok <==> bundler_succeeded(code),
        r matches Err(e) ==> e == (PackError::BundlerFailed { code }),
{
    match code {
        Some(0i32) => Ok(()),
        _ => Err(PackError::BundlerFailed { code }),
    }
}

/// Accepts `plan` when its source file exists, or stops packaging with an
/// error that names both of its paths.
pub fn confirm_source(plan: RenamePlan, source_exists: bool) -> (r: Result<RenamePlan, PackError>)
    ensures
        r is Ok <==> source_exists,
        r matches Ok(q) ==> q == plan,
        r matches Err(e) ==> e matches PackError::MissingArtifact { expected, destination }
            && expected@ == plan.from@ && destination@ == plan.to@,
{
    if source_exists {
        Ok(plan)
    } else {
        Err(PackError::MissingArtifact { expected: plan.from, destination: plan.to })
    }
}

/// The whole packaging decision after the bundler has run: its exit status
/// `code`, the chosen `triple`, and whether the file it should have written in
/// `dist_dir` exists. `Ok` carries the one rename to perform; any `Err` means
/// no rename at all.
pub fn package_plan(
    code: Option<i32>,
    triple: Result<String, PackError>,
    dist_dir: &str,
    basename: &str,
    source_exists: bool,
) -> (r: Result<RenamePlan, PackError>)
    ensures
        !bundler_succeeded(code) ==> r == Err::<RenamePlan, PackError>(PackError::BundlerFailed { code }),
        bundler_succeeded(code) ==> match triple {
            Err(e) => r == Err::<RenamePlan, PackError>(e),
            Ok(t) => if source_exists {
                r matches Ok(q) && q.from@ == joined(dist_dir@, bundled_name(basename@, t@))
                    && q.to@ == joined(dist_dir@, artifact_name(basename@, t@))
            } else {
                r matches Err(e) && e matches PackError::MissingArtifact { expected, destination }
                    && expected@ == joined(dist_dir@, bundled_name(basename@, t@))
                    && destination@ == joined(dist_dir@, artifact_name(basename@, t@))
            },
        },
{
    match check_bundler(code) {
        Err(e) => Err(e),
        Ok(()) => match triple {
            Err(e) => Err(e),
            Ok(t) => {
                let plan = rename_plan(dist_dir, basename, t.as_str());
                confirm_source(plan, source_exists)
            },
        },
    }
}

/// A packaged artifact's name is the basename, a dash, the triple itself,
/// and `.exe` exactly when the triple names a Windows target.
pub proof fn lemma_artifact_name_shape(basename: Seq<char>, triple: Seq<char>)
    ensures
        ({
            let n = artifact_name(basename, triple);
            let b = basename.len() as int;
            let t = triple.len() as int;
            &&& n.subrange(0, b) == basename
            &&& n[b] == '-'
            &&& n.subrange(b + 1, b + 1 + t) == triple
            &&& is_windows_triple(triple) ==> n.len() == b + 1 + t + 4
                && n.subrange(b + 1 + t, n.len() as int) == seq!['.', 'e', 'x', 'e']
            &&& !is_windows_triple(triple) ==> n.len() == b + 1 + t
        }),
{
    let n = artifact_name(basename, triple);
    let b = basename.len() as int;
    let t = triple.len() as int;
    assert(n.subrange(0, b) =~= basename);
    assert(n.subrange(b + 1, b + 1 + t) =~= triple);
    assert(n.subrange(b + 1 + t, n.len() as int) =~= executable_suffix(triple));
}

/// The bundler's command-line arguments, in order.
pub open spec fn bundler_args(entry: Seq<char>, dist_dir: Seq<char>, work_dir: Seq<char>, basename: Seq<char>) -> Seq<Seq<char>> {
    seq![
        seq!['-', '-', 'o', 'n', 'e', 'f', 'i', 'l', 'e'],
        seq!['-', '-', 'd', 'i', 's', 't', 'p', 'a', 't', 'h'],
        dist_dir,
        seq!['-', '-', 'w', 'o', 'r', 'k', 'p', 'a', 't', 'h'],
        work_dir,
        seq!['-', '-', 's', 'p', 'e', 'c', 'p', 'a', 't', 'h'],
        work_dir,
        seq!['-', '-', 'n', 'a', 'm', 'e'],
        basename,
        entry,
    ]
}

/// The arguments that make the bundler build `entry` into one file named
/// `basename` in `dist_dir`, with its work and spec files in `work_dir`.
pub fn bundler_arguments(entry: &str, dist_dir: &str, work_dir: &str, basename: &str) -> (r: Vec<String>)
    ensures
        r@.map_values(|a: String| a@) == bundler_args(entry@, dist_dir@, work_dir@, basename@),
{
    proof {
        reveal_strlit("--onefile");
        reveal_strlit("--distpath");
        reveal_strlit("--workpath");
        reveal_strlit("--specpath");
        reveal_strlit("--name");
    }
    let onefile = String::from_str("--onefile");
    assert(onefile@ =~= seq!['-', '-', 'o', 'n', 'e', 'f', 'i', 'l', 'e']);
    let distpath = String::from_str("--distpath");
    assert(distpath@ =~= seq!['-', '-', 'd', 'i', 's', 't', 'p', 'a', 't', 'h']);
    let workpath = String::from_str("--workpath");
    assert(workpath@ =~= seq!['-', '-', 'w', 'o', 'r', 'k', 'p', 'a', 't', 'h']);
    let specpath = String::from_str("--specpath");
    assert(specpath@ =~= seq!['-', '-', 's', 'p', 'e', 'c', 'p', 'a', 't', 'h']);
    let name = String::from_str("--name");
    assert(name@ =~= seq!['-', '-', 'n', 'a', 'm', 'e']);
    let r = vec![
        onefile,
        distpath,
        string_of(dist_dir),
        workpath,
        string_of(work_dir),
        specpath,
        string_of(work_dir),
        name,
        string_of(basename),
        string_of(entry),
    ];
    assert(r@.map_values(|a: String| a@) =~= bundler_args(entry@, dist_dir@, work_dir@, basename@));
    r
}

} // verus!
