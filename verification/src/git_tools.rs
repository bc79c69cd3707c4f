//! The git command lines that the tools run, and how a finished git run is
//! reported.
use vstd::prelude::*;
use vstd::string::*;

use crate::text::{
    owned, concat2, views, join, join_strings, decimal, decimal_string, signed_decimal,
    signed_decimal_string, is_blank, blank,
};

verus! {

/// Credentials for one git host, applied to plain `https://<host>/` URLs.
#[derive(Debug)]
pub struct GitCredential {
    pub host: String,
    pub username: String,
    pub token: String,
}

/// The URL prefix with credentials that stands in for `https://<host>/`.
pub open spec fn authenticated_prefix(c: GitCredential) -> Seq<char> {
    "https://"@ + c.username@ + ":"@ + c.token@ + "@"@ + c.host@ + "/"@
}

/// The git configuration entry that rewrites `https://<host>/` to the URL
/// with credentials.
pub open spec fn rewrite_entry(c: GitCredential) -> Seq<char> {
    "url."@ + authenticated_prefix(c) + ".insteadOf=https://"@ + c.host@ + "/"@
}

/// The `-c` options that every git run gets: all paths count as safe, and
/// each credential rewrites its host's URLs.
pub open spec fn config_args(creds: Seq<GitCredential>) -> Seq<Seq<char>>
    decreases creds.len(),
{
    if creds.len() == 0 {
        seq!["-c"@, "safe.directory=*"@]
    } else {
        config_args(creds.drop_last()) + seq!["-c"@, rewrite_entry(creds.last())]
    }
}

/// The full argument list of a git run: the configuration options, then the
/// tool's own arguments.
pub fn git_invocation(creds: &Vec<GitCredential>, args: &Vec<String>) -> (r: Vec<String>)
    ensures
        views(r@) == config_args(creds@) + views(args@),
{
    let mut r: Vec<String> = Vec::new();
    r.push(owned("-c"));
    r.push(owned("safe.directory=*"));
    let mut i: usize = 0;
    assert(views(r@) =~= config_args(creds@.take(0)));
    while i < creds.len()
        invariant
            i <= creds.len(),
            views(r@) == config_args(creds@.take(i as int)),
        decreases creds.len() - i,
    {
        let c = &creds[i];
        let mut entry = owned("url.https://");
        entry.append(c.username.as_str());
        entry.append(":");
        entry.append(c.token.as_str());
        entry.append("@");
        entry.append(c.host.as_str());
        entry.append("/.insteadOf=https://");
        entry.append(c.host.as_str());
        entry.append("/");
        proof {
            reveal_strlit("url.https://");
            reveal_strlit("url.");
            reveal_strlit("https://");
            reveal_strlit("/.insteadOf=https://");
            reveal_strlit(".insteadOf=https://");
            reveal_strlit("/");
            assert(entry@ =~= rewrite_entry(*c));
        }
        let ghost before = views(r@);
        r.push(owned("-c"));
        r.push(entry);
        assert(creds@.take(i + 1).drop_last() =~= creds@.take(i as int));
        assert(views(r@) =~= before + seq!["-c"@, rewrite_entry(*c)]);
        i += 1;
    }
    let ghost head = views(r@);
    let mut k: usize = 0;
    while k < args.len()
        invariant
            k <= args.len(),
            views(r@) == head + views(args@).take(k as int),
        decreases args.len() - k,
    {
        let c = args[k].clone();
        let ghost before = r@;
        r.push(c);
        assert(r@ == before.push(c));
        assert(views(r@) =~= views(before).push(c@));
        assert(views(args@).take(k + 1) =~= views(args@).take(k as int).push(args@[k as int]@));
        assert(views(r@) =~= head + views(args@).take(k + 1));
        k += 1;
    }
    assert(creds@.take(creds.len() as int) =~= creds@);
    assert(views(args@).take(args.len() as int) =~= views(args@));
    r
}

/// Debug notation of an exit code as `{:?}` prints an `Option<i32>`.
pub open spec fn exit_code_debug(code: Option<i32>) -> Seq<char> {
    match code {
        Some(n) => "Some("@ + signed_decimal(n as int) + ")"@,
        None => "None"@,
    }
}

/// What a finished git run reports: on success its standard output, or when
/// that is blank its error output, or when both are blank `ok`; on failure
/// the command, the exit code and both outputs.
pub open spec fn git_outcome_model(
    args: Seq<Seq<char>>,
    success: bool,
    code: Option<i32>,
    stdout: Seq<char>,
    stderr: Seq<char>,
) -> Result<Seq<char>, Seq<char>> {
    if success {
        Ok(
            if !is_blank(stdout) {
                stdout
            } else if !is_blank(stderr) {
                stderr
            } else {
                "ok"@
            },
        )
    } else {
        Err(
            "git "@ + join(args, " "@) + " failed (exit "@ + exit_code_debug(code) + "):\n"@
                + stdout + stderr,
        )
    }
}

/// The report of a finished git run with the tool arguments `args`.
pub fn git_outcome(
    args: &Vec<String>,
    success: bool,
    code: Option<i32>,
    stdout: &str,
    stderr: &str,
) -> (r: Result<String, String>)
    ensures
        match r {
            Ok(s) => git_outcome_model(views(args@), success, code, stdout@, stderr@) == Ok::<
                Seq<char>,
                Seq<char>,
            >(s@),
            Err(e) => git_outcome_model(views(args@), success, code, stdout@, stderr@) == Err::<
                Seq<char>,
                Seq<char>,
            >(e@),
        },
{
    if success {
        if !blank(stdout) {
            Ok(owned(stdout))
        } else if !blank(stderr) {
            Ok(owned(stderr))
        } else {
            Ok(owned("ok"))
        }
    } else {
        let mut e = owned("git ");
        let joined = join_strings(args, " ");
        e.append(joined.as_str());
        e.append(" failed (exit ");
        match code {
            Some(n) => {
                e.append("Some(");
                let d = signed_decimal_string(n as i64);
                e.append(d.as_str());
                e.append(")");
            },
            None => {
                e.append("None");
            },
        }
        e.append("):\n");
        e.append(stdout);
        e.append(stderr);
        proof {
            assert(e@ =~= "git "@ + join(views(args@), " "@) + " failed (exit "@ + exit_code_debug(
                code,
            ) + "):\n"@ + stdout@ + stderr@);
        }
        Err(e)
    }
}

// ---------------------------------------------------------------------------
// The arguments of each git tool
// ---------------------------------------------------------------------------

/// The arguments of `git clone`, with `--branch` when a branch is asked for.
pub open spec fn clone_args_model(url: Seq<char>, dest: Seq<char>, branch: Option<Seq<char>>) -> Seq<
    Seq<char>,
> {
    seq!["clone"@, url, dest] + match branch {
        Some(b) => seq!["--branch"@, b],
        None => seq![],
    }
}

/// The view of an optional string slice.
pub open spec fn opt_str(o: Option<&str>) -> Option<Seq<char>> {
    match o {
        Some(s) => Some(s@),
        None => None,
    }
}

/// Arguments that clone `url` into `dest`.
pub fn clone_args(url: &str, dest: &str, branch: Option<&str>) -> (r: Vec<String>)
    ensures
        views(r@) == clone_args_model(url@, dest@, opt_str(branch)),
{
    let mut r: Vec<String> = Vec::new();
    r.push(owned("clone"));
    r.push(owned(url));
    r.push(owned(dest));
    match branch {
        Some(b) => {
            r.push(owned("--branch"));
            r.push(owned(b));
        },
        None => {},
    }
    assert(views(r@) =~= clone_args_model(url@, dest@, opt_str(branch)));
    r
}

/// Arguments of the short status with branch information.
pub fn status_args() -> (r: Vec<String>)
    ensures
        views(r@) == seq!["status"@, "--short"@, "--branch"@],
{
    let mut r: Vec<String> = Vec::new();
    r.push(owned("status"));
    r.push(owned("--short"));
    r.push(owned("--branch"));
    assert(views(r@) =~= seq!["status"@, "--short"@, "--branch"@]);
    r
}

/// The arguments of `git add`: the given files, or `.` for all changes when
/// none are given.
pub open spec fn add_args_model(files: Seq<Seq<char>>) -> Seq<Seq<char>> {
    if files.len() == 0 {
        seq!["add"@, "."@]
    } else {
        seq!["add"@] + files
    }
}

/// Arguments that stage `files`, or everything when `files` is empty.
pub fn add_args(files: &Vec<String>) -> (r: Vec<String>)
    ensures
        views(r@) == add_args_model(views(files@)),
{
    let mut r: Vec<String> = Vec::new();
    r.push(owned("add"));
    if files.len() == 0 {
        r.push(owned("."));
        assert(views(r@) =~= add_args_model(views(files@)));
    } else {
        let mut k: usize = 0;
        while k < files.len()
            invariant
                k <= files.len(),
                views(r@) == seq!["add"@] + views(files@).take(k as int),
            decreases files.len() - k,
        {
            let c = files[k].clone();
            let ghost before = r@;
            r.push(c);
            assert(views(r@) =~= views(before).push(c@));
            assert(views(files@).take(k + 1) =~= views(files@).take(k as int).push(files@[k as int]@));
            assert(views(r@) =~= seq!["add"@] + views(files@).take(k + 1));
            k += 1;
        }
        assert(views(files@).take(files.len() as int) =~= views(files@));
    }
    r
}

/// Arguments that commit the staged changes with `message`.
pub fn commit_args(message: &str) -> (r: Vec<String>)
    ensures
        views(r@) == seq!["commit"@, "-m"@, message@],
{
    let mut r: Vec<String> = Vec::new();
    r.push(owned("commit"));
    r.push(owned("-m"));
    r.push(owned(message));
    assert(views(r@) =~= seq!["commit"@, "-m"@, message@]);
    r
}

/// The arguments of `git push` or `git pull`: the remote (`origin` by
/// default), then the branch when one is given.
pub open spec fn remote_args_model(verb: Seq<char>, remote: Option<Seq<char>>, branch: Option<
    Seq<char>,
>) -> Seq<Seq<char>> {
    seq![
        verb,
        match remote {
            Some(r) => r,
            None => "origin"@,
        },
    ] + match branch {
        Some(b) => seq![b],
        None => seq![],
    }
}

fn remote_args(verb: &str, remote: Option<&str>, branch: Option<&str>) -> (r: Vec<String>)
    ensures
        views(r@) == remote_args_model(verb@, opt_str(remote), opt_str(branch)),
{
    let mut r: Vec<String> = Vec::new();
    r.push(owned(verb));
    match remote {
        Some(x) => r.push(owned(x)),
        None => r.push(owned("origin")),
    }
    match branch {
        Some(b) => r.push(owned(b)),
        None => {},
    }
    assert(views(r@) =~= remote_args_model(verb@, opt_str(remote), opt_str(branch)));
    r
}

/// Arguments that push to `remote` (`origin` by default).
pub fn push_args(remote: Option<&str>, branch: Option<&str>) -> (r: Vec<String>)
    ensures
        views(r@) == remote_args_model("push"@, opt_str(remote), opt_str(branch)),
{
    remote_args("push", remote, branch)
}

/// Arguments that pull from `remote` (`origin` by default).
pub fn pull_args(remote: Option<&str>, branch: Option<&str>) -> (r: Vec<String>)
    ensures
        views(r@) == remote_args_model("pull"@, opt_str(remote), opt_str(branch)),
{
    remote_args("pull", remote, branch)
}

/// Arguments that list local and remote branches.
pub fn branch_list_args() -> (r: Vec<String>)
    ensures
        views(r@) == seq!["branch"@, "-a"@],
{
    let mut r: Vec<String> = Vec::new();
    r.push(owned("branch"));
    r.push(owned("-a"));
    assert(views(r@) =~= seq!["branch"@, "-a"@]);
    r
}

/// The arguments of `git checkout`, with `-b` when the branch is to be made.
pub open spec fn checkout_args_model(branch: Seq<char>, create: bool) -> Seq<Seq<char>> {
    if create {
        seq!["checkout"@, "-b"@, branch]
    } else {
        seq!["checkout"@, branch]
    }
}

/// Arguments that check out `branch`, creating it when `create` holds.
pub fn checkout_args(branch: &str, create: bool) -> (r: Vec<String>)
    ensures
        views(r@) == checkout_args_model(branch@, create),
{
    let mut r: Vec<String> = Vec::new();
    r.push(owned("checkout"));
    if create {
        r.push(owned("-b"));
    }
    r.push(owned(branch));
    assert(views(r@) =~= checkout_args_model(branch@, create));
    r
}

/// Arguments that show the unstaged diff, or the staged one.
pub fn diff_args(staged: bool) -> (r: Vec<String>)
    ensures
        views(r@) == (if staged {
            seq!["diff"@, "--staged"@]
        } else {
            seq!["diff"@]
        }),
{
    let mut r: Vec<String> = Vec::new();
    r.push(owned("diff"));
    if staged {
        r.push(owned("--staged"));
    }
    assert(views(r@) =~= (if staged {
        seq!["diff"@, "--staged"@]
    } else {
        seq!["diff"@]
    }));
    r
}

/// Arguments that show the last `limit` commits, one line each.
pub fn log_args(limit: u32) -> (r: Vec<String>)
    ensures
        views(r@) == seq!["log"@, "-"@ + decimal(limit as nat), "--oneline"@, "--decorate"@],
{
    let mut r: Vec<String> = Vec::new();
    r.push(owned("log"));
    let d = decimal_string(limit as u64);
    r.push(concat2("-", d.as_str()));
    r.push(owned("--oneline"));
    r.push(owned("--decorate"));
    assert(views(r@) =~= seq!["log"@, "-"@ + decimal(limit as nat), "--oneline"@, "--decorate"@]);
    r
}

} // verus!
