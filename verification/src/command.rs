//! The remote command line: the arguments of the build tool, with the
//! toolchain selector in front and the default target injected, and the
//! command that runs it in the remote working directory.

use vstd::prelude::*;
use vstd::string::StringExecFns;
use crate::quoting::{build_env_prefix, env_prefix};
use crate::text::{join, push_char, push_joined, text_eq, texts};

verus! {

/// Whether some argument is the flag `--target`.
pub open spec fn names_target(args: Seq<Seq<char>>) -> bool {
    args.contains("--target"@)
}

/// The arguments with the default target appended, unless they name one.
pub open spec fn with_target(args: Seq<Seq<char>>, target: Seq<char>) -> Seq<Seq<char>> {
    if names_target(args) {
        args
    } else {
        args + seq!["--target"@, target]
    }
}

/// The selector token for a toolchain, if one is resolved.
pub open spec fn toolchain_selector(toolchain: Option<Seq<char>>) -> Seq<Seq<char>> {
    match toolchain {
        Some(t) => seq![seq!['+'] + t],
        None => Seq::empty(),
    }
}

/// The arguments handed to the remote build tool: the toolchain selector,
/// the subcommand, then the user's arguments with the target injected.
pub open spec fn cargo_arguments(
    toolchain: Option<Seq<char>>,
    subcommand: Seq<char>,
    args: Seq<Seq<char>>,
    target: Seq<char>,
) -> Seq<Seq<char>> {
    toolchain_selector(toolchain) + seq![subcommand] + with_target(args, target)
}

/// The whole remote command line of a build-tool invocation.
pub open spec fn cargo_command(
    remote_dir: Seq<char>,
    env_vars: Seq<Seq<char>>,
    arguments: Seq<Seq<char>>,
) -> Seq<char> {
    "cd "@ + remote_dir + " && "@ + env_prefix(env_vars) + "cargo "@ + join(
        arguments,
        seq![' '],
    )
}

/// How often `token` stands among `args`.
pub open spec fn occurrences(args: Seq<Seq<char>>, token: Seq<char>) -> nat
    decreases args.len(),
{
    if args.len() == 0 {
        0
    } else {
        occurrences(args.drop_last(), token) + if args.last() == token {
            1nat
        } else {
            0nat
        }
    }
}

/// The user's arguments, with `--target` and the default target appended
/// unless a `--target` flag is among them already.
pub fn inject_target(args: &[String], target: &str) -> (r: Vec<String>)
    ensures
        texts(r@) == with_target(texts(args@), target@),
{
    let ghost all = texts(args@);
    let mut out: Vec<String> = Vec::new();
    let mut has_target = false;
    let mut i: usize = 0;
    while i < args.len()
        invariant
            i <= args.len(),
            all == texts(args@),
            out@.len() == i,
            texts(out@) == all.take(i as int),
            has_target == all.take(i as int).contains("--target"@),
        decreases args.len() - i,
    {
        let ghost seen = all.take(i as int);
        let is_flag = text_eq(args[i].as_str(), "--target");
        out.push(args[i].clone());
        assert(texts(out@) =~= all.take(i + 1)) by {
            assert forall|j: int| 0 <= j < i + 1 implies texts(out@)[j] == all[j] by {
                if j < i {
                    assert(texts(out@)[j] == seen[j]);
                }
            }
        }
        assert(all.take(i + 1).drop_last() =~= seen);
        assert(all.take(i + 1).contains("--target"@) == (seen.contains("--target"@) || is_flag))
            by {
            let next = all.take(i + 1);
            if seen.contains("--target"@) {
                let k = choose|k: int| 0 <= k < seen.len() && seen[k] == "--target"@;
                assert(next[k] == "--target"@);
            }
            if is_flag {
                assert(next[i as int] == "--target"@);
            }
            if next.contains("--target"@) {
                let k = choose|k: int| 0 <= k < next.len() && next[k] == "--target"@;
                if k < i {
                    assert(seen[k] == "--target"@);
                }
            }
        }
        if is_flag {
            has_target = true;
            if i + 1 < args.len() {
                // the token after the flag is its value, whatever it looks like
                i += 1;
                let ghost had = out@;
                out.push(args[i].clone());
                assert(texts(out@) =~= all.take(i + 1)) by {
                    assert forall|j: int| 0 <= j < i + 1 implies texts(out@)[j] == all[j] by {
                        if j < i {
                            assert(texts(had)[j] == all.take(i as int)[j]);
                        }
                    }
                }
                assert(all.take(i + 1)[i - 1] == "--target"@);
            }
        }
        i += 1;
    }
    assert(all.take(args.len() as int) =~= all);
    if !has_target {
        let ghost had = out@;
        out.push(String::from_str("--target"));
        out.push(String::from_str(target));
        assert(texts(out@) =~= all + seq!["--target"@, target@]) by {
            assert forall|j: int| 0 <= j < all.len() implies texts(out@)[j] == all[j] by {
                assert(texts(had)[j] == all[j]);
            }
        }
    }
    out
}

/// The arguments of the remote build tool for one invocation.
pub fn build_cargo_arguments(
    toolchain: Option<&String>,
    subcommand: &str,
    args: &[String],
    target: &str,
) -> (r: Vec<String>)
    ensures
        texts(r@) == cargo_arguments(
            match toolchain {
                Some(t) => Some(t@),
                None => None,
            },
            subcommand@,
            texts(args@),
            target@,
        ),
{
    let mut out: Vec<String> = Vec::new();
    if let Some(t) = toolchain {
        let mut selector = String::new();
        push_char(&mut selector, '+');
        selector.append(t.as_str());
        assert(selector@ =~= seq!['+'] + t@);
        out.push(selector);
    }
    out.push(String::from_str(subcommand));
    let ghost head = out@;
    let mut rest = inject_target(args, target);
    let ghost tail = rest@;
    out.append(&mut rest);
    assert(texts(out@) =~= texts(head) + texts(tail));
    assert(texts(head) =~= toolchain_selector(
        match toolchain {
            Some(t) => Some(t@),
            None => None,
        },
    ) + seq![subcommand@]);
    out
}

/// The remote command line that changes to `remote_dir` and runs the build
/// tool there, with the assignments in front and the arguments behind.
pub fn build_cargo_command(remote_dir: &str, env_vars: &[String], arguments: &[String]) -> (r:
    String)
    ensures
        r@ == cargo_command(remote_dir@, texts(env_vars@), texts(arguments@)),
{
    let mut out = String::from_str("cd ");
    out.append(remote_dir);
    out.append(" && ");
    let prefix = build_env_prefix(env_vars);
    out.append(prefix.as_str());
    out.append("cargo ");
    push_joined(&mut out, arguments, ' ');
    out
}

/// A token that is not among the arguments occurs zero times.
pub proof fn lemma_occurrences_none(args: Seq<Seq<char>>, token: Seq<char>)
    requires
        !args.contains(token),
    ensures
        occurrences(args, token) == 0,
    decreases args.len(),
{
    if args.len() > 0 {
        let front = args.drop_last();
        assert forall|i: int| 0 <= i < front.len() implies front[i] != token by {
            assert(front[i] == args[i]);
            assert(args.contains(args[i]));
        }
        lemma_occurrences_none(front, token);
        assert(args.contains(args.last()));
    }
}

/// Arguments that name a target are handed on as they are: no second
/// `--target` is appended.
pub proof fn law_target_kept(args: Seq<Seq<char>>, target: Seq<char>)
    requires
        names_target(args),
    ensures
        with_target(args, target) == args,
        occurrences(with_target(args, target), "--target"@) == occurrences(args, "--target"@),
{
}

/// Arguments that name no target get exactly one `--target` and the default
/// behind them, at the end; what was there stays in place.
pub proof fn law_target_appended(args: Seq<Seq<char>>, target: Seq<char>)
    requires
        !names_target(args),
    ensures
        with_target(args, target) == args + seq!["--target"@, target],
        with_target(args, target).take(args.len() as int) == args,
        target != "--target"@ ==> occurrences(with_target(args, target), "--target"@) == 1,
{
    let flag = "--target"@;
    let out = with_target(args, target);
    assert(out.take(args.len() as int) =~= args);
    lemma_occurrences_none(args, flag);
    let mid = out.drop_last();
    assert(mid =~= args.push(flag));
    assert(mid.drop_last() =~= args);
    assert(mid.last() == flag);
    assert(out.last() == target);
    assert(occurrences(mid, flag) == 1);
}

} // verus!
