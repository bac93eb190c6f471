//! Planning of a compile invocation.
//!
//! A compile run takes every recognized source file directly under a
//! directory and hands it to the external compiler with a fixed flag set:
//! emit binary output, emit the interface description, overwrite any
//! pre-existing output files, optimize, and direct all outputs to the
//! canonicalized source directory. The caller that owns the filesystem
//! boundary canonicalizes the path and enumerates the directory; either
//! step may fail there, and the plan then refuses with a resolution
//! failure before any process descriptor exists.

use vstd::prelude::*;

use crate::discovery::selected_names;
use crate::discovery::sol_files;
use crate::invocation::Invocation;
use crate::invocation::OrchestrationError;
use crate::invocation::solc;
use crate::invocation::solc_prelude_args;
use crate::invocation::solc_program;

verus! {

/// The fixed compiler flags of every compile invocation, ending with the
/// output directory: emit binary, emit interface description, overwrite
/// pre-existing outputs, optimize, and write into `out_dir`.
pub open spec fn compile_flag_args(out_dir: Seq<char>) -> Seq<Seq<char>> {
    seq!["--bin"@, "--abi"@, "--overwrite"@, "--optimize"@, "-o"@, out_dir]
}

/// The whole argument sequence of a compile invocation: the platform
/// prelude, the fixed flags, then one positional argument per selected
/// source file, in discovery order.
pub open spec fn compile_args(
    shell_wrapped: bool,
    out_dir: Seq<char>,
    entries: Seq<Option<String>>,
) -> Seq<Seq<char>> {
    solc_prelude_args(shell_wrapped) + compile_flag_args(out_dir) + selected_names(entries)
}

/// Plans the compilation of a directory. `path` is the directory as the
/// caller named it, and becomes the child's working directory;
/// `canonical` is its canonicalized form, `None` when canonicalization
/// failed; `entries` is one name per directory entry, `None` when the
/// directory could not be read. Either `None` refuses the whole operation
/// with a resolution failure, so no process descriptor exists to spawn.
/// Diagnostics of the child are left visible: its output streams are not
/// discarded.
pub fn plan_compile(
    path: String,
    canonical: Option<String>,
    entries: Option<Vec<Option<String>>>,
    shell_wrapped: bool,
) -> (r: Result<Invocation, OrchestrationError>)
    ensures
        r is Ok <==> canonical is Some && entries is Some,
        r is Err ==> r == Err::<Invocation, OrchestrationError>(OrchestrationError::Resolution),
        (r matches Ok(inv) ==> (canonical matches Some(out_dir) ==> (entries matches Some(ent)
            ==> {
            &&& inv.program@ == solc_program(shell_wrapped)
            &&& inv.args.deep_view() == compile_args(shell_wrapped, out_dir@, ent@)
            &&& inv.working_dir@ == path@
            &&& inv.silence_output == false
        }))),
{
    let out_dir = match canonical {
        Some(c) => c,
        None => {
            return Err(OrchestrationError::Resolution);
        },
    };
    let ent = match entries {
        Some(e) => e,
        None => {
            return Err(OrchestrationError::Resolution);
        },
    };
    let ghost out_dir_view = out_dir@;
    let mut inv = solc(shell_wrapped);
    inv.args.push("--bin".to_owned());
    inv.args.push("--abi".to_owned());
    inv.args.push("--overwrite".to_owned());
    inv.args.push("--optimize".to_owned());
    inv.args.push("-o".to_owned());
    inv.args.push(out_dir);
    proof {
        assert(inv.args.deep_view() =~= solc_prelude_args(shell_wrapped) + compile_flag_args(
            out_dir_view,
        ));
    }
    let sources = sol_files(&ent);
    let ghost before = inv.args.deep_view();
    let mut j: usize = 0;
    while j < sources.len()
        invariant
            j <= sources.len(),
            inv.program@ == solc_program(shell_wrapped),
            inv.silence_output == false,
            inv.args@.len() == before.len() + j,
            forall|k: int| 0 <= k < before.len() ==> (#[trigger] inv.args@[k])@ == before[k],
            forall|k: int|
                before.len() <= k < before.len() + j ==> (#[trigger] inv.args@[k])@ == sources@[k
                    - before.len()]@,
        decreases sources.len() - j,
    {
        inv.args.push(sources[j].clone());
        j = j + 1;
    }
    proof {
        assert(inv.args.deep_view() =~= compile_args(shell_wrapped, out_dir_view, ent@));
    }
    inv.working_dir = path;
    Ok(inv)
}

/// Overwriting pre-existing artifacts is always permitted: whatever the
/// directory holds and whatever was selected, the compile invocation
/// carries the overwrite flag, so a recompilation never fails merely
/// because output files already exist.
pub proof fn lemma_compile_always_overwrites(
    shell_wrapped: bool,
    out_dir: Seq<char>,
    entries: Seq<Option<String>>,
)
    ensures
        compile_args(shell_wrapped, out_dir, entries).contains("--overwrite"@),
{
    let args = compile_args(shell_wrapped, out_dir, entries);
    let k = solc_prelude_args(shell_wrapped).len() as int + 2;
    assert(args[k] == "--overwrite"@);
    assert(args.contains("--overwrite"@));
}

/// An empty discovery is not short-circuited: with zero selected source
/// files the invocation still carries the platform prelude and the full
/// fixed flag sequence, and nothing else — the external tool alone decides
/// what an empty job means.
pub proof fn lemma_compile_empty_discovery(
    shell_wrapped: bool,
    out_dir: Seq<char>,
    entries: Seq<Option<String>>,
)
    requires
        selected_names(entries).len() == 0,
    ensures
        compile_args(shell_wrapped, out_dir, entries) == solc_prelude_args(shell_wrapped)
            + compile_flag_args(out_dir),
        compile_args(shell_wrapped, out_dir, entries).len() == solc_prelude_args(
            shell_wrapped,
        ).len() + 6,
{
    assert(compile_args(shell_wrapped, out_dir, entries) =~= solc_prelude_args(shell_wrapped)
        + compile_flag_args(out_dir));
}

/// Every selected source file stands as exactly one positional argument,
/// after the fixed flags and in discovery order.
pub proof fn lemma_compile_positional_sources(
    shell_wrapped: bool,
    out_dir: Seq<char>,
    entries: Seq<Option<String>>,
)
    ensures
        compile_args(shell_wrapped, out_dir, entries).len() == solc_prelude_args(
            shell_wrapped,
        ).len() + 6 + selected_names(entries).len(),
        forall|j: int|
            0 <= j < selected_names(entries).len() ==> compile_args(shell_wrapped, out_dir, entries)[
                solc_prelude_args(shell_wrapped).len() + 6 + j] == #[trigger] selected_names(
                entries,
            )[j],
{
}

} // verus!
