//! Planning of a link invocation.
//!
//! Linking hands an already-compiled artifact to the external tool in
//! link mode, together with one library specifier per placeholder to
//! resolve, each a string `<source-unit>:<library-name>:<hex-address>`.
//! The tool rewrites the artifact in place; whether a specifier matched
//! any placeholder plays no part in the reported outcome, which rests on
//! the exit status alone. The child's output streams are discarded so
//! linker chatter does not pollute the caller's output.

use vstd::prelude::*;

use crate::invocation::Invocation;
use crate::invocation::solc;
use crate::invocation::solc_prelude_args;
use crate::invocation::solc_program;

verus! {

/// The flag pair appended for each library specifier: the repeated
/// `--libraries` flag, then the specifier itself, pair after pair in the
/// caller's order.
pub open spec fn library_pair_args(libraries: Seq<Seq<char>>) -> Seq<Seq<char>>
    decreases libraries.len(),
{
    if libraries.len() == 0 {
        Seq::empty()
    } else {
        library_pair_args(libraries.drop_last()).push("--libraries"@).push(libraries.last())
    }
}

/// The whole argument sequence of a link invocation: the platform
/// prelude, the link-mode flag, one flag pair per library specifier in
/// caller order, and the target artifact as the final positional
/// argument.
pub open spec fn link_args(
    shell_wrapped: bool,
    libraries: Seq<Seq<char>>,
    target: Seq<char>,
) -> Seq<Seq<char>> {
    solc_prelude_args(shell_wrapped) + seq!["--link"@] + library_pair_args(libraries)
        + seq![target]
}

/// Plans the linking of `target`, an artifact filename resolved against
/// `path`, which becomes the child's working directory. Nothing can fail
/// here: a directory that cannot serve as working directory, like a
/// missing executable, surfaces as a spawn failure when the process is
/// started, before the tool touches the artifact.
pub fn plan_link(libraries: &Vec<String>, target: String, path: String, shell_wrapped: bool) -> (inv:
    Invocation)
    ensures
        inv.program@ == solc_program(shell_wrapped),
        inv.args.deep_view() == link_args(shell_wrapped, libraries.deep_view(), target@),
        inv.working_dir@ == path@,
        inv.silence_output == true,
{
    let mut inv = solc(shell_wrapped);
    inv.args.push("--link".to_owned());
    let ghost before = inv.args.deep_view();
    proof {
        assert(before =~= solc_prelude_args(shell_wrapped) + seq!["--link"@]);
    }
    let mut j: usize = 0;
    while j < libraries.len()
        invariant
            j <= libraries.len(),
            inv.program@ == solc_program(shell_wrapped),
            inv.args@.len() == before.len() + 2 * j,
            forall|k: int| 0 <= k < before.len() ==> (#[trigger] inv.args@[k])@ == before[k],
            forall|k: int|
                before.len() <= k < before.len() + 2 * j ==> (#[trigger] inv.args@[k])@ == (
                if (k - before.len()) % 2 == 0 {
                    "--libraries"@
                } else {
                    libraries@[(k - before.len()) / 2]@
                }),
        decreases libraries.len() - j,
    {
        inv.args.push("--libraries".to_owned());
        inv.args.push(libraries[j].clone());
        j = j + 1;
    }
    inv.args.push(target);
    proof {
        lemma_library_pair_args_indexed(libraries.deep_view());
        assert(inv.args.deep_view() =~= link_args(
            shell_wrapped,
            libraries.deep_view(),
            target@,
        ));
    }
    inv.working_dir = path;
    inv.silence_output = true;
    inv
}

/// Caller-supplied order is preserved and each specifier stands exactly
/// once: the pair sequence holds two arguments per specifier, the
/// repeated flag at every even offset and the matching specifier right
/// after it.
pub proof fn lemma_library_pair_args_indexed(libraries: Seq<Seq<char>>)
    ensures
        library_pair_args(libraries).len() == 2 * libraries.len(),
        forall|j: int|
            0 <= j < 2 * libraries.len() ==> #[trigger] library_pair_args(libraries)[j] == (
            if j % 2 == 0 {
                "--libraries"@
            } else {
                libraries[j / 2]
            }),
    decreases libraries.len(),
{
    if libraries.len() > 0 {
        lemma_library_pair_args_indexed(libraries.drop_last());
        let n = libraries.len() as int;
        assert forall|j: int| 0 <= j < 2 * n implies #[trigger] library_pair_args(libraries)[j]
            == (if j % 2 == 0 {
            "--libraries"@
        } else {
            libraries[j / 2]
        }) by {
            if j < 2 * (n - 1) {
                assert(library_pair_args(libraries)[j] == library_pair_args(
                    libraries.drop_last(),
                )[j]);
                if j % 2 != 0 {
                    assert(libraries.drop_last()[j / 2] == libraries[j / 2]);
                }
            } else if j == 2 * n - 2 {
                assert(j % 2 == 0);
            } else {
                assert(j == 2 * n - 1);
                assert(j % 2 == 1);
                assert(j / 2 == n - 1);
                assert(library_pair_args(libraries)[j] == libraries.last());
            }
        }
    }
}

/// The target artifact stands last: whatever the specifiers, the final
/// argument of a link invocation names the file to be rewritten in
/// place.
pub proof fn lemma_link_target_last(shell_wrapped: bool, libraries: Seq<Seq<char>>, target: Seq<char>)
    ensures
        link_args(shell_wrapped, libraries, target).len() > 0,
        link_args(shell_wrapped, libraries, target).last() == target,
{
}

} // verus!
