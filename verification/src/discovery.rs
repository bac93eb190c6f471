//! Selection of compilable source files from a directory's entries.
//!
//! Reading the directory belongs to the caller that owns the filesystem
//! boundary; it hands over one `Option<String>` per entry, `None` for an
//! entry without a representable name. Selection keeps a named entry
//! exactly when its name ends with the recognized source suffix, in the
//! order the entries were handed over — directory enumeration order is
//! platform-dependent and nothing here sorts it.

use vstd::prelude::*;

verus! {

/// A name designates compilable source when its characters end with the
/// recognized suffix `.sol`.
pub open spec fn has_sol_suffix(name: Seq<char>) -> bool {
    &&& name.len() >= 4
    &&& name[name.len() - 4] == '.'
    &&& name[name.len() - 3] == 's'
    &&& name[name.len() - 2] == 'o'
    &&& name[name.len() - 1] == 'l'
}

/// Whether `name` ends with the recognized source suffix.
pub fn is_sol_file(name: &str) -> (r: bool)
    ensures
        r == has_sol_suffix(name@),
{
    let n: usize = name.unicode_len();
    if n < 4 {
        false
    } else {
        name.get_char(n - 4) == '.' && name.get_char(n - 3) == 's' && name.get_char(n - 2) == 'o'
            && name.get_char(n - 1) == 'l'
    }
}

/// The names selected from a directory's entries: entries without a
/// representable name are skipped, and a named entry is kept exactly when
/// its name carries the source suffix. Entry order is preserved.
pub open spec fn selected_names(entries: Seq<Option<String>>) -> Seq<Seq<char>>
    decreases entries.len(),
{
    if entries.len() == 0 {
        Seq::empty()
    } else {
        let rest = selected_names(entries.drop_last());
        match entries.last() {
            Some(name) => if has_sol_suffix(name@) {
                rest.push(name@)
            } else {
                rest
            },
            None => rest,
        }
    }
}

/// Filters a directory's entries down to the source file names, preserving
/// the order in which the entries were enumerated.
pub fn sol_files(entries: &Vec<Option<String>>) -> (r: Vec<String>)
    ensures
        r.deep_view() == selected_names(entries@),
{
    let mut out: Vec<String> = Vec::new();
    let mut i: usize = 0;
    while i < entries.len()
        invariant
            i <= entries.len(),
            out.deep_view() == selected_names(entries@.take(i as int)),
        decreases entries.len() - i,
    {
        proof {
            assert(entries@.take(i + 1).drop_last() =~= entries@.take(i as int));
            assert(entries@.take(i + 1).last() == entries@[i as int]);
        }
        match &entries[i] {
            Some(name) => {
                if is_sol_file(name.as_str()) {
                    out.push(name.clone());
                    proof {
                        assert(out.deep_view() =~= selected_names(entries@.take(i + 1)));
                    }
                } else {
                    proof {
                        assert(out.deep_view() =~= selected_names(entries@.take(i + 1)));
                    }
                }
            },
            None => {
                proof {
                    assert(out.deep_view() =~= selected_names(entries@.take(i + 1)));
                }
            },
        }
        i = i + 1;
    }
    proof {
        assert(entries@.take(entries@.len() as int) =~= entries@);
    }
    out
}

/// Discovery selects by suffix and nothing else: every selected name
/// carries the source suffix, and every named entry whose name carries the
/// suffix is selected.
pub proof fn lemma_selection_by_suffix(entries: Seq<Option<String>>)
    ensures
        forall|j: int|
            0 <= j < selected_names(entries).len() ==> has_sol_suffix(
                #[trigger] selected_names(entries)[j],
            ),
        forall|i: int|
            0 <= i < entries.len() ==> ((#[trigger] entries[i]) matches Some(name) ==> (
            has_sol_suffix(name@) ==> selected_names(entries).contains(name@))),
    decreases entries.len(),
{
    if entries.len() > 0 {
        lemma_selection_by_suffix(entries.drop_last());
        let rest = selected_names(entries.drop_last());
        assert forall|i: int|
            0 <= i < entries.len() && ((#[trigger] entries[i]) matches Some(name)
                && has_sol_suffix(name@)) implies exists|k: int|
            0 <= k < selected_names(entries).len() && selected_names(entries)[k]
                == entries[i]->Some_0@ by {
            let name = entries[i]->Some_0;
            if i < entries.len() - 1 {
                assert(entries.drop_last()[i] == entries[i]);
                assert(rest.contains(name@));
                let k = choose|k: int| 0 <= k < rest.len() && rest[k] == name@;
                assert(selected_names(entries)[k] == name@);
            } else {
                assert(entries.last() == entries[i]);
                let k = selected_names(entries).len() - 1;
                assert(selected_names(entries)[k] == name@);
            }
        }
    }
}

} // verus!
