use vstd::prelude::*;
use crate::preview::no_files_text;
use crate::session::{
    after_down, after_select_all, after_select_none, after_select_only, after_toggle, after_up,
    clamp_index, count_selected, lemma_count_all, lemma_count_only, SessionView,
};

verus! {

/// Moving up and then down, or down and then up, leaves a non-empty session
/// as it was: wrapping moves the cursor by a bijection of the indices.
pub proof fn lemma_up_down_round_trip(v: SessionView)
    requires
        v.wf(),
        v.len() > 0,
    ensures
        after_down(after_up(v)) == v,
        after_up(after_down(v)) == v,
{
    let len = v.len() as int;
    vstd::arithmetic::div_mod::lemma_mod_self_0(len);
    vstd::arithmetic::div_mod::lemma_small_mod(v.cursor, v.len());
    if v.cursor + 1 < len {
        vstd::arithmetic::div_mod::lemma_small_mod((v.cursor + 1) as nat, v.len());
    }
}

/// Toggling the entry under the cursor twice restores its flag and leaves
/// the cursor where it was.
pub proof fn lemma_toggle_twice(v: SessionView)
    requires
        v.wf(),
    ensures
        after_toggle(after_toggle(v)) == v,
{
    if v.len() > 0 {
        assert(after_toggle(after_toggle(v)).selected =~= v.selected);
    }
}

/// After selecting all, every entry counts as selected; after selecting
/// none, none does.
pub proof fn lemma_select_all_none_count(v: SessionView)
    requires
        v.wf(),
    ensures
        count_selected(after_select_all(v).selected) == v.len(),
        count_selected(after_select_none(v).selected) == 0,
{
    lemma_count_all(v.len(), true);
    lemma_count_all(v.len(), false);
}

/// Selecting only the entry at `n` in a non-empty session leaves exactly one
/// entry selected, the one at `min(n, len - 1)`, with the cursor on it.
pub proof fn lemma_select_only_one(v: SessionView, n: nat)
    requires
        v.wf(),
        v.len() > 0,
    ensures
        count_selected(after_select_only(v, n).selected) == 1,
        clamp_index(n, v.len()) == if n < v.len() { n } else { (v.len() - 1) as nat },
        after_select_only(v, n).selected[clamp_index(n, v.len()) as int],
        forall|k: int|
            0 <= k < v.len() && #[trigger] after_select_only(v, n).selected[k] ==> k == clamp_index(
                n,
                v.len(),
            ),
        after_select_only(v, n).cursor == clamp_index(n, v.len()),
{
    lemma_count_only(v.len(), clamp_index(n, v.len()));
}

/// Without entries, moving, toggling and selecting one entry change nothing,
/// and the preview is the placeholder.
pub proof fn lemma_empty_session(v: SessionView, n: nat)
    requires
        v.wf(),
        v.len() == 0,
    ensures
        after_up(v) == v,
        after_down(v) == v,
        after_toggle(v) == v,
        after_select_only(v, n) == v,
        v.preview == no_files_text(),
{
}

} // verus!
