use vstd::prelude::*;
use vstd::string::StrSliceExecFns;
use crate::entry::{Entry, EntryView};

verus! {

broadcast use vstd::seq_lib::group_to_multiset_ensures;

/// The name of what `str::to_lowercase` returns for a text.
pub uninterp spec fn lower_of(s: Seq<char>) -> Seq<char>;

/// Relies on `str::to_lowercase`: the lowercase form depends on the
/// characters alone.
#[verifier::external_body]
fn lowercase(s: &str) -> (r: String)
    ensures
        r@ == lower_of(s@),
{
    s.to_lowercase()
}

/// Lexicographic order of texts by character code point, the order of `str`.
pub open spec fn lex_le(a: Seq<char>, b: Seq<char>) -> bool
    decreases a.len(),
{
    if a.len() == 0 {
        true
    } else if b.len() == 0 {
        false
    } else if a[0] != b[0] {
        a[0] < b[0]
    } else {
        lex_le(a.drop_first(), b.drop_first())
    }
}

/// Catalog order: visible entries before hidden ones, and within each group
/// by lowercase name.
pub open spec fn in_order(a: EntryView, b: EntryView) -> bool {
    (!a.hidden && b.hidden) || (a.hidden == b.hidden && lex_le(lower_of(a.name), lower_of(b.name)))
}

pub open spec fn is_sorted(s: Seq<Entry>) -> bool {
    forall|i: int, j: int| 0 <= i < j < s.len() ==> in_order(#[trigger] s[i]@, #[trigger] s[j]@)
}

proof fn lemma_lex_total(a: Seq<char>, b: Seq<char>)
    ensures
        lex_le(a, b) || lex_le(b, a),
    decreases a.len(),
{
    if a.len() > 0 && b.len() > 0 && a[0] == b[0] {
        lemma_lex_total(a.drop_first(), b.drop_first());
    }
}

proof fn lemma_lex_trans(a: Seq<char>, b: Seq<char>, c: Seq<char>)
    requires
        lex_le(a, b),
        lex_le(b, c),
    ensures
        lex_le(a, c),
    decreases a.len(),
{
    if a.len() > 0 && b.len() > 0 && c.len() > 0 && a[0] == b[0] && b[0] == c[0] {
        lemma_lex_trans(a.drop_first(), b.drop_first(), c.drop_first());
    }
}

proof fn lemma_order_total(a: EntryView, b: EntryView)
    ensures
        in_order(a, b) || in_order(b, a),
{
    lemma_lex_total(lower_of(a.name), lower_of(b.name));
}

proof fn lemma_order_trans(a: EntryView, b: EntryView, c: EntryView)
    requires
        in_order(a, b),
        in_order(b, c),
    ensures
        in_order(a, c),
{
    if a.hidden == b.hidden && b.hidden == c.hidden {
        lemma_lex_trans(lower_of(a.name), lower_of(b.name), lower_of(c.name));
    }
}

/// Compares two texts in the order of `lex_le`.
fn text_le(a: &str, b: &str) -> (r: bool)
    ensures
        r == lex_le(a@, b@),
{
    let la = a.unicode_len();
    let lb = b.unicode_len();
    let mut i: usize = 0;
    assert(a@.skip(0) =~= a@);
    assert(b@.skip(0) =~= b@);
    while i < la && i < lb
        invariant
            la == a@.len(),
            lb == b@.len(),
            i <= la,
            i <= lb,
            lex_le(a@, b@) == lex_le(a@.skip(i as int), b@.skip(i as int)),
        decreases la - i,
    {
        let ca = a.get_char(i);
        let cb = b.get_char(i);
        if ca != cb {
            return ca < cb;
        }
        assert(a@.skip(i as int).drop_first() =~= a@.skip(i + 1));
        assert(b@.skip(i as int).drop_first() =~= b@.skip(i + 1));
        i = i + 1;
    }
    i == la
}

/// Compares two entries in catalog order, given their lowercase names.
fn entry_le(a: &Entry, ka: &String, b: &Entry, kb: &String) -> (r: bool)
    requires
        ka@ == lower_of(a@.name),
        kb@ == lower_of(b@.name),
    ensures
        r == in_order(a@, b@),
{
    if a.hidden() != b.hidden() {
        !a.hidden()
    } else {
        text_le(ka.as_str(), kb.as_str())
    }
}

/// Puts the entries in catalog order.
pub fn sort_catalog(items: Vec<Entry>) -> (r: Vec<Entry>)
    ensures
        is_sorted(r@),
        r@.to_multiset() == items@.to_multiset(),
{
    let ghost all = items@;
    let mut rest = items;
    let mut out: Vec<Entry> = Vec::new();
    let mut keys: Vec<String> = Vec::new();
    while rest.len() > 0
        invariant
            is_sorted(out@),
            keys@.len() == out@.len(),
            forall|k: int| 0 <= k < out@.len() ==> (#[trigger] keys@[k])@ == lower_of(out@[k]@.name),
            rest@.to_multiset().add(out@.to_multiset()) == all.to_multiset(),
        decreases rest@.len(),
    {
        let ghost before = rest@;
        let e = rest.pop().unwrap();
        assert(before =~= rest@.push(e));
        let key = lowercase(e.name().as_str());
        // first position whose entry may follow the new one
        let mut pos: usize = 0;
        while pos < out.len() && !entry_le(&e, &key, &out[pos], &keys[pos])
            invariant
                pos <= out@.len(),
                keys@.len() == out@.len(),
                forall|k: int| 0 <= k < out@.len() ==> (#[trigger] keys@[k])@ == lower_of(out@[k]@.name),
                key@ == lower_of(e@.name),
                forall|k: int| 0 <= k < pos ==> !in_order(e@, #[trigger] out@[k]@),
            decreases out@.len() - pos,
        {
            pos = pos + 1;
        }
        let ghost prev = out@;
        proof {
            assert forall|i: int, j: int| 0 <= i < j < prev.len() + 1 implies in_order(
                #[trigger] prev.insert(pos as int, e)[i]@,
                #[trigger] prev.insert(pos as int, e)[j]@,
            ) by {
                let s = prev.insert(pos as int, e);
                if i < pos && j == pos {
                    lemma_order_total(e@, prev[i]@);
                } else if i == pos && j > pos + 1 {
                    lemma_order_trans(e@, prev[pos as int]@, prev[j - 1]@);
                }
            }
            let s = prev.insert(pos as int, e);
            assert(s.remove(pos as int) =~= prev);
            assert(s.to_multiset() =~= prev.to_multiset().insert(e));
        }
        out.insert(pos, e);
        keys.insert(pos, key);
    }
    assert(rest@ =~= Seq::<Entry>::empty());
    out
}

} // verus!
