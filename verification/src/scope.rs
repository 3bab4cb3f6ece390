//! Scope lists: the space-joined wire form, the dual-shape value a server
//! may send, and the round trip between the two.

use vstd::prelude::*;

use crate::utils::seq_str_view;

verus! {

/// The single space-joined string that a scope list becomes on the wire.
pub open spec fn spec_join_spaces(l: Seq<Seq<char>>) -> Seq<char>
    decreases l.len(),
{
    if l.len() == 0 {
        Seq::empty()
    } else if l.len() == 1 {
        l[0]
    } else {
        spec_join_spaces(l.drop_last()) + seq![' '] + l.last()
    }
}

/// Joins the scope values with single spaces.
pub fn join_scopes(v: &Vec<String>) -> (r: String)
    ensures
        r@ == spec_join_spaces(seq_str_view(v@)),
{
    let mut r = String::new();
    let n = v.len();
    let mut i: usize = 0;
    while i < n
        invariant
            i <= n,
            n == v@.len(),
            r@ == spec_join_spaces(seq_str_view(v@.take(i as int))),
        decreases n - i,
    {
        if i > 0 {
            proof {
                reveal_strlit(" ");
                assert(" "@ =~= seq![' ']);
            }
            r.append(" ");
        }
        r.append(v[i].as_str());
        proof {
            let pre = seq_str_view(v@.take(i as int));
            let post = seq_str_view(v@.take(i + 1));
            assert(post.drop_last() =~= pre);
            assert(post.last() == v@[i as int]@);
            if i == 0 {
                assert(r@ =~= spec_join_spaces(post));
            } else {
                assert(r@ =~= spec_join_spaces(pre) + seq![' '] + v@[i as int]@);
            }
        }
        i = i + 1;
    }
    proof {
        assert(v@.take(n as int) =~= v@);
    }
    r
}

/// A scope field as a server may send it: either one space-delimited
/// string or a native list of strings.
pub enum ScopeValue {
    Text(String),
    List(Vec<String>),
}

/// One step of the left-to-right scan that splits on spaces: a space
/// closes the pending word (an empty pending word is dropped), any other
/// character extends it.
pub open spec fn split_step(st: (Seq<Seq<char>>, Seq<char>), c: char) -> (
    Seq<Seq<char>>,
    Seq<char>,
) {
    if c == ' ' {
        if st.1.len() == 0 {
            (st.0, Seq::empty())
        } else {
            (st.0.push(st.1), Seq::empty())
        }
    } else {
        (st.0, st.1.push(c))
    }
}

/// The scan state after folding `split_step` over `s`, left to right,
/// starting from `st`.
pub open spec fn split_fold(st: (Seq<Seq<char>>, Seq<char>), s: Seq<char>) -> (
    Seq<Seq<char>>,
    Seq<char>,
)
    decreases s.len(),
{
    if s.len() == 0 {
        st
    } else {
        split_step(split_fold(st, s.drop_last()), s.last())
    }
}

/// The words of `s`, split on spaces; empty segments (leading, trailing or
/// between consecutive spaces) are dropped.
pub open spec fn spec_split_spaces(s: Seq<char>) -> Seq<Seq<char>> {
    let st = split_fold((Seq::empty(), Seq::empty()), s);
    if st.1.len() == 0 {
        st.0
    } else {
        st.0.push(st.1)
    }
}

/// Splits `s` on spaces, dropping empty segments.
pub fn split_spaces(s: &str) -> (r: Vec<String>)
    ensures
        seq_str_view(r@) == spec_split_spaces(s@),
{
    let n = s.unicode_len();
    let mut words: Vec<String> = Vec::new();
    let mut start: usize = 0;
    let mut i: usize = 0;
    while i < n
        invariant
            i <= n,
            start <= i,
            n == s@.len(),
            split_fold((Seq::empty(), Seq::empty()), s@.take(i as int)).0 == seq_str_view(words@),
            split_fold((Seq::empty(), Seq::empty()), s@.take(i as int)).1 == s@.subrange(
                start as int,
                i as int,
            ),
        decreases n - i,
    {
        proof {
            assert(s@.take(i + 1).drop_last() =~= s@.take(i as int));
            assert(s@.take(i + 1).last() == s@[i as int]);
        }
        let c = s.get_char(i);
        if c == ' ' {
            if start < i {
                let w = s.substring_char(start, i).to_owned();
                let ghost prev = words@;
                words.push(w);
                proof {
                    assert(seq_str_view(words@) =~= seq_str_view(prev).push(
                        s@.subrange(start as int, i as int),
                    ));
                }
            }
            start = i + 1;
        }
        i = i + 1;
        proof {
            if s@[i - 1] != ' ' {
                assert(s@.subrange(start as int, i as int) =~= s@.subrange(
                    start as int,
                    i - 1,
                ).push(s@[i - 1]));
            } else {
                assert(s@.subrange(start as int, i as int) =~= Seq::<char>::empty());
            }
        }
    }
    proof {
        assert(s@.take(n as int) =~= s@);
    }
    if start < n {
        let w = s.substring_char(start, n).to_owned();
        let ghost prev = words@;
        words.push(w);
        proof {
            assert(seq_str_view(words@) =~= seq_str_view(prev).push(
                s@.subrange(start as int, n as int),
            ));
        }
    }
    words
}

/// The canonical list a dual-shape scope value normalizes to: a string is
/// split on spaces, a native list is taken as it is.
pub open spec fn spec_normalize_scope(v: ScopeValue) -> Seq<Seq<char>> {
    match v {
        ScopeValue::Text(s) => spec_split_spaces(s@),
        ScopeValue::List(l) => seq_str_view(l@),
    }
}

/// Normalizes either scope shape into the canonical ordered list.
pub fn normalize_scope(v: ScopeValue) -> (r: Vec<String>)
    ensures
        seq_str_view(r@) == spec_normalize_scope(v),
{
    match v {
        ScopeValue::Text(s) => split_spaces(s.as_str()),
        ScopeValue::List(l) => l,
    }
}

/// A word that the wire form can carry losslessly: non-empty and free of
/// spaces.
pub open spec fn no_space(w: Seq<char>) -> bool {
    forall|i: int| 0 <= i < w.len() ==> w[i] != ' '
}

/// A scope list that survives the wire round trip: every word non-empty
/// and space-free.
pub open spec fn wf_scope_list(l: Seq<Seq<char>>) -> bool {
    forall|i: int| 0 <= i < l.len() ==> (#[trigger] l[i]).len() > 0 && no_space(l[i])
}

/// Folding over a concatenation folds over each part in turn.
proof fn lemma_split_fold_concat(st: (Seq<Seq<char>>, Seq<char>), a: Seq<char>, b: Seq<char>)
    ensures
        split_fold(st, a + b) == split_fold(split_fold(st, a), b),
    decreases b.len(),
{
    if b.len() == 0 {
        assert(a + b =~= a);
    } else {
        lemma_split_fold_concat(st, a, b.drop_last());
        assert((a + b).drop_last() =~= a + b.drop_last());
        assert((a + b).last() == b.last());
    }
}

/// Folding a space-free word only extends the pending word.
proof fn lemma_split_fold_word(words: Seq<Seq<char>>, cur: Seq<char>, w: Seq<char>)
    requires
        no_space(w),
    ensures
        split_fold((words, cur), w) == (words, cur + w),
    decreases w.len(),
{
    if w.len() == 0 {
        assert(cur + w =~= cur);
    } else {
        assert(no_space(w.drop_last()));
        lemma_split_fold_word(words, cur, w.drop_last());
        assert(w.last() != ' ');
        assert(cur + w =~= (cur + w.drop_last()).push(w.last()));
    }
}

/// Scanning the joined form of a well-formed, non-empty list ends with all
/// words but the last emitted and the last one pending.
proof fn lemma_split_fold_join(l: Seq<Seq<char>>)
    requires
        wf_scope_list(l),
        l.len() > 0,
    ensures
        split_fold((Seq::empty(), Seq::empty()), spec_join_spaces(l)) == (l.drop_last(), l.last()),
    decreases l.len(),
{
    let init: (Seq<Seq<char>>, Seq<char>) = (Seq::empty(), Seq::empty());
    if l.len() == 1 {
        lemma_split_fold_word(Seq::empty(), Seq::empty(), l[0]);
        assert(Seq::<char>::empty() + l[0] =~= l[0]);
        assert(l.drop_last() =~= Seq::<Seq<char>>::empty());
    } else {
        let l0 = l.drop_last();
        assert(wf_scope_list(l0));
        lemma_split_fold_join(l0);
        let j0 = spec_join_spaces(l0);
        lemma_split_fold_concat(init, j0, seq![' ']);
        lemma_split_fold_concat(init, j0 + seq![' '], l.last());
        assert(spec_join_spaces(l) == j0 + seq![' '] + l.last());
        let st0: (Seq<Seq<char>>, Seq<char>) = (l0.drop_last(), l0.last());
        let sp: Seq<char> = seq![' '];
        assert(sp.drop_last() =~= Seq::<char>::empty());
        assert(sp.last() == ' ');
        assert(split_fold(st0, sp.drop_last()) == st0);
        assert(split_fold(st0, sp) == split_step(st0, ' '));
        assert(l0.last().len() > 0);
        assert(split_fold(st0, sp) == (l0.drop_last().push(l0.last()), Seq::<char>::empty()));
        assert(l0.drop_last().push(l0.last()) =~= l0);
        lemma_split_fold_word(l0, Seq::empty(), l.last());
        assert(Seq::<char>::empty() + l.last() =~= l.last());
    }
}

/// Round trip of the wire form: splitting the space-joined rendering of a
/// well-formed scope list gives back exactly that list. This is why a
/// token parsed from the string shape and one parsed from the list shape
/// of the same scopes agree.
pub proof fn lemma_split_join_roundtrip(l: Seq<Seq<char>>)
    requires
        wf_scope_list(l),
    ensures
        spec_split_spaces(spec_join_spaces(l)) == l,
{
    if l.len() == 0 {
        assert(spec_split_spaces(spec_join_spaces(l)) =~= l);
    } else {
        lemma_split_fold_join(l);
        assert(l.last().len() > 0);
        assert(l.drop_last().push(l.last()) =~= l);
    }
}

} // verus!
