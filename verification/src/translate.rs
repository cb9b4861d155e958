//! The statement splitter and the full translation pipeline: strip the
//! outer wrapper, split on the statement separator, trim each piece, drop
//! empty pieces, and translate each statement in order.

use vstd::prelude::*;
use crate::edit::{split_char_s, split_char_vec, views_of};
use crate::statement::{statement_s, translate_statement_vec};
use crate::text::{trim_s, trim_vec, starts_with_s, starts_with_vec, ends_with_s, ends_with_vec,
    lit, subvec};

verus! {

/// The trimmed, non-empty statements among the split pieces, in order.
pub open spec fn statements_of(pieces: Seq<Seq<char>>) -> Seq<Seq<char>>
    decreases pieces.len(),
{
    if pieces.len() == 0 {
        Seq::empty()
    } else {
        let h = trim_s(pieces[0]);
        (if h.len() == 0 {
            Seq::<Seq<char>>::empty()
        } else {
            seq![h]
        }) + statements_of(pieces.skip(1))
    }
}

/// The statements of the input: the input is trimmed, one outer wrapper
/// pair is stripped when the text is long enough to hold both delimiters,
/// and the rest splits on the separator with empty pieces dropped.
pub open spec fn split_statements_s(input: Seq<char>) -> Seq<Seq<char>> {
    let t = trim_s(input);
    let core = if t.len() >= 4 && starts_with_s(t, "\\\\"@) && ends_with_s(t, "\\\\"@) {
        t.subrange(2, t.len() - 2)
    } else {
        t
    };
    statements_of(split_char_s(core, '/'))
}

/// The translations of a sequence of statements, in order.
pub open spec fn translations_of(sts: Seq<Seq<char>>) -> Seq<Seq<char>>
    decreases sts.len(),
{
    if sts.len() == 0 {
        Seq::empty()
    } else {
        seq![statement_s(sts[0])] + translations_of(sts.skip(1))
    }
}

/// The full translation of the input: one sentence per statement.
pub open spec fn translate_s(input: Seq<char>) -> Seq<Seq<char>> {
    translations_of(split_statements_s(input))
}

/// Splits the input into its trimmed, non-empty statements.
pub fn split_statements_vec(input: &Vec<char>) -> (r: Vec<Vec<char>>)
    ensures
        r@.len() == split_statements_s(input@).len(),
        forall|i: int| 0 <= i < r@.len() ==> r@[i]@ == split_statements_s(input@)[i],
{
    let t = trim_vec(input);
    let n = t.len();
    let wrapper = lit("\\\\");
    proof {
        reveal_strlit("\\\\");
    }
    let core: Vec<char> = if n >= 4 && starts_with_vec(&t, &wrapper) && ends_with_vec(
        &t,
        &wrapper,
    ) {
        subvec(&t, 2, n - 2)
    } else {
        t
    };
    let ghost cs = if trim_s(input@).len() >= 4 && starts_with_s(trim_s(input@), "\\\\"@)
        && ends_with_s(trim_s(input@), "\\\\"@) {
        trim_s(input@).subrange(2, trim_s(input@).len() - 2)
    } else {
        trim_s(input@)
    };
    assert(core@ == cs);
    let pieces = split_char_vec(&core, '/');
    let m = pieces.len();
    let ghost pv = split_char_s(cs, '/');
    proof {
        assert(views_of(pieces@) =~= pv);
    }
    let mut out: Vec<Vec<char>> = Vec::new();
    let mut i: usize = 0;
    assert(pv.skip(0) =~= pv);
    assert(views_of(out@) + statements_of(pv) =~= statements_of(pv));
    while i < m
        invariant
            m == pieces@.len(),
            m == pv.len(),
            forall|j: int| 0 <= j < m ==> pieces@[j]@ == pv[j],
            i <= m,
            views_of(out@) + statements_of(pv.skip(i as int)) == statements_of(pv),
        decreases m - i,
    {
        let ghost pre = views_of(out@);
        let ghost rest = pv.skip(i as int);
        proof {
            assert(rest[0] == pv[i as int]);
            assert(rest.skip(1) =~= pv.skip(i as int + 1));
        }
        let piece = trim_vec(&pieces[i]);
        if piece.len() > 0 {
            out.push(piece);
            proof {
                let tail = statements_of(pv.skip(i as int + 1));
                assert(statements_of(rest) == seq![trim_s(pv[i as int])] + tail);
                assert(views_of(out@) =~= pre + seq![trim_s(pv[i as int])]);
                assert(pre + (seq![trim_s(pv[i as int])] + tail) =~= (pre + seq![
                    trim_s(pv[i as int]),
                ]) + tail);
            }
        } else {
            proof {
                let tail = statements_of(pv.skip(i as int + 1));
                assert(statements_of(rest) == Seq::<Seq<char>>::empty() + tail);
                assert(pre + (Seq::<Seq<char>>::empty() + tail) =~= pre + tail);
            }
        }
        i = i + 1;
    }
    proof {
        assert(pv.skip(m as int) =~= Seq::<Seq<char>>::empty());
        assert(views_of(out@) + statements_of(pv.skip(m as int)) =~= views_of(out@));
        assert(forall|j: int| 0 <= j < out@.len() ==> out@[j]@ == views_of(out@)[j]);
    }
    out
}

/// Translates the input into one sentence per statement.
pub fn translate_vec(input: &Vec<char>) -> (r: Vec<Vec<char>>)
    ensures
        r@.len() == translate_s(input@).len(),
        forall|i: int| 0 <= i < r@.len() ==> r@[i]@ == translate_s(input@)[i],
{
    let sts = split_statements_vec(input);
    let m = sts.len();
    let ghost sv = split_statements_s(input@);
    proof {
        assert(views_of(sts@) =~= sv);
    }
    let mut out: Vec<Vec<char>> = Vec::new();
    let mut i: usize = 0;
    assert(sv.skip(0) =~= sv);
    assert(views_of(out@) + translations_of(sv) =~= translations_of(sv));
    while i < m
        invariant
            m == sts@.len(),
            m == sv.len(),
            forall|j: int| 0 <= j < m ==> sts@[j]@ == sv[j],
            i <= m,
            views_of(out@) + translations_of(sv.skip(i as int)) == translations_of(sv),
        decreases m - i,
    {
        let ghost pre = views_of(out@);
        let ghost rest = sv.skip(i as int);
        proof {
            assert(rest[0] == sv[i as int]);
            assert(rest.skip(1) =~= sv.skip(i as int + 1));
        }
        let sentence = translate_statement_vec(&sts[i]);
        out.push(sentence);
        proof {
            let tail = translations_of(sv.skip(i as int + 1));
            assert(translations_of(rest) == seq![statement_s(sv[i as int])] + tail);
            assert(views_of(out@) =~= pre + seq![statement_s(sv[i as int])]);
            assert(pre + (seq![statement_s(sv[i as int])] + tail) =~= (pre + seq![
                statement_s(sv[i as int]),
            ]) + tail);
        }
        i = i + 1;
    }
    proof {
        assert(sv.skip(m as int) =~= Seq::<Seq<char>>::empty());
        assert(views_of(out@) + translations_of(sv.skip(m as int)) =~= views_of(out@));
        assert(forall|j: int| 0 <= j < out@.len() ==> out@[j]@ == views_of(out@)[j]);
    }
    out
}

} // verus!
