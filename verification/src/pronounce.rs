//! The pronunciation transliterator: strips all whitespace, then maps each
//! character (two-character digraphs first) to a phonetic syllable. In step
//! mode the text is read one statement per line, each line numbered from
//! one and carrying no trailing whitespace; outside step mode the separator
//! is pronounced like any other character.

use vstd::prelude::*;
use crate::edit::{dec_str_s, dec_vec, lemma_skip_step, lemma_skip_skip, split_char_s,
    split_char_vec, views_of};
use crate::text::{is_ws_char, is_ws, trim_end_s, lemma_trim_end_take, subvec, push_all, lit};

verus! {

/// `s` with every whitespace character removed.
pub open spec fn strip_ws_s(s: Seq<char>) -> Seq<char>
    decreases s.len(),
{
    if s.len() == 0 {
        s
    } else if is_ws_char(s[0]) {
        strip_ws_s(s.skip(1))
    } else {
        seq![s[0]] + strip_ws_s(s.skip(1))
    }
}

/// `v` with every whitespace character removed.
pub fn strip_ws_vec(v: &Vec<char>) -> (r: Vec<char>)
    ensures
        r@ == strip_ws_s(v@),
{
    let n = v.len();
    let mut out: Vec<char> = Vec::new();
    let mut i: usize = 0;
    assert(v@.skip(0) =~= v@);
    assert(out@ + strip_ws_s(v@) =~= strip_ws_s(v@));
    while i < n
        invariant
            n == v@.len(),
            i <= n,
            out@ + strip_ws_s(v@.skip(i as int)) == strip_ws_s(v@),
        decreases n - i,
    {
        let ghost pre = out@;
        let ghost rest = v@.skip(i as int);
        proof {
            lemma_skip_step(v@, i as int);
        }
        if !is_ws(v[i]) {
            out.push(v[i]);
            proof {
                assert(pre + (seq![v@[i as int]] + strip_ws_s(v@.skip(i as int + 1))) =~= out@
                    + strip_ws_s(v@.skip(i as int + 1)));
            }
        }
        i = i + 1;
    }
    proof {
        assert(v@.skip(n as int) =~= Seq::<char>::empty());
        assert(out@ + strip_ws_s(v@.skip(n as int)) =~= out@);
    }
    out
}

/// An ASCII capital letter.
pub open spec fn is_upper_s(c: char) -> bool {
    65 <= c as u32 <= 90
}

/// The lowercase form of an ASCII capital letter; other characters unchanged.
pub open spec fn lower_s(c: char) -> char {
    match c {
        'A' => 'a',
        'B' => 'b',
        'C' => 'c',
        'D' => 'd',
        'E' => 'e',
        'F' => 'f',
        'G' => 'g',
        'H' => 'h',
        'I' => 'i',
        'J' => 'j',
        'K' => 'k',
        'L' => 'l',
        'M' => 'm',
        'N' => 'n',
        'O' => 'o',
        'P' => 'p',
        'Q' => 'q',
        'R' => 'r',
        'S' => 's',
        'T' => 't',
        'U' => 'u',
        'V' => 'v',
        'W' => 'w',
        'X' => 'x',
        'Y' => 'y',
        'Z' => 'z',
        _ => c,
    }
}

fn is_upper(c: char) -> (r: bool)
    ensures
        r == is_upper_s(c),
{
    let u = c as u32;
    65 <= u && u <= 90
}

fn lower(c: char) -> (r: char)
    ensures
        r == lower_s(c),
{
    match c {
        'A' => 'a',
        'B' => 'b',
        'C' => 'c',
        'D' => 'd',
        'E' => 'e',
        'F' => 'f',
        'G' => 'g',
        'H' => 'h',
        'I' => 'i',
        'J' => 'j',
        'K' => 'k',
        'L' => 'l',
        'M' => 'm',
        'N' => 'n',
        'O' => 'o',
        'P' => 'p',
        'Q' => 'q',
        'R' => 'r',
        'S' => 's',
        'T' => 't',
        'U' => 'u',
        'V' => 'v',
        'W' => 'w',
        'X' => 'x',
        'Y' => 'y',
        'Z' => 'z',
        _ => c,
    }
}

/// The syllable for one character. The wrapper backslash is silent in
/// step mode; a capital letter reads as its lowercase form; an unmapped
/// character echoes itself.
pub open spec fn syllable_s(c: char, steps: bool) -> Seq<char> {
    if c == '\\' {
        if steps {
            Seq::empty()
        } else {
            "uh "@
        }
    } else if c == '/' {
        "mn "@
    } else if c == ':' {
        "kuh "@
    } else if c == ';' {
        "suh "@
    } else if c == ',' {
        "muh "@
    } else if c == '.' {
        "duh "@
    } else if c == '?' {
        "kwuh "@
    } else if c == '=' {
        "eh "@
    } else if c == '|' {
        "shuh "@
    } else if c == '*' {
        "xing "@
    } else if c == 'x' {
        "ix "@
    } else if c == '_' {
        "by "@
    } else if c == '!' {
        "not "@
    } else if c == 'a' {
        "arc "@
    } else if c == 'q' {
        "sect "@
    } else if c == 'l' {
        "line "@
    } else if c == 'c' {
        "circ "@
    } else if c == 'w' {
        "ray "@
    } else if c == '∥' {
        "pall "@
    } else if c == '⊥' {
        "perp "@
    } else if c == '∠' {
        "ang "@
    } else if c == '~' {
        "sim "@
    } else if c == '≅' {
        "cong "@
    } else if c == '[' {
        "area "@
    } else if c == ']' {
        Seq::empty()
    } else if c == '(' {
        "pairim "@
    } else if c == ')' {
        Seq::empty()
    } else if is_upper_s(c) {
        seq![lower_s(c), ' ']
    } else {
        seq![c]
    }
}

fn syllable_vec(c: char, steps: bool) -> (r: Vec<char>)
    ensures
        r@ == syllable_s(c, steps),
{
    if c == '\\' {
        if steps {
            Vec::new()
        } else {
            lit("uh ")
        }
    } else if c == '/' {
        lit("mn ")
    } else if c == ':' {
        lit("kuh ")
    } else if c == ';' {
        lit("suh ")
    } else if c == ',' {
        lit("muh ")
    } else if c == '.' {
        lit("duh ")
    } else if c == '?' {
        lit("kwuh ")
    } else if c == '=' {
        lit("eh ")
    } else if c == '|' {
        lit("shuh ")
    } else if c == '*' {
        lit("xing ")
    } else if c == 'x' {
        lit("ix ")
    } else if c == '_' {
        lit("by ")
    } else if c == '!' {
        lit("not ")
    } else if c == 'a' {
        lit("arc ")
    } else if c == 'q' {
        lit("sect ")
    } else if c == 'l' {
        lit("line ")
    } else if c == 'c' {
        lit("circ ")
    } else if c == 'w' {
        lit("ray ")
    } else if c == '∥' {
        lit("pall ")
    } else if c == '⊥' {
        lit("perp ")
    } else if c == '∠' {
        lit("ang ")
    } else if c == '~' {
        lit("sim ")
    } else if c == '≅' {
        lit("cong ")
    } else if c == '[' {
        lit("area ")
    } else if c == ']' {
        Vec::new()
    } else if c == '(' {
        lit("pairim ")
    } else if c == ')' {
        Vec::new()
    } else if is_upper(c) {
        let mut r: Vec<char> = Vec::new();
        r.push(lower(c));
        r.push(' ');
        assert(r@ =~= seq![lower_s(c), ' ']);
        r
    } else {
        let mut r: Vec<char> = Vec::new();
        r.push(c);
        assert(r@ =~= seq![c]);
        r
    }
}

/// The pronunciation of a whitespace-free piece of text, two-character
/// digraphs recognized before single characters.
pub open spec fn pron_body_s(s: Seq<char>, steps: bool) -> Seq<char>
    decreases s.len(),
{
    if s.len() == 0 {
        Seq::empty()
    } else if s.len() >= 2 && s[0] == '\\' && s[1] == '\\' {
        (if steps {
            Seq::<char>::empty()
        } else {
            "uh "@
        }) + pron_body_s(s.skip(2), steps)
    } else if s.len() >= 2 && s[0] == '.' && s[1] == '.' {
        "duh-duh "@ + pron_body_s(s.skip(2), steps)
    } else {
        syllable_s(s[0], steps) + pron_body_s(s.skip(1), steps)
    }
}

fn pron_core(w: &Vec<char>, steps: bool) -> (r: Vec<char>)
    ensures
        r@ == pron_body_s(w@, steps),
{
    let n = w.len();
    let mut out: Vec<char> = Vec::new();
    let mut i: usize = 0;
    assert(w@.skip(0) =~= w@);
    assert(out@ + pron_body_s(w@, steps) =~= pron_body_s(w@, steps));
    while i < n
        invariant
            n == w@.len(),
            i <= n,
            out@ + pron_body_s(w@.skip(i as int), steps) == pron_body_s(w@, steps),
        decreases n - i,
    {
        let ghost pre = out@;
        let ghost rest = w@.skip(i as int);
        proof {
            lemma_skip_step(w@, i as int);
            if i + 1 < n {
                assert(rest[1] == w@[i + 1]);
                lemma_skip_skip(w@, i as int, 2);
            }
        }
        if i + 1 < n && w[i] == '\\' && w[i + 1] == '\\' {
            if !steps {
                let piece = lit("uh ");
                push_all(&mut out, &piece);
            }
            i = i + 2;
            proof {
                let tail = pron_body_s(w@.skip(i as int), steps);
                if steps {
                    assert(pron_body_s(rest, steps) == Seq::<char>::empty() + tail);
                    assert(pre + (Seq::<char>::empty() + tail) =~= out@ + tail);
                } else {
                    assert(pron_body_s(rest, steps) == "uh "@ + tail);
                    assert(pre + ("uh "@ + tail) =~= out@ + tail);
                }
            }
        } else if i + 1 < n && w[i] == '.' && w[i + 1] == '.' {
            let piece = lit("duh-duh ");
            push_all(&mut out, &piece);
            i = i + 2;
            proof {
                let tail = pron_body_s(w@.skip(i as int), steps);
                assert(pron_body_s(rest, steps) == "duh-duh "@ + tail);
                assert(pre + ("duh-duh "@ + tail) =~= out@ + tail);
            }
        } else {
            let piece = syllable_vec(w[i], steps);
            push_all(&mut out, &piece);
            i = i + 1;
            proof {
                let tail = pron_body_s(w@.skip(i as int), steps);
                assert(pron_body_s(rest, steps) == syllable_s(w@[i - 1], steps) + tail);
                assert(pre + (syllable_s(w@[i - 1], steps) + tail) =~= out@ + tail);
            }
        }
    }
    proof {
        assert(w@.skip(n as int) =~= Seq::<char>::empty());
        assert(out@ + pron_body_s(w@.skip(n as int), steps) =~= out@);
    }
    out
}

/// The numbered pronunciation lines for the statements of a text, the
/// first line numbered `k`. Each line is the step label followed by the
/// statement's pronunciation without trailing whitespace.
pub open spec fn pron_lines_s(pieces: Seq<Seq<char>>, k: nat) -> Seq<char>
    decreases pieces.len(),
{
    if pieces.len() == 0 {
        Seq::empty()
    } else if pieces.len() == 1 {
        dec_str_s(k) + ". "@ + trim_end_s(pron_body_s(pieces[0], true))
    } else {
        dec_str_s(k) + ". "@ + trim_end_s(pron_body_s(pieces[0], true)) + seq!['\n']
            + pron_lines_s(pieces.skip(1), k + 1)
    }
}

/// `v` without trailing whitespace.
fn trim_end_ws_vec(v: &Vec<char>) -> (r: Vec<char>)
    ensures
        r@ == trim_end_s(v@),
{
    let n = v.len();
    let mut b: usize = n;
    while b > 0 && is_ws(v[b - 1])
        invariant
            n == v@.len(),
            b <= n,
            forall|j: int| b <= j < n ==> is_ws_char(v@[j]),
        decreases b,
    {
        b = b - 1;
    }
    proof {
        lemma_trim_end_take(v@, b as int);
        assert(v@.take(b as int) =~= v@.subrange(0, b as int));
    }
    subvec(v, 0, b)
}

/// The full pronunciation of `s`: whitespace is stripped first; in step
/// mode the statements become numbered lines; the result carries no
/// trailing whitespace.
pub open spec fn pronounce_s(s: Seq<char>, steps: bool) -> Seq<char> {
    let w = strip_ws_s(s);
    if steps {
        trim_end_s(pron_lines_s(split_char_s(w, '/'), 1))
    } else {
        trim_end_s(pron_body_s(w, false))
    }
}

/// The pronunciation of `v`, one line in normal mode, numbered lines in
/// step mode.
pub fn pronounce_vec(v: &Vec<char>, steps: bool) -> (r: Vec<char>)
    ensures
        r@ == pronounce_s(v@, steps),
{
    let w = strip_ws_vec(v);
    if steps {
        let pieces = split_char_vec(&w, '/');
        let m = pieces.len();
        let ghost pv = split_char_s(w@, '/');
        proof {
            assert(views_of(pieces@) =~= pv);
        }
        let mut out: Vec<char> = Vec::new();
        let mut i: usize = 0;
        assert(pv.skip(0) =~= pv);
        assert(out@ + pron_lines_s(pv, 1) =~= pron_lines_s(pv, 1));
        while i < m
            invariant
                m == pieces@.len(),
                m == pv.len(),
                forall|j: int| 0 <= j < m ==> pieces@[j]@ == pv[j],
                i <= m,
                out@ + pron_lines_s(pv.skip(i as int), (i + 1) as nat) == pron_lines_s(pv, 1),
            decreases m - i,
        {
            let ghost pre = out@;
            let ghost rest = pv.skip(i as int);
            proof {
                assert(rest[0] == pv[i as int]);
                assert(rest.skip(1) =~= pv.skip(i as int + 1));
            }
            let digits = dec_vec(i + 1);
            let mut line = digits;
            let dotsp = lit(". ");
            push_all(&mut line, &dotsp);
            let body = pron_core(&pieces[i], true);
            let trimmed = trim_end_ws_vec(&body);
            push_all(&mut line, &trimmed);
            push_all(&mut out, &line);
            if i + 1 < m {
                out.push('\n');
            }
            i = i + 1;
            proof {
                let tail = pron_lines_s(pv.skip(i as int), (i + 1) as nat);
                if i < m {
                    assert(pron_lines_s(rest, i as nat) == (line@ + seq!['\n']) + tail) by {
                        assert(rest.len() >= 2);
                        assert(dec_str_s(i as nat) + ". "@ + trim_end_s(
                            pron_body_s(pv[i - 1], true),
                        ) =~= line@);
                        assert(dec_str_s(i as nat) + ". "@ + trim_end_s(
                            pron_body_s(pv[i - 1], true),
                        ) + seq!['\n'] + tail =~= (line@ + seq!['\n']) + tail);
                    }
                    assert(out@ =~= pre + (line@ + seq!['\n']));
                    assert(pre + ((line@ + seq!['\n']) + tail) =~= (pre + (line@ + seq!['\n']))
                        + tail);
                } else {
                    assert(pron_lines_s(rest, i as nat) == line@) by {
                        assert(rest.len() == 1);
                        assert(dec_str_s(i as nat) + ". "@ + trim_end_s(
                            pron_body_s(pv[i - 1], true),
                        ) =~= line@);
                    }
                    assert(tail =~= Seq::<char>::empty());
                    assert(out@ =~= pre + line@);
                    assert(pre + (line@ + tail) =~= pre + line@);
                    assert(out@ + tail =~= out@);
                }
            }
        }
        proof {
            assert(pv.skip(m as int) =~= Seq::<Seq<char>>::empty());
            assert(out@ + pron_lines_s(pv.skip(m as int), (m + 1) as nat) =~= out@);
        }
        trim_end_ws_vec(&out)
    } else {
        let body = pron_core(&w, false);
        trim_end_ws_vec(&body)
    }
}

} // verus!
