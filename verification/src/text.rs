//! Text utilities for building diagnostic messages: substring
//! replacement and decimal rendering, with exact specifications.

use vstd::prelude::*;

verus! {

/// Left-to-right, non-overlapping replacement of every occurrence of
/// `from` by `to` in `s`. An empty `from` leaves `s` unchanged.
pub open spec fn replace_spec(s: Seq<char>, from: Seq<char>, to: Seq<char>) -> Seq<char>
    decreases s.len(),
{
    if from.len() == 0 || s.len() < from.len() {
        s
    } else if s.take(from.len() as int) == from {
        to + replace_spec(s.skip(from.len() as int), from, to)
    } else {
        seq![s[0]] + replace_spec(s.skip(1), from, to)
    }
}

/// Whether `c` occurs anywhere in `s`.
pub open spec fn has_char(s: Seq<char>, c: char) -> bool {
    exists|i: int| 0 <= i < s.len() && s[i] == c
}

proof fn lemma_replace_step_match(s: Seq<char>, from: Seq<char>, to: Seq<char>, i: int)
    requires
        1 <= from.len(),
        0 <= i,
        i + from.len() <= s.len(),
        s.subrange(i, i + from.len()) == from,
    ensures
        replace_spec(s.skip(i), from, to) == to + replace_spec(s.skip(i + from.len()), from, to),
{
    assert(s.skip(i).take(from.len() as int) =~= s.subrange(i, i + from.len()));
    assert(s.skip(i).skip(from.len() as int) =~= s.skip(i + from.len()));
}

proof fn lemma_replace_step_char(s: Seq<char>, from: Seq<char>, to: Seq<char>, i: int)
    requires
        1 <= from.len(),
        0 <= i < s.len(),
        i + from.len() <= s.len() ==> s.subrange(i, i + from.len()) != from,
    ensures
        replace_spec(s.skip(i), from, to) == seq![s[i]] + replace_spec(s.skip(i + 1), from, to),
{
    if s.len() < i + from.len() {
        assert(s.skip(i) =~= seq![s[i]] + s.skip(i + 1));
        assert(replace_spec(s.skip(i), from, to) == s.skip(i));
        assert(replace_spec(s.skip(i + 1), from, to) == s.skip(i + 1));
    } else {
        assert(s.skip(i).take(from.len() as int) =~= s.subrange(i, i + from.len()));
        assert(s.skip(i).skip(1) =~= s.skip(i + 1));
        assert(s.skip(i)[0] == s[i]);
    }
}

fn matches_at(s: &str, from: &str, i: usize) -> (m: bool)
    requires
        i + from@.len() <= s@.len(),
        s@.len() <= usize::MAX,
    ensures
        m == (s@.subrange(i as int, i as int + from@.len() as int) == from@),
{
    let flen = from.unicode_len();
    let ghost sub = s@.subrange(i as int, i as int + from@.len() as int);
    let mut j: usize = 0;
    while j < flen
        invariant
            j <= flen,
            flen == from@.len(),
            i + flen <= s@.len(),
            s@.len() <= usize::MAX,
            sub == s@.subrange(i as int, i as int + from@.len() as int),
            forall|k: int| 0 <= k < j ==> s@[i + k] == from@[k],
        decreases flen - j,
    {
        if s.get_char(i + j) != from.get_char(j) {
            proof {
                assert(sub[j as int] != from@[j as int]);
            }
            return false;
        }
        j += 1;
    }
    proof {
        assert(sub =~= from@);
    }
    true
}

/// Replaces every occurrence of `from` in `s` by `to`, scanning left to
/// right without overlap, exactly as `replace_spec` describes.
pub fn replace_all(s: &str, from: &str, to: &str) -> (r: String)
    requires
        from@.len() >= 1,
    ensures
        r@ == replace_spec(s@, from@, to@),
{
    let s_len = s.unicode_len();
    let from_len = from.unicode_len();
    let mut r = String::new();
    let mut i: usize = 0;
    proof {
        assert(s@.skip(0) =~= s@);
        assert(Seq::<char>::empty() + replace_spec(s@, from@, to@) =~= replace_spec(
            s@,
            from@,
            to@,
        ));
    }
    while i < s_len
        invariant
            i <= s_len,
            s_len == s@.len(),
            from_len == from@.len(),
            from@.len() >= 1,
            r@ + replace_spec(s@.skip(i as int), from@, to@) == replace_spec(s@, from@, to@),
        decreases s_len - i,
    {
        let matched = if from_len <= s_len - i {
            matches_at(s, from, i)
        } else {
            false
        };
        if matched {
            r.append(to);
            proof {
                lemma_replace_step_match(s@, from@, to@, i as int);
            }
            i += from_len;
        } else {
            let c = s.substring_char(i, i + 1);
            r.append(c);
            proof {
                lemma_replace_step_char(s@, from@, to@, i as int);
                assert(c@ =~= seq![s@[i as int]]);
            }
            i += 1;
        }
    }
    proof {
        assert(s@.skip(i as int) =~= Seq::<char>::empty());
        assert(replace_spec(Seq::<char>::empty(), from@, to@) == Seq::<char>::empty());
        assert(r@ + Seq::<char>::empty() =~= r@);
    }
    r
}

/// No occurrence of `c` survives replacing the single-character pattern
/// `c` by a string that itself lacks `c`.
pub proof fn lemma_replace_char_gone(s: Seq<char>, c: char, to: Seq<char>)
    requires
        !has_char(to, c),
    ensures
        !has_char(replace_spec(s, seq![c], to), c),
    decreases s.len(),
{
    if s.len() == 0 {
    } else if s.take(1) == seq![c] {
        lemma_replace_char_gone(s.skip(1), c, to);
        let r = to + replace_spec(s.skip(1), seq![c], to);
        assert forall|i: int| 0 <= i < r.len() implies r[i] != c by {
            if i < to.len() {
                assert(to[i] != c);
            } else {
                assert(r[i] == replace_spec(s.skip(1), seq![c], to)[i - to.len()]);
            }
        }
    } else {
        assert(s.take(1) =~= seq![s[0]]);
        assert(s[0] != c);
        lemma_replace_char_gone(s.skip(1), c, to);
        let r = seq![s[0]] + replace_spec(s.skip(1), seq![c], to);
        assert forall|i: int| 0 <= i < r.len() implies r[i] != c by {
            if i >= 1 {
                assert(r[i] == replace_spec(s.skip(1), seq![c], to)[i - 1]);
            }
        }
    }
}

/// Replacement never introduces a character that occurs in neither the
/// source nor the replacement text.
pub proof fn lemma_replace_preserves_missing(s: Seq<char>, from: Seq<char>, to: Seq<char>, c: char)
    requires
        !has_char(s, c),
        !has_char(to, c),
    ensures
        !has_char(replace_spec(s, from, to), c),
    decreases s.len(),
{
    if from.len() == 0 || s.len() < from.len() {
    } else if s.take(from.len() as int) == from {
        assert(!has_char(s.skip(from.len() as int), c)) by {
            assert forall|i: int| 0 <= i < s.skip(from.len() as int).len() implies s.skip(
                from.len() as int,
            )[i] != c by {
                assert(s.skip(from.len() as int)[i] == s[i + from.len()]);
            }
        }
        lemma_replace_preserves_missing(s.skip(from.len() as int), from, to, c);
        let r = to + replace_spec(s.skip(from.len() as int), from, to);
        assert forall|i: int| 0 <= i < r.len() implies r[i] != c by {
            if i >= to.len() {
                assert(r[i] == replace_spec(s.skip(from.len() as int), from, to)[i - to.len()]);
            }
        }
    } else {
        assert(!has_char(s.skip(1), c)) by {
            assert forall|i: int| 0 <= i < s.skip(1).len() implies s.skip(1)[i] != c by {
                assert(s.skip(1)[i] == s[i + 1]);
            }
        }
        lemma_replace_preserves_missing(s.skip(1), from, to, c);
        let r = seq![s[0]] + replace_spec(s.skip(1), from, to);
        assert forall|i: int| 0 <= i < r.len() implies r[i] != c by {
            if i >= 1 {
                assert(r[i] == replace_spec(s.skip(1), from, to)[i - 1]);
            } else {
                assert(s[0] != c);
            }
        }
    }
}

/// The decimal rendering of `n`, most significant digit first.
pub open spec fn dec_spec(n: int) -> Seq<char>
    decreases n,
{
    if n < 10 {
        seq![digit_char(n)]
    } else {
        dec_spec(n / 10).push(digit_char(n % 10))
    }
}

/// The character for one decimal digit; values outside 1..=9 render '0'.
pub open spec fn digit_char(d: int) -> char {
    if d == 1 {
        '1'
    } else if d == 2 {
        '2'
    } else if d == 3 {
        '3'
    } else if d == 4 {
        '4'
    } else if d == 5 {
        '5'
    } else if d == 6 {
        '6'
    } else if d == 7 {
        '7'
    } else if d == 8 {
        '8'
    } else if d == 9 {
        '9'
    } else {
        '0'
    }
}

fn digit_str(d: u64) -> (s: &'static str)
    requires
        d < 10,
    ensures
        s@ == seq![digit_char(d as int)],
{
    if d == 0 {
        proof {
            reveal_strlit("0");
            assert("0"@ =~= seq![digit_char(0)]);
        }
        "0"
    } else if d == 1 {
        proof {
            reveal_strlit("1");
            assert("1"@ =~= seq![digit_char(1)]);
        }
        "1"
    } else if d == 2 {
        proof {
            reveal_strlit("2");
            assert("2"@ =~= seq![digit_char(2)]);
        }
        "2"
    } else if d == 3 {
        proof {
            reveal_strlit("3");
            assert("3"@ =~= seq![digit_char(3)]);
        }
        "3"
    } else if d == 4 {
        proof {
            reveal_strlit("4");
            assert("4"@ =~= seq![digit_char(4)]);
        }
        "4"
    } else if d == 5 {
        proof {
            reveal_strlit("5");
            assert("5"@ =~= seq![digit_char(5)]);
        }
        "5"
    } else if d == 6 {
        proof {
            reveal_strlit("6");
            assert("6"@ =~= seq![digit_char(6)]);
        }
        "6"
    } else if d == 7 {
        proof {
            reveal_strlit("7");
            assert("7"@ =~= seq![digit_char(7)]);
        }
        "7"
    } else if d == 8 {
        proof {
            reveal_strlit("8");
            assert("8"@ =~= seq![digit_char(8)]);
        }
        "8"
    } else {
        proof {
            reveal_strlit("9");
            assert("9"@ =~= seq![digit_char(9)]);
        }
        "9"
    }
}

/// Renders `n` in decimal.
pub fn u64_to_string(n: u64) -> (r: String)
    ensures
        r@ == dec_spec(n as int),
    decreases n,
{
    if n < 10 {
        String::from_str(digit_str(n))
    } else {
        let mut r = u64_to_string(n / 10);
        let d = digit_str(n % 10);
        r.append(d);
        proof {
            assert((n / 10) as int == n as int / 10);
            assert((n % 10) as int == n as int % 10);
            assert(dec_spec(n as int / 10).push(digit_char(n as int % 10)) =~= dec_spec(
                n as int / 10,
            ) + seq![digit_char(n as int % 10)]);
        }
        r
    }
}

/// Renders `n` in decimal.
pub fn usize_to_string(n: usize) -> (r: String)
    ensures
        r@ == dec_spec(n as int),
{
    u64_to_string(n as u64)
}

} // verus!

