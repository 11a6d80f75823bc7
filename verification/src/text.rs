//! Character-level text helpers: ASCII case folding, case-insensitive
//! comparison and containment, and decimal rendering of port numbers.
use vstd::prelude::*;
use vstd::string::StrSliceExecFns;
use vstd::string::StringExecFns;

verus! {

/// The image of a character under ASCII case folding: uppercase ASCII letters
/// map to their lowercase form, every other character is unchanged.
pub open spec fn lower_char(c: char) -> char {
    if 'A' <= c && c <= 'Z' {
        ((c as u8) + 32) as char
    } else {
        c
    }
}

/// A character sequence folded to lowercase, character by character.
pub open spec fn lower_seq(s: Seq<char>) -> Seq<char> {
    s.map_values(|c: char| lower_char(c))
}

/// The needle `n` occurs in the haystack `h` starting at position `i`.
pub open spec fn matches_at(h: Seq<char>, n: Seq<char>, i: int) -> bool {
    0 <= i && i + n.len() <= h.len() && h.subrange(i, i + n.len()) == n
}

/// The needle `n` occurs somewhere in the haystack `h`.
pub open spec fn contains_seq(h: Seq<char>, n: Seq<char>) -> bool {
    exists|i: int| matches_at(h, n, i)
}

/// `h` contains `n` when both are compared case-insensitively (ASCII).
pub open spec fn contains_ci(h: Seq<char>, n: Seq<char>) -> bool {
    contains_seq(lower_seq(h), lower_seq(n))
}

/// `a` and `b` are equal when compared case-insensitively (ASCII).
pub open spec fn eq_ci(a: Seq<char>, b: Seq<char>) -> bool {
    lower_seq(a) == lower_seq(b)
}

/// Fold one character to lowercase, ASCII-only.
pub fn to_lower_char(c: char) -> (r: char)
    ensures
        r == lower_char(c),
{
    if 'A' <= c && c <= 'Z' {
        ((c as u8) + 32) as char
    } else {
        c
    }
}

/// Case-insensitive (ASCII) equality of two string slices.
pub fn str_eq_ci(a: &str, b: &str) -> (r: bool)
    ensures
        r == eq_ci(a@, b@),
{
    let alen = a.unicode_len();
    let blen = b.unicode_len();
    if alen != blen {
        proof {
            assert(lower_seq(a@).len() != lower_seq(b@).len());
        }
        return false;
    }
    let mut i: usize = 0;
    while i < alen
        invariant
            alen == a@.len(),
            alen == b@.len(),
            i <= alen,
            forall|j: int| 0 <= j < i ==> lower_char(a@[j]) == lower_char(b@[j]),
        decreases alen - i,
    {
        let ca = to_lower_char(a.get_char(i));
        let cb = to_lower_char(b.get_char(i));
        if ca != cb {
            proof {
                assert(lower_seq(a@)[i as int] != lower_seq(b@)[i as int]);
            }
            return false;
        }
        i += 1;
    }
    proof {
        assert(lower_seq(a@) =~= lower_seq(b@));
    }
    true
}

/// Case-insensitive (ASCII) containment: does `h` contain `n`, ignoring case?
pub fn str_contains_ci(h: &str, n: &str) -> (r: bool)
    ensures
        r == contains_ci(h@, n@),
{
    let hlen = h.unicode_len();
    let nlen = n.unicode_len();
    if nlen > hlen {
        proof {
            assert(forall|i: int| !matches_at(lower_seq(h@), lower_seq(n@), i)) by {
                assert forall|i: int| !matches_at(lower_seq(h@), lower_seq(n@), i) by {
                    assert(lower_seq(h@).len() < lower_seq(n@).len());
                }
            }
        }
        return false;
    }
    if nlen == 0 {
        proof {
            assert(lower_seq(h@).subrange(0, 0) =~= lower_seq(n@));
            assert(matches_at(lower_seq(h@), lower_seq(n@), 0));
        }
        return true;
    }
    let mut i: usize = 0;
    while i <= hlen - nlen
        invariant
            hlen == h@.len(),
            nlen == n@.len(),
            0 < nlen <= hlen,
            i <= hlen - nlen + 1,
            forall|k: int| 0 <= k < i ==> !matches_at(lower_seq(h@), lower_seq(n@), k),
        decreases hlen - i,
    {
        let mut j: usize = 0;
        let mut all_eq = true;
        while j < nlen
            invariant
                hlen == h@.len(),
                nlen == n@.len(),
                nlen <= hlen,
                i <= hlen - nlen,
                j <= nlen,
                all_eq ==> forall|m: int| 0 <= m < j
                    ==> lower_char(h@[i + m]) == lower_char(n@[m]),
                !all_eq ==> !matches_at(lower_seq(h@), lower_seq(n@), i as int),
            decreases nlen - j,
        {
            let hc = to_lower_char(h.get_char(i + j));
            let nc = to_lower_char(n.get_char(j));
            if hc != nc {
                proof {
                    let lh = lower_seq(h@);
                    let ln = lower_seq(n@);
                    if matches_at(lh, ln, i as int) {
                        assert(lh.subrange(i as int, i + ln.len())[j as int] == ln[j as int]);
                        assert(lh[i + j] == ln[j as int]);
                        assert(false);
                    }
                }
                all_eq = false;
            }
            j += 1;
        }
        if all_eq {
            proof {
                let lh = lower_seq(h@);
                let ln = lower_seq(n@);
                assert(lh.subrange(i as int, i + ln.len()) =~= ln) by {
                    assert(forall|m: int| 0 <= m < ln.len()
                        ==> lh.subrange(i as int, i + ln.len())[m] == ln[m]);
                }
                assert(matches_at(lh, ln, i as int));
            }
            return true;
        }
        i += 1;
    }
    proof {
        assert(forall|k: int| !matches_at(lower_seq(h@), lower_seq(n@), k)) by {
            assert forall|k: int| !matches_at(lower_seq(h@), lower_seq(n@), k) by {
                if 0 <= k < i {
                } else {
                    assert(!(0 <= k && k + lower_seq(n@).len() <= lower_seq(h@).len()));
                }
            }
        }
    }
    false
}

/// The decimal digit character for `d` in 0..10.
pub open spec fn digit_char(d: int) -> char {
    if d == 0 {
        '0'
    } else if d == 1 {
        '1'
    } else if d == 2 {
        '2'
    } else if d == 3 {
        '3'
    } else if d == 4 {
        '4'
    } else if d == 5 {
        '5'
    } else if d == 6 {
        '6'
    } else if d == 7 {
        '7'
    } else if d == 8 {
        '8'
    } else {
        '9'
    }
}

/// The decimal digit string of `n`, most significant digit first, no leading
/// zeros (except for `n == 0` itself, which is "0").
pub open spec fn dec_digits(n: nat) -> Seq<char>
    decreases n,
{
    if n < 10 {
        seq![digit_char(n as int)]
    } else {
        dec_digits(n / 10).push(digit_char((n % 10) as int))
    }
}

/// One decimal digit as a string slice.
fn digit_str(d: u16) -> (r: &'static str)
    requires
        d < 10,
    ensures
        r@ == seq![digit_char(d as int)],
{
    if d == 0 {
        let s = "0";
        proof {
            reveal_strlit("0");
            assert(s@ =~= seq![digit_char(0)]);
        }
        s
    } else if d == 1 {
        let s = "1";
        proof {
            reveal_strlit("1");
            assert(s@ =~= seq![digit_char(1)]);
        }
        s
    } else if d == 2 {
        let s = "2";
        proof {
            reveal_strlit("2");
            assert(s@ =~= seq![digit_char(2)]);
        }
        s
    } else if d == 3 {
        let s = "3";
        proof {
            reveal_strlit("3");
            assert(s@ =~= seq![digit_char(3)]);
        }
        s
    } else if d == 4 {
        let s = "4";
        proof {
            reveal_strlit("4");
            assert(s@ =~= seq![digit_char(4)]);
        }
        s
    } else if d == 5 {
        let s = "5";
        proof {
            reveal_strlit("5");
            assert(s@ =~= seq![digit_char(5)]);
        }
        s
    } else if d == 6 {
        let s = "6";
        proof {
            reveal_strlit("6");
            assert(s@ =~= seq![digit_char(6)]);
        }
        s
    } else if d == 7 {
        let s = "7";
        proof {
            reveal_strlit("7");
            assert(s@ =~= seq![digit_char(7)]);
        }
        s
    } else if d == 8 {
        let s = "8";
        proof {
            reveal_strlit("8");
            assert(s@ =~= seq![digit_char(8)]);
        }
        s
    } else {
        let s = "9";
        proof {
            reveal_strlit("9");
            assert(s@ =~= seq![digit_char(9)]);
        }
        s
    }
}

/// Render `n` in decimal, most significant digit first.
pub fn dec_string(n: u16) -> (r: String)
    ensures
        r@ == dec_digits(n as nat),
    decreases n,
{
    if n < 10 {
        String::from_str(digit_str(n))
    } else {
        let prefix = dec_string(n / 10);
        let r = prefix.concat(digit_str(n % 10));
        proof {
            assert(r@ =~= dec_digits(n as nat));
        }
        r
    }
}

} // verus!
