//! Verified text building blocks: decimal rendering, zero padding,
//! space-joining of fragments, and character-exact string predicates.

use vstd::prelude::*;
use vstd::string::*;

verus! {

/// The ten decimal digit characters.
pub open spec fn digit_char(d: nat) -> char
    recommends
        d < 10,
{
    if d == 0 {
        '0'
    } else if d == 1 {
        '1'
    } else if d == 2 {
        '2'
    } else if d == 3 {
        '3'
    } else if d == 4 {
        '4'
    } else if d == 5 {
        '5'
    } else if d == 6 {
        '6'
    } else if d == 7 {
        '7'
    } else if d == 8 {
        '8'
    } else {
        '9'
    }
}

/// Decimal text of `n`: most significant digit first, no leading zeros.
pub open spec fn dec_text(n: nat) -> Seq<char>
    decreases n,
{
    if n < 10 {
        seq![digit_char(n)]
    } else {
        dec_text(n / 10) + seq![digit_char(n % 10)]
    }
}

/// Decimal text of `n`, left-padded with zeros to two characters.
pub open spec fn pad2_text(n: nat) -> Seq<char>
    recommends
        n < 100,
{
    if n < 10 {
        seq!['0', digit_char(n)]
    } else {
        dec_text(n)
    }
}

/// Decimal text of `n`, left-padded with zeros to four characters.
pub open spec fn pad4_text(n: nat) -> Seq<char>
    recommends
        n < 10000,
{
    if n < 10 {
        seq!['0', '0', '0'] + dec_text(n)
    } else if n < 100 {
        seq!['0', '0'] + dec_text(n)
    } else if n < 1000 {
        seq!['0'] + dec_text(n)
    } else {
        dec_text(n)
    }
}

/// The fragments joined by single spaces, in order.
pub open spec fn joined_text(frags: Seq<Seq<char>>) -> Seq<char>
    decreases frags.len(),
{
    if frags.len() == 0 {
        Seq::empty()
    } else if frags.len() == 1 {
        frags[0]
    } else {
        frags[0] + seq![' '] + joined_text(frags.drop_first())
    }
}

/// Joining one more fragment onto a non-empty list appends a space and the
/// fragment to the joined text.
pub proof fn lemma_joined_push(frags: Seq<Seq<char>>, frag: Seq<char>)
    requires
        frags.len() >= 1,
    ensures
        joined_text(frags.push(frag)) == joined_text(frags) + seq![' '] + frag,
    decreases frags.len(),
{
    if frags.len() == 1 {
        let p = frags.push(frag);
        assert(p[0] == frags[0]);
        assert(p.drop_first() =~= seq![frag]);
        assert(joined_text(seq![frag]) == frag);
        assert(joined_text(p) == p[0] + seq![' '] + joined_text(p.drop_first()));
        assert(joined_text(p) =~= joined_text(frags) + seq![' '] + frag);
    } else {
        lemma_joined_push(frags.drop_first(), frag);
        assert(frags.push(frag).drop_first() =~= frags.drop_first().push(frag));
        assert(frags.push(frag)[0] == frags[0]);
        assert(joined_text(frags.push(frag)) =~= joined_text(frags) + seq![' '] + frag);
    }
}

fn digit_str(d: u8) -> (r: &'static str)
    requires
        d < 10,
    ensures
        r@ == seq![digit_char(d as nat)],
{
    proof {
        reveal_strlit("0");
        reveal_strlit("1");
        reveal_strlit("2");
        reveal_strlit("3");
        reveal_strlit("4");
        reveal_strlit("5");
        reveal_strlit("6");
        reveal_strlit("7");
        reveal_strlit("8");
        reveal_strlit("9");
    }
    match d {
        0 => "0",
        1 => "1",
        2 => "2",
        3 => "3",
        4 => "4",
        5 => "5",
        6 => "6",
        7 => "7",
        8 => "8",
        _ => "9",
    }
}

/// Renders `n` in decimal.
pub fn u32_dec(n: u32) -> (r: String)
    ensures
        r@ == dec_text(n as nat),
    decreases n,
{
    if n < 10 {
        digit_str(n as u8).to_owned()
    } else {
        let mut s = u32_dec(n / 10);
        s.append(digit_str((n % 10) as u8));
        s
    }
}

/// Renders `n` in decimal, zero-padded to two characters.
pub fn u32_pad2(n: u32) -> (r: String)
    requires
        n < 100,
    ensures
        r@ == pad2_text(n as nat),
{
    if n < 10 {
        proof {
            reveal_strlit("0");
        }
        let mut s = "0".to_owned();
        s.append(digit_str(n as u8));
        s
    } else {
        u32_dec(n)
    }
}

/// Renders `n` in decimal, zero-padded to four characters.
pub fn u32_pad4(n: u32) -> (r: String)
    requires
        n < 10000,
    ensures
        r@ == pad4_text(n as nat),
{
    if n < 10 {
        proof {
            reveal_strlit("000");
        }
        let mut s = "000".to_owned();
        s.append(digit_str(n as u8));
        s
    } else if n < 100 {
        proof {
            reveal_strlit("00");
        }
        let mut s = "00".to_owned();
        let rest = u32_dec(n);
        s.append(rest.as_str());
        s
    } else if n < 1000 {
        proof {
            reveal_strlit("0");
        }
        let mut s = "0".to_owned();
        let rest = u32_dec(n);
        s.append(rest.as_str());
        s
    } else {
        u32_dec(n)
    }
}

/// Holding exactly the names that start with `prefix`.
pub open spec fn has_prefix(prefix: Seq<char>) -> spec_fn(Seq<char>) -> bool {
    |n: Seq<char>| prefix.is_prefix_of(n)
}

/// Selects, in order, the names that start with `prefix`.
pub fn names_with_prefix(names: &Vec<String>, prefix: &str) -> (r: Vec<String>)
    ensures
        r.deep_view() == names.deep_view().filter(has_prefix(prefix@)),
{
    let ghost all = names.deep_view();
    let mut result: Vec<String> = Vec::new();
    proof {
        reveal(Seq::filter);
        assert(all.take(0) =~= Seq::<Seq<char>>::empty());
        assert(result.deep_view() =~= all.take(0).filter(has_prefix(prefix@)));
    }
    let mut i: usize = 0;
    while i < names.len()
        invariant
            i <= names.len(),
            all == names.deep_view(),
            all.len() == names@.len(),
            result.deep_view() == all.take(i as int).filter(has_prefix(prefix@)),
        decreases names.len() - i,
    {
        let ghost prev = result.deep_view();
        let n = &names[i];
        let matched = str_starts_with(n.as_str(), prefix);
        if matched {
            result.push(n.clone());
            proof {
                assert(result.deep_view() =~= prev.push(n@));
            }
        }
        proof {
            reveal(Seq::filter);
            assert(all.take(i as int + 1).drop_last() =~= all.take(i as int));
            assert(all.take(i as int + 1).last() == all[i as int]);
            assert(all[i as int] == n@);
            assert(has_prefix(prefix@)(all[i as int]) == matched);
            assert(result.deep_view() =~= all.take(i as int + 1).filter(has_prefix(prefix@)));
        }
        i += 1;
    }
    proof {
        assert(all.take(names@.len() as int) =~= all);
    }
    result
}

/// Whether `prefix` is a character-for-character prefix of `s`.
pub fn str_starts_with(s: &str, prefix: &str) -> (r: bool)
    ensures
        r == prefix@.is_prefix_of(s@),
{
    let n = prefix.unicode_len();
    if n > s.unicode_len() {
        return false;
    }
    let mut i: usize = 0;
    while i < n
        invariant
            i <= n,
            n == prefix@.len(),
            n <= s@.len(),
            forall|j: int| 0 <= j < i ==> s@[j] == prefix@[j],
        decreases n - i,
    {
        if s.get_char(i) != prefix.get_char(i) {
            assert(!prefix@.is_prefix_of(s@)) by {
                assert(s@.subrange(0, n as int)[i as int] == s@[i as int]);
            }
            return false;
        }
        i += 1;
    }
    assert(prefix@ =~= s@.subrange(0, n as int));
    true
}

/// Whether two string slices hold the same characters.
pub fn str_eq(a: &str, b: &str) -> (r: bool)
    ensures
        r == (a@ == b@),
{
    let n = a.unicode_len();
    if n != b.unicode_len() {
        return false;
    }
    let mut i: usize = 0;
    while i < n
        invariant
            i <= n,
            n == a@.len(),
            n == b@.len(),
            forall|j: int| 0 <= j < i ==> a@[j] == b@[j],
        decreases n - i,
    {
        if a.get_char(i) != b.get_char(i) {
            return false;
        }
        i += 1;
    }
    assert(a@ =~= b@);
    true
}

} // verus!
