//! Text helpers: prefix tests, decimal rendering and the paths of backup
//! directories.

use vstd::prelude::*;
use vstd::std_specs::iter::IteratorSpec;
use vstd::string::StringExecFns;

verus! {

/// Whether `text` begins with `prefix`, character by character and with case kept.
pub fn starts_with(text: &str, prefix: &str) -> (r: bool)
    ensures
        r == prefix@.is_prefix_of(text@),
{
    broadcast use vstd::string::group_string_axioms;

    let mut rest = text.chars();
    let mut wanted = prefix.chars();
    let ghost mut seen: int = 0;
    loop
        invariant
            0 <= seen <= prefix@.len(),
            seen <= text@.len(),
            wanted.remaining() == prefix@.skip(seen),
            rest.remaining() == text@.skip(seen),
            prefix@.take(seen) == text@.take(seen),
        decreases prefix@.len() - seen,
    {
        match wanted.next() {
            None => {
                return true;
            },
            Some(p) => {
                match rest.next() {
                    None => {
                        return false;
                    },
                    Some(t) => {
                        if p != t {
                            return false;
                        }
                        proof {
                            seen = seen + 1;
                        }
                    },
                }
            },
        }
    }
}

/// Whether two strings hold the same characters.
pub fn same_text(a: &str, b: &str) -> (r: bool)
    ensures
        r == (a@ == b@),
{
    let r = starts_with(a, b) && starts_with(b, a);
    proof {
        if r {
            assert(a@ =~= b@);
        }
    }
    r
}

/// The character that stands for one decimal digit.
pub open spec fn digit(d: int) -> char {
    if d == 0 {
        '0'
    } else if d == 1 {
        '1'
    } else if d == 2 {
        '2'
    } else if d == 3 {
        '3'
    } else if d == 4 {
        '4'
    } else if d == 5 {
        '5'
    } else if d == 6 {
        '6'
    } else if d == 7 {
        '7'
    } else if d == 8 {
        '8'
    } else {
        '9'
    }
}

/// Whether `c` is one of the ten decimal digits.
pub open spec fn is_digit(c: char) -> bool {
    exists|d: int| 0 <= d < 10 && c == #[trigger] digit(d)
}

/// A natural number in decimal, without leading zeros.
pub open spec fn decimal(n: nat) -> Seq<char>
    decreases n,
{
    if n < 10 {
        seq![digit(n as int)]
    } else {
        decimal(n / 10).push(digit((n % 10) as int))
    }
}

/// An integer in decimal, with a minus sign in front of a negative one.
pub open spec fn int_text(i: int) -> Seq<char> {
    if i < 0 {
        seq!['-'] + decimal((-i) as nat)
    } else {
        decimal(i as nat)
    }
}

/// The directory in which every backup lives, with its closing slash.
pub open spec fn backup_root() -> Seq<char> {
    seq!['b', 'a', 'c', 'k', 'u', 'p', 's', '/']
}

/// The backup directory of one save: the root, then the game's, the
/// platform's and the save's identifier, each followed by a slash.
pub open spec fn backup_path(game_id: int, platform_id: int, save_id: int) -> Seq<char> {
    backup_root() + int_text(game_id) + seq!['/'] + int_text(platform_id) + seq!['/'] + int_text(
        save_id,
    ) + seq!['/']
}

/// A decimal rendering is never empty and holds digits only.
pub proof fn lemma_decimal_digits(n: nat)
    ensures
        decimal(n).len() >= 1,
        n >= 10 ==> decimal(n).len() >= 2,
        forall|i: int| 0 <= i < decimal(n).len() ==> is_digit(#[trigger] decimal(n)[i]),
    decreases n,
{
    if n >= 10 {
        lemma_decimal_digits(n / 10);
    }
}

/// Two naturals with the same decimal rendering are the same number.
pub proof fn lemma_decimal_injective(a: nat, b: nat)
    requires
        decimal(a) == decimal(b),
    ensures
        a == b,
    decreases a,
{
    lemma_decimal_digits(b);
    if a < 10 {
        assert(decimal(b)[0] == digit(b as int));
    } else {
        let ha = decimal(a / 10);
        let hb = decimal(b / 10);
        assert(decimal(a).drop_last() =~= ha);
        assert(decimal(b).drop_last() =~= hb);
        assert(decimal(b).last() == digit((b % 10) as int));
        lemma_decimal_injective(a / 10, b / 10);
    }
}

/// Two integers with the same rendering are the same integer, and a
/// rendering is never empty and holds no slash.
pub proof fn lemma_int_text_injective(a: int, b: int)
    ensures
        int_text(a).len() >= 1,
        forall|i: int| 0 <= i < int_text(a).len() ==> #[trigger] int_text(a)[i] != '/',
        int_text(a) == int_text(b) ==> a == b,
{
    let na: nat = if a < 0 { (-a) as nat } else { a as nat };
    let nb: nat = if b < 0 { (-b) as nat } else { b as nat };
    lemma_decimal_digits(na);
    lemma_decimal_digits(nb);
    if int_text(a) == int_text(b) {
        if a < 0 && b < 0 {
            assert(decimal(na) =~= int_text(a).subrange(1, int_text(a).len() as int));
            assert(decimal(nb) =~= int_text(b).subrange(1, int_text(b).len() as int));
            lemma_decimal_injective(na, nb);
        } else if a >= 0 && b >= 0 {
            lemma_decimal_injective(na, nb);
        } else if a < 0 {
            assert(int_text(b)[0] == decimal(nb)[0]);
        } else {
            assert(int_text(a)[0] == decimal(na)[0]);
        }
    }
}

/// Two texts that hold no slash and are each followed by a slash and a rest
/// are equal, and so are the rests, when the wholes are equal.
pub proof fn lemma_split_at_slash(a: Seq<char>, ra: Seq<char>, b: Seq<char>, rb: Seq<char>)
    requires
        forall|i: int| 0 <= i < a.len() ==> #[trigger] a[i] != '/',
        forall|i: int| 0 <= i < b.len() ==> #[trigger] b[i] != '/',
        a + seq!['/'] + ra == b + seq!['/'] + rb,
    ensures
        a == b,
        ra == rb,
{
    let x = a + seq!['/'] + ra;
    let y = b + seq!['/'] + rb;
    if a.len() < b.len() {
        assert(y[a.len() as int] == b[a.len() as int]);
    }
    if b.len() < a.len() {
        assert(x[b.len() as int] == a[b.len() as int]);
    }
    assert(a =~= b) by {
        assert forall|i: int| 0 <= i < a.len() implies a[i] == b[i] by {
            assert(y[i] == b[i]);
        }
    }
    assert(ra =~= rb) by {
        assert(x.len() == y.len());
        assert forall|i: int| 0 <= i < ra.len() implies ra[i] == rb[i] by {
            assert(y[b.len() + 1 + i] == rb[i]);
        }
    }
}

/// No two saves share a backup directory: the path determines the game, the
/// platform and the save.
pub proof fn lemma_backup_path_injective(g1: int, p1: int, s1: int, g2: int, p2: int, s2: int)
    requires
        backup_path(g1, p1, s1) == backup_path(g2, p2, s2),
    ensures
        g1 == g2,
        p1 == p2,
        s1 == s2,
{
    let root = backup_root();
    let tail1 = int_text(g1) + seq!['/'] + (int_text(p1) + seq!['/'] + (int_text(s1) + seq!['/']
        + Seq::<char>::empty()));
    let tail2 = int_text(g2) + seq!['/'] + (int_text(p2) + seq!['/'] + (int_text(s2) + seq!['/']
        + Seq::<char>::empty()));
    assert(backup_path(g2, p2, s2) =~= root + tail2);
    assert(tail2 =~= (root + tail2).subrange(root.len() as int, (root + tail2).len() as int));
    assert(tail1 == tail2);
    lemma_int_text_injective(g1, g2);
    lemma_int_text_injective(g2, g1);
    lemma_int_text_injective(p1, p2);
    lemma_int_text_injective(p2, p1);
    lemma_int_text_injective(s1, s2);
    lemma_int_text_injective(s2, s1);
    let rest_p1 = int_text(p1) + seq!['/'] + (int_text(s1) + seq!['/'] + Seq::<char>::empty());
    let rest_p2 = int_text(p2) + seq!['/'] + (int_text(s2) + seq!['/'] + Seq::<char>::empty());
    lemma_split_at_slash(int_text(g1), rest_p1, int_text(g2), rest_p2);
    let rest_s1 = int_text(s1) + seq!['/'] + Seq::<char>::empty();
    let rest_s2 = int_text(s2) + seq!['/'] + Seq::<char>::empty();
    lemma_split_at_slash(int_text(p1), rest_s1, int_text(p2), rest_s2);
    lemma_split_at_slash(int_text(s1), Seq::<char>::empty(), int_text(s2), Seq::<char>::empty());
}

/// The one-character string of a decimal digit.
fn digit_str(d: u64) -> (s: &'static str)
    requires
        d < 10,
    ensures
        s@ == seq![digit(d as int)],
{
    if d == 0 {
        proof {
            reveal_strlit("0");
        }
        assert("0"@ =~= seq!['0']);
        "0"
    } else if d == 1 {
        proof {
            reveal_strlit("1");
        }
        "1"
    } else if d == 2 {
        proof {
            reveal_strlit("2");
        }
        "2"
    } else if d == 3 {
        proof {
            reveal_strlit("3");
        }
        "3"
    } else if d == 4 {
        proof {
            reveal_strlit("4");
        }
        "4"
    } else if d == 5 {
        proof {
            reveal_strlit("5");
        }
        "5"
    } else if d == 6 {
        proof {
            reveal_strlit("6");
        }
        "6"
    } else if d == 7 {
        proof {
            reveal_strlit("7");
        }
        "7"
    } else if d == 8 {
        proof {
            reveal_strlit("8");
        }
        "8"
    } else {
        proof {
            reveal_strlit("9");
        }
        "9"
    }
}

/// Appends the decimal rendering of `n` to `out`.
fn push_decimal(out: &mut String, n: u64)
    ensures
        final(out)@ == old(out)@ + decimal(n as nat),
    decreases n,
{
    if n >= 10 {
        push_decimal(out, n / 10);
    }
    out.append(digit_str(n % 10));
}

/// Appends the decimal rendering of an integer to `out`.
pub fn push_int(out: &mut String, i: i64)
    ensures
        final(out)@ == old(out)@ + int_text(i as int),
{
    if i < 0 {
        out.append("-");
        proof {
            reveal_strlit("-");
        }
        let magnitude: u64 = if i == i64::MIN {
            9223372036854775808u64
        } else {
            (-i) as u64
        };
        push_decimal(out, magnitude);
    } else {
        push_decimal(out, i as u64);
    }
}

/// An integer in decimal.
pub fn int_string(i: i64) -> (s: String)
    ensures
        s@ == int_text(i as int),
{
    let mut s = String::new();
    push_int(&mut s, i);
    s
}

/// The backup directory of the save `save_id` of game `game_id` on platform
/// `platform_id`.
pub fn backup_dir(game_id: i32, platform_id: i32, save_id: i32) -> (path: String)
    ensures
        path@ == backup_path(game_id as int, platform_id as int, save_id as int),
{
    let mut path = String::from_str("backups/");
    proof {
        reveal_strlit("backups/");
        reveal_strlit("/");
    }
    push_int(&mut path, game_id as i64);
    path.append("/");
    push_int(&mut path, platform_id as i64);
    path.append("/");
    push_int(&mut path, save_id as i64);
    path.append("/");
    path
}

} // verus!
