//! Generation of strong passwords.

use vstd::prelude::*;
use rand::Rng;
use crate::text::text_of;

verus! {

/// The character that separates the groups of a generated password.
pub const SEPARATOR: char = '-';

/// The length of a generated password, separators included.
pub const PASSWORD_LEN: usize = 20;

/// A separator stands behind the fifth, the tenth and the fifteenth drawn
/// character.
pub open spec fn separator_at(i: int) -> bool {
    i == 5 || i == 11 || i == 17
}

/// Printable ASCII without the space and without the separator.
pub open spec fn in_charset(c: char) -> bool {
    '!' <= c && c <= '~' && c != SEPARATOR
}

/// The codes of two characters differ by more than one.
pub open spec fn apart(a: char, b: char) -> bool {
    a as int - b as int > 1 || b as int - a as int > 1
}

/// A character may be drawn behind `prev`, and before a separator where
/// `before_separator` holds.
pub open spec fn admissible(c: char, prev: Option<char>, before_separator: bool) -> bool {
    &&& in_charset(c)
    &&& prev matches Some(p) ==> apart(p, c)
    &&& before_separator ==> apart(c, SEPARATOR)
}

/// Twenty characters: separators at their places, characters of the set
/// elsewhere, and no two neighbours whose codes differ by one or less.
pub open spec fn is_strong_password(s: Seq<char>) -> bool {
    &&& s.len() == PASSWORD_LEN
    &&& forall|i: int|
        0 <= i < s.len() ==> if separator_at(i) {
            #[trigger] s[i] == SEPARATOR
        } else {
            in_charset(s[i])
        }
    &&& forall|i: int, j: int| 0 <= i && j == i + 1 && j < s.len() ==> apart(#[trigger] s[i], #[trigger] s[j])
}

/// `Rng::gen_range` of `rand::thread_rng()` on `0..n`: a random number below
/// `n`. The outside function panics on an empty range.
#[verifier::external_body]
fn random_below(n: usize) -> (r: usize)
    requires
        n > 0,
    ensures
        r < n,
{
    rand::thread_rng().gen_range(0..n)
}

fn apart_exec(a: char, b: char) -> (r: bool)
    ensures
        r == apart(a, b),
{
    let x: u32 = a as u32;
    let y: u32 = b as u32;
    if x >= y {
        x - y > 1
    } else {
        y - x > 1
    }
}

/// The characters of the set with a code below `bound` that may be drawn
/// behind `prev`, in ascending order.
pub open spec fn candidates_below(prev: Option<char>, before_separator: bool, bound: int) -> Seq<
    char,
>
    decreases bound,
{
    if bound <= 33 {
        Seq::empty()
    } else {
        let rest = candidates_below(prev, before_separator, bound - 1);
        let c = (bound - 1) as char;
        if admissible(c, prev, before_separator) {
            rest.push(c)
        } else {
            rest
        }
    }
}

/// The characters that may be drawn behind `prev`, in ascending order.
pub open spec fn candidates_of(prev: Option<char>, before_separator: bool) -> Seq<char> {
    candidates_below(prev, before_separator, 127)
}

/// `candidates_below` holds exactly the admissible characters below the
/// bound, each once and in ascending order.
pub proof fn lemma_candidates_below(prev: Option<char>, before_separator: bool, bound: int)
    requires
        33 <= bound <= 127,
    ensures
        forall|c: char|
            #[trigger] candidates_below(prev, before_separator, bound).contains(c) <==> (admissible(
                c,
                prev,
                before_separator,
            ) && (c as int) < bound),
        forall|i: int, j: int|
            0 <= i < j < candidates_below(prev, before_separator, bound).len()
                ==> candidates_below(prev, before_separator, bound)[i] < candidates_below(
                prev,
                before_separator,
                bound,
            )[j],
    decreases bound,
{
    if bound > 33 {
        lemma_candidates_below(prev, before_separator, bound - 1);
        let rest = candidates_below(prev, before_separator, bound - 1);
        let all = candidates_below(prev, before_separator, bound);
        let c = (bound - 1) as char;
        assert(c as int == bound - 1);
        assert forall|i: int| 0 <= i < rest.len() implies rest[i] < c by {
            assert(rest.contains(rest[i]));
            assert((rest[i] as int) < bound - 1);
        }
        assert forall|x: char| #[trigger]
            all.contains(x) <==> (admissible(x, prev, before_separator) && (x as int) < bound) by {
            if all.contains(x) {
                let k = choose|k: int| 0 <= k < all.len() && all[k] == x;
                if k < rest.len() {
                    assert(rest[k] == x);
                    assert(rest.contains(x));
                }
            }
            if admissible(x, prev, before_separator) && (x as int) < bound {
                if (x as int) < bound - 1 {
                    assert(rest.contains(x));
                    let k = choose|k: int| 0 <= k < rest.len() && rest[k] == x;
                    assert(all[k] == x);
                } else {
                    assert(x == c);
                    assert(all[rest.len() as int] == x);
                }
            }
        }
    }
}

/// There is always a character to draw, the candidates are exactly the
/// admissible characters, and they stand in ascending order.
pub proof fn lemma_candidates_of(prev: Option<char>, before_separator: bool)
    ensures
        candidates_of(prev, before_separator).len() > 0,
        forall|c: char|
            #[trigger] candidates_of(prev, before_separator).contains(c) <==> admissible(
                c,
                prev,
                before_separator,
            ),
        forall|i: int, j: int|
            0 <= i < j < candidates_of(prev, before_separator).len() ==> candidates_of(
                prev,
                before_separator,
            )[i] < candidates_of(prev, before_separator)[j],
{
    lemma_candidates_below(prev, before_separator, 127);
    let pool = candidates_of(prev, before_separator);
    if admissible('A', prev, before_separator) {
        assert(pool.contains('A'));
    } else {
        assert(admissible('D', prev, before_separator));
        assert(pool.contains('D'));
    }
}

/// The characters that may be drawn behind `prev`, in ascending order.
pub fn candidates(prev: Option<char>, before_separator: bool) -> (out: Vec<char>)
    ensures
        out@ == candidates_of(prev, before_separator),
        out@.len() > 0,
        forall|c: char| #[trigger] out@.contains(c) <==> admissible(c, prev, before_separator),
        forall|i: int, j: int| 0 <= i < j < out@.len() ==> out@[i] < out@[j],
{
    let mut out: Vec<char> = Vec::new();
    let mut b: u8 = 33;
    while b <= 126
        invariant
            33 <= b <= 127,
            out@ == candidates_below(prev, before_separator, b as int),
        decreases 127 - b,
    {
        let c: char = b as char;
        let fits_prev = match prev {
            Some(p) => apart_exec(p, c),
            None => true,
        };
        let fits_next = !before_separator || apart_exec(c, SEPARATOR);
        if c != SEPARATOR && fits_prev && fits_next {
            out.push(c);
        }
        b = b + 1;
    }
    proof {
        lemma_candidates_of(prev, before_separator);
    }
    out
}

/// The character that draw number `draw` chooses behind `prev`: the
/// candidate at that place, counted from 0 in ascending order.
pub fn pick(prev: Option<char>, before_separator: bool, draw: usize) -> (c: char)
    requires
        draw < candidates_of(prev, before_separator).len(),
    ensures
        c == candidates_of(prev, before_separator)[draw as int],
        admissible(c, prev, before_separator),
{
    let pool = candidates(prev, before_separator);
    proof {
        assert(pool@.contains(pool@[draw as int]));
    }
    pool[draw]
}

/// Which of the seventeen draws fills place `i` of a password, where no
/// separator stands there.
pub open spec fn draw_index(i: int) -> int {
    if i < 5 {
        i
    } else if i < 11 {
        i - 1
    } else if i < 17 {
        i - 2
    } else {
        i - 3
    }
}

/// The first `n` characters of the password that a sequence of draws
/// chooses: a separator at its places, and elsewhere the candidate that the
/// next draw chooses behind the character before it.
pub open spec fn password_upto(draws: Seq<int>, n: int) -> Seq<char>
    decreases n,
{
    if n <= 0 {
        Seq::empty()
    } else {
        let before = password_upto(draws, n - 1);
        let i = n - 1;
        let c = if separator_at(i) {
            SEPARATOR
        } else {
            let prev = if i == 0 {
                None
            } else {
                Some(before.last())
            };
            candidates_of(prev, separator_at(i + 1))[draws[draw_index(i)]]
        };
        before.push(c)
    }
}

/// The password of twenty characters that seventeen draws choose.
pub open spec fn password_of(draws: Seq<int>) -> Seq<char> {
    password_upto(draws, PASSWORD_LEN as int)
}

/// A strong password that some seventeen draws choose.
pub open spec fn is_generated_password(s: Seq<char>) -> bool {
    &&& is_strong_password(s)
    &&& exists|draws: Seq<int>| draws.len() == 17 && s == password_of(draws)
}

/// The first characters of a password depend on the first draws only.
pub proof fn lemma_password_upto_agrees(a: Seq<int>, b: Seq<int>, n: int)
    requires
        0 <= n <= PASSWORD_LEN,
        forall|i: int|
            0 <= i < n && !separator_at(i) ==> a[#[trigger] draw_index(i)] == b[draw_index(i)],
    ensures
        password_upto(a, n) == password_upto(b, n),
        password_upto(a, n).len() == n,
    decreases n,
{
    if n > 0 {
        lemma_password_upto_agrees(a, b, n - 1);
    }
}

/// Generates a strong password: seventeen random characters in groups of
/// five, with a separator between the groups. Each character is drawn
/// uniformly from those that may stand at its place: the password is the
/// one that the seventeen numbers drawn choose.
pub fn generate_strong_password(_len: usize) -> (r: String)
    ensures
        is_generated_password(r@),
{
    let mut chars: Vec<char> = Vec::new();
    let mut prev: Option<char> = None;
    let mut i: usize = 0;
    let ghost mut draws: Seq<int> = Seq::empty();
    while i < PASSWORD_LEN
        invariant
            i <= PASSWORD_LEN,
            chars@.len() == i,
            prev == if i == 0 {
                None::<char>
            } else {
                Some(chars@[i - 1])
            },
            draws.len() == if i <= 5 {
                i as int
            } else if i <= 11 {
                i - 1
            } else if i <= 17 {
                i - 2
            } else {
                i - 3
            },
            chars@ == password_upto(draws, i as int),
            forall|k: int|
                0 <= k < i ==> if separator_at(k) {
                    #[trigger] chars@[k] == SEPARATOR
                } else {
                    in_charset(chars@[k])
                },
            forall|k: int, l: int|
                0 <= k && l == k + 1 && l < i ==> apart(#[trigger] chars@[k], #[trigger] chars@[l]),
            i > 0 && separator_at(i as int) ==> apart(chars@[i - 1], SEPARATOR),
        decreases PASSWORD_LEN - i,
    {
        let ghost before = draws;
        let c: char = if i == 5 || i == 11 || i == 17 {
            SEPARATOR
        } else {
            let before_separator = i == 4 || i == 10 || i == 16;
            let count: usize = candidates(prev, before_separator).len();
            let at: usize = random_below(count);
            proof {
                draws = draws.push(at as int);
            }
            pick(prev, before_separator, at)
        };
        proof {
            lemma_password_upto_agrees(before, draws, i as int);
            assert(chars@.len() > 0 ==> chars@.last() == chars@[i - 1]);
        }
        chars.push(c);
        prev = Some(c);
        i = i + 1;
    }
    text_of(&chars)
}

} // verus!
