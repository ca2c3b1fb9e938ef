//! Text helpers: comparison, joining and decimal numbers.
use vstd::prelude::*;

verus! {

/// The decimal digit for `d` (0 to 9).
pub open spec fn digit_char(d: int) -> char {
    if d == 0 { '0' }
    else if d == 1 { '1' }
    else if d == 2 { '2' }
    else if d == 3 { '3' }
    else if d == 4 { '4' }
    else if d == 5 { '5' }
    else if d == 6 { '6' }
    else if d == 7 { '7' }
    else if d == 8 { '8' }
    else { '9' }
}

/// The decimal notation of `n`, without leading zeros.
pub open spec fn decimal(n: nat) -> Seq<char>
    decreases n,
{
    if n < 10 {
        seq![digit_char(n as int)]
    } else {
        decimal(n / 10).push(digit_char((n % 10) as int))
    }
}

/// The words of `words` with `sep` between each two of them.
pub open spec fn join_words(words: Seq<Seq<char>>, sep: Seq<char>) -> Seq<char>
    decreases words.len(),
{
    if words.len() == 0 {
        seq![]
    } else if words.len() == 1 {
        words[0]
    } else {
        join_words(words.drop_last(), sep) + sep + words.last()
    }
}

/// The views of a sequence of strings.
pub open spec fn views(v: Seq<String>) -> Seq<Seq<char>> {
    v.map_values(|s: String| s@)
}

/// Whether two strings hold the same characters.
pub fn str_eq(a: &str, b: &str) -> (r: bool)
    ensures
        r == (a@ == b@),
{
    let n = a.unicode_len();
    if n != b.unicode_len() {
        return false;
    }
    let mut i: usize = 0;
    while i < n
        invariant
            n == a@.len(),
            n == b@.len(),
            i <= n,
            forall|j: int| 0 <= j < i ==> a@[j] == b@[j],
        decreases n - i,
    {
        if a.get_char(i) != b.get_char(i) {
            return false;
        }
        i = i + 1;
    }
    assert(a@ =~= b@);
    true
}

/// The one-character string of the decimal digit `d`.
fn digit_str(d: u64) -> (r: &'static str)
    requires
        d < 10,
    ensures
        r@ == seq![digit_char(d as int)],
{
    proof {
        reveal_strlit("0");
        reveal_strlit("1");
        reveal_strlit("2");
        reveal_strlit("3");
        reveal_strlit("4");
        reveal_strlit("5");
        reveal_strlit("6");
        reveal_strlit("7");
        reveal_strlit("8");
        reveal_strlit("9");
    }
    if d == 0 { "0" }
    else if d == 1 { "1" }
    else if d == 2 { "2" }
    else if d == 3 { "3" }
    else if d == 4 { "4" }
    else if d == 5 { "5" }
    else if d == 6 { "6" }
    else if d == 7 { "7" }
    else if d == 8 { "8" }
    else { "9" }
}

/// The decimal notation of `n`.
pub fn decimal_text(n: u64) -> (r: String)
    ensures
        r@ == decimal(n as nat),
    decreases n,
{
    if n < 10 {
        String::from_str(digit_str(n))
    } else {
        let mut s = decimal_text(n / 10);
        s.append(digit_str(n % 10));
        s
    }
}

/// `words[start..]` joined by single spaces.
pub fn join_from(words: &Vec<String>, start: usize) -> (r: String)
    requires
        start <= words.len(),
    ensures
        r@ == join_words(views(words@).subrange(start as int, words.len() as int), seq![' ']),
{
    let ghost sep: Seq<char> = seq![' '];
    proof {
        reveal_strlit(" ");
    }
    let mut r = String::new();
    let mut i: usize = start;
    while i < words.len()
        invariant
            start <= i <= words.len(),
            r@ == join_words(views(words@.subrange(start as int, i as int)), sep),
            " "@ == sep,
        decreases words.len() - i,
    {
        assert(views(words@.subrange(start as int, i + 1)) =~= views(words@).subrange(start as int, i + 1));
        let ghost before = views(words@.subrange(start as int, i as int));
        let ghost after = views(words@.subrange(start as int, i + 1));
        assert(after.drop_last() =~= before);
        assert(after.last() == words@[i as int]@);
        if i != start {
            r.append(" ");
        } else {
            assert(after.len() == 1);
        }
        r.append(words[i].as_str());
        i = i + 1;
    }
    assert(views(words@.subrange(start as int, words.len() as int)) =~= views(words@).subrange(start as int, words.len() as int));
    r
}

} // verus!
