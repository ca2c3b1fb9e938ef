//! The small languages of the command line: weekday lists and time spans.
use vstd::prelude::*;

verus! {

/// Whether `c` names a weekday: '1' (Monday) to '7' (Sunday).
pub open spec fn is_day_digit(c: char) -> bool {
    '1' <= c <= '7'
}

/// The weekday index (Monday = 0) that a weekday digit names.
pub open spec fn day_of_digit(c: char) -> int {
    c as int - '1' as int
}

/// A list of weekday digits: the text matches `^[1-7]{1,7}$`.
pub open spec fn is_day_list(s: Seq<char>) -> bool {
    &&& 1 <= s.len() <= 7
    &&& forall|k: int| 0 <= k < s.len() ==> is_day_digit(#[trigger] s[k])
}

/// A range of weekdays: the text matches `^[1-7]-[1-7]$`.
pub open spec fn is_day_range(s: Seq<char>) -> bool {
    &&& s.len() == 3
    &&& is_day_digit(s[0])
    &&& s[1] == '-'
    &&& is_day_digit(s[2])
}

/// Whether some character of `s` names weekday `j`.
pub open spec fn names_day(s: Seq<char>, j: int) -> bool {
    exists|k: int| 0 <= k < s.len() && day_of_digit(#[trigger] s[k]) == j
}

/// The weekdays (Monday first) that a `-d` parameter selects: those it
/// lists; those from the smaller to the larger end of a range, both ends
/// included; every day where the text is neither.
pub open spec fn days_from(s: Seq<char>) -> Seq<bool> {
    if is_day_list(s) {
        Seq::new(7, |j: int| names_day(s, j))
    } else if is_day_range(s) {
        let a = day_of_digit(s[0]);
        let b = day_of_digit(s[2]);
        let lo = if a <= b { a } else { b };
        let hi = if a <= b { b } else { a };
        Seq::new(7, |j: int| lo <= j <= hi)
    } else {
        Seq::new(7, |j: int| true)
    }
}

fn day_digit(c: char) -> (r: Option<usize>)
    ensures
        r == (if is_day_digit(c) { Some(day_of_digit(c) as usize) } else { None }),
{
    match c {
        '1' => Some(0),
        '2' => Some(1),
        '3' => Some(2),
        '4' => Some(3),
        '5' => Some(4),
        '6' => Some(5),
        '7' => Some(6),
        _ => None,
    }
}

fn is_day_list_exec(s: &str) -> (r: bool)
    ensures
        r == is_day_list(s@),
{
    let n = s.unicode_len();
    if n < 1 || n > 7 {
        return false;
    }
    let mut k: usize = 0;
    while k < n
        invariant
            n == s@.len(),
            k <= n,
            forall|m: int| 0 <= m < k ==> is_day_digit(#[trigger] s@[m]),
        decreases n - k,
    {
        if day_digit(s.get_char(k)).is_none() {
            return false;
        }
        k = k + 1;
    }
    true
}

/// The weekdays that the `-d` parameter `s` selects.
pub fn parse_days(s: &str) -> (r: [bool; 7])
    ensures
        r@ == days_from(s@),
{
    let n = s.unicode_len();
    if is_day_list_exec(s) {
        let mut days = [false; 7];
        let mut k: usize = 0;
        while k < n
            invariant
                n == s@.len(),
                k <= n,
                is_day_list(s@),
                days@.len() == 7,
                forall|j: int|
                    0 <= j < 7 ==> #[trigger] days@[j] == names_day(s@.take(k as int), j),
            decreases n - k,
        {
            let c = s.get_char(k);
            let j = day_digit(c).unwrap();
            let ghost before = days@;
            days[j] = true;
            assert forall|i: int| 0 <= i < 7 implies #[trigger] days@[i] == names_day(
                s@.take(k + 1),
                i,
            ) by {
                assert(s@.take(k + 1)[k as int] == c);
                if i == j {
                    assert(day_of_digit(s@.take(k + 1)[k as int]) == i);
                } else {
                    if names_day(s@.take(k + 1), i) {
                        let m = choose|m: int|
                            0 <= m < k + 1 && day_of_digit(#[trigger] s@.take(k + 1)[m]) == i;
                        assert(m != k);
                        assert(s@.take(k as int)[m] == s@.take(k + 1)[m]);
                    }
                    if names_day(s@.take(k as int), i) {
                        let m = choose|m: int|
                            0 <= m < k && day_of_digit(#[trigger] s@.take(k as int)[m]) == i;
                        assert(s@.take(k as int)[m] == s@.take(k + 1)[m]);
                    }
                }
            }
            k = k + 1;
        }
        assert(s@.take(n as int) =~= s@);
        assert(days@ =~= days_from(s@));
        days
    } else if n == 3 && s.get_char(1) == '-' && day_digit(s.get_char(0)).is_some() && day_digit(
        s.get_char(2),
    ).is_some() {
        let a = day_digit(s.get_char(0)).unwrap();
        let b = day_digit(s.get_char(2)).unwrap();
        let lo = if a <= b { a } else { b };
        let hi = if a <= b { b } else { a };
        let mut days = [false; 7];
        let mut j: usize = 0;
        while j < 7
            invariant
                j <= 7,
                days@.len() == 7,
                forall|i: int| 0 <= i < 7 ==> #[trigger] days@[i] == (i < j && lo <= i <= hi),
            decreases 7 - j,
        {
            days[j] = lo <= j && j <= hi;
            j = j + 1;
        }
        assert(days@ =~= days_from(s@));
        days
    } else {
        let days = [true; 7];
        assert(days@ =~= days_from(s@));
        days
    }
}

/// Whether `c` is a decimal digit.
pub open spec fn is_digit(c: char) -> bool {
    '0' <= c <= '9'
}

/// Whether `c` is one of the unit letters `dhmsDHMS`.
pub open spec fn is_unit(c: char) -> bool {
    c == 'd' || c == 'h' || c == 'm' || c == 's' || c == 'D' || c == 'H' || c == 'M' || c == 'S'
}

/// The number of digits of `s` from position `k` on.
pub open spec fn digit_run(s: Seq<char>, k: int) -> nat
    decreases s.len() - k,
{
    if 0 <= k < s.len() && is_digit(s[k]) {
        1 + digit_run(s, k + 1)
    } else {
        0
    }
}

/// The number that the digits `s[from..to]` write in decimal.
pub open spec fn digits_value(s: Seq<char>, from: int, to: int) -> nat
    decreases to - from,
{
    if to <= from {
        0
    } else {
        digits_value(s, from, to - 1) * 10 + (s[to - 1] as int - '0' as int) as nat
    }
}

/// The groups of `s` from position `k` on, each a number of one to nine
/// digits without leading zero followed by a unit letter; `None` where the
/// text is not made of such groups.
pub open spec fn groups_from(s: Seq<char>, k: int) -> Option<Seq<(nat, char)>>
    decreases s.len() - k,
{
    if k < 0 || k >= s.len() {
        Some(seq![])
    } else {
        let n = digit_run(s, k);
        let u = k + n;
        if 1 <= n <= 9 && s[k] != '0' && u < s.len() && is_unit(s[u]) {
            match groups_from(s, u + 1) {
                Some(g) => Some(seq![(digits_value(s, k, u), s[u])] + g),
                None => None,
            }
        } else {
            None
        }
    }
}

/// A time span text: it matches `^([1-9][0-9]{0,8}[dhmsDHMS]){1,4}$`.
pub open spec fn is_span(s: Seq<char>) -> bool {
    &&& s.len() > 0
    &&& groups_from(s, 0) matches Some(g)
    &&& 1 <= g.len() <= 4
}

pub open spec fn pow10(n: nat) -> nat
    decreases n,
{
    if n == 0 {
        1
    } else {
        10 * pow10((n - 1) as nat)
    }
}

proof fn lemma_pow10_le(m: nat, n: nat)
    requires
        m <= n,
    ensures
        pow10(m) <= pow10(n),
    decreases n - m,
{
    if m < n {
        lemma_pow10_le(m, (n - 1) as nat);
    }
}

proof fn lemma_pow10_ten()
    ensures
        pow10(9) == 1_000_000_000,
        pow10(10) == 10_000_000_000,
{
    reveal_with_fuel(pow10, 11);
}

fn digit_value(c: char) -> (r: Option<u64>)
    ensures
        r == (if is_digit(c) { Some((c as int - '0' as int) as u64) } else { None }),
{
    match c {
        '0' => Some(0),
        '1' => Some(1),
        '2' => Some(2),
        '3' => Some(3),
        '4' => Some(4),
        '5' => Some(5),
        '6' => Some(6),
        '7' => Some(7),
        '8' => Some(8),
        '9' => Some(9),
        _ => None,
    }
}

fn is_unit_exec(c: char) -> (r: bool)
    ensures
        r == is_unit(c),
{
    c == 'd' || c == 'h' || c == 'm' || c == 's' || c == 'D' || c == 'H' || c == 'M' || c == 'S'
}

/// The groups as values.
pub open spec fn groups_view(g: Seq<(u64, char)>) -> Seq<(nat, char)> {
    g.map_values(|p: (u64, char)| (p.0 as nat, p.1))
}

/// The groups of a time span text, where it is made of groups.
pub fn span_groups(s: &str) -> (r: Option<Vec<(u64, char)>>)
    ensures
        match r {
            Some(g) => groups_from(s@, 0) == Some(groups_view(g@)),
            None => groups_from(s@, 0) is None,
        },
        r matches Some(g) ==> forall|i: int| 0 <= i < g.len() ==> g@[i].0 < 1_000_000_000,
        r matches Some(g) ==> forall|i: int| 0 <= i < g.len() ==> is_unit(#[trigger] g@[i].1),
{
    let n = s.unicode_len();
    let mut acc: Vec<(u64, char)> = Vec::new();
    let mut k: usize = 0;
    proof {
        lemma_pow10_ten();
    }
    while k < n
        invariant
            n == s@.len(),
            k <= n,
            groups_from(s@, 0) == (match groups_from(s@, k as int) {
                Some(g) => Some(groups_view(acc@) + g),
                None => None::<Seq<(nat, char)>>,
            }),
            forall|i: int| 0 <= i < acc.len() ==> acc@[i].0 < 1_000_000_000,
            forall|i: int| 0 <= i < acc.len() ==> is_unit(#[trigger] acc@[i].1),
            pow10(9) == 1_000_000_000,
            pow10(10) == 10_000_000_000,
        decreases n - k,
    {
        let mut j: usize = k;
        let mut val: u64 = 0;
        while j < n && j - k < 10 && digit_value(s.get_char(j)).is_some()
            invariant
                n == s@.len(),
                k <= j <= n,
                j - k <= 10,
                digit_run(s@, k as int) == (j - k) + digit_run(s@, j as int),
                val == digits_value(s@, k as int, j as int),
                val < pow10((j - k) as nat),
                pow10(10) == 10_000_000_000,
            decreases n - j,
        {
            let d = digit_value(s.get_char(j)).unwrap();
            proof {
                lemma_pow10_le((j - k + 1) as nat, 10);
            }
            val = val * 10 + d;
            j = j + 1;
        }
        let run = j - k;
        if run < 1 || run > 9 || s.get_char(k) == '0' || j >= n || !is_unit_exec(s.get_char(j)) {
            proof {
                if run == 10 {
                    assert(digit_run(s@, k as int) >= 10);
                } else {
                    assert(digit_run(s@, j as int) == 0);
                }
            }
            return None;
        }
        proof {
            assert(digit_run(s@, j as int) == 0);
            lemma_pow10_le(run as nat, 9);
        }
        let u = s.get_char(j);
        let ghost prev = groups_view(acc@);
        acc.push((val, u));
        proof {
            assert(groups_view(acc@) =~= prev + seq![(digits_value(s@, k as int, j as int), u)]);
            match groups_from(s@, j + 1) {
                Some(g) => {
                    assert(prev + seq![(digits_value(s@, k as int, j as int), u)] + g =~= prev + (
                    seq![(digits_value(s@, k as int, j as int), u)] + g));
                },
                None => {},
            }
        }
        k = j + 1;
    }
    assert(groups_view(acc@) + seq![] =~= groups_view(acc@));
    Some(acc)
}

} // verus!
