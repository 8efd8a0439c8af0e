//! Small text functions: comparing, trimming, writing numbers.

use vstd::prelude::*;
use vstd::string::group_string_axioms;

verus! {

broadcast use group_string_axioms;

/// The characters that count as whitespace: those with the Unicode property
/// `White_Space`.
pub open spec fn is_whitespace(c: char) -> bool {
    let n = c as u32;
    ||| 0x0009 <= n <= 0x000D
    ||| n == 0x0020
    ||| n == 0x0085
    ||| n == 0x00A0
    ||| n == 0x1680
    ||| 0x2000 <= n <= 0x200A
    ||| n == 0x2028
    ||| n == 0x2029
    ||| n == 0x202F
    ||| n == 0x205F
    ||| n == 0x3000
}

/// The position of the first character at or after `from` that is not
/// whitespace; the length of the text where there is none.
pub open spec fn first_solid(s: Seq<char>, from: int) -> int
    decreases s.len() - from,
{
    if from < 0 || from >= s.len() {
        s.len() as int
    } else if !is_whitespace(s[from]) {
        from
    } else {
        first_solid(s, from + 1)
    }
}

/// One past the position of the last character before `upto` that is not
/// whitespace; 0 where there is none.
pub open spec fn last_solid_end(s: Seq<char>, upto: int) -> int
    decreases upto,
{
    if upto <= 0 || upto > s.len() {
        0
    } else if !is_whitespace(s[upto - 1]) {
        upto
    } else {
        last_solid_end(s, upto - 1)
    }
}

/// The text without the whitespace at its start and at its end.
pub open spec fn trimmed(s: Seq<char>) -> Seq<char> {
    let start = first_solid(s, 0);
    let end = last_solid_end(s, s.len() as int);
    if start < end {
        s.subrange(start, end)
    } else {
        Seq::empty()
    }
}

/// Every character of the text is whitespace.
pub open spec fn is_blank(s: Seq<char>) -> bool {
    forall|i: int| 0 <= i < s.len() ==> is_whitespace(#[trigger] s[i])
}

/// Where whitespace runs from `from` up to a character that is not, that
/// character is the first solid one.
pub proof fn lemma_first_solid(s: Seq<char>, from: int, at: int)
    requires
        0 <= from <= at <= s.len(),
        forall|j: int| from <= j < at ==> is_whitespace(#[trigger] s[j]),
        at < s.len() ==> !is_whitespace(s[at]),
    ensures
        first_solid(s, from) == at,
    decreases at - from,
{
    if from < at {
        lemma_first_solid(s, from + 1, at);
    }
}

/// What `last_solid_end` finds is the end of a solid character, and only
/// whitespace follows it.
pub proof fn lemma_last_solid_end(s: Seq<char>, upto: int)
    requires
        0 <= upto <= s.len(),
    ensures
        0 <= last_solid_end(s, upto) <= upto,
        last_solid_end(s, upto) > 0 ==> !is_whitespace(s[last_solid_end(s, upto) - 1]),
        forall|j: int| last_solid_end(s, upto) <= j < upto ==> is_whitespace(#[trigger] s[j]),
    decreases upto,
{
    if upto > 0 && is_whitespace(s[upto - 1]) {
        lemma_last_solid_end(s, upto - 1);
    }
}

/// Trimming leaves nothing exactly of the texts that are all whitespace,
/// the empty text among them; what it leaves of any other text starts and
/// ends with a character that is not whitespace.
pub proof fn trimmed_is_empty_of_blank(s: Seq<char>)
    ensures
        trimmed(s).len() == 0 <==> is_blank(s),
        trimmed(s).len() > 0 ==> !is_whitespace(trimmed(s).first()) && !is_whitespace(
            trimmed(s).last(),
        ),
{
    let end = last_solid_end(s, s.len() as int);
    lemma_last_solid_end(s, s.len() as int);
    if is_blank(s) {
        lemma_first_solid(s, 0, s.len() as int);
    } else {
        let i = choose|i: int| 0 <= i < s.len() && !is_whitespace(#[trigger] s[i]);
        let start = first_solid_found(s, 0, i);
        assert(end > i);
    }
}

/// Where a solid character stands at `at`, the first solid one from `from`
/// on stands at or before it, after whitespace only.
pub proof fn first_solid_found(s: Seq<char>, from: int, at: int) -> (start: int)
    requires
        0 <= from <= at < s.len(),
        !is_whitespace(s[at]),
    ensures
        start == first_solid(s, from),
        from <= start <= at,
        !is_whitespace(s[start]),
        forall|j: int| from <= j < start ==> is_whitespace(#[trigger] s[j]),
    decreases at - from,
{
    if !is_whitespace(s[from]) {
        from
    } else {
        first_solid_found(s, from + 1, at)
    }
}

/// A text that starts and ends with a character that is not whitespace is
/// left whole by trimming.
pub proof fn trimmed_keeps_solid_text(s: Seq<char>)
    requires
        s.len() > 0,
        !is_whitespace(s.first()),
        !is_whitespace(s.last()),
    ensures
        trimmed(s) == s,
{
    let start = first_solid_found(s, 0, 0);
    lemma_last_solid_end(s, s.len() as int);
    assert(trimmed(s) =~= s);
}

/// Whether the character is whitespace.
pub fn is_whitespace_char(c: char) -> (white: bool)
    ensures
        white == is_whitespace(c),
{
    let n: u32 = c as u32;
    (0x0009 <= n && n <= 0x000D) || n == 0x0020 || n == 0x0085 || n == 0x00A0 || n == 0x1680 || (
    0x2000 <= n && n <= 0x200A) || n == 0x2028 || n == 0x2029 || n == 0x202F || n == 0x205F || n
        == 0x3000
}

/// Whether two texts hold the same characters.
pub fn same_text(a: &str, b: &str) -> (same: bool)
    ensures
        same == (a@ == b@),
{
    let n = a.unicode_len();
    if n != b.unicode_len() {
        return false;
    }
    let mut i: usize = 0;
    while i < n
        invariant
            n == a@.len(),
            n == b@.len(),
            i <= n,
            forall|j: int| 0 <= j < i ==> a@[j] == b@[j],
        decreases n - i,
    {
        if a.get_char(i) != b.get_char(i) {
            return false;
        }
        i += 1;
    }
    assert(a@ =~= b@);
    true
}

/// The text without the whitespace at its start and at its end.
pub fn trim<'a>(s: &'a str) -> (cut: &'a str)
    ensures
        cut@ == trimmed(s@),
{
    let mut start: usize = 0;
    let mut end: usize = 0;
    let mut found: bool = false;
    let mut i: usize = 0;
    let n = s.unicode_len();
    for c in it: s.chars()
        invariant
            it.seq() == s@,
            i == it.index(),
            n == s@.len(),
            end == last_solid_end(s@, i as int),
            end <= i,
            !found ==> forall|j: int| 0 <= j < i ==> is_whitespace(#[trigger] s@[j]),
            found ==> start == first_solid(s@, 0) && start < end,
    {
        if !is_whitespace_char(c) {
            if !found {
                proof {
                    lemma_first_solid(s@, 0, i as int);
                }
                start = i;
                found = true;
            }
            end = i + 1;
        }
        i += 1;
    }
    if found {
        s.substring_char(start, end)
    } else {
        proof {
            lemma_first_solid(s@, 0, s@.len() as int);
        }
        let cut = s.substring_char(0, 0);
        assert(cut@ =~= Seq::<char>::empty());
        cut
    }
}

/// The character of a decimal digit.
pub open spec fn digit(d: int) -> char {
    if d == 0 {
        '0'
    } else if d == 1 {
        '1'
    } else if d == 2 {
        '2'
    } else if d == 3 {
        '3'
    } else if d == 4 {
        '4'
    } else if d == 5 {
        '5'
    } else if d == 6 {
        '6'
    } else if d == 7 {
        '7'
    } else if d == 8 {
        '8'
    } else {
        '9'
    }
}

/// A number written in decimal digits, without leading zeros.
pub open spec fn decimal(n: nat) -> Seq<char>
    decreases n,
{
    if n < 10 {
        seq![digit(n as int)]
    } else {
        decimal(n / 10).push(digit((n % 10) as int))
    }
}

/// The number that a text of decimal digits stands for.
pub open spec fn decimal_value(s: Seq<char>) -> nat
    decreases s.len(),
{
    if s.len() == 0 {
        0
    } else {
        (decimal_value(s.drop_last()) * 10 + (s.last() as u32 - '0' as u32)) as nat
    }
}

/// Reading a number back from its decimal digits gives the number, so two
/// numbers are never written alike.
pub proof fn decimal_reads_back(n: nat)
    ensures
        decimal_value(decimal(n)) == n,
        decimal(n).len() >= 1,
    decreases n,
{
    if n < 10 {
        assert(decimal(n).drop_last() =~= Seq::<char>::empty());
        assert(decimal_value(decimal(n).drop_last()) == 0);
    } else {
        decimal_reads_back(n / 10);
        assert(decimal(n).drop_last() =~= decimal(n / 10));
    }
}

/// One decimal digit as a text.
fn digit_text(d: usize) -> (text: &'static str)
    requires
        d < 10,
    ensures
        text@ == seq![digit(d as int)],
{
    proof {
        reveal_strlit("0");
        reveal_strlit("1");
        reveal_strlit("2");
        reveal_strlit("3");
        reveal_strlit("4");
        reveal_strlit("5");
        reveal_strlit("6");
        reveal_strlit("7");
        reveal_strlit("8");
        reveal_strlit("9");
    }
    let text = if d == 0 {
        "0"
    } else if d == 1 {
        "1"
    } else if d == 2 {
        "2"
    } else if d == 3 {
        "3"
    } else if d == 4 {
        "4"
    } else if d == 5 {
        "5"
    } else if d == 6 {
        "6"
    } else if d == 7 {
        "7"
    } else if d == 8 {
        "8"
    } else {
        "9"
    };
    assert(text@ =~= seq![digit(d as int)]);
    text
}

/// Writes a number in decimal digits.
pub fn decimal_text(n: usize) -> (text: String)
    ensures
        text@ == decimal(n as nat),
    decreases n,
{
    if n < 10 {
        String::from_str(digit_text(n))
    } else {
        let mut text = decimal_text(n / 10);
        text.append(digit_text(n % 10));
        assert(text@ =~= decimal(n as nat));
        text
    }
}

/// Whether `name` is one of `names`.
pub fn name_listed(names: &Vec<String>, name: &String) -> (found: bool)
    ensures
        found == names.deep_view().contains(name@),
{
    let mut k: usize = 0;
    while k < names.len()
        invariant
            k <= names.len(),
            forall|j: int| 0 <= j < k ==> names.deep_view()[j] != name@,
        decreases names.len() - k,
    {
        if names[k] == *name {
            assert(names.deep_view()[k as int] == name@);
            return true;
        }
        k += 1;
    }
    false
}

/// Among any `listed.len() + 1` different things, one is not listed.
pub proof fn one_is_not_listed<A>(listed: Seq<A>, f: spec_fn(int) -> A)
    requires
        forall|a: int, b: int| 0 <= a < b <= listed.len() ==> #[trigger] f(a) != #[trigger] f(b),
    ensures
        exists|k: int| 0 <= k <= listed.len() && !listed.contains(#[trigger] f(k)),
    decreases listed.len(),
{
    if listed.len() == 0 {
        assert(!listed.contains(f(0)));
    } else {
        let front = listed.drop_last();
        let x = listed.last();
        let n = front.len() as int;
        if exists|k: int| 0 <= k <= n + 1 && #[trigger] f(k) == x {
            let k0 = choose|k: int| 0 <= k <= n + 1 && #[trigger] f(k) == x;
            let g = |k: int|
                if k < k0 {
                    f(k)
                } else {
                    f(k + 1)
                };
            one_is_not_listed(front, g);
            let k = choose|k: int| 0 <= k <= n && !front.contains(#[trigger] g(k));
            let k1 = if k < k0 {
                k
            } else {
                k + 1
            };
            assert(g(k) == f(k1));
            assert(f(k1) != x);
            if listed.contains(f(k1)) {
                let j = choose|j: int| 0 <= j < listed.len() && listed[j] == f(k1);
                assert(front[j] == f(k1));
                assert(false);
            }
        } else {
            one_is_not_listed(front, f);
            let k = choose|k: int| 0 <= k <= n && !front.contains(#[trigger] f(k));
            if listed.contains(f(k)) {
                let j = choose|j: int| 0 <= j < listed.len() && listed[j] == f(k);
                assert(front[j] == f(k));
                assert(false);
            }
        }
    }
}

} // verus!
