//! Plain text as a sequence of characters: where a literal occurs in it, and searching for it.

use vstd::prelude::*;
use vstd::string::StringExecFns;

verus! {

/// `lit` stands in `text` at index `at`.
pub open spec fn occurs_at(text: Seq<char>, at: int, lit: Seq<char>) -> bool {
    &&& 0 <= at
    &&& at + lit.len() <= text.len()
    &&& text.subrange(at, at + lit.len()) == lit
}

/// `lit` stands somewhere in `text`.
pub open spec fn occurs_in(text: Seq<char>, lit: Seq<char>) -> bool {
    exists|at: int| occurs_at(text, at, lit)
}

/// `at` is the first index from `from` on at which `lit` stands in `text`.
pub open spec fn first_occurrence(text: Seq<char>, from: int, lit: Seq<char>, at: int) -> bool {
    &&& from <= at
    &&& occurs_at(text, at, lit)
    &&& forall|earlier: int| from <= earlier < at ==> !occurs_at(text, earlier, lit)
}

/// `lit` stands nowhere in `text` from index `from` on.
pub open spec fn absent_from(text: Seq<char>, from: int, lit: Seq<char>) -> bool {
    forall|at: int| from <= at ==> !occurs_at(text, at, lit)
}

/// A literal stands where it was put: behind what was written before it.
pub proof fn lemma_occurs_between(before: Seq<char>, lit: Seq<char>, after: Seq<char>)
    ensures
        occurs_at(before + lit + after, before.len() as int, lit),
        occurs_in(before + lit + after, lit),
{
    let text = before + lit + after;
    assert(text.subrange(before.len() as int, (before.len() + lit.len()) as int) =~= lit);
}

/// Where a literal stands, each of its parts stands at its place.
pub proof fn lemma_occurs_parts(text: Seq<char>, at: int, first: Seq<char>, second: Seq<char>)
    ensures
        occurs_at(text, at, first + second) <==> occurs_at(text, at, first) && occurs_at(
            text,
            at + first.len(),
            second,
        ),
{
    let whole = first + second;
    if occurs_at(text, at, whole) {
        assert(text.subrange(at, at + first.len()) =~= whole.subrange(0, first.len() as int));
        assert(whole.subrange(0, first.len() as int) =~= first);
        assert(text.subrange(at + first.len(), at + first.len() + second.len())
            =~= whole.subrange(first.len() as int, whole.len() as int));
        assert(whole.subrange(first.len() as int, whole.len() as int) =~= second);
    }
    if occurs_at(text, at, first) && occurs_at(text, at + first.len(), second) {
        assert(text.subrange(at, at + whole.len()) =~= text.subrange(at, at + first.len())
            + text.subrange(at + first.len(), at + first.len() + second.len()));
    }
}

/// What each of `strings` says, one for one.
pub open spec fn texts(strings: Seq<String>) -> Seq<Seq<char>> {
    strings.map_values(|s: String| s@)
}

/// The characters of `s`, in order.
pub fn chars_of(s: &str) -> (chars: Vec<char>)
    ensures
        chars@ == s@,
{
    let mut chars: Vec<char> = Vec::new();
    for c in it: s.chars()
        invariant
            chars@ == it.seq().take(it.index()),
            it.seq() == s@,
    {
        chars.push(c);
    }
    chars
}

/// Whether `lit` stands in `text` at index `at`.
pub fn stands_at(text: &Vec<char>, at: usize, lit: &Vec<char>) -> (found: bool)
    ensures
        found == occurs_at(text@, at as int, lit@),
{
    if lit.len() > text.len() || at > text.len() - lit.len() {
        return false;
    }
    let mut k: usize = 0;
    while k < lit.len()
        invariant
            k <= lit.len(),
            at + lit.len() <= text.len(),
            forall|j: int| 0 <= j < k ==> text@[at + j] == lit@[j],
        decreases lit.len() - k,
    {
        if text[at + k] != lit[k] {
            assert(text@.subrange(at as int, at + lit.len())[k as int] != lit@[k as int]);
            return false;
        }
        k += 1;
    }
    assert(text@.subrange(at as int, at + lit.len()) =~= lit@);
    true
}

/// The first index from `from` on at which `lit` stands in `text`, if there is one.
pub fn find(text: &Vec<char>, from: usize, lit: &Vec<char>) -> (found: Option<usize>)
    ensures
        match found {
            Some(at) => first_occurrence(text@, from as int, lit@, at as int),
            None => absent_from(text@, from as int, lit@),
        },
{
    if lit.len() > text.len() || from > text.len() - lit.len() {
        return None;
    }
    let last: usize = text.len() - lit.len();
    let mut at: usize = from;
    loop
        invariant
            from <= at <= last,
            last + lit.len() == text.len(),
            forall|earlier: int| from <= earlier < at ==> !occurs_at(text@, earlier, lit@),
        decreases last - at,
    {
        if stands_at(text, at, lit) {
            return Some(at);
        }
        if at == last {
            return None;
        }
        at += 1;
    }
}

/// Whether `lit` stands somewhere in `text`.
pub fn contains(text: &Vec<char>, lit: &Vec<char>) -> (found: bool)
    ensures
        found == occurs_in(text@, lit@),
{
    find(text, 0, lit).is_some()
}

/// The decimal digit for `d`.
pub open spec fn digit(d: nat) -> char {
    if d == 0 {
        '0'
    } else if d == 1 {
        '1'
    } else if d == 2 {
        '2'
    } else if d == 3 {
        '3'
    } else if d == 4 {
        '4'
    } else if d == 5 {
        '5'
    } else if d == 6 {
        '6'
    } else if d == 7 {
        '7'
    } else if d == 8 {
        '8'
    } else {
        '9'
    }
}

/// `n` in decimal digits, without leading zeros.
pub open spec fn decimal(n: nat) -> Seq<char>
    decreases n,
{
    if n < 10 {
        seq![digit(n)]
    } else {
        decimal(n / 10).push(digit(n % 10))
    }
}

/// The decimal digit for `d`, as text.
fn digit_text(d: u8) -> (text: &'static str)
    requires
        d < 10,
    ensures
        text@ == seq![digit(d as nat)],
{
    proof {
        reveal_strlit("0");
        reveal_strlit("1");
        reveal_strlit("2");
        reveal_strlit("3");
        reveal_strlit("4");
        reveal_strlit("5");
        reveal_strlit("6");
        reveal_strlit("7");
        reveal_strlit("8");
        reveal_strlit("9");
    }
    let text = if d == 0 {
        "0"
    } else if d == 1 {
        "1"
    } else if d == 2 {
        "2"
    } else if d == 3 {
        "3"
    } else if d == 4 {
        "4"
    } else if d == 5 {
        "5"
    } else if d == 6 {
        "6"
    } else if d == 7 {
        "7"
    } else if d == 8 {
        "8"
    } else {
        "9"
    };
    assert(text@ =~= seq![digit(d as nat)]);
    text
}

/// `n` in decimal digits, without leading zeros.
pub fn decimal_of(n: u8) -> (text: String)
    ensures
        text@ == decimal(n as nat),
{
    reveal_with_fuel(decimal, 3);
    if n < 10 {
        String::from_str(digit_text(n))
    } else if n < 100 {
        let text = String::from_str(digit_text(n / 10)).concat(digit_text(n % 10));
        assert(text@ =~= decimal(n as nat));
        text
    } else {
        let text = String::from_str(digit_text(n / 100)).concat(digit_text(n / 10 % 10)).concat(
            digit_text(n % 10),
        );
        assert((n / 10) as nat / 10 == n / 100);
        assert(text@ =~= decimal(n as nat));
        text
    }
}

} // verus!
