//! Text building: decimal numbers, quoted labels and joined messages.

use vstd::prelude::*;
use vstd::string::*;

verus! {

/// The digits `0` to `9`.
pub open spec fn digit(d: int) -> char {
    (('0' as int) + d) as char
}

/// The decimal digits of `n`, most significant first, without leading zeros.
pub open spec fn digits(n: nat) -> Seq<char>
    decreases n,
{
    if n < 10 {
        seq![digit(n as int)]
    } else {
        digits(n / 10).push(digit((n % 10) as int))
    }
}

/// The decimal rendering of `n`, with a leading `-` where it is negative.
pub open spec fn decimal(n: int) -> Seq<char> {
    if n < 0 {
        seq!['-'] + digits((-n) as nat)
    } else {
        digits(n as nat)
    }
}

/// What the standard library's `Debug` prints for a string with the characters `text`: the
/// text between double quotes, with its escapes.
pub uninterp spec fn debug_quoted(text: Seq<char>) -> Seq<char>;

/// Calls the `Debug` implementation of `str`, through `format!`. The contract claims that what
/// it prints depends on the characters of the string alone; which characters are escaped, and
/// how, is left unsaid.
#[verifier::external_body]
fn quoted(text: &str) -> (r: String)
    ensures
        r@ == debug_quoted(text@),
{
    format!("{text:?}")
}

/// `text` between double quotes, escaped for printing.
pub fn quote(text: &String) -> (r: String)
    ensures
        r@ == debug_quoted(text@),
{
    quoted(text.as_str())
}

fn digit_text(d: u64) -> (r: String)
    requires
        d < 10,
    ensures
        r@ == seq![digit(d as int)],
{
    let s: &str = if d == 0 {
        "0"
    } else if d == 1 {
        "1"
    } else if d == 2 {
        "2"
    } else if d == 3 {
        "3"
    } else if d == 4 {
        "4"
    } else if d == 5 {
        "5"
    } else if d == 6 {
        "6"
    } else if d == 7 {
        "7"
    } else if d == 8 {
        "8"
    } else {
        "9"
    };
    proof {
        reveal_strlit("0");
        reveal_strlit("1");
        reveal_strlit("2");
        reveal_strlit("3");
        reveal_strlit("4");
        reveal_strlit("5");
        reveal_strlit("6");
        reveal_strlit("7");
        reveal_strlit("8");
        reveal_strlit("9");
        assert(s@ =~= seq![digit(d as int)]);
    }
    s.to_string()
}

fn digits_text(n: u64) -> (r: String)
    ensures
        r@ == digits(n as nat),
    decreases n,
{
    if n < 10 {
        digit_text(n)
    } else {
        let mut r: String = digits_text(n / 10);
        let last: String = digit_text(n % 10);
        r.append(last.as_str());
        assert(r@ =~= digits(n as nat));
        r
    }
}

/// The decimal rendering of a count or an index.
pub fn usize_text(n: usize) -> (r: String)
    ensures
        r@ == decimal(n as int),
{
    digits_text(n as u64)
}

/// The decimal rendering of a coordinate.
pub fn i32_text(n: i32) -> (r: String)
    ensures
        r@ == decimal(n as int),
{
    if n < 0 {
        let mut r: String = "-".to_string();
        let rest: String = digits_text((-(n as i64)) as u64);
        proof {
            reveal_strlit("-");
        }
        r.append(rest.as_str());
        assert(r@ =~= decimal(n as int));
        r
    } else {
        digits_text(n as u64)
    }
}

/// `head` followed by `tail`.
pub fn joined(head: &str, tail: &String) -> (r: String)
    ensures
        r@ == head@ + tail@,
{
    let mut r: String = head.to_string();
    r.append(tail.as_str());
    r
}

// ---------------------------------------------------------------------------------------------
// Laws
// ---------------------------------------------------------------------------------------------
/// The number that a row of decimal digits stands for.
pub open spec fn read_back(text: Seq<char>) -> int
    decreases text.len(),
{
    if text.len() == 0 {
        0
    } else {
        10 * read_back(text.drop_last()) + (text.last() as int - '0' as int)
    }
}

/// The rendering of a number reads back as that number. It consists of decimal digits alone, and
/// starts with a zero only where it is that zero.
pub proof fn law_digits_read_back(n: nat)
    ensures
        read_back(digits(n)) == n,
        digits(n).len() > 0,
        forall|i: int| 0 <= i < digits(n).len() ==> '0' <= #[trigger] digits(n)[i] <= '9',
        digits(n)[0] == '0' ==> digits(n).len() == 1,
    decreases n,
{
    reveal_with_fuel(read_back, 2);
    if n >= 10 {
        law_digits_read_back(n / 10);
        let head = digits(n / 10);
        assert(digits(n).drop_last() =~= head);
        assert(digits(n)[0] == head[0]);
        if head.len() == 1 {
            assert(head.drop_last() =~= seq![]);
            assert(read_back(head) == head[0] as int - '0' as int);
        }
    }
}

/// Negative numbers are rendered as a minus sign and their opposite; the others as their digits.
pub proof fn law_decimal_signs(n: int)
    ensures
        n >= 0 ==> decimal(n) == digits(n as nat),
        n > 0 ==> decimal(-n) == seq!['-'] + decimal(n),
        n >= 0 ==> read_back(decimal(n)) == n,
{
    if n >= 0 {
        law_digits_read_back(n as nat);
    }
}

} // verus!
