//! The texts that the service answers with, and how a number is written in them.

use vstd::prelude::*;
use vstd::string::StringExecFns;

verus! {

/// The character that writes the digit `d`, for `d` from 0 to 9.
pub open spec fn digit_char(d: int) -> char {
    if d == 0 {
        '0'
    } else if d == 1 {
        '1'
    } else if d == 2 {
        '2'
    } else if d == 3 {
        '3'
    } else if d == 4 {
        '4'
    } else if d == 5 {
        '5'
    } else if d == 6 {
        '6'
    } else if d == 7 {
        '7'
    } else if d == 8 {
        '8'
    } else {
        '9'
    }
}

/// The decimal digits of `n`, most significant first, without leading zeros.
pub open spec fn digits(n: nat) -> Seq<char>
    decreases n,
{
    if n < 10 {
        seq![digit_char(n as int)]
    } else {
        digits(n / 10).push(digit_char((n % 10) as int))
    }
}

/// How `n` is written in a message: its digits, after a minus sign if it is negative.
pub open spec fn decimal(n: int) -> Seq<char> {
    if n < 0 {
        seq!['-'] + digits((-n) as nat)
    } else {
        digits(n as nat)
    }
}

/// The body of the answer to a create request whose key is taken.
pub open spec fn conflict_text(name: Seq<char>, id: int) -> Seq<char> {
    "Conflict: Post with key '"@ + name + "' already exists with the same ID "@ + decimal(id)
}

/// The body of the answer to a fetch that found no post.
pub open spec fn not_found_text(name: Seq<char>, id: int) -> Seq<char> {
    "Post with name '"@ + name + "' and ID "@ + decimal(id) + " not found"@
}

/// The body of the answer to a request for the root path.
pub open spec fn greeting_text() -> Seq<char> {
    "Hello, world!"@
}

/// The line that is logged when the query for a key fails, in a create request or a fetch.
pub open spec fn query_failure_text(cause: Seq<char>) -> Seq<char> {
    "Error querying post: "@ + cause
}

/// The line that is logged when the insert of a create request fails.
pub open spec fn insert_failure_text(cause: Seq<char>) -> Seq<char> {
    "Error inserting post: "@ + cause
}

fn digit_str(d: u64) -> (s: &'static str)
    requires
        d < 10,
    ensures
        s@ == seq![digit_char(d as int)],
{
    proof {
        reveal_strlit("0");
        reveal_strlit("1");
        reveal_strlit("2");
        reveal_strlit("3");
        reveal_strlit("4");
        reveal_strlit("5");
        reveal_strlit("6");
        reveal_strlit("7");
        reveal_strlit("8");
        reveal_strlit("9");
    }
    let s: &'static str = if d == 0 {
        "0"
    } else if d == 1 {
        "1"
    } else if d == 2 {
        "2"
    } else if d == 3 {
        "3"
    } else if d == 4 {
        "4"
    } else if d == 5 {
        "5"
    } else if d == 6 {
        "6"
    } else if d == 7 {
        "7"
    } else if d == 8 {
        "8"
    } else {
        "9"
    };
    assert(s@ =~= seq![digit_char(d as int)]);
    s
}

fn digits_string(n: u64) -> (s: String)
    ensures
        s@ == digits(n as nat),
    decreases n,
{
    if n < 10 {
        String::from_str(digit_str(n))
    } else {
        let mut s = digits_string(n / 10);
        s.append(digit_str(n % 10));
        assert(s@ =~= digits((n / 10) as nat).push(digit_char((n % 10) as int)));
        s
    }
}

/// Writes `n` in decimal, as `{}` does in a format string.
pub fn decimal_string(n: i32) -> (s: String)
    ensures
        s@ == decimal(n as int),
{
    let wide: i64 = n as i64;
    if wide < 0 {
        let mut s = String::from_str("-");
        let tail = digits_string((-wide) as u64);
        s.append(tail.as_str());
        proof {
            reveal_strlit("-");
            assert(s@ =~= seq!['-'] + digits((-n) as nat));
        }
        s
    } else {
        digits_string(wide as u64)
    }
}

/// The text that tells a client that the key `(name, id)` is taken.
pub fn conflict_message(name: &str, id: i32) -> (s: String)
    ensures
        s@ == conflict_text(name@, id as int),
{
    let mut s = String::from_str("Conflict: Post with key '");
    s.append(name);
    s.append("' already exists with the same ID ");
    let written = decimal_string(id);
    s.append(written.as_str());
    s
}

/// The text that tells a client that no post has the key `(name, id)`.
pub fn not_found_message(name: &str, id: i32) -> (s: String)
    ensures
        s@ == not_found_text(name@, id as int),
{
    let mut s = String::from_str("Post with name '");
    s.append(name);
    s.append("' and ID ");
    let written = decimal_string(id);
    s.append(written.as_str());
    s.append(" not found");
    s
}

/// The line to log for a query for a key that failed for `cause`.
pub fn query_failure_line(cause: &str) -> (s: String)
    ensures
        s@ == query_failure_text(cause@),
{
    let mut s = String::from_str("Error querying post: ");
    s.append(cause);
    s
}

/// The line to log for an insert that failed for `cause`.
pub fn insert_failure_line(cause: &str) -> (s: String)
    ensures
        s@ == insert_failure_text(cause@),
{
    let mut s = String::from_str("Error inserting post: ");
    s.append(cause);
    s
}

/// The greeting served at the root path.
pub fn greeting() -> (s: String)
    ensures
        s@ == greeting_text(),
{
    String::from_str("Hello, world!")
}

/// The digit that the character `c` writes, for `c` from `'0'` to `'9'`.
pub open spec fn digit_value(c: char) -> nat {
    if c == '1' {
        1
    } else if c == '2' {
        2
    } else if c == '3' {
        3
    } else if c == '4' {
        4
    } else if c == '5' {
        5
    } else if c == '6' {
        6
    } else if c == '7' {
        7
    } else if c == '8' {
        8
    } else if c == '9' {
        9
    } else {
        0
    }
}

/// The number that a row of digits writes.
pub open spec fn number(s: Seq<char>) -> nat
    decreases s.len(),
{
    if s.len() == 0 {
        0
    } else {
        number(s.drop_last()) * 10 + digit_value(s.last())
    }
}

/// The digits of a number write that number, and start with a zero only for zero itself.
pub proof fn digits_write_the_number(n: nat)
    ensures
        number(digits(n)) == n,
        digits(n).len() >= 1,
        digits(n)[0] == digit_char(0) <==> n == 0,
        digits(n)[0] != '-',
    decreases n,
{
    if n < 10 {
        let one = digits(n);
        assert(one.drop_last() =~= Seq::<char>::empty());
        assert(number(one.drop_last()) == 0);
        assert(one.last() == digit_char(n as int));
    } else {
        digits_write_the_number(n / 10);
        let front = digits(n / 10);
        let all = digits(n);
        assert(all.drop_last() =~= front);
        assert(all.last() == digit_char((n % 10) as int));
        assert(all[0] == front[0]);
    }
}

/// Two numbers that are written alike are one number: a text that holds a
/// number in decimal names it.
pub proof fn decimal_tells_numbers_apart(a: int, b: int)
    requires
        decimal(a) == decimal(b),
    ensures
        a == b,
{
    let sign = seq!['-'];
    if a < 0 {
        digits_write_the_number((-a) as nat);
        assert(decimal(a)[0] == '-');
        assert((sign + digits((-a) as nat)).subrange(1, decimal(a).len() as int) =~= digits(
            (-a) as nat,
        ));
    } else {
        digits_write_the_number(a as nat);
    }
    if b < 0 {
        digits_write_the_number((-b) as nat);
        assert(decimal(b)[0] == '-');
        assert((sign + digits((-b) as nat)).subrange(1, decimal(b).len() as int) =~= digits(
            (-b) as nat,
        ));
    } else {
        digits_write_the_number(b as nat);
    }
}

} // verus!
