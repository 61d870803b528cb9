//! Building the messages that failures are reported with.

use vstd::prelude::*;

verus! {

/// The decimal digits of `n`, most significant first, without leading zeros.
pub open spec fn decimal(n: nat) -> Seq<char>
    decreases n,
{
    if n < 10 {
        seq![digit(n)]
    } else {
        decimal(n / 10).push(digit(n % 10))
    }
}

/// The decimal digit of `d`, for `d` below ten.
pub open spec fn digit(d: nat) -> char {
    (('0' as nat) + d) as char
}

/// A result with its message as text.
pub open spec fn told(r: Result<(), String>) -> Result<(), Seq<char>> {
    match r {
        Ok(()) => Ok(()),
        Err(message) => Err(message@),
    }
}

/// `a` followed by `b`.
pub fn join(a: &str, b: &str) -> (r: String)
    ensures
        r@ == a@ + b@,
{
    let mut r = a.to_owned();
    r.append(b);
    r
}

/// `a`, `b` and `c`, one after the other.
pub fn join3(a: &str, b: &str, c: &str) -> (r: String)
    ensures
        r@ == a@ + b@ + c@,
{
    let mut r = join(a, b);
    r.append(c);
    r
}

/// `a`, `b`, `c` and `d`, one after the other.
pub fn join4(a: &str, b: &str, c: &str, d: &str) -> (r: String)
    ensures
        r@ == a@ + b@ + c@ + d@,
{
    let mut r = join3(a, b, c);
    r.append(d);
    r
}

/// Appends the digit of `d` to `s`.
fn push_digit(s: &mut String, d: u64)
    requires
        d < 10,
    ensures
        final(s)@ == old(s)@.push(digit(d as nat)),
{
    let t: &str = match d {
        0 => "0",
        1 => "1",
        2 => "2",
        3 => "3",
        4 => "4",
        5 => "5",
        6 => "6",
        7 => "7",
        8 => "8",
        _ => "9",
    };
    proof {
        reveal_strlit("0");
        reveal_strlit("1");
        reveal_strlit("2");
        reveal_strlit("3");
        reveal_strlit("4");
        reveal_strlit("5");
        reveal_strlit("6");
        reveal_strlit("7");
        reveal_strlit("8");
        reveal_strlit("9");
        assert(t@ =~= seq![digit(d as nat)]);
    }
    s.append(t);
    assert(s@ =~= old(s)@.push(digit(d as nat)));
}

/// Writes `n` in decimal.
pub fn to_decimal(n: u64) -> (r: String)
    ensures
        r@ == decimal(n as nat),
    decreases n,
{
    if n < 10 {
        let mut r = String::new();
        push_digit(&mut r, n);
        assert(r@ =~= decimal(n as nat));
        r
    } else {
        let mut r = to_decimal(n / 10);
        push_digit(&mut r, n % 10);
        r
    }
}

/// The number that a text of decimal digits tells, most significant first.
pub open spec fn number_told(s: Seq<char>) -> int
    decreases s.len(),
{
    if s.len() == 0 {
        0
    } else {
        10 * number_told(s.drop_last()) + (s.last() as int - 48)
    }
}

/// A number that is written in decimal can be read back; it is written with digits alone,
/// and without leading zeros.
pub proof fn decimals_can_be_read_back(n: nat)
    ensures
        number_told(decimal(n)) == n,
        decimal(n).len() > 0,
        forall|i: int| 0 <= i < decimal(n).len() ==> 48 <= #[trigger] decimal(n)[i] as int <= 57,
        n > 0 ==> decimal(n)[0] as int != 48,
        n == 0 ==> decimal(n).len() == 1,
    decreases n,
{
    if n < 10 {
        assert(decimal(n).drop_last() =~= Seq::empty());
        assert(number_told(decimal(n).drop_last()) == 0);
    } else {
        decimals_can_be_read_back(n / 10);
        let s = decimal(n);
        assert(s.drop_last() =~= decimal(n / 10));
        assert(s[0] == decimal(n / 10)[0]);
    }
}

/// What is told of a result is whether it is an error, and its whole message.
pub proof fn messages_are_told_whole(r: Result<(), String>)
    ensures
        told(r) is Ok <==> r is Ok,
        r matches Err(message) ==> (told(r) matches Err(t) && t == message@),
{
}

} // verus!
