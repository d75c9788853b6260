//! Unsigned numbers in decimal notation.
use vstd::prelude::*;
use vstd::string::*;
use crate::text::chars_of;

verus! {

/// The decimal digit that stands for `d`.
pub open spec fn digit_char(d: nat) -> char {
    (48 + d) as char
}

/// A decimal digit of ASCII.
pub open spec fn is_digit(c: char) -> bool {
    '0' <= c && c <= '9'
}

/// Every character is a decimal digit of ASCII.
pub open spec fn all_digits(s: Seq<char>) -> bool {
    forall|i: int| 0 <= i < s.len() ==> is_digit(#[trigger] s[i])
}

/// The number that a sequence of digits stands for.
pub open spec fn value_of(s: Seq<char>) -> nat
    decreases s.len(),
{
    if s.len() == 0 {
        0
    } else {
        value_of(s.drop_last()) * 10 + (s.last() as nat - 48) as nat
    }
}

/// The shortest decimal notation of `n`.
pub open spec fn decimal(n: nat) -> Seq<char>
    decreases n,
{
    if n < 10 {
        seq![digit_char(n)]
    } else {
        decimal(n / 10).push(digit_char(n % 10))
    }
}

/// The number that `s` denotes, if it is not above `limit`: digits, after at most one `+`.
pub open spec fn number_in(s: Seq<char>, limit: nat) -> Option<nat> {
    let digits = if s.len() > 0 && s.first() == '+' {
        s.drop_first()
    } else {
        s
    };
    if digits.len() > 0 && all_digits(digits) && value_of(digits) <= limit {
        Some(value_of(digits))
    } else {
        None
    }
}

/// `s`, with as many `0` before it as are needed for `width` characters.
pub open spec fn zero_padded(s: Seq<char>, width: nat) -> Seq<char> {
    if s.len() >= width {
        s
    } else {
        Seq::new((width - s.len()) as nat, |i: int| '0') + s
    }
}

/// A decimal notation is read back as the number that it was made from.
pub proof fn law_decimal_reads_back(n: nat)
    ensures
        decimal(n).len() > 0,
        all_digits(decimal(n)),
        value_of(decimal(n)) == n,
        forall|limit: nat| n <= limit ==> number_in(decimal(n), limit) == Some(n),
    decreases n,
{
    if n < 10 {
        let d = decimal(n);
        assert(d.drop_last() =~= Seq::<char>::empty());
        assert(value_of(d.drop_last()) == 0);
        assert(d.last() as nat == 48 + n);
    } else {
        law_decimal_reads_back(n / 10);
        let d = decimal(n);
        assert(d.drop_last() =~= decimal(n / 10));
        assert(d.last() as nat == 48 + n % 10);
    }
    assert(is_digit(decimal(n)[0]));
}

/// Leading zeros change neither that text is a number nor which.
pub proof fn law_padding_keeps_value(s: Seq<char>, width: nat)
    requires
        s.len() > 0,
        all_digits(s),
    ensures
        all_digits(zero_padded(s, width)),
        value_of(zero_padded(s, width)) == value_of(s),
        zero_padded(s, width).len() == if s.len() >= width { s.len() } else { width },
{
    if s.len() < width {
        let zeros = Seq::new((width - s.len()) as nat, |i: int| '0');
        lemma_value_of_zeros(zeros);
        lemma_value_after_zeros(zeros, s);
    }
}

proof fn lemma_value_of_zeros(z: Seq<char>)
    requires
        forall|i: int| 0 <= i < z.len() ==> z[i] == '0',
    ensures
        value_of(z) == 0,
    decreases z.len(),
{
    if z.len() > 0 {
        lemma_value_of_zeros(z.drop_last());
    }
}

proof fn lemma_value_after_zeros(z: Seq<char>, s: Seq<char>)
    requires
        value_of(z) == 0,
    ensures
        value_of(z + s) == value_of(s),
    decreases s.len(),
{
    if s.len() == 0 {
        assert(z + s =~= z);
    } else {
        assert((z + s).drop_last() =~= z + s.drop_last());
        lemma_value_after_zeros(z, s.drop_last());
    }
}

/// A prefix of digits denotes no more than the whole.
proof fn lemma_value_of_prefix(s: Seq<char>, i: int)
    requires
        0 <= i <= s.len(),
    ensures
        value_of(s.take(i)) <= value_of(s),
    decreases s.len() - i,
{
    if i == s.len() {
        assert(s.take(i) =~= s);
    } else {
        lemma_value_of_prefix(s, i + 1);
        assert(s.take(i + 1).drop_last() =~= s.take(i));
    }
}

/// Reads an unsigned number that is not above `limit`.
pub fn parse_number(s: &str, limit: u32) -> (r: Option<u32>)
    ensures
        r matches Some(n) ==> number_in(s@, limit as nat) == Some(n as nat),
        r is None ==> number_in(s@, limit as nat) is None,
{
    let v: Vec<char> = chars_of(s);
    let n: usize = v.len();
    let from: usize = if n > 0 && v[0] == '+' { 1 } else { 0 };
    let ghost digits = if s@.len() > 0 && s@.first() == '+' {
        s@.drop_first()
    } else {
        s@
    };
    assert(digits =~= s@.skip(from as int));
    if from == n {
        return None;
    }
    let mut acc: u64 = 0;
    let mut i: usize = from;
    assert(digits.take(0) =~= Seq::<char>::empty());
    while i < n
        invariant
            from <= i <= n,
            n == v@.len(),
            v@ == s@,
            digits == s@.skip(from as int),
            digits == if s@.len() > 0 && s@.first() == '+' {
                s@.drop_first()
            } else {
                s@
            },
            acc == value_of(digits.take(i - from)),
            acc <= limit,
            all_digits(digits.take(i - from)),
        decreases n - i,
    {
        let c: char = v[i];
        assert(digits[i - from] == c);
        if !('0' <= c && c <= '9') {
            assert(!is_digit(digits[i - from]));
            return None;
        }
        let d: u64 = (c as u32 - 48) as u64;
        assert(digits.take(i - from + 1).drop_last() =~= digits.take(i - from));
        acc = acc * 10 + d;
        assert(acc == value_of(digits.take(i - from + 1)));
        if acc > limit as u64 {
            proof {
                lemma_value_of_prefix(digits, i - from + 1);
            }
            return None;
        }
        i = i + 1;
    }
    assert(digits.take(n - from) =~= digits);
    Some(acc as u32)
}

fn digit_text(d: u32) -> (r: &'static str)
    requires
        d < 10,
    ensures
        r@ == seq![digit_char(d as nat)],
{
    proof {
        reveal_strlit("0");
        reveal_strlit("1");
        reveal_strlit("2");
        reveal_strlit("3");
        reveal_strlit("4");
        reveal_strlit("5");
        reveal_strlit("6");
        reveal_strlit("7");
        reveal_strlit("8");
        reveal_strlit("9");
    }
    let r: &'static str = match d {
        0 => "0",
        1 => "1",
        2 => "2",
        3 => "3",
        4 => "4",
        5 => "5",
        6 => "6",
        7 => "7",
        8 => "8",
        _ => "9",
    };
    assert(r@ =~= seq![digit_char(d as nat)]);
    r
}

/// Writes a number in decimal notation.
pub fn to_decimal(n: u64) -> (r: String)
    ensures
        r@ == decimal(n as nat),
    decreases n,
{
    if n < 10 {
        digit_text(n as u32).to_owned()
    } else {
        let head: String = to_decimal(n / 10);
        let r: String = head.concat(digit_text((n % 10) as u32));
        assert(r@ =~= decimal(n as nat));
        r
    }
}

/// Puts zeros before a text until it is `width` characters long.
pub fn pad_zeros(s: &str, width: usize) -> (r: String)
    ensures
        r@ == zero_padded(s@, width as nat),
{
    let len: usize = s.unicode_len();
    if len >= width {
        return s.to_owned();
    }
    proof {
        reveal_strlit("0");
    }
    let mut r: String = String::new();
    let mut i: usize = 0;
    while i < width - len
        invariant
            len < width,
            i <= width - len,
            r@ == Seq::new(i as nat, |k: int| '0'),
            "0"@ =~= seq!['0'],
        decreases width - len - i,
    {
        r.append("0");
        i = i + 1;
        assert(r@ =~= Seq::new(i as nat, |k: int| '0'));
    }
    r.append(s);
    r
}

} // verus!
