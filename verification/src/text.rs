use vstd::prelude::*;
use vstd::utf8::{decode_utf8, valid_utf8};

verus! {

/// The character of the decimal digit `d`.
pub open spec fn digit_char(d: int) -> char {
    (d + 48) as char
}

/// The decimal representation of `n`, without sign or leading zeros.
pub open spec fn decimal(n: nat) -> Seq<char>
    decreases n,
{
    if n < 10 {
        seq![digit_char(n as int)]
    } else {
        decimal(n / 10) + seq![digit_char((n % 10) as int)]
    }
}

fn digit_str(d: u64) -> (s: &'static str)
    requires
        d < 10,
    ensures
        s@ == seq![digit_char(d as int)],
{
    proof {
        reveal_strlit("0");
        reveal_strlit("1");
        reveal_strlit("2");
        reveal_strlit("3");
        reveal_strlit("4");
        reveal_strlit("5");
        reveal_strlit("6");
        reveal_strlit("7");
        reveal_strlit("8");
        reveal_strlit("9");
    }
    match d {
        0 => "0",
        1 => "1",
        2 => "2",
        3 => "3",
        4 => "4",
        5 => "5",
        6 => "6",
        7 => "7",
        8 => "8",
        _ => "9",
    }
}

/// Returns the decimal representation of `n`, as `{}` formats it.
pub fn decimal_string(n: u64) -> (s: String)
    ensures
        s@ == decimal(n as nat),
    decreases n,
{
    if n < 10 {
        String::from_str(digit_str(n))
    } else {
        let mut s = decimal_string(n / 10);
        s.append(digit_str(n % 10));
        s
    }
}

/// Returns whether the two strings hold the same characters.
pub fn str_equals(a: &str, b: &str) -> (res: bool)
    ensures
        res == (a@ == b@),
{
    let n = a.unicode_len();
    if n != b.unicode_len() {
        return false;
    }
    let mut i: usize = 0;
    while i < n
        invariant
            n == a@.len(),
            n == b@.len(),
            i <= n,
            forall|k: int| 0 <= k < i ==> a@[k] == b@[k],
        decreases n - i,
    {
        if a.get_char(i) != b.get_char(i) {
            return false;
        }
        i = i + 1;
    }
    assert(a@ =~= b@);
    true
}

/// The position of the first zero byte of `buf`, or its length where it has none.
pub open spec fn first_zero(buf: Seq<u8>) -> nat
    decreases buf.len(),
{
    if buf.len() == 0 {
        0
    } else if buf[0] == 0 {
        0
    } else {
        1 + first_zero(buf.drop_first())
    }
}

/// The bytes of a C string held in `buf`: those before the first zero byte,
/// or all of them where there is none.
pub open spec fn c_string_bytes(buf: Seq<u8>) -> Seq<u8> {
    buf.take(first_zero(buf) as int)
}

proof fn lemma_first_zero(buf: Seq<u8>, i: int)
    requires
        0 <= i <= buf.len(),
        i == buf.len() || buf[i] == 0,
        forall|k: int| 0 <= k < i ==> buf[k] != 0,
    ensures
        first_zero(buf) == i,
    decreases i,
{
    if i > 0 {
        lemma_first_zero(buf.drop_first(), i - 1);
    }
}

/// The characters that lossy UTF-8 decoding gives for `bytes` (invalid
/// sequences become U+FFFD).
pub uninterp spec fn utf8_lossy(bytes: Seq<u8>) -> Seq<char>;

/// Calls `String::from_utf8_lossy` and takes ownership of its result.
/// Claimed: the result depends on the bytes alone, and valid UTF-8 is
/// decoded unchanged. How invalid sequences are replaced is left to the name.
#[verifier::external_body]
fn from_utf8_lossy(bytes: &[u8]) -> (s: String)
    ensures
        s@ == utf8_lossy(bytes@),
        valid_utf8(bytes@) ==> s@ == decode_utf8(bytes@),
{
    String::from_utf8_lossy(bytes).into_owned()
}

/// Decodes the NUL-terminated string that the SDK wrote into `buf`: the bytes
/// before the first zero byte (all of them where there is none), decoded as
/// UTF-8 with invalid sequences replaced.
pub fn decode_c_string(buf: &[u8]) -> (s: String)
    ensures
        s@ == utf8_lossy(c_string_bytes(buf@)),
        valid_utf8(c_string_bytes(buf@)) ==> s@ == decode_utf8(c_string_bytes(buf@)),
{
    let mut bytes: Vec<u8> = Vec::new();
    let mut i: usize = 0;
    while i < buf.len() && buf[i] != 0
        invariant
            i <= buf@.len(),
            bytes@ == buf@.take(i as int),
            forall|k: int| 0 <= k < i ==> buf@[k] != 0,
        decreases buf@.len() - i,
    {
        bytes.push(buf[i]);
        i = i + 1;
        assert(bytes@ =~= buf@.take(i as int));
    }
    proof {
        lemma_first_zero(buf@, i as int);
    }
    from_utf8_lossy(bytes.as_slice())
}


/// How many times `c` occurs in `s`.
pub open spec fn count_char(s: Seq<char>, c: char) -> nat
    decreases s.len(),
{
    if s.len() == 0 {
        0
    } else {
        count_char(s.drop_last(), c) + if s.last() == c {
            1nat
        } else {
            0nat
        }
    }
}

pub proof fn lemma_count_char_single(x: char, c: char)
    ensures
        count_char(seq![x], c) == if x == c {
            1nat
        } else {
            0nat
        },
{
    assert(seq![x].drop_last() =~= Seq::<char>::empty());
    assert(count_char(Seq::<char>::empty(), c) == 0);
    assert(seq![x].last() == x);
}

pub proof fn lemma_count_char_concat(a: Seq<char>, b: Seq<char>, c: char)
    ensures
        count_char(a + b, c) == count_char(a, c) + count_char(b, c),
    decreases b.len(),
{
    if b.len() == 0 {
        assert(a + b =~= a);
    } else {
        lemma_count_char_concat(a, b.drop_last(), c);
        assert((a + b).drop_last() =~= a + b.drop_last());
    }
}

/// The decimal representation of a number is not empty and holds only the
/// digits `0` to `9`; in particular no dot.
pub proof fn lemma_decimal_digits(n: nat)
    ensures
        decimal(n).len() >= 1,
        forall|i: int| 0 <= i < decimal(n).len() ==> '0' <= #[trigger] decimal(n)[i] <= '9',
        count_char(decimal(n), '.') == 0,
    decreases n,
{
    if n < 10 {
        lemma_count_char_single(digit_char(n as int), '.');
    } else {
        lemma_decimal_digits(n / 10);
        let d = seq![digit_char((n % 10) as int)];
        lemma_count_char_concat(decimal(n / 10), d, '.');
        lemma_count_char_single(digit_char((n % 10) as int), '.');
        assert forall|i: int| 0 <= i < decimal(n).len() implies '0' <= #[trigger] decimal(n)[i] <= '9' by {
            if i < decimal(n / 10).len() {
                assert(decimal(n)[i] == decimal(n / 10)[i]);
            }
        }
    }
}


/// The number the decimal digits of `s` stand for, most significant first.
pub open spec fn digits_value(s: Seq<char>) -> int
    decreases s.len(),
{
    if s.len() == 0 {
        0
    } else {
        digits_value(s.drop_last()) * 10 + (s.last() as int - 48)
    }
}

/// The decimal representation of `n` reads back as `n`, and starts with a
/// zero only for `n == 0`.
pub proof fn lemma_decimal_value(n: nat)
    ensures
        digits_value(decimal(n)) == n,
        decimal(n)[0] == '0' ==> n == 0,
    decreases n,
{
    assert(((n % 10) + 48) as char as int == (n % 10) + 48);
    if n >= 10 {
        lemma_decimal_value(n / 10);
        let s = decimal(n);
        assert(s.drop_last() =~= decimal(n / 10));
        lemma_decimal_digits(n / 10);
        assert(s[0] == decimal(n / 10)[0]);
        assert(s.last() == digit_char((n % 10) as int));
        assert(digits_value(s) == digits_value(s.drop_last()) * 10 + (s.last() as int - 48));
        assert((n / 10) * 10 + n % 10 == n);
    } else {
        assert(decimal(n).drop_last() =~= Seq::<char>::empty());
        assert(digits_value(Seq::<char>::empty()) == 0);
        assert(n % 10 == n);
    }
}

/// The C string of a buffer is a prefix of it without zero bytes, and it is
/// the whole buffer or stops right before the first zero byte.
pub proof fn lemma_c_string_bytes(buf: Seq<u8>)
    ensures
        first_zero(buf) <= buf.len(),
        c_string_bytes(buf).len() == first_zero(buf),
        c_string_bytes(buf) == buf.take(first_zero(buf) as int),
        forall|i: int| 0 <= i < first_zero(buf) ==> #[trigger] buf[i] != 0,
        first_zero(buf) < buf.len() ==> buf[first_zero(buf) as int] == 0,
    decreases buf.len(),
{
    if buf.len() > 0 && buf[0] != 0 {
        lemma_c_string_bytes(buf.drop_first());
        assert forall|i: int| 0 <= i < first_zero(buf) implies #[trigger] buf[i] != 0 by {
            if i > 0 {
                assert(buf[i] == buf.drop_first()[i - 1]);
            }
        }
        if first_zero(buf) < buf.len() {
            assert(buf[first_zero(buf) as int] == buf.drop_first()[first_zero(buf.drop_first()) as int]);
        }
    }
}

} // verus!
