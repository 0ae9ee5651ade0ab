//! Text: hexadecimal and decimal numerals, and concatenation.

use bitcoin::hex::DisplayHex;
use vstd::prelude::*;
use vstd::string::*;

verus! {

/// The lower-case hexadecimal digit for a number below sixteen.
pub open spec fn hex_digit(n: int) -> char {
    if n < 10 {
        ('0' as int + n) as char
    } else {
        ('a' as int + n - 10) as char
    }
}

/// The lower-case hexadecimal text of a byte sequence, two digits a byte.
pub open spec fn hex_lower(bytes: Seq<u8>) -> Seq<char> {
    Seq::new(
        2 * bytes.len(),
        |i: int|
            if i % 2 == 0 {
                hex_digit(bytes[i / 2] as int / 16)
            } else {
                hex_digit(bytes[i / 2] as int % 16)
            },
    )
}

/// `bitcoin::hex::DisplayHex::as_hex`, turned into a string: the bytes in lower-case
/// hexadecimal, each as two digits, in order.
#[verifier::external_body]
pub(crate) fn hex_text(bytes: &[u8; 32]) -> (r: String)
    ensures
        r@ == hex_lower(bytes@),
{
    bytes.as_hex().to_string()
}

/// Hexadecimal digits tell numbers apart.
proof fn lemma_hex_digit_injective(m: int, n: int)
    requires
        0 <= m < 16,
        0 <= n < 16,
        hex_digit(m) == hex_digit(n),
    ensures
        m == n,
{
    assert(hex_digit(m) as int == if m < 10 { 48 + m } else { 87 + m });
    assert(hex_digit(n) as int == if n < 10 { 48 + n } else { 87 + n });
}

/// Hexadecimal text tells byte sequences apart.
pub proof fn lemma_hex_injective(a: Seq<u8>, b: Seq<u8>)
    requires
        hex_lower(a) == hex_lower(b),
    ensures
        a == b,
{
    assert(hex_lower(a).len() == 2 * a.len());
    assert(hex_lower(b).len() == 2 * b.len());
    assert forall|k: int| 0 <= k < a.len() implies a[k] == b[k] by {
        let i = 2 * k;
        let j = 2 * k + 1;
        assert(i / 2 == k && i % 2 == 0 && j / 2 == k && j % 2 == 1);
        assert(hex_lower(a)[i] == hex_digit(a[k] as int / 16));
        assert(hex_lower(b)[i] == hex_digit(b[k] as int / 16));
        assert(hex_lower(a)[j] == hex_digit(a[k] as int % 16));
        assert(hex_lower(b)[j] == hex_digit(b[k] as int % 16));
        lemma_hex_digit_injective(a[k] as int / 16, b[k] as int / 16);
        lemma_hex_digit_injective(a[k] as int % 16, b[k] as int % 16);
    }
    assert(a =~= b);
}

/// The text of two strings, one after the other.
pub fn join(a: &str, b: &str) -> (r: String)
    ensures
        r@ == a@ + b@,
{
    let mut r: String = a.to_owned();
    r.append(b);
    r
}

/// The decimal numeral of a number.
pub open spec fn decimal(n: nat) -> Seq<char>
    decreases n,
{
    if n < 10 {
        seq![('0' as int + n) as char]
    } else {
        decimal(n / 10).push(('0' as int + n % 10) as char)
    }
}

/// The character of a decimal digit.
fn digit_text(d: usize) -> (r: &'static str)
    requires
        d < 10,
    ensures
        r@ == seq![('0' as int + d) as char],
{
    proof {
        reveal_strlit("0");
        reveal_strlit("1");
        reveal_strlit("2");
        reveal_strlit("3");
        reveal_strlit("4");
        reveal_strlit("5");
        reveal_strlit("6");
        reveal_strlit("7");
        reveal_strlit("8");
        reveal_strlit("9");
    }
    let r = match d {
        0 => "0",
        1 => "1",
        2 => "2",
        3 => "3",
        4 => "4",
        5 => "5",
        6 => "6",
        7 => "7",
        8 => "8",
        _ => "9",
    };
    assert(r@ =~= seq![('0' as int + d) as char]);
    r
}

/// Writes a number in decimal.
pub fn decimal_text(n: usize) -> (r: String)
    ensures
        r@ == decimal(n as nat),
    decreases n,
{
    if n < 10 {
        digit_text(n).to_owned()
    } else {
        let head = decimal_text(n / 10);
        let r = join(head.as_str(), digit_text(n % 10));
        assert(r@ =~= decimal(n as nat));
        r
    }
}

/// The number that a decimal numeral stands for.
pub open spec fn numeral_value(numeral: Seq<char>) -> int
    decreases numeral.len(),
{
    if numeral.len() == 0 {
        0
    } else {
        10 * numeral_value(numeral.drop_last()) + (numeral.last() as int - '0' as int)
    }
}

/// A number in decimal is made of digits, without needless zeros, and stands for the number.
pub proof fn law_decimal_stands_for_number(n: nat)
    ensures
        numeral_value(decimal(n)) == n,
        decimal(n).len() > 0,
        n > 0 ==> decimal(n)[0] != '0',
        forall|i: int| 0 <= i < decimal(n).len() ==> '0' <= #[trigger] decimal(n)[i] <= '9',
    decreases n,
{
    let d = decimal(n);
    if n < 10 {
        assert(d.drop_last() =~= Seq::<char>::empty());
        assert(numeral_value(d.drop_last()) == 0);
    } else {
        law_decimal_stands_for_number(n / 10);
        let head = decimal(n / 10);
        assert(d.drop_last() =~= head);
        assert(d[0] == head[0]);
        assert forall|i: int| 0 <= i < d.len() implies '0' <= #[trigger] d[i] <= '9' by {
            if i < head.len() {
                assert(d[i] == head[i]);
            }
        }
    }
}

/// The number that a lower-case hexadecimal digit stands for, and below zero for anything else.
pub open spec fn nibble_value(digit: char) -> int {
    if '0' <= digit <= '9' {
        digit as int - '0' as int
    } else if 'a' <= digit <= 'f' {
        digit as int - 'a' as int + 10
    } else {
        -1
    }
}

/// Hexadecimal text has two digits for each byte, in the order of the bytes, the higher one first.
pub proof fn law_hex_stands_for_bytes(bytes: Seq<u8>, k: int)
    requires
        0 <= k < bytes.len(),
    ensures
        hex_lower(bytes).len() == 2 * bytes.len(),
        0 <= nibble_value(hex_lower(bytes)[2 * k]) < 16,
        0 <= nibble_value(hex_lower(bytes)[2 * k + 1]) < 16,
        16 * nibble_value(hex_lower(bytes)[2 * k]) + nibble_value(hex_lower(bytes)[2 * k + 1])
            == bytes[k],
{
    let i = 2 * k;
    let j = 2 * k + 1;
    assert(i / 2 == k && i % 2 == 0 && j / 2 == k && j % 2 == 1);
    let high = bytes[k] as int / 16;
    let low = bytes[k] as int % 16;
    assert(hex_lower(bytes)[i] == hex_digit(high));
    assert(hex_lower(bytes)[j] == hex_digit(low));
    assert(0 <= high < 16 && 0 <= low < 16 && 16 * high + low == bytes[k]);
    assert(hex_digit(high) as int == if high < 10 { 48 + high } else { 87 + high });
    assert(hex_digit(low) as int == if low < 10 { 48 + low } else { 87 + low });
}

} // verus!
