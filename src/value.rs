use vstd::prelude::*;

use crate::chars::string_of;

verus! {

/// One database cell, tagged by its storage class.
///
/// A floating-point cell is carried as the shortest decimal text that reads
/// back to the same 64-bit pattern; that text is produced where the cell is
/// read from the engine.
pub enum Value {
    Null,
    Integer(i64),
    Real(String),
    Text(String),
    Blob(Vec<u8>),
}

/// The character of a decimal digit.
pub open spec fn digit_char(d: nat) -> char {
    ((d + 48) as u8) as char
}

/// The decimal digits of a natural number, most significant first, without
/// leading zeros.
pub open spec fn decimal_nat(n: nat) -> Seq<char>
    decreases n,
{
    if n < 10 {
        seq![digit_char(n)]
    } else {
        decimal_nat(n / 10).push(digit_char(n % 10))
    }
}

/// The decimal text of an integer, with a leading minus sign when negative.
pub open spec fn decimal_int(i: int) -> Seq<char> {
    if i < 0 {
        seq!['-'] + decimal_nat((-i) as nat)
    } else {
        decimal_nat(i as nat)
    }
}

/// The character of a lowercase hexadecimal digit.
pub open spec fn hex_digit(d: nat) -> char {
    if d < 10 {
        ((d + 48) as u8) as char
    } else {
        ((d + 87) as u8) as char
    }
}

/// Lowercase hexadecimal text of bytes: two digits per byte, high nibble
/// first, no separators.
pub open spec fn hex_text(b: Seq<u8>) -> Seq<char> {
    Seq::new(
        2 * b.len(),
        |k: int|
            if k % 2 == 0 {
                hex_digit((b[k / 2] / 16) as nat)
            } else {
                hex_digit((b[k / 2] % 16) as nat)
            },
    )
}

/// The canonical text of a cell.
pub open spec fn encoded(v: Value) -> Seq<char> {
    match v {
        Value::Null => Seq::empty(),
        Value::Integer(i) => decimal_int(i as int),
        Value::Real(t) => t@,
        Value::Text(t) => t@,
        Value::Blob(b) => hex_text(b@),
    }
}

/// The value of a decimal digit character.
pub open spec fn digit_value(c: char) -> int {
    c as int - 48
}

/// Reads a run of decimal digits.
pub open spec fn parse_nat(s: Seq<char>) -> int
    decreases s.len(),
{
    if s.len() == 0 {
        0
    } else {
        parse_nat(s.drop_last()) * 10 + digit_value(s.last())
    }
}

/// Reads decimal text with an optional leading minus sign.
pub open spec fn parse_int(s: Seq<char>) -> int {
    if s.len() > 0 && s[0] == '-' {
        -parse_nat(s.skip(1))
    } else {
        parse_nat(s)
    }
}

/// The value of a lowercase hexadecimal digit character.
pub open spec fn hex_value(c: char) -> int {
    if (c as int) < 58 {
        c as int - 48
    } else {
        c as int - 87
    }
}

/// Reads lowercase hexadecimal text back into bytes, two digits per byte.
pub open spec fn parse_hex(s: Seq<char>) -> Seq<u8> {
    Seq::new(
        s.len() / 2,
        |i: int| (hex_value(s[2 * i]) * 16 + hex_value(s[2 * i + 1])) as u8,
    )
}


proof fn lemma_digit_char(d: nat)
    requires
        d < 10,
    ensures
        digit_value(digit_char(d)) == d,
        digit_char(d) != '-',
{
    assert(((d + 48) as u8) as char as int == d + 48);
}

proof fn lemma_parse_decimal_nat(n: nat)
    ensures
        parse_nat(decimal_nat(n)) == n,
        decimal_nat(n).len() > 0,
        decimal_nat(n)[0] != '-',
    decreases n,
{
    lemma_digit_char(n % 10);
    if n < 10 {
        let s = seq![digit_char(n)];
        assert(s.drop_last() =~= Seq::<char>::empty());
        assert(s.last() == digit_char(n));
        assert(parse_nat(s) == parse_nat(s.drop_last()) * 10 + digit_value(s.last()));
    } else {
        lemma_parse_decimal_nat(n / 10);
        let s = decimal_nat(n / 10).push(digit_char(n % 10));
        assert(s.drop_last() =~= decimal_nat(n / 10));
        assert(s[0] == decimal_nat(n / 10)[0]);
        assert(s.last() == digit_char(n % 10));
        assert(parse_nat(s) == parse_nat(s.drop_last()) * 10 + digit_value(s.last()));
    }
}

/// Decimal text of any 64-bit signed integer reads back to that integer.
pub proof fn lemma_integer_round_trip(i: i64)
    ensures
        parse_int(decimal_int(i as int)) == i as int,
{
    let m: nat = if i < 0 { (-i) as nat } else { i as nat };
    lemma_parse_decimal_nat(m);
    if i < 0 {
        assert((seq!['-'] + decimal_nat(m)).skip(1) =~= decimal_nat(m));
    }
}

/// Lowercase hexadecimal text of any byte sequence reads back to those
/// bytes.
pub proof fn lemma_blob_round_trip(b: Seq<u8>)
    ensures
        parse_hex(hex_text(b)) == b,
{
    let h = hex_text(b);
    assert forall|i: int| 0 <= i < b.len() implies #[trigger] parse_hex(h)[i] == b[i] by {
        let x = b[i];
        assert(h[2 * i] == hex_digit((x / 16) as nat));
        assert(h[2 * i + 1] == hex_digit((x % 16) as nat));
        assert((x / 16) * 16 + x % 16 == x) by (bit_vector);
    }
    assert(parse_hex(h) =~= b);
}

/// Appends the decimal digits of `n` to `out`.
pub fn push_decimal(n: u64, out: &mut Vec<char>)
    ensures
        final(out)@ == old(out)@ + decimal_nat(n as nat),
    decreases n,
{
    if n < 10 {
        out.push(((n as u8) + 48) as char);
        assert(out@ =~= old(out)@ + decimal_nat(n as nat));
    } else {
        push_decimal(n / 10, out);
        out.push((((n % 10) as u8) + 48) as char);
        assert(out@ =~= old(out)@ + decimal_nat(n as nat));
    }
}

/// The decimal text of a 64-bit signed integer.
pub fn encode_integer(i: i64) -> (r: String)
    ensures
        r@ == decimal_int(i as int),
{
    let mut out: Vec<char> = Vec::new();
    if i < 0 {
        out.push('-');
        let m: u64 = if i == i64::MIN {
            9223372036854775808u64
        } else {
            (-i) as u64
        };
        push_decimal(m, &mut out);
        assert(out@ =~= seq!['-'] + decimal_nat((-(i as int)) as nat));
    } else {
        push_decimal(i as u64, &mut out);
        assert(out@ =~= decimal_nat(i as nat));
    }
    string_of(&out)
}

/// Relies on `hex::encode`: two lowercase digits per byte, high nibble
/// first, no separators.
#[verifier::external_body]
fn hex_encode(b: &[u8]) -> (r: String)
    ensures
        r@ == hex_text(b@),
{
    hex::encode(b)
}

/// The canonical text of a cell: empty for null, decimal for an integer,
/// the rendered text of a float, the text itself, or lowercase hexadecimal
/// for a blob.
pub fn encode_value(v: &Value) -> (r: String)
    ensures
        r@ == encoded(*v),
{
    match v {
        Value::Null => String::new(),
        Value::Integer(i) => encode_integer(*i),
        Value::Real(t) => t.clone(),
        Value::Text(t) => t.clone(),
        Value::Blob(b) => hex_encode(b.as_slice()),
    }
}

/// Encodes every cell of every row.
pub fn encode_rows(rows: &Vec<Vec<Value>>) -> (r: Vec<Vec<String>>)
    ensures
        r@.len() == rows@.len(),
        forall|i: int| 0 <= i < rows@.len() ==> #[trigger] r@[i]@.len() == rows@[i]@.len(),
        forall|i: int, j: int|
            0 <= i < rows@.len() && 0 <= j < rows@[i]@.len() ==> #[trigger] r@[i]@[j]@ == encoded(
                rows@[i]@[j],
            ),
{
    let mut out: Vec<Vec<String>> = Vec::new();
    let mut i: usize = 0;
    while i < rows.len()
        invariant
            i <= rows@.len(),
            out@.len() == i,
            forall|a: int| 0 <= a < i ==> #[trigger] out@[a]@.len() == rows@[a]@.len(),
            forall|a: int, b: int|
                0 <= a < i && 0 <= b < rows@[a]@.len() ==> #[trigger] out@[a]@[b]@ == encoded(
                    rows@[a]@[b],
                ),
        decreases rows@.len() - i,
    {
        let row = &rows[i];
        let mut cells: Vec<String> = Vec::new();
        let mut j: usize = 0;
        while j < row.len()
            invariant
                j <= row@.len(),
                cells@.len() == j,
                forall|b: int| 0 <= b < j ==> #[trigger] cells@[b]@ == encoded(row@[b]),
            decreases row@.len() - j,
        {
            cells.push(encode_value(&row[j]));
            j = j + 1;
        }
        out.push(cells);
        i = i + 1;
    }
    out
}

/// Whether text read back by the storage class of `v` gives `v`: empty for
/// null, the integer for an integer, the bytes for a blob, the text itself
/// for text and for a float's rendering.
pub open spec fn reads_back(v: Value, s: Seq<char>) -> bool {
    match v {
        Value::Null => s.len() == 0,
        Value::Integer(i) => parse_int(s) == i as int,
        Value::Real(t) => s == t@,
        Value::Text(t) => s == t@,
        Value::Blob(b) => parse_hex(s) == b@,
    }
}

/// The canonical text of every cell reads back, by the cell's storage
/// class, to the cell.
pub proof fn lemma_encoding_round_trip(v: Value)
    ensures
        reads_back(v, encoded(v)),
{
    match v {
        Value::Integer(i) => lemma_integer_round_trip(i),
        Value::Blob(b) => lemma_blob_round_trip(b@),
        _ => {},
    }
}

} // verus!
