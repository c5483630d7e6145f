use vstd::prelude::*;

use crate::chars::{chars_of, push_all, string_of};
use crate::value::{decimal_nat, push_decimal};

verus! {

/// Whether a character has the Unicode `White_Space` property, the set that
/// `char::is_whitespace` tests.
pub open spec fn is_space(c: char) -> bool {
    let u = c as u32;
    (9 <= u <= 13) || u == 32 || u == 0x85 || u == 0xA0 || u == 0x1680 || (0x2000 <= u
        <= 0x200A) || u == 0x2028 || u == 0x2029 || u == 0x202F || u == 0x205F || u == 0x3000
}

/// Text without its leading whitespace.
pub open spec fn trim_start(s: Seq<char>) -> Seq<char>
    decreases s.len(),
{
    if s.len() > 0 && is_space(s[0]) {
        trim_start(s.skip(1))
    } else {
        s
    }
}

/// Text without its trailing whitespace.
pub open spec fn trim_end(s: Seq<char>) -> Seq<char>
    decreases s.len(),
{
    if s.len() > 0 && is_space(s.last()) {
        trim_end(s.drop_last())
    } else {
        s
    }
}

/// Statement text without surrounding whitespace and without one trailing
/// terminator, nor the whitespace before it.
pub open spec fn normalized(s: Seq<char>) -> Seq<char> {
    let t = trim_end(trim_start(s));
    if t.len() > 0 && t.last() == ';' {
        trim_end(t.drop_last())
    } else {
        t
    }
}

/// Whether `needle` occurs in `hay` starting at position `i`.
pub open spec fn occurs_at(hay: Seq<char>, needle: Seq<char>, i: int) -> bool {
    0 <= i && i + needle.len() <= hay.len() && hay.subrange(i, i + needle.len()) == needle
}

/// Whether `needle` occurs anywhere in `hay`.
pub open spec fn contains(hay: Seq<char>, needle: Seq<char>) -> bool {
    exists|i: int| occurs_at(hay, needle, i)
}

/// A name for what `str::to_uppercase` returns: the Unicode uppercase
/// mapping of each character, which depends on the text alone.
pub uninterp spec fn upper_of(s: Seq<char>) -> Seq<char>;

/// Relies on `str::to_uppercase`.
#[verifier::external_body]
fn to_upper(s: &str) -> (r: String)
    ensures
        r@ == upper_of(s@),
{
    s.to_uppercase()
}

/// Whether uppercased statement text already holds its own `LIMIT` or
/// `ORDER BY`, so that a window must be put around it as a subquery.
pub open spec fn needs_subquery(upper: Seq<char>) -> bool {
    contains(upper, "LIMIT"@) || contains(upper, "ORDER BY"@)
}

/// The statement that counts the rows of a normalized statement.
pub open spec fn count_query(sql: Seq<char>) -> Seq<char> {
    "SELECT COUNT(*) FROM ("@ + sql + ") AS count_subquery"@
}

/// The statement that reads the window of `size` rows from `offset` of a
/// normalized statement, given that statement's uppercase text.
pub open spec fn page_query(sql: Seq<char>, upper: Seq<char>, size: nat, offset: nat) -> Seq<char> {
    let window = " LIMIT "@ + decimal_nat(size) + " OFFSET "@ + decimal_nat(offset);
    if needs_subquery(upper) {
        "SELECT * FROM ("@ + sql + ") AS subquery"@ + window
    } else {
        sql + window
    }
}

/// The statement that counts the rows of a table.
pub open spec fn table_count_query(table: Seq<char>) -> Seq<char> {
    "SELECT COUNT(*) FROM "@ + table
}

/// The statement that describes the columns of a table.
pub open spec fn table_info_query(table: Seq<char>) -> Seq<char> {
    "PRAGMA table_info("@ + table + ")"@
}

/// The statement that reads the first rows of a table for a preview.
pub open spec fn preview_query(table: Seq<char>) -> Seq<char> {
    "SELECT * FROM "@ + table + " LIMIT 10"@
}

/// Whether a character is whitespace.
pub fn is_space_char(c: char) -> (r: bool)
    ensures
        r == is_space(c),
{
    let u = c as u32;
    (9 <= u && u <= 13) || u == 32 || u == 0x85 || u == 0xA0 || u == 0x1680 || (0x2000 <= u && u
        <= 0x200A) || u == 0x2028 || u == 0x2029 || u == 0x202F || u == 0x205F || u == 0x3000
}

fn skip_space_start(v: &Vec<char>, lo: usize, hi: usize) -> (r: usize)
    requires
        lo <= hi <= v@.len(),
    ensures
        lo <= r <= hi,
        v@.subrange(r as int, hi as int) == trim_start(v@.subrange(lo as int, hi as int)),
{
    let mut i = lo;
    while i < hi && is_space_char(v[i])
        invariant
            lo <= i <= hi <= v@.len(),
            trim_start(v@.subrange(i as int, hi as int)) == trim_start(
                v@.subrange(lo as int, hi as int),
            ),
        decreases hi - i,
    {
        let ghost s = v@.subrange(i as int, hi as int);
        assert(s.skip(1) =~= v@.subrange(i + 1, hi as int));
        assert(s[0] == v@[i as int]);
        i = i + 1;
    }
    i
}

fn skip_space_end(v: &Vec<char>, lo: usize, hi: usize) -> (r: usize)
    requires
        lo <= hi <= v@.len(),
    ensures
        lo <= r <= hi,
        v@.subrange(lo as int, r as int) == trim_end(v@.subrange(lo as int, hi as int)),
{
    let mut j = hi;
    while j > lo && is_space_char(v[j - 1])
        invariant
            lo <= j <= hi <= v@.len(),
            trim_end(v@.subrange(lo as int, j as int)) == trim_end(
                v@.subrange(lo as int, hi as int),
            ),
        decreases j - lo,
    {
        let ghost s = v@.subrange(lo as int, j as int);
        assert(s.drop_last() =~= v@.subrange(lo as int, j - 1));
        assert(s.last() == v@[j - 1]);
        j = j - 1;
    }
    j
}

/// Normalizes statement text: trims surrounding whitespace and one trailing
/// terminator.
pub fn normalize_sql(sql: &str) -> (r: String)
    ensures
        r@ == normalized(sql@),
{
    let v = chars_of(sql);
    let a = skip_space_start(&v, 0, v.len());
    assert(v@.subrange(0, v@.len() as int) =~= v@);
    let b = skip_space_end(&v, a, v.len());
    let mut end = b;
    if b > a && v[b - 1] == ';' {
        let ghost t = v@.subrange(a as int, b as int);
        assert(t.drop_last() =~= v@.subrange(a as int, b - 1));
        end = skip_space_end(&v, a, b - 1);
    }
    let mut out: Vec<char> = Vec::new();
    let mut k = a;
    while k < end
        invariant
            a <= k <= end <= v@.len(),
            out@ == v@.subrange(a as int, k as int),
        decreases end - k,
    {
        out.push(v[k]);
        k = k + 1;
        assert(out@ =~= v@.subrange(a as int, k as int));
    }
    string_of(&out)
}

fn occurs_at_index(hay: &Vec<char>, needle: &Vec<char>, i: usize) -> (r: bool)
    requires
        i + needle@.len() <= hay@.len(),
    ensures
        r == occurs_at(hay@, needle@, i as int),
{
    let n = hay.len();
    let mut k: usize = 0;
    while k < needle.len()
        invariant
            k <= needle@.len(),
            n == hay@.len(),
            i + needle@.len() <= hay@.len(),
            forall|m: int| 0 <= m < k ==> hay@[i + m] == needle@[m],
        decreases needle@.len() - k,
    {
        if hay[i + k] != needle[k] {
            assert(hay@.subrange(i as int, i + needle@.len())[k as int] != needle@[k as int]);
            return false;
        }
        k = k + 1;
    }
    assert(hay@.subrange(i as int, i + needle@.len()) =~= needle@);
    true
}

/// Whether `needle` occurs anywhere in `hay`.
pub fn contains_text(hay: &Vec<char>, needle: &Vec<char>) -> (r: bool)
    ensures
        r == contains(hay@, needle@),
{
    if needle.len() == 0 {
        assert(hay@.subrange(0, 0) =~= needle@);
        assert(occurs_at(hay@, needle@, 0));
        return true;
    }
    let mut i: usize = 0;
    while i < hay.len()
        invariant
            i <= hay@.len(),
            needle@.len() > 0,
            forall|m: int| 0 <= m < i ==> !#[trigger] occurs_at(hay@, needle@, m),
        decreases hay@.len() - i,
    {
        if needle.len() <= hay.len() - i && occurs_at_index(hay, needle, i) {
            return true;
        }
        i = i + 1;
    }
    assert forall|m: int| !#[trigger] occurs_at(hay@, needle@, m) by {}
    false
}

fn push_str(out: &mut Vec<char>, s: &str)
    ensures
        final(out)@ == old(out)@ + s@,
{
    push_all(out, &chars_of(s));
}

/// Whether the uppercase text of a statement holds `LIMIT` or `ORDER BY`.
pub fn has_own_window(upper: &str) -> (r: bool)
    ensures
        r == needs_subquery(upper@),
{
    let u = chars_of(upper);
    contains_text(&u, &chars_of("LIMIT")) || contains_text(&u, &chars_of("ORDER BY"))
}

/// The statement that counts the rows of a normalized statement.
pub fn count_sql(sql: &str) -> (r: String)
    ensures
        r@ == count_query(sql@),
{
    let mut out: Vec<char> = Vec::new();
    push_str(&mut out, "SELECT COUNT(*) FROM (");
    push_str(&mut out, sql);
    push_str(&mut out, ") AS count_subquery");
    string_of(&out)
}

/// The statement that reads one window of a normalized statement, given
/// that statement's uppercase text: a subquery where the statement holds its
/// own `LIMIT` or `ORDER BY`, else the window appended.
pub fn page_sql(sql: &str, upper: &str, size: u32, offset: u64) -> (r: String)
    ensures
        r@ == page_query(sql@, upper@, size as nat, offset as nat),
{
    let mut out: Vec<char> = Vec::new();
    if has_own_window(upper) {
        push_str(&mut out, "SELECT * FROM (");
        push_str(&mut out, sql);
        push_str(&mut out, ") AS subquery");
    } else {
        push_str(&mut out, sql);
    }
    push_str(&mut out, " LIMIT ");
    push_decimal(size as u64, &mut out);
    push_str(&mut out, " OFFSET ");
    push_decimal(offset, &mut out);
    string_of(&out)
}

/// The statement that reads one window of a statement, after normalizing
/// it.
pub fn window_sql(sql: &str, size: u32, offset: u64) -> (r: String)
    ensures
        r@ == page_query(normalized(sql@), upper_of(normalized(sql@)), size as nat, offset as nat),
{
    let cleaned = normalize_sql(sql);
    let upper = to_upper(cleaned.as_str());
    page_sql(cleaned.as_str(), upper.as_str(), size, offset)
}

/// The statement that counts the rows of a table.
pub fn table_count_sql(table: &str) -> (r: String)
    ensures
        r@ == table_count_query(table@),
{
    let mut out: Vec<char> = Vec::new();
    push_str(&mut out, "SELECT COUNT(*) FROM ");
    push_str(&mut out, table);
    string_of(&out)
}

/// The statement that describes the columns of a table.
pub fn table_info_sql(table: &str) -> (r: String)
    ensures
        r@ == table_info_query(table@),
{
    let mut out: Vec<char> = Vec::new();
    push_str(&mut out, "PRAGMA table_info(");
    push_str(&mut out, table);
    push_str(&mut out, ")");
    string_of(&out)
}

/// The statement that reads the first rows of a table for a preview.
pub fn preview_sql(table: &str) -> (r: String)
    ensures
        r@ == preview_query(table@),
{
    let mut out: Vec<char> = Vec::new();
    push_str(&mut out, "SELECT * FROM ");
    push_str(&mut out, table);
    push_str(&mut out, " LIMIT 10");
    string_of(&out)
}

/// A statement that holds its own `ORDER BY` is read whole, as a subquery,
/// and only then windowed: each page keeps the statement's order.
pub proof fn lemma_own_order_kept(sql: Seq<char>, size: nat, offset: nat)
    requires
        contains(upper_of(normalized(sql)), "ORDER BY"@),
    ensures
        page_query(normalized(sql), upper_of(normalized(sql)), size, offset) == "SELECT * FROM ("@
            + normalized(sql) + ") AS subquery LIMIT "@ + decimal_nat(size) + " OFFSET "@
            + decimal_nat(offset),
{
    let window = " LIMIT "@ + decimal_nat(size) + " OFFSET "@ + decimal_nat(offset);
    reveal_strlit(") AS subquery");
    reveal_strlit(" LIMIT ");
    reveal_strlit(") AS subquery LIMIT ");
    assert(") AS subquery"@ + " LIMIT "@ =~= ") AS subquery LIMIT "@);
    assert("SELECT * FROM ("@ + normalized(sql) + ") AS subquery"@ + window =~= "SELECT * FROM ("@
        + normalized(sql) + ") AS subquery LIMIT "@ + decimal_nat(size) + " OFFSET "@
        + decimal_nat(offset));
}

} // verus!
