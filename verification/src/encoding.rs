use vstd::prelude::*;

verus! {

/// The encoding of the point at infinity in a buffer of `width` bytes: the
/// second-most significant bit of the first byte is set, and nothing else.
pub open spec fn identity_encoding(width: nat) -> Seq<u8> {
    Seq::new(width, |i: int| if i == 0 { 0x40u8 } else { 0u8 })
}

/// The byte strings that the buffers in `rows` hold.
pub open spec fn rows_view(rows: Seq<Vec<u8>>) -> Seq<Seq<u8>> {
    Seq::new(rows.len(), |i: int| rows[i]@)
}

/// The number that `bytes` stand for, most significant byte first.
pub open spec fn be_value(bytes: Seq<u8>) -> nat
    decreases bytes.len(),
{
    if bytes.len() == 0 {
        0
    } else {
        be_value(bytes.drop_last()) * 256 + bytes.last() as nat
    }
}

/// The number that `bytes` stand for, least significant byte first.
pub open spec fn le_value(bytes: Seq<u8>) -> nat
    decreases bytes.len(),
{
    if bytes.len() == 0 {
        0
    } else {
        bytes.first() as nat + 256 * le_value(bytes.drop_first())
    }
}

/// Whether `c` is one of the ten ASCII digits.
pub open spec fn is_decimal_digit(c: char) -> bool {
    '0' <= c <= '9'
}

/// Whether `s` is a base-10 numeral in its shortest form: at least one
/// digit, nothing but digits, and no leading zero except in `"0"` itself.
pub open spec fn is_decimal_numeral(s: Seq<char>) -> bool {
    &&& s.len() > 0
    &&& forall|i: int| 0 <= i < s.len() ==> is_decimal_digit(#[trigger] s[i])
    &&& (s[0] != '0' || s.len() == 1)
}

/// The number that the digits of `s` stand for in base 10.
pub open spec fn decimal_value(s: Seq<char>) -> nat
    decreases s.len(),
{
    if s.len() == 0 {
        0
    } else {
        decimal_value(s.drop_last()) * 10 + (s.last() as nat - '0' as nat) as nat
    }
}

/// Reversing the bytes turns a little-endian number into the same number
/// written big-endian.
pub proof fn lemma_reverse_le_is_be(bytes: Seq<u8>)
    ensures
        be_value(bytes.reverse()) == le_value(bytes),
    decreases bytes.len(),
{
    if bytes.len() > 0 {
        let rev = bytes.reverse();
        let tail = bytes.drop_first();
        assert(rev.last() == bytes.first());
        assert(rev.drop_last() =~= tail.reverse());
        lemma_reverse_le_is_be(tail);
    }
}

/// Whether two buffers hold the same bytes.
pub fn bytes_equal(a: &[u8], b: &[u8]) -> (r: bool)
    ensures
        r == (a@ == b@),
{
    if a.len() != b.len() {
        return false;
    }
    let mut i: usize = 0;
    while i < a.len()
        invariant
            a@.len() == b@.len(),
            i <= a@.len(),
            forall|j: int| 0 <= j < i ==> a@[j] == b@[j],
        decreases a@.len() - i,
    {
        if a[i] != b[i] {
            return false;
        }
        i += 1;
    }
    assert(a@ =~= b@);
    true
}

/// A fresh copy of `a`.
pub fn copy_bytes(a: &[u8]) -> (r: Vec<u8>)
    ensures
        r@ == a@,
{
    let mut out: Vec<u8> = Vec::new();
    let mut i: usize = 0;
    while i < a.len()
        invariant
            i <= a@.len(),
            out@ == a@.subrange(0, i as int),
        decreases a@.len() - i,
    {
        out.push(a[i]);
        assert(out@ =~= a@.subrange(0, i + 1));
        i += 1;
    }
    assert(out@ =~= a@);
    out
}

/// The bytes of `a` in the opposite order.
pub fn reversed_bytes(a: &[u8]) -> (r: Vec<u8>)
    ensures
        r@ == a@.reverse(),
{
    let n = a.len();
    let mut out: Vec<u8> = Vec::new();
    let mut i: usize = 0;
    while i < n
        invariant
            n == a@.len(),
            i <= n,
            out@.len() == i,
            forall|j: int| 0 <= j < i ==> out@[j] == a@[n - 1 - j],
        decreases n - i,
    {
        out.push(a[n - 1 - i]);
        i += 1;
    }
    assert(out@ =~= a@.reverse());
    out
}

/// Whether `a` is the encoding of the point at infinity for its own width.
pub fn is_identity_encoding(a: &[u8]) -> (r: bool)
    ensures
        r == (a@ == identity_encoding(a@.len())),
{
    let n = a.len();
    if n == 0 {
        assert(a@ =~= identity_encoding(0));
        return true;
    }
    if a[0] != 0x40u8 {
        assert(identity_encoding(n as nat)[0] == 0x40u8);
        return false;
    }
    let mut i: usize = 1;
    while i < n
        invariant
            n == a@.len(),
            1 <= i <= n,
            a@[0] == 0x40u8,
            forall|j: int| 1 <= j < i ==> a@[j] == 0u8,
        decreases n - i,
    {
        if a[i] != 0u8 {
            assert(identity_encoding(n as nat)[i as int] == 0u8);
            return false;
        }
        i += 1;
    }
    assert(a@ =~= identity_encoding(n as nat));
    true
}

} // verus!
