//! Canonical query-string encoder.
//!
//! A request's parameters are an ordered list of named, typed values.  The
//! encoder renders each value as text (booleans as `1`/`0`, integers in
//! decimal, strings verbatim), percent-encodes name and value, and joins
//! the present pairs with `&` in declaration order.  Absent pairs — an
//! empty optional or an empty list — are dropped entirely, never emitted
//! as `name=`.  Bytes outside the unreserved set (letters, digits, `-`,
//! `.`, `_`, `~`) are written as `%XX` with upper-case hex digits, so the
//! output is always plain ASCII and safe to embed in a URL.

use vstd::prelude::*;
use vstd::utf8::encode_utf8;
use vstd::utf8::is_ascii_chars;

verus! {

/// A single scalar parameter value.
#[derive(Debug, Clone, PartialEq, Eq)]
pub enum Scalar {
    /// A boolean, encoded as `1` or `0`.
    Flag(bool),
    /// A signed integer, encoded in decimal.
    Int(i64),
    /// An unsigned integer, encoded in decimal.
    UInt(u64),
    /// A string (or a symbolic enum's fixed wire word), passed through
    /// verbatim and then percent-encoded.
    Text(String),
}

/// A parameter value: a plain scalar, an optional scalar, or a list of
/// scalars joined by commas.  An empty optional or an empty list makes
/// the parameter absent.
#[derive(Debug, Clone, PartialEq, Eq)]
pub enum Param {
    One(Scalar),
    Opt(Option<Scalar>),
    List(Vec<Scalar>),
}

/// A named parameter of a request.
#[derive(Debug, Clone, PartialEq, Eq)]
pub struct Field {
    pub name: String,
    pub value: Param,
}

/// The byte of a decimal digit.
pub open spec fn dec_digit(d: int) -> u8 {
    (0x30 + d) as u8
}

/// Decimal text of a non-negative integer, most significant digit first.
pub open spec fn dec_nat(n: nat) -> Seq<u8>
    decreases n,
{
    if n < 10 {
        seq![dec_digit(n as int)]
    } else {
        dec_nat(n / 10) + seq![dec_digit((n % 10) as int)]
    }
}

/// Decimal text of a signed integer: a leading `-` for negatives.
pub open spec fn dec_int(n: int) -> Seq<u8> {
    if n < 0 {
        seq![0x2du8] + dec_nat((-n) as nat)
    } else {
        dec_nat(n as nat)
    }
}

/// Bytes that pass through percent-encoding unchanged: ASCII letters,
/// digits, `-`, `.`, `_` and `~`.
pub open spec fn is_unreserved_byte(b: u8) -> bool {
    (0x41 <= b && b <= 0x5a) || (0x61 <= b && b <= 0x7a) || (0x30 <= b && b <= 0x39) || b == 0x2d
        || b == 0x2e || b == 0x5f || b == 0x7e
}

/// The byte of an upper-case hexadecimal digit.
pub open spec fn hex_digit(d: int) -> u8 {
    if d < 10 {
        (0x30 + d) as u8
    } else {
        (0x41 + (d - 10)) as u8
    }
}

/// Percent-encoding of one byte: unreserved bytes stand for themselves,
/// every other byte becomes `%XX`.
pub open spec fn pct_byte(b: u8) -> Seq<u8> {
    if is_unreserved_byte(b) {
        seq![b]
    } else {
        seq![0x25u8, hex_digit(b as int / 16), hex_digit(b as int % 16)]
    }
}

/// Percent-encoding of a byte sequence.
pub open spec fn pct(bytes: Seq<u8>) -> Seq<u8>
    decreases bytes.len(),
{
    if bytes.len() == 0 {
        Seq::empty()
    } else {
        pct_byte(bytes[0]) + pct(bytes.drop_first())
    }
}

/// The raw (pre-percent-encoding) text of a scalar.
pub open spec fn scalar_bytes(s: Scalar) -> Seq<u8> {
    match s {
        Scalar::Flag(b) => if b {
            seq![0x31u8]
        } else {
            seq![0x30u8]
        },
        Scalar::Int(i) => dec_int(i as int),
        Scalar::UInt(u) => dec_nat(u as nat),
        Scalar::Text(t) => encode_utf8(t@),
    }
}

/// The raw text of a list value: each element's scalar text, joined by
/// commas.
pub open spec fn list_bytes(items: Seq<Scalar>) -> Seq<u8>
    decreases items.len(),
{
    if items.len() == 0 {
        Seq::empty()
    } else if items.len() == 1 {
        scalar_bytes(items[0])
    } else {
        scalar_bytes(items[0]) + seq![0x2cu8] + list_bytes(items.drop_first())
    }
}

/// Whether a parameter is present in the encoded output.
pub open spec fn param_present(p: Param) -> bool {
    match p {
        Param::One(_) => true,
        Param::Opt(o) => o is Some,
        Param::List(l) => l@.len() > 0,
    }
}

/// The raw text of a present parameter.
pub open spec fn param_bytes(p: Param) -> Seq<u8> {
    match p {
        Param::One(s) => scalar_bytes(s),
        Param::Opt(o) => if o is Some {
            scalar_bytes(o->0)
        } else {
            Seq::empty()
        },
        Param::List(l) => list_bytes(l@),
    }
}

/// The encoded `name=value` pair of a field.
pub open spec fn pair_bytes(f: Field) -> Seq<u8> {
    pct(encode_utf8(f.name@)) + seq![0x3du8] + pct(param_bytes(f.value))
}

/// The encoded query of a field list, with `first` saying whether no pair
/// has been emitted yet (so no `&` goes before the next one).
pub open spec fn qs_bytes_from(fields: Seq<Field>, first: bool) -> Seq<u8>
    decreases fields.len(),
{
    if fields.len() == 0 {
        Seq::empty()
    } else if !param_present(fields[0].value) {
        qs_bytes_from(fields.drop_first(), first)
    } else {
        (if first {
            Seq::empty()
        } else {
            seq![0x26u8]
        }) + pair_bytes(fields[0]) + qs_bytes_from(fields.drop_first(), false)
    }
}

/// The encoded query of a field list: present pairs in declaration order,
/// joined by `&`.
pub open spec fn qs_bytes(fields: Seq<Field>) -> Seq<u8> {
    qs_bytes_from(fields, true)
}

/// All bytes are ASCII.
pub open spec fn ascii_bytes(b: Seq<u8>) -> bool {
    forall|i: int| 0 <= i < b.len() ==> b[i] < 0x80
}

/// The characters of an ASCII byte sequence.
pub open spec fn ascii_chars_of(b: Seq<u8>) -> Seq<char> {
    Seq::new(b.len(), |i: int| b[i] as char)
}

/// Decimal text is ASCII.
pub proof fn lemma_dec_nat_ascii(n: nat)
    ensures
        ascii_bytes(dec_nat(n)),
    decreases n,
{
    if n >= 10 {
        lemma_dec_nat_ascii(n / 10);
        assert forall|i: int| 0 <= i < dec_nat(n).len() implies dec_nat(n)[i] < 0x80 by {
            if i < dec_nat(n / 10).len() {
                assert(dec_nat(n)[i] == dec_nat(n / 10)[i]);
            } else {
                assert(dec_nat(n)[i] == dec_digit((n % 10) as int));
            }
        }
    }
}

/// Signed decimal text is ASCII.
pub proof fn lemma_dec_int_ascii(n: int)
    ensures
        ascii_bytes(dec_int(n)),
{
    if n < 0 {
        lemma_dec_nat_ascii((-n) as nat);
        assert forall|i: int| 0 <= i < dec_int(n).len() implies dec_int(n)[i] < 0x80 by {
            if i == 0 {
                assert(dec_int(n)[0] == 0x2d);
            } else {
                assert(dec_int(n)[i] == dec_nat((-n) as nat)[i - 1]);
            }
        }
    } else {
        lemma_dec_nat_ascii(n as nat);
    }
}

/// The characters of ASCII bytes encode back to exactly those bytes.
pub proof fn lemma_encode_ascii_chars(b: Seq<u8>)
    requires
        ascii_bytes(b),
    ensures
        encode_utf8(ascii_chars_of(b)) == b,
{
    let chars = ascii_chars_of(b);
    assert forall|i: int| 0 <= i < chars.len() implies '\0' <= #[trigger] chars[i] <= '\u{7f}' by {
        assert(chars[i] == b[i] as char);
        assert(b[i] < 0x80);
    }
    assert(is_ascii_chars(chars));
    vstd::utf8::is_ascii_chars_encode_utf8(chars);
    assert forall|i: int| 0 <= i < b.len() implies encode_utf8(chars)[i] == b[i] by {
        assert(chars[i] as u8 == encode_utf8(chars)[i]);
        assert((b[i] as char) as u8 == b[i]);
    }
    assert(encode_utf8(chars) =~= b);
}

/// A concatenation of ASCII sequences is ASCII.
pub proof fn lemma_ascii_append(a: Seq<u8>, b: Seq<u8>)
    requires
        ascii_bytes(a),
        ascii_bytes(b),
    ensures
        ascii_bytes(a + b),
{
    assert forall|i: int| 0 <= i < (a + b).len() implies (a + b)[i] < 0x80 by {
        if i < a.len() {
            assert((a + b)[i] == a[i]);
        } else {
            assert((a + b)[i] == b[i - a.len()]);
        }
    }
}

/// Percent-encoding distributes over concatenation.
pub proof fn lemma_pct_append(a: Seq<u8>, b: Seq<u8>)
    ensures
        pct(a + b) == pct(a) + pct(b),
    decreases a.len(),
{
    if a.len() == 0 {
        assert(a + b =~= b);
        assert(pct(a) + pct(b) =~= pct(b));
    } else {
        assert((a + b).drop_first() =~= a.drop_first() + b);
        lemma_pct_append(a.drop_first(), b);
        assert(pct(a + b) =~= pct(a) + pct(b));
    }
}

/// Percent-encoded output is ASCII.
pub proof fn lemma_pct_ascii(b: Seq<u8>)
    ensures
        ascii_bytes(pct(b)),
    decreases b.len(),
{
    if b.len() != 0 {
        lemma_pct_ascii(b.drop_first());
        assert forall|i: int| 0 <= i < pct(b).len() implies pct(b)[i] < 0x80 by {
            if i < pct_byte(b[0]).len() {
                assert(pct(b)[i] == pct_byte(b[0])[i]);
            } else {
                assert(pct(b)[i] == pct(b.drop_first())[i - pct_byte(b[0]).len()]);
            }
        }
    }
}

/// The encoded query is ASCII.
pub proof fn lemma_qs_ascii(fields: Seq<Field>, first: bool)
    ensures
        ascii_bytes(qs_bytes_from(fields, first)),
    decreases fields.len(),
{
    if fields.len() == 0 {
    } else if !param_present(fields[0].value) {
        lemma_qs_ascii(fields.drop_first(), first);
    } else {
        lemma_qs_ascii(fields.drop_first(), false);
        lemma_pct_ascii(encode_utf8(fields[0].name@));
        lemma_pct_ascii(param_bytes(fields[0].value));
        let sep: Seq<u8> = if first {
            Seq::empty()
        } else {
            seq![0x26u8]
        };
        let whole = qs_bytes_from(fields, first);
        let pair = pair_bytes(fields[0]);
        assert forall|i: int| 0 <= i < whole.len() implies whole[i] < 0x80 by {
            if i < sep.len() {
                assert(whole[i] == 0x26);
            } else if i < sep.len() + pair.len() {
                let j = i - sep.len();
                assert(whole[i] == pair[j]);
                let name_pct = pct(encode_utf8(fields[0].name@));
                let val_pct = pct(param_bytes(fields[0].value));
                if j < name_pct.len() {
                    assert(pair[j] == name_pct[j]);
                } else if j == name_pct.len() {
                    assert(pair[j] == 0x3d);
                } else {
                    assert(pair[j] == val_pct[j - name_pct.len() - 1]);
                }
            } else {
                assert(whole[i] == qs_bytes_from(fields.drop_first(), false)[i - sep.len()
                    - pair.len()]);
            }
        }
    }
}

/// Law: a field whose value is absent — an empty optional or an empty
/// list — contributes nothing: removing it from the list leaves the
/// encoded query byte-identical.
pub proof fn lemma_absent_field_dropped(fields: Seq<Field>, i: int, first: bool)
    requires
        0 <= i < fields.len(),
        !param_present(fields[i].value),
    ensures
        qs_bytes_from(fields.remove(i), first) == qs_bytes_from(fields, first),
    decreases fields.len(),
{
    if i == 0 {
        assert(fields.remove(0) =~= fields.drop_first());
    } else {
        assert(fields.remove(i).drop_first() =~= fields.drop_first().remove(i - 1));
        if !param_present(fields[0].value) {
            lemma_absent_field_dropped(fields.drop_first(), i - 1, first);
        } else {
            lemma_absent_field_dropped(fields.drop_first(), i - 1, false);
        }
    }
}

/// Appends the decimal text of `n`.
pub(crate) fn push_dec_u64(n: u64, out: &mut Vec<u8>)
    ensures
        final(out)@ == old(out)@ + dec_nat(n as nat),
    decreases n,
{
    if n < 10 {
        out.push(0x30 + (n as u8));
    } else {
        push_dec_u64(n / 10, out);
        out.push(0x30 + ((n % 10) as u8));
    }
}

/// Appends the decimal text of `n`, with a leading `-` when negative.
pub(crate) fn push_dec_i64(n: i64, out: &mut Vec<u8>)
    ensures
        final(out)@ == old(out)@ + dec_int(n as int),
{
    if n < 0 {
        out.push(0x2d);
        if n == i64::MIN {
            push_dec_u64(9223372036854775808u64, out);
        } else {
            push_dec_u64((-n) as u64, out);
        }
    } else {
        push_dec_u64(n as u64, out);
    }
}

/// Appends the percent-encoding of `bytes`.
pub(crate) fn push_pct(bytes: &[u8], out: &mut Vec<u8>)
    ensures
        final(out)@ == old(out)@ + pct(bytes@),
{
    let ghost orig = out@;
    let mut i: usize = 0;
    while i < bytes.len()
        invariant
            i <= bytes@.len(),
            out@ == orig + pct(bytes@.take(i as int)),
        decreases bytes@.len() - i,
    {
        let b = bytes[i];
        if (0x41 <= b && b <= 0x5a) || (0x61 <= b && b <= 0x7a) || (0x30 <= b && b <= 0x39) || b
            == 0x2d || b == 0x2e || b == 0x5f || b == 0x7e {
            out.push(b);
        } else {
            out.push(0x25);
            let hi = b / 16;
            let lo = b % 16;
            out.push(if hi < 10 { 0x30 + hi } else { 0x41 + (hi - 10) });
            out.push(if lo < 10 { 0x30 + lo } else { 0x41 + (lo - 10) });
        }
        proof {
            lemma_pct_append(bytes@.take(i as int), seq![bytes@[i as int]]);
            assert(seq![bytes@[i as int]].drop_first() =~= Seq::<u8>::empty());
            assert(pct(Seq::<u8>::empty()) =~= Seq::<u8>::empty());
            assert(pct(seq![bytes@[i as int]]) =~= pct_byte(bytes@[i as int]));
            assert(bytes@.take(i as int) + seq![bytes@[i as int]] =~= bytes@.take(i as int + 1));
        }
        i = i + 1;
    }
    assert(bytes@.take(bytes@.len() as int) =~= bytes@);
}

/// Appends the raw text of a scalar.
fn push_scalar(s: &Scalar, out: &mut Vec<u8>)
    ensures
        final(out)@ == old(out)@ + scalar_bytes(*s),
{
    match s {
        Scalar::Flag(b) => {
            if *b {
                out.push(0x31);
            } else {
                out.push(0x30);
            }
        },
        Scalar::Int(i) => push_dec_i64(*i, out),
        Scalar::UInt(u) => push_dec_u64(*u, out),
        Scalar::Text(t) => out.extend_from_slice(t.as_str().as_bytes()),
    }
}

/// `list_bytes` over a sequence extended by one element.
proof fn lemma_list_bytes_push(items: Seq<Scalar>, x: Scalar)
    ensures
        list_bytes(items.push(x)) == if items.len() == 0 {
            scalar_bytes(x)
        } else {
            list_bytes(items) + seq![0x2cu8] + scalar_bytes(x)
        },
    decreases items.len(),
{
    if items.len() == 0 {
        assert(items.push(x) =~= seq![x]);
        assert(list_bytes(seq![x]) == scalar_bytes(x));
    } else {
        assert(items.push(x).drop_first() =~= items.drop_first().push(x));
        lemma_list_bytes_push(items.drop_first(), x);
        if items.len() == 1 {
            assert(list_bytes(items.push(x)) =~= list_bytes(items) + seq![0x2cu8] + scalar_bytes(
                x,
            ));
        } else {
            assert(list_bytes(items.push(x)) =~= list_bytes(items) + seq![0x2cu8] + scalar_bytes(
                x,
            ));
        }
    }
}

/// Appends the raw text of a present parameter.
fn push_param(p: &Param, out: &mut Vec<u8>)
    ensures
        final(out)@ == old(out)@ + param_bytes(*p),
{
    match p {
        Param::One(s) => push_scalar(s, out),
        Param::Opt(o) => {
            match o {
                Some(s) => push_scalar(s, out),
                None => {},
            }
        },
        Param::List(items) => {
            let ghost orig = out@;
            let mut i: usize = 0;
            while i < items.len()
                invariant
                    i <= items@.len(),
                    out@ == orig + list_bytes(items@.take(i as int)),
                decreases items@.len() - i,
            {
                if i > 0 {
                    out.push(0x2c);
                }
                push_scalar(&items[i], out);
                proof {
                    assert(items@.take(i as int).push(items@[i as int]) =~= items@.take(
                        i as int + 1,
                    ));
                    lemma_list_bytes_push(items@.take(i as int), items@[i as int]);
                }
                i = i + 1;
            }
            assert(items@.take(items@.len() as int) =~= items@);
        },
    }
}

/// Whether a parameter is present (its pair appears in the encoding).
pub fn param_is_present(p: &Param) -> (r: bool)
    ensures
        r == param_present(*p),
{
    match p {
        Param::One(_) => true,
        Param::Opt(o) => o.is_some(),
        Param::List(l) => l.len() > 0,
    }
}

/// Encodes the fields as query-string bytes: `name=value` for each
/// present field, percent-encoded, joined by `&` in declaration order.
pub fn encode_fields(fields: &Vec<Field>) -> (r: Vec<u8>)
    ensures
        r@ == qs_bytes(fields@),
        ascii_bytes(r@),
{
    let mut out: Vec<u8> = Vec::new();
    let mut started = false;
    let mut i: usize = 0;
    proof {
        assert(fields@.skip(0) =~= fields@);
    }
    while i < fields.len()
        invariant
            i <= fields@.len(),
            qs_bytes(fields@) == out@ + qs_bytes_from(fields@.skip(i as int), !started),
            !started ==> out@.len() == 0,
        decreases fields@.len() - i,
    {
        let present = param_is_present(&fields[i].value);
        proof {
            assert(fields@.skip(i as int).drop_first() =~= fields@.skip(i as int + 1));
            assert(fields@.skip(i as int)[0] == fields@[i as int]);
        }
        if present {
            if started {
                out.push(0x26);
            }
            let mut value_raw: Vec<u8> = Vec::new();
            push_param(&fields[i].value, &mut value_raw);
            push_pct(fields[i].name.as_str().as_bytes(), &mut out);
            out.push(0x3d);
            push_pct(value_raw.as_slice(), &mut out);
            started = true;
        }
        i = i + 1;
    }
    proof {
        assert(fields@.skip(fields@.len() as int) =~= Seq::<Field>::empty());
        lemma_qs_ascii(fields@, true);
    }
    out
}

/// Builds a `String` from ASCII bytes.
///
/// Relies on `String::from_utf8`: every ASCII byte sequence is valid
/// UTF-8 and decodes to one character per byte, each with the byte's
/// value.
#[verifier::external_body]
pub(crate) fn string_from_ascii(bytes: Vec<u8>) -> (r: String)
    requires
        ascii_bytes(bytes@),
    ensures
        r@ == ascii_chars_of(bytes@),
{
    String::from_utf8(bytes).unwrap_or_default()
}

/// The decimal text of `n` as a string.
pub fn dec_u64_string(n: u64) -> (r: String)
    ensures
        r@ == ascii_chars_of(dec_nat(n as nat)),
{
    let mut out: Vec<u8> = Vec::new();
    push_dec_u64(n, &mut out);
    proof {
        lemma_dec_nat_ascii(n as nat);
    }
    string_from_ascii(out)
}

/// Encodes the fields as a query string.  Deterministic: the output is a
/// function of the field list alone, pinned byte for byte by `qs_bytes`.
pub fn encode_query(fields: &Vec<Field>) -> (r: String)
    ensures
        r@ == ascii_chars_of(qs_bytes(fields@)),
{
    let bytes = encode_fields(fields);
    string_from_ascii(bytes)
}

} // verus!
