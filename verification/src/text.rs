//! Text helpers shared by the supervisor, the upload pipeline and the command-line client:
//! lenient decoding of captured bytes, decimal rendering, and the order on file names.
use vstd::prelude::*;
use vstd::utf8::{decode_utf8, is_char_boundary, length_of_first_scalar, pop_first_scalar};
use vstd::utf8::valid_utf8;

verus! {

/// What lenient decoding makes of bytes that are not well-formed UTF-8: the well-formed
/// stretches decode to their characters, every ill-formed sequence becomes U+FFFD.
pub uninterp spec fn repaired_text(bytes: Seq<u8>) -> Seq<char>;

/// The text that lenient UTF-8 decoding gives for `bytes`: the characters they encode where
/// they are well-formed, and [`repaired_text`] where they are not.
pub open spec fn lossy_text(bytes: Seq<u8>) -> Seq<char> {
    if valid_utf8(bytes) {
        decode_utf8(bytes)
    } else {
        repaired_text(bytes)
    }
}

/// Decodes captured bytes leniently.
///
/// Trusted: the body is `String::from_utf8_lossy`. The contract claims that well-formed
/// UTF-8 is decoded to the characters it encodes, and gives the result for any other bytes
/// the name [`repaired_text`] without saying what it holds.
#[verifier::external_body]
pub(crate) fn decode_lossy(bytes: &[u8]) -> (text: String)
    ensures
        valid_utf8(bytes@) ==> text@ == decode_utf8(bytes@),
        !valid_utf8(bytes@) ==> text@ == repaired_text(bytes@),
{
    String::from_utf8_lossy(bytes).into_owned()
}

/// Decoding nothing gives nothing.
pub proof fn lemma_lossy_text_of_nothing()
    ensures
        lossy_text(Seq::<u8>::empty()) == Seq::<char>::empty(),
{
    assert(valid_utf8(Seq::<u8>::empty()));
    assert(decode_utf8(Seq::<u8>::empty()) =~= Seq::<char>::empty());
}

/// Well-formed output is kept as it is however the reads divide it: decoding two
/// well-formed pieces one after the other gives the text of the whole.
pub proof fn lemma_lossy_text_of_pieces(a: Seq<u8>, b: Seq<u8>)
    requires
        valid_utf8(a),
        valid_utf8(b),
    ensures
        valid_utf8(a + b),
        lossy_text(a) + lossy_text(b) == lossy_text(a + b),
{
    vstd::utf8::valid_utf8_concat(a, b);
    vstd::utf8::is_char_boundary_start_end_of_seq(a);
    lemma_boundary_between(a, b, a.len() as int);
    vstd::utf8::decode_utf8_split(a + b, a.len() as int);
    assert((a + b).subrange(0, a.len() as int) =~= a);
    assert((a + b).subrange(a.len() as int, (a + b).len() as int) =~= b);
}

proof fn lemma_boundary_between(a: Seq<u8>, b: Seq<u8>, i: int)
    requires
        valid_utf8(a),
        valid_utf8(b),
        valid_utf8(a + b),
        is_char_boundary(a, i),
    ensures
        is_char_boundary(a + b, i),
    decreases a.len(),
{
    if i != 0 {
        assert(pop_first_scalar(a + b) =~= pop_first_scalar(a) + b);
        lemma_boundary_between(pop_first_scalar(a), b, i - length_of_first_scalar(a));
    }
}

/// The character of a decimal digit.
pub open spec fn digit_char(d: int) -> char {
    if d == 0 {
        '0'
    } else if d == 1 {
        '1'
    } else if d == 2 {
        '2'
    } else if d == 3 {
        '3'
    } else if d == 4 {
        '4'
    } else if d == 5 {
        '5'
    } else if d == 6 {
        '6'
    } else if d == 7 {
        '7'
    } else if d == 8 {
        '8'
    } else {
        '9'
    }
}

/// The decimal numeral of `n`, without sign or leading zeros.
pub open spec fn decimal(n: nat) -> Seq<char>
    decreases n,
{
    if n < 10 {
        seq![digit_char(n as int)]
    } else {
        decimal(n / 10).push(digit_char((n % 10) as int))
    }
}

fn digit_str(d: u64) -> (s: &'static str)
    requires
        d < 10,
    ensures
        s@ == seq![digit_char(d as int)],
{
    proof {
        reveal_strlit("0");
        reveal_strlit("1");
        reveal_strlit("2");
        reveal_strlit("3");
        reveal_strlit("4");
        reveal_strlit("5");
        reveal_strlit("6");
        reveal_strlit("7");
        reveal_strlit("8");
        reveal_strlit("9");
    }
    let s = if d == 0 {
        "0"
    } else if d == 1 {
        "1"
    } else if d == 2 {
        "2"
    } else if d == 3 {
        "3"
    } else if d == 4 {
        "4"
    } else if d == 5 {
        "5"
    } else if d == 6 {
        "6"
    } else if d == 7 {
        "7"
    } else if d == 8 {
        "8"
    } else {
        "9"
    };
    assert(s@ =~= seq![digit_char(d as int)]);
    s
}

/// Appends the decimal numeral of `n` to `out`.
pub fn push_decimal(out: &mut String, n: u64)
    ensures
        final(out)@ == old(out)@ + decimal(n as nat),
    decreases n,
{
    if n >= 10 {
        push_decimal(out, n / 10);
    }
    out.append(digit_str(n % 10));
    assert(final(out)@ =~= old(out)@ + decimal(n as nat));
}

/// The decimal numeral of `n` as a string.
pub fn decimal_string(n: u64) -> (text: String)
    ensures
        text@ == decimal(n as nat),
{
    let mut text = String::new();
    push_decimal(&mut text, n);
    assert(text@ =~= decimal(n as nat));
    text
}

/// The characters of `s`, in order.
pub fn chars_of(s: &str) -> (chars: Vec<char>)
    ensures
        chars@ == s@,
{
    let n: usize = s.unicode_len();
    let mut chars: Vec<char> = Vec::new();
    let mut i: usize = 0;
    while i < n
        invariant
            n == s@.len(),
            i <= n,
            chars@ == s@.take(i as int),
        decreases n - i,
    {
        chars.push(s.get_char(i));
        i += 1;
        assert(chars@ =~= s@.take(i as int));
    }
    assert(chars@ =~= s@);
    chars
}

/// Whether `text` ends with `suffix`.
pub open spec fn has_suffix(text: Seq<char>, suffix: Seq<char>) -> bool {
    text.len() >= suffix.len() && text.skip(text.len() - suffix.len()) == suffix
}

/// Tests whether `text` ends with `suffix`.
pub fn ends_with(text: &Vec<char>, suffix: &Vec<char>) -> (yes: bool)
    ensures
        yes == has_suffix(text@, suffix@),
{
    if text.len() < suffix.len() {
        return false;
    }
    let off: usize = text.len() - suffix.len();
    let mut i: usize = 0;
    while i < suffix.len()
        invariant
            off + suffix.len() == text.len(),
            i <= suffix.len(),
            forall|k: int| 0 <= k < i ==> text@[off + k] == suffix@[k],
        decreases suffix.len() - i,
    {
        if text[off + i] != suffix[i] {
            proof {
                assert(text@.skip(off as int)[i as int] == text@[off + i]);
            }
            return false;
        }
        i += 1;
    }
    assert(text@.skip(off as int) =~= suffix@);
    true
}

/// The order on names by which ties are broken: `a` comes no later than `b` when, from
/// position `i` on, `a` is a prefix of `b` or has the smaller character at the first
/// position where they differ.
pub open spec fn precedes_from(a: Seq<char>, b: Seq<char>, i: int) -> bool
    decreases a.len() - i,
{
    if i < 0 || i >= a.len() {
        true
    } else if i >= b.len() {
        false
    } else if a[i] != b[i] {
        (a[i] as u32) < (b[i] as u32)
    } else {
        precedes_from(a, b, i + 1)
    }
}

/// Lexicographic order by character: `a` sorts no later than `b`.
pub open spec fn precedes(a: Seq<char>, b: Seq<char>) -> bool {
    precedes_from(a, b, 0)
}

/// Decides the lexicographic order of two names.
pub fn sorts_before(a: &Vec<char>, b: &Vec<char>) -> (yes: bool)
    ensures
        yes == precedes(a@, b@),
{
    let mut i: usize = 0;
    while i < a.len()
        invariant
            i <= a.len(),
            precedes(a@, b@) == precedes_from(a@, b@, i as int),
        decreases a.len() - i,
    {
        if i >= b.len() {
            return false;
        }
        if a[i] != b[i] {
            return (a[i] as u32) < (b[i] as u32);
        }
        i += 1;
    }
    true
}

/// Any two names are ordered one way or the other.
pub proof fn lemma_precedes_total(a: Seq<char>, b: Seq<char>, i: int)
    requires
        0 <= i,
    ensures
        precedes_from(a, b, i) || precedes_from(b, a, i),
    decreases a.len() - i,
{
    if i < a.len() && i < b.len() {
        if a[i] == b[i] {
            lemma_precedes_total(a, b, i + 1);
        } else {
            let x = a[i];
            let y = b[i];
            vstd::utf8::char_u32_cast(x, x as u32);
            vstd::utf8::char_u32_cast(y, y as u32);
        }
    }
}

/// Names ordered both ways are the same name.
pub proof fn lemma_precedes_antisymmetric(a: Seq<char>, b: Seq<char>, i: int)
    requires
        0 <= i <= a.len(),
        i <= b.len(),
        precedes_from(a, b, i),
        precedes_from(b, a, i),
    ensures
        a.skip(i) == b.skip(i),
    decreases a.len() - i,
{
    if i < a.len() && i < b.len() {
        assert(a[i] == b[i]);
        lemma_precedes_antisymmetric(a, b, i + 1);
        let x = a.skip(i + 1);
        let y = b.skip(i + 1);
        assert(x.len() == y.len());
        assert forall|k: int| 0 <= k < a.len() - i implies a.skip(i)[k] == b.skip(i)[k] by {
            if k > 0 {
                assert(x[k - 1] == a[i + k]);
                assert(y[k - 1] == b[i + k]);
            }
        }
    }
    assert(a.skip(i) =~= b.skip(i));
}

/// The order is transitive.
pub proof fn lemma_precedes_transitive(a: Seq<char>, b: Seq<char>, c: Seq<char>, i: int)
    requires
        0 <= i,
        precedes_from(a, b, i),
        precedes_from(b, c, i),
    ensures
        precedes_from(a, c, i),
    decreases a.len() - i,
{
    if i < a.len() {
        assert(i < b.len());
        assert(i < c.len());
        if a[i] == b[i] && b[i] == c[i] {
            lemma_precedes_transitive(a, b, c, i + 1);
        }
    }
}

} // verus!
