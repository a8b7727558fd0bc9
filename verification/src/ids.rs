use vstd::prelude::*;
use vstd::arithmetic::power::pow;

verus! {

/// The lower-case hexadecimal digit for `n` (0 to 15).
pub open spec fn hex_char(n: int) -> char {
    if n < 10 {
        (48 + n) as char
    } else {
        (87 + n) as char
    }
}

/// The `i`-th of the 32 hexadecimal digits of `x`, most significant first.
pub open spec fn nibble(x: int, i: int) -> int {
    (x / pow(16, (31 - i) as nat)) % 16
}

/// The 32 hexadecimal digits of a 128-bit value, most significant first.
pub open spec fn hex32(x: int) -> Seq<char> {
    Seq::new(32, |i: int| hex_char(nibble(x, i)))
}

/// The hyphenated text of a UUID held as the big-endian number `x`:
/// `xxxxxxxx-xxxx-xxxx-xxxx-xxxxxxxxxxxx` in lower-case hexadecimal.
pub open spec fn uuid_text(x: int) -> Seq<char> {
    let h = hex32(x);
    h.subrange(0, 8) + seq!['-'] + h.subrange(8, 12) + seq!['-'] + h.subrange(12, 16) + seq![
        '-',
    ] + h.subrange(16, 20) + seq!['-'] + h.subrange(20, 32)
}

/// What the uuid crate's `Uuid::parse_str` gives for `s`, as the UUID's big-endian number;
/// `None` where it rejects the text.
pub uninterp spec fn parse_uuid_text(s: Seq<char>) -> Option<int>;

/// Calls the uuid crate's `Uuid::new_v4` and returns the UUID as its big-endian number
/// (`as_u128`). The value is random and is not stated.
#[verifier::external_body]
pub(crate) fn new_uuid() -> u128 {
    uuid::Uuid::new_v4().as_u128()
}

/// Calls the uuid crate's `Display` of `Uuid` (`to_string`), which writes the hyphenated
/// lower-case form; the contract states that form in full.
#[verifier::external_body]
pub fn uuid_to_string(id: u128) -> (r: String)
    ensures
        r@ == uuid_text(id as int),
{
    uuid::Uuid::from_u128(id).to_string()
}

/// Calls the uuid crate's `Uuid::parse_str` and returns the UUID as its big-endian number.
/// The outcome is named by `parse_uuid_text`.
#[verifier::external_body]
pub(crate) fn parse_uuid_str(s: &str) -> (r: Option<u128>)
    ensures
        match r {
            Some(v) => parse_uuid_text(s@) == Some(v as int),
            None => parse_uuid_text(s@) is None,
        },
{
    uuid::Uuid::parse_str(s).ok().map(|u| u.as_u128())
}

/// Every character of a UUID's text is a lower-case hexadecimal digit or a hyphen.
pub proof fn lemma_uuid_text_chars(x: int, k: int)
    requires
        0 <= x,
        0 <= k < uuid_text(x).len(),
    ensures
        uuid_text(x).len() == 36,
        ({
            let c = uuid_text(x)[k];
            c == '-' || (48 <= c as int <= 57) || (97 <= c as int <= 102)
        }),
{
    let h = hex32(x);
    assert(uuid_text(x).len() == 36);
    assert forall|i: int| 0 <= i < 32 implies {
        let c = #[trigger] h[i];
        (48 <= c as int <= 57) || (97 <= c as int <= 102)
    } by {
        let n = nibble(x, i);
        assert(0 <= n < 16);
    }
    let t = uuid_text(x);
    if k < 8 {
        assert(t[k] == h[k]);
    } else if k == 8 {
    } else if k < 13 {
        assert(t[k] == h[k - 1]);
    } else if k == 13 {
    } else if k < 18 {
        assert(t[k] == h[k - 2]);
    } else if k == 18 {
    } else if k < 23 {
        assert(t[k] == h[k - 3]);
    } else if k == 23 {
    } else {
        assert(t[k] == h[k - 4]);
    }
}

} // verus!
