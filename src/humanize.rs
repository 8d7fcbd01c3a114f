//! The fallback humanizer: turns a machine-style identifier such as
//! `jane_doe.smith` into a presentable phrase such as `Jane Doe Smith`.
use vstd::prelude::*;
use crate::text::{bytes_of, chars_of, display_form, push_char, string_from_os};
use vstd::utf8::encode_utf8;

verus! {

/// What `char::to_uppercase` yields for `c`.
pub uninterp spec fn upper_char(c: char) -> Seq<char>;

/// Relies on `char::to_uppercase`: the uppercase mapping of `c`, which is
/// one or more characters.
#[verifier::external_body]
fn char_to_upper(c: char) -> (r: Vec<char>)
    ensures
        r@ == upper_char(c),
        r@.len() >= 1,
{
    c.to_uppercase().collect()
}

/// The characters that separate words in an identifier.
pub open spec fn is_separator(c: char) -> bool {
    c == '.' || c == '-' || c == '_'
}

/// What the humanizer emits for the character at index `i` of `s`: a space
/// for a separator, the uppercase form of a character that starts a word,
/// and any other character unchanged.
pub open spec fn humanized_piece(s: Seq<char>, i: int) -> Seq<char> {
    if is_separator(s[i]) {
        seq![' ']
    } else if i == 0 || is_separator(s[i - 1]) {
        upper_char(s[i])
    } else {
        seq![s[i]]
    }
}

/// The humanized form of the first `n` characters of `s`.
pub open spec fn humanize_prefix(s: Seq<char>, n: nat) -> Seq<char>
    decreases n,
{
    if n == 0 {
        Seq::empty()
    } else {
        humanize_prefix(s, (n - 1) as nat) + humanized_piece(s, n - 1)
    }
}

/// The humanized form of `s`.
pub open spec fn humanize(s: Seq<char>) -> Seq<char> {
    humanize_prefix(s, s.len())
}

/// The text that a `Result` of a preferred and a fallback string carries.
pub open spec fn either_text(result: Result<&str, String>) -> Seq<char> {
    match result {
        Ok(a) => a@,
        Err(b) => b@,
    }
}

/// Humanizes the identifier that `result` carries, whichever side it is on:
/// each `.`, `-` or `_` becomes a space, and the first character of each
/// word is put in upper case.
pub fn fancy_fallback(result: Result<&str, String>) -> (r: String)
    ensures
        r@ == humanize(either_text(result)),
{
    let cs = match result {
        Ok(a) => chars_of(a),
        Err(ref b) => chars_of(b.as_str()),
    };
    let ghost s = cs@;
    let mut cap = true;
    let mut new = String::new();
    let mut i: usize = 0;
    while i < cs.len()
        invariant
            s == cs@,
            i <= cs.len(),
            cap == (i == 0 || is_separator(s[i - 1])),
            new@ == humanize_prefix(s, i as nat),
        decreases cs.len() - i,
    {
        let c = cs[i];
        if c == '.' || c == '-' || c == '_' {
            push_char(&mut new, ' ');
            cap = true;
        } else if cap {
            cap = false;
            let up = char_to_upper(c);
            let ghost base = new@;
            let mut k: usize = 0;
            while k < up.len()
                invariant
                    k <= up.len(),
                    new@ == base + up@.take(k as int),
                decreases up.len() - k,
            {
                push_char(&mut new, up[k]);
                assert(up@.take(k as int).push(up@[k as int]) =~= up@.take(k + 1));
                k = k + 1;
            }
            assert(up@.take(up.len() as int) =~= up@);
        } else {
            push_char(&mut new, c);
        }
        i = i + 1;
    }
    new
}

/// What the humanizer makes of a raw identity string: a preferred value is
/// kept byte for byte, a fallback is read as text and humanized.
pub open spec fn humanize_os(result: Result<Seq<u8>, Seq<u8>>) -> Seq<u8> {
    match result {
        Ok(v) => v,
        Err(f) => encode_utf8(humanize(display_form(f))),
    }
}

/// The byte sequences that a result of raw values holds.
pub open spec fn bytes_view(r: Result<Vec<u8>, Vec<u8>>) -> Result<Seq<u8>, Seq<u8>> {
    match r {
        Ok(v) => Ok(v@),
        Err(v) => Err(v@),
    }
}

/// Keeps a preferred raw value as it is, and humanizes a fallback one.
pub fn fancy_fallback_os(result: Result<Vec<u8>, Vec<u8>>) -> (r: Vec<u8>)
    ensures
        r@ == humanize_os(bytes_view(result)),
{
    match result {
        Ok(success) => success,
        Err(fallback) => {
            let text = string_from_os(&fallback);
            let fancy = fancy_fallback(Err(text));
            bytes_of(&fancy)
        },
    }
}

} // verus!
