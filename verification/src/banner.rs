//! Banner capture: the probe that is sent to an open port and the way the
//! bytes that come back become text.

use vstd::prelude::*;

verus! {

/// The text that permissive UTF-8 decoding gives for `bytes`: valid
/// sequences decode to their characters, invalid ones are replaced by
/// U+FFFD. It is the result of `String::from_utf8_lossy`, which `decode_lossy`
/// calls.
pub uninterp spec fn lossy_text(bytes: Seq<u8>) -> Seq<char>;

/// Whether `c` has the Unicode property White_Space.
pub open spec fn is_space(c: char) -> bool {
    let u = c as u32;
    ||| 0x09 <= u <= 0x0D
    ||| u == 0x20
    ||| u == 0x85
    ||| u == 0xA0
    ||| u == 0x1680
    ||| 0x2000 <= u <= 0x200A
    ||| u == 0x2028
    ||| u == 0x2029
    ||| u == 0x202F
    ||| u == 0x205F
    ||| u == 0x3000
}

/// `text` without the white space at its end.
pub open spec fn without_trailing_space(text: Seq<char>) -> Seq<char>
    decreases text.len(),
{
    if text.len() > 0 && is_space(text.last()) {
        without_trailing_space(text.drop_last())
    } else {
        text
    }
}

/// The banner that captured text stands for: the text without trailing white
/// space, or none where nothing is left.
pub open spec fn banner_of_text(text: Seq<char>) -> Option<Seq<char>> {
    let kept = without_trailing_space(text);
    if kept.len() > 0 {
        Some(kept)
    } else {
        None
    }
}

/// The banner that captured bytes stand for: none where the peer sent
/// nothing, else what their permissively decoded text stands for.
pub open spec fn banner_of_bytes(bytes: Seq<u8>) -> Option<Seq<char>> {
    if bytes.len() == 0 {
        None
    } else {
        banner_of_text(lossy_text(bytes))
    }
}

/// The bytes of the probe: the greeting `hai` and a line end.
pub open spec fn spec_probe_payload() -> Seq<u8> {
    seq![0x68u8, 0x61u8, 0x69u8, 0x0Du8, 0x0Au8]
}

/// Trimming keeps a prefix of the text, and what it drops is white space.
pub proof fn lemma_trim_keeps_prefix(text: Seq<char>)
    ensures
        without_trailing_space(text).len() <= text.len(),
        without_trailing_space(text) == text.subrange(
            0,
            without_trailing_space(text).len() as int,
        ),
        forall|i: int|
            without_trailing_space(text).len() <= i < text.len() ==> is_space(#[trigger] text[i]),
    decreases text.len(),
{
    if text.len() > 0 && is_space(text.last()) {
        let shorter = text.drop_last();
        lemma_trim_keeps_prefix(shorter);
        let kept = without_trailing_space(text);
        assert(kept == without_trailing_space(shorter));
        assert(shorter.subrange(0, kept.len() as int) =~= text.subrange(0, kept.len() as int));
        assert forall|i: int| kept.len() <= i < text.len() implies is_space(
            #[trigger] text[i],
        ) by {
            if i < shorter.len() {
                assert(text[i] == shorter[i]);
            }
        }
    } else {
        assert(text.subrange(0, text.len() as int) =~= text);
    }
}

/// What trimming leaves does not end in white space.
pub proof fn lemma_trim_ends_in_text(text: Seq<char>)
    ensures
        without_trailing_space(text).len() > 0 ==> !is_space(without_trailing_space(text).last()),
    decreases text.len(),
{
    if text.len() > 0 && is_space(text.last()) {
        lemma_trim_ends_in_text(text.drop_last());
    }
}

/// Trimming twice is trimming once.
pub proof fn lemma_trim_idempotent(text: Seq<char>)
    ensures
        without_trailing_space(without_trailing_space(text)) == without_trailing_space(text),
    decreases text.len(),
{
    if text.len() > 0 && is_space(text.last()) {
        lemma_trim_idempotent(text.drop_last());
    }
}

/// Calls `String::from_utf8_lossy`. Believed of it: the text it returns
/// depends on the bytes alone.
#[verifier::external_body]
fn decode_lossy(bytes: &[u8]) -> (text: String)
    ensures
        text@ == lossy_text(bytes@),
{
    String::from_utf8_lossy(bytes).into_owned()
}

/// Calls `str::trim_end`. Believed of it: it returns the text without the
/// characters of the Unicode property White_Space at its end.
#[verifier::external_body]
fn trim_trailing<'a>(text: &'a str) -> (kept: &'a str)
    ensures
        kept@ == without_trailing_space(text@),
{
    text.trim_end()
}

/// The probe that is written to a freshly opened connection before reading.
pub fn probe_payload() -> (payload: Vec<u8>)
    ensures
        payload@ == spec_probe_payload(),
{
    let payload: Vec<u8> = vec![0x68u8, 0x61u8, 0x69u8, 0x0Du8, 0x0Au8];
    assert(payload@ =~= spec_probe_payload());
    payload
}

/// Turns captured text into a banner: trailing white space is dropped, and
/// text of which nothing is left gives no banner.
pub fn banner_from_text(text: &str) -> (banner: Option<String>)
    ensures
        match banner {
            Some(kept) => banner_of_text(text@) == Some(kept@),
            None => banner_of_text(text@) is None,
        },
{
    let kept = trim_trailing(text);
    if kept.is_empty() {
        None
    } else {
        Some(kept.to_owned())
    }
}

/// Turns the bytes that a peer sent into a banner. No bytes give no banner;
/// other bytes are decoded permissively and handed to `banner_from_text`.
pub fn banner_from_bytes(bytes: &[u8]) -> (banner: Option<String>)
    ensures
        match banner {
            Some(kept) => banner_of_bytes(bytes@) == Some(kept@),
            None => banner_of_bytes(bytes@) is None,
        },
        banner matches Some(kept) ==> kept@.len() > 0,
{
    if bytes.len() == 0 {
        None
    } else {
        let text = decode_lossy(bytes);
        banner_from_text(text.as_str())
    }
}

} // verus!
