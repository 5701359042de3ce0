use vstd::prelude::*;
use vstd::string::StringSliceAdditionalSpecFns;
use vstd::utf8::{
    decode_utf8, decode_utf8_split, encode_utf8, encode_utf8_decode_utf8, encode_utf8_valid_utf8,
    is_char_boundary,
};
use crate::prompts::{decimal_string, decimal_text};

verus! {

/// Prompts up to this many bytes are logged whole.
pub const LOG_LIMIT_BYTES: usize = 100;

/// A longer prompt is logged as at most this many leading bytes.
pub const LOG_HEAD_BYTES: usize = 50;

/// Logged when no leading characters fit.
pub const UNDISPLAYABLE: &'static str = "[プロンプトが表示できません]";

/// Opens the logged head of a long prompt.
pub const HEAD_OPEN: &'static str = "<";

/// Closes the logged head and opens the count of left-out characters.
pub const HEAD_CLOSE: &'static str = ">...[";

/// Ends the count of left-out characters.
pub const OMITTED_SUFFIX: &'static str = "文字省略]";

/// The largest character boundary of `bytes` at or below `i`.
pub open spec fn boundary_at_most(bytes: Seq<u8>, i: nat) -> nat
    decreases i,
{
    if i == 0 || is_char_boundary(bytes, i as int) {
        i
    } else {
        boundary_at_most(bytes, (i - 1) as nat)
    }
}

/// How a prompt appears in the log: whole when short; otherwise its leading
/// characters within the byte budget, in angle brackets, and how many
/// characters were left out.
pub open spec fn masked_prompt(p: Seq<char>) -> Seq<char> {
    let bytes = encode_utf8(p);
    if bytes.len() <= LOG_LIMIT_BYTES {
        p
    } else {
        let b = boundary_at_most(bytes, LOG_HEAD_BYTES as nat);
        if b == 0 {
            UNDISPLAYABLE@
        } else {
            let head = decode_utf8(bytes.subrange(0, b as int));
            HEAD_OPEN@ + head + HEAD_CLOSE@ + decimal_text((p.len() - head.len()) as nat) + OMITTED_SUFFIX@
        }
    }
}

/// Shortens a prompt for the log.
pub fn mask_prompt_for_log(prompt: &str) -> (r: String)
    ensures
        r@ == masked_prompt(prompt@),
{
    let ghost bytes = prompt.spec_bytes();
    proof {
        encode_utf8_valid_utf8(prompt@);
        encode_utf8_decode_utf8(prompt@);
        assert(bytes == encode_utf8(prompt@));
    }
    if prompt.as_bytes().len() <= LOG_LIMIT_BYTES {
        return String::from_str(prompt);
    }
    let mut boundary: usize = LOG_HEAD_BYTES;
    while boundary > 0 && !prompt.is_char_boundary(boundary)
        invariant
            boundary <= LOG_HEAD_BYTES,
            bytes == prompt.spec_bytes(),
            boundary_at_most(bytes, LOG_HEAD_BYTES as nat) == boundary_at_most(bytes, boundary as nat),
        decreases boundary,
    {
        boundary = boundary - 1;
    }
    if boundary == 0 {
        return String::from_str(UNDISPLAYABLE);
    }
    let (head, _rest) = prompt.split_at(boundary);
    proof {
        encode_utf8_decode_utf8(head@);
        decode_utf8_split(bytes, boundary as int);
        assert(head@ == decode_utf8(bytes.subrange(0, boundary as int)));
        assert(prompt@ == decode_utf8(bytes));
    }
    let omitted = prompt.unicode_len() - head.unicode_len();
    let mut r = String::from_str(HEAD_OPEN);
    r.append(head);
    r.append(HEAD_CLOSE);
    let count = decimal_string(omitted);
    r.append(count.as_str());
    r.append(OMITTED_SUFFIX);
    r
}

} // verus!
