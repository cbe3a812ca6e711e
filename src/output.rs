//! Shaping captured process output: decoding, trimming and bounded truncation.

use vstd::prelude::*;
use vstd::utf8::*;

verus! {

broadcast use group_utf8_lib;

/// The number of bytes in the UTF-8 encoding of `s`.
pub open spec fn utf8_len(s: Seq<char>) -> nat {
    encode_utf8(s).len()
}

/// The largest character boundary of `bytes` at or before `i` (0 when `i` is negative).
pub open spec fn floor_boundary(bytes: Seq<u8>, i: int) -> int
    decreases i,
{
    if i <= 0 {
        0
    } else if is_char_boundary(bytes, i) {
        i
    } else {
        floor_boundary(bytes, i - 1)
    }
}

/// `floor_boundary` is a boundary, lies at or before `i`, and no boundary lies between it and `i`.
pub proof fn lemma_floor_boundary(bytes: Seq<u8>, i: int)
    requires
        valid_utf8(bytes),
        0 <= i,
    ensures
        0 <= floor_boundary(bytes, i) <= i,
        is_char_boundary(bytes, floor_boundary(bytes, i)),
        forall|k: int| floor_boundary(bytes, i) < k <= i ==> !is_char_boundary(bytes, k),
    decreases i,
{
    is_char_boundary_start_end_of_seq(bytes);
    if i > 0 && !is_char_boundary(bytes, i) {
        lemma_floor_boundary(bytes, i - 1);
    }
}

/// Finds the largest UTF-8 character boundary of `s` at or before byte `max`.
pub fn find_char_boundary(s: &str, max: usize) -> (r: usize)
    ensures
        max >= encode_utf8(s@).len() ==> r == encode_utf8(s@).len(),
        max < encode_utf8(s@).len() ==> r == floor_boundary(encode_utf8(s@), max as int),
        r <= max,
        is_char_boundary(encode_utf8(s@), r as int),
        forall|k: int| r < k <= max ==> !is_char_boundary(encode_utf8(s@), k),
{
    let len = s.as_bytes().len();
    if max >= len {
        proof {
            is_char_boundary_start_end_of_seq(encode_utf8(s@));
            assert forall|k: int| len < k <= max implies !is_char_boundary(encode_utf8(s@), k) by {
                reveal_with_fuel(is_char_boundary, 1);
            }
        }
        return len;
    }
    let mut boundary: usize = max;
    while boundary > 0 && !s.is_char_boundary(boundary)
        invariant
            boundary <= max < encode_utf8(s@).len(),
            floor_boundary(encode_utf8(s@), boundary as int) == floor_boundary(
                encode_utf8(s@),
                max as int,
            ),
        decreases boundary,
    {
        boundary -= 1;
    }
    proof {
        lemma_floor_boundary(encode_utf8(s@), max as int);
    }
    boundary
}


/// Appended to output that was cut at the size cap.
pub const TRUNCATION_MARKER: &'static str = "\n... [output truncated]";

/// The most bytes of process output kept before truncation.
pub const MAX_OUTPUT_SIZE: usize = 1048576;

/// `text` itself when its encoding fits in `cap` bytes; otherwise the text up to the last
/// character boundary at or before byte `cap`, followed by the truncation marker.
pub open spec fn bounded_text(text: Seq<char>, cap: nat) -> Seq<char> {
    let bytes = encode_utf8(text);
    if bytes.len() <= cap {
        text
    } else {
        decode_utf8(bytes.subrange(0, floor_boundary(bytes, cap as int))) + TRUNCATION_MARKER@
    }
}

/// Bounds `text` to `cap` bytes without splitting a character, marking a cut.
pub fn truncate_output(text: String, cap: usize) -> (r: String)
    ensures
        r@ == bounded_text(text@, cap as nat),
{
    let len = text.as_str().as_bytes().len();
    if len <= cap {
        return text;
    }
    let boundary = find_char_boundary(text.as_str(), cap);
    let (head, _) = text.as_str().split_at(boundary);
    proof {
        assert(head@ == decode_utf8(encode_utf8(head@)));
    }
    let kept = head.to_owned();
    kept.concat(TRUNCATION_MARKER)
}

/// The encoding of a concatenation is the concatenation of the encodings.
pub proof fn lemma_encode_concat(a: Seq<char>, b: Seq<char>)
    ensures
        encode_utf8(a + b) == encode_utf8(a) + encode_utf8(b),
    decreases a.len(),
{
    if a.len() == 0 {
        assert(a + b =~= b);
        assert(encode_utf8(a) + encode_utf8(b) =~= encode_utf8(b));
    } else {
        assert((a + b).drop_first() =~= a.drop_first() + b);
        lemma_encode_concat(a.drop_first(), b);
        assert(encode_utf8(a + b) =~= encode_utf8(a) + encode_utf8(b));
    }
}

/// Bounded output is at most `cap` bytes plus the marker. Output that fits is unchanged;
/// output that does not is a prefix of whole characters of at most `cap` bytes, followed
/// by the marker.
pub proof fn lemma_bounded_text(text: Seq<char>, cap: nat)
    ensures
        utf8_len(bounded_text(text, cap)) <= cap + utf8_len(TRUNCATION_MARKER@),
        utf8_len(text) <= cap ==> bounded_text(text, cap) == text,
        utf8_len(text) > cap ==> exists|k: int|
            0 <= k <= text.len() && utf8_len(text.take(k)) <= cap && bounded_text(text, cap)
                == text.take(k) + TRUNCATION_MARKER@,
{
    let bytes = encode_utf8(text);
    if bytes.len() > cap {
        let b = floor_boundary(bytes, cap as int);
        lemma_floor_boundary(bytes, cap as int);
        let kept = decode_utf8(bytes.subrange(0, b));
        decode_utf8_split(bytes, b);
        let k = kept.len() as int;
        assert(text == kept + decode_utf8(bytes.subrange(b, bytes.len() as int)));
        assert(text.take(k) =~= kept);
        assert(encode_utf8(kept) == bytes.subrange(0, b));
        lemma_encode_concat(kept, TRUNCATION_MARKER@);
    }
}


/// Whether `c` has the Unicode White_Space property.
pub open spec fn is_white_space(c: char) -> bool {
    let u = c as u32;
    ||| 0x9 <= u <= 0xd
    ||| u == 0x20
    ||| u == 0x85
    ||| u == 0xa0
    ||| u == 0x1680
    ||| 0x2000 <= u <= 0x200a
    ||| u == 0x2028
    ||| u == 0x2029
    ||| u == 0x202f
    ||| u == 0x205f
    ||| u == 0x3000
}

/// `s` without its leading white space.
pub open spec fn trim_start(s: Seq<char>) -> Seq<char>
    decreases s.len(),
{
    if s.len() > 0 && is_white_space(s[0]) {
        trim_start(s.drop_first())
    } else {
        s
    }
}

/// `s` without its trailing white space.
pub open spec fn trim_end(s: Seq<char>) -> Seq<char>
    decreases s.len(),
{
    if s.len() > 0 && is_white_space(s.last()) {
        trim_end(s.drop_last())
    } else {
        s
    }
}

/// `s` without its leading and trailing white space.
pub open spec fn trimmed(s: Seq<char>) -> Seq<char> {
    trim_end(trim_start(s))
}

/// Whether `s` holds a character that is not white space.
pub open spec fn has_visible(s: Seq<char>) -> bool {
    exists|i: int| 0 <= i < s.len() && !is_white_space(#[trigger] s[i])
}

/// Relies on str::trim, which removes leading and trailing White_Space characters.
#[verifier::external_body]
fn trim(s: &str) -> (r: &str)
    ensures
        r@ == trimmed(s@),
{
    s.trim()
}

/// What String::from_utf8_lossy makes of `bytes`.
pub uninterp spec fn lossy_utf8(bytes: Seq<u8>) -> Seq<char>;

/// Relies on String::from_utf8_lossy: decodes `bytes`, replacing invalid sequences, and
/// decodes valid UTF-8 as it stands.
#[verifier::external_body]
fn decode_lossy(bytes: &[u8]) -> (r: String)
    ensures
        r@ == lossy_utf8(bytes@),
        valid_utf8(bytes@) ==> r@ == decode_utf8(bytes@),
{
    String::from_utf8_lossy(bytes).into_owned()
}

/// The output reported for decoded standard output `out` and standard error `err`.
pub open spec fn combined_text(out: Seq<char>, err: Seq<char>, cap: nat) -> Seq<char> {
    bounded_text(trimmed(out + err), cap)
}

/// The output reported for raw standard output and standard error bytes.
pub open spec fn captured_text(stdout: Seq<u8>, stderr: Seq<u8>, cap: nat) -> Seq<char> {
    combined_text(lossy_utf8(stdout), lossy_utf8(stderr), cap)
}

/// Joins decoded standard output and standard error, trims the result and bounds it to
/// `cap` bytes.
pub fn combine_streams(out: &str, err: &str, cap: usize) -> (r: String)
    ensures
        r@ == combined_text(out@, err@, cap as nat),
{
    let joined = out.to_owned().concat(err);
    let kept = trim(joined.as_str()).to_owned();
    truncate_output(kept, cap)
}

/// Decodes raw standard output and standard error and shapes them into the reported output.
pub fn process_output(stdout: &[u8], stderr: &[u8], cap: usize) -> (r: String)
    ensures
        r@ == captured_text(stdout@, stderr@, cap as nat),
{
    let out = decode_lossy(stdout);
    let err = decode_lossy(stderr);
    combine_streams(out.as_str(), err.as_str(), cap)
}

proof fn lemma_trim_start_concat(a: Seq<char>, b: Seq<char>)
    requires
        has_visible(a),
    ensures
        trim_start(a + b) == trim_start(a) + b,
    decreases a.len(),
{
    if is_white_space(a[0]) {
        let i = choose|i: int| 0 <= i < a.len() && !is_white_space(#[trigger] a[i]);
        assert(a.drop_first()[i - 1] == a[i]);
        assert((a + b).drop_first() =~= a.drop_first() + b);
        lemma_trim_start_concat(a.drop_first(), b);
    }
}

proof fn lemma_trim_end_concat(a: Seq<char>, b: Seq<char>)
    requires
        has_visible(b),
    ensures
        trim_end(a + b) == a + trim_end(b),
    decreases b.len(),
{
    let i = choose|i: int| 0 <= i < b.len() && !is_white_space(#[trigger] b[i]);
    assert((a + b).last() == b.last());
    if is_white_space(b.last()) {
        assert(b.drop_last()[i] == b[i]);
        assert((a + b).drop_last() =~= a + b.drop_last());
        lemma_trim_end_concat(a, b.drop_last());
    }
}

/// When both streams show something and the result fits the cap, the output is all of
/// standard output but its leading white space, followed by all of standard error but
/// its trailing white space.
pub proof fn lemma_streams_in_order(out: Seq<char>, err: Seq<char>, cap: nat)
    requires
        has_visible(out),
        has_visible(err),
        utf8_len(trim_start(out) + trim_end(err)) <= cap,
    ensures
        combined_text(out, err, cap) == trim_start(out) + trim_end(err),
{
    lemma_trim_start_concat(out, err);
    lemma_trim_end_concat(trim_start(out), err);
}

} // verus!
