//! Text buffers measured in bytes of UTF-8, and the few operations of
//! `String` that the session needs.

use vstd::prelude::*;
use vstd::utf8::*;

verus! {

/// Largest number of bytes a pending message may hold: the payload limit of
/// one frame on the mesh transport.
pub const MAX_INPUT_BYTES: usize = 237;

/// Number of bytes that `c` takes in UTF-8.
pub open spec fn char_width(c: char) -> nat {
    encode_scalar(c as u32).len()
}

/// Number of bytes that the text `s` takes in UTF-8.
pub open spec fn byte_len(s: Seq<char>) -> nat {
    encode_utf8(s).len()
}

/// The byte length of a concatenation is the sum of the byte lengths.
pub proof fn lemma_byte_len_concat(a: Seq<char>, b: Seq<char>)
    ensures
        byte_len(a + b) == byte_len(a) + byte_len(b),
    decreases a.len(),
{
    if a.len() == 0 {
        assert(a + b =~= b);
    } else {
        assert((a + b).drop_first() =~= a.drop_first() + b);
        lemma_byte_len_concat(a.drop_first(), b);
    }
}

/// Appending one character adds exactly its width.
pub proof fn lemma_byte_len_push(s: Seq<char>, c: char)
    ensures
        byte_len(s.push(c)) == byte_len(s) + char_width(c),
{
    let one = seq![c];
    assert(s.push(c) =~= s + one);
    lemma_byte_len_concat(s, one);
    assert(one.drop_first() =~= Seq::<char>::empty());
    assert(encode_utf8(one) =~= encode_scalar(c as u32)) by {
        reveal_with_fuel(encode_utf8, 2);
    }
}

/// Number of bytes that `c` takes in UTF-8.
pub fn utf8_width(c: char) -> (w: usize)
    ensures
        w == char_width(c),
        1 <= w <= 4,
{
    let v: u32 = c as u32;
    if v <= 0x7F {
        1
    } else if v <= 0x7FF {
        2
    } else if v <= 0xFFFF {
        3
    } else {
        4
    }
}

/// The text `s` after an attempt to append `c`: the character is taken only
/// if the result still fits in `MAX_INPUT_BYTES` bytes.
pub open spec fn inserted(s: Seq<char>, c: char) -> Seq<char> {
    if byte_len(s) + char_width(c) <= MAX_INPUT_BYTES {
        s.push(c)
    } else {
        s
    }
}

/// The text `s` without its last character, if it has one.
pub open spec fn deleted(s: Seq<char>) -> Seq<char> {
    if s.len() > 0 {
        s.drop_last()
    } else {
        s
    }
}

/// Deleting the last character never adds bytes.
pub proof fn lemma_deleted_byte_len(s: Seq<char>)
    ensures
        byte_len(deleted(s)) <= byte_len(s),
{
    if s.len() > 0 {
        assert(s =~= s.drop_last().push(s.last()));
        lemma_byte_len_push(s.drop_last(), s.last());
    }
}

/// A text that fits in a frame still fits after an attempt to append, and
/// a text that fills a frame takes no more characters.
pub proof fn lemma_inserted_fits(s: Seq<char>, c: char)
    ensures
        byte_len(s) <= MAX_INPUT_BYTES ==> byte_len(inserted(s, c)) <= MAX_INPUT_BYTES,
        byte_len(s) >= MAX_INPUT_BYTES ==> inserted(s, c) == s,
{
    lemma_byte_len_push(s, c);
}

/// Whether `c` is white space in the sense of `char::is_whitespace`, that is,
/// whether it has the Unicode property `White_Space`.
pub uninterp spec fn white_space(c: char) -> bool;

/// `s` without its leading white space.
pub open spec fn trim_start(s: Seq<char>) -> Seq<char>
    decreases s.len(),
{
    if s.len() > 0 && white_space(s.first()) {
        trim_start(s.drop_first())
    } else {
        s
    }
}

/// `s` without its trailing white space.
pub open spec fn trim_end(s: Seq<char>) -> Seq<char>
    decreases s.len(),
{
    if s.len() > 0 && white_space(s.last()) {
        trim_end(s.drop_last())
    } else {
        s
    }
}

/// `s` without its leading and trailing white space.
pub open spec fn trimmed(s: Seq<char>) -> Seq<char> {
    trim_end(trim_start(s))
}

/// Removing leading white space never adds bytes.
pub proof fn lemma_trim_start_byte_len(s: Seq<char>)
    ensures
        byte_len(trim_start(s)) <= byte_len(s),
    decreases s.len(),
{
    if s.len() > 0 && white_space(s.first()) {
        lemma_trim_start_byte_len(s.drop_first());
    }
}

/// Removing trailing white space never adds bytes.
pub proof fn lemma_trim_end_byte_len(s: Seq<char>)
    ensures
        byte_len(trim_end(s)) <= byte_len(s),
    decreases s.len(),
{
    if s.len() > 0 && white_space(s.last()) {
        lemma_trim_end_byte_len(s.drop_last());
        assert(s =~= s.drop_last().push(s.last()));
        lemma_byte_len_push(s.drop_last(), s.last());
    }
}

/// Trimming never adds bytes: a trimmed text fits wherever the text did.
pub proof fn lemma_trimmed_byte_len(s: Seq<char>)
    ensures
        byte_len(trimmed(s)) <= byte_len(s),
{
    lemma_trim_start_byte_len(s);
    lemma_trim_end_byte_len(trim_start(s));
}

/// What is left of a text after removing its leading white space does not
/// start with white space.
pub proof fn lemma_trim_start_edge(s: Seq<char>)
    ensures
        trim_start(s).len() > 0 ==> !white_space(trim_start(s).first()),
    decreases s.len(),
{
    if s.len() > 0 && white_space(s.first()) {
        lemma_trim_start_edge(s.drop_first());
    }
}

/// What is left of a text after removing its trailing white space does not
/// end with white space, and starts as the text did.
pub proof fn lemma_trim_end_edge(s: Seq<char>)
    ensures
        trim_end(s).len() > 0 ==> !white_space(trim_end(s).last()) && trim_end(s).first()
            == s.first(),
    decreases s.len(),
{
    if s.len() > 0 && white_space(s.last()) {
        lemma_trim_end_edge(s.drop_last());
    }
}

/// A trimmed text is empty or has no white space at either end.
pub proof fn lemma_trimmed_edges(s: Seq<char>)
    ensures
        trimmed(s).len() > 0 ==> !white_space(trimmed(s).first()) && !white_space(
            trimmed(s).last(),
        ),
{
    lemma_trim_start_edge(s);
    lemma_trim_end_edge(trim_start(s));
}

/// `String::push`: the character is appended to the end of the text.
#[verifier::external_body]
fn push_char(s: &mut String, c: char)
    ensures
        final(s)@ == old(s)@.push(c),
{
    s.push(c)
}

/// `String::pop`: the last character is removed and returned; an empty text
/// stays empty and gives `None`.
#[verifier::external_body]
fn pop_char(s: &mut String) -> (last: Option<char>)
    ensures
        old(s)@.len() == 0 ==> last is None && final(s)@ == old(s)@,
        old(s)@.len() > 0 ==> last == Some(old(s)@.last()) && final(s)@ == old(s)@.drop_last(),
{
    s.pop()
}

/// `str::trim`: the slice of `s` that is left when leading and trailing
/// white space, as `char::is_whitespace` defines it, is removed. So what is
/// left neither starts nor ends with white space.
#[verifier::external_body]
fn trim_str<'a>(s: &'a str) -> (t: &'a str)
    ensures
        t@ == trimmed(s@),
        t@.len() > 0 ==> !white_space(t@.first()) && !white_space(t@.last()),
{
    s.trim()
}

/// Appends `c` to `buf` if the result fits in one frame; says whether it
/// did. A text that fills a frame, or more, is left as it is.
pub fn insert_char(buf: &mut String, c: char) -> (taken: bool)
    requires
        byte_len(old(buf)@) <= usize::MAX,
    ensures
        taken <==> byte_len(old(buf)@) + char_width(c) <= MAX_INPUT_BYTES,
        final(buf)@ == inserted(old(buf)@, c),
        byte_len(old(buf)@) <= MAX_INPUT_BYTES ==> byte_len(final(buf)@) <= MAX_INPUT_BYTES,
        byte_len(old(buf)@) >= MAX_INPUT_BYTES ==> final(buf)@ == old(buf)@,
{
    let len: usize = buf.as_str().len();
    let width: usize = utf8_width(c);
    proof {
        lemma_inserted_fits(buf@, c);
    }
    if len <= MAX_INPUT_BYTES && width <= MAX_INPUT_BYTES - len {
        push_char(buf, c);
        true
    } else {
        false
    }
}

/// Removes the last character of `buf`, if there is one.
pub fn delete_char(buf: &mut String)
    ensures
        final(buf)@ == deleted(old(buf)@),
        byte_len(final(buf)@) <= byte_len(old(buf)@),
{
    proof {
        if buf@.len() > 0 {
            assert(buf@ =~= buf@.drop_last().push(buf@.last()));
            lemma_byte_len_push(buf@.drop_last(), buf@.last());
        }
    }
    let _ = pop_char(buf);
}

/// The text of `buf` without its leading and trailing white space.
pub fn trimmed_text(buf: &String) -> (text: String)
    ensures
        text@ == trimmed(buf@),
        byte_len(text@) <= byte_len(buf@),
{
    proof {
        lemma_trimmed_byte_len(buf@);
    }
    trim_str(buf.as_str()).to_owned()
}

} // verus!
