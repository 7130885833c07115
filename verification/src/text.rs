//! Byte and text helpers shared across the crate: conversions between
//! host-supplied bytes and native strings, byte searching, and splitting a
//! byte sequence at a separator.

use vstd::prelude::*;
use vstd::string::StringSliceAdditionalSpecFns;
use vstd::utf8::{
    decode_utf8, encode_utf8_decode_utf8, is_char_boundary,
    is_char_boundary_iff_not_is_continuation_byte, length_of_first_scalar, pop_first_scalar,
    valid_first_scalar, valid_utf8, valid_utf8_split,
};

verus! {

/// What `String::from_utf8_lossy` yields on a byte sequence: the decoded
/// text with each invalid sequence replaced by U+FFFD. The substitution rule
/// is the standard library's own; this name stands for its result, which
/// depends on the bytes alone.
pub uninterp spec fn lossy_decoded(bytes: Seq<u8>) -> Seq<char>;

/// Relies on std's `str::from_utf8`: succeeds exactly when the bytes are
/// valid UTF-8, and then returns the decoded text, in the sense of vstd's
/// UTF-8 model.
#[verifier::external_body]
pub fn bytes_to_str(bytes: &[u8]) -> (r: Option<&str>)
    ensures
        r is Some <==> valid_utf8(bytes@),
        r is Some ==> r->0@ == decode_utf8(bytes@) && r->0.spec_bytes() == bytes@,
{
    std::str::from_utf8(bytes).ok()
}

/// Relies on std's `String::from_utf8_lossy`: decodes any byte sequence,
/// substituting U+FFFD for invalid sequences; on valid UTF-8 it returns
/// exactly the decoded text and performs no substitution.
#[verifier::external_body]
pub fn bytes_to_string_lossy(bytes: &[u8]) -> (r: String)
    ensures
        r@ == lossy_decoded(bytes@),
        valid_utf8(bytes@) ==> r@ == decode_utf8(bytes@),
{
    String::from_utf8_lossy(bytes).into_owned()
}

/// Relies on std's `String::push`: appends one character.
#[verifier::external_body]
pub fn string_push(s: &mut String, c: char)
    ensures
        final(s)@ == old(s)@ + seq![c],
{
    s.push(c);
}

/// Character-for-character equality of two strings, decided by comparing
/// their UTF-8 bytes.
pub fn str_eq(a: &str, b: &str) -> (r: bool)
    ensures
        r == (a@ == b@),
{
    proof {
        encode_utf8_decode_utf8(a@);
        encode_utf8_decode_utf8(b@);
    }
    let ab = a.as_bytes();
    let bb = b.as_bytes();
    if ab.len() != bb.len() {
        proof {
            if a@ == b@ {
                assert(a.spec_bytes() == b.spec_bytes());
                assert(false);
            }
        }
        return false;
    }
    let n = ab.len();
    let mut i: usize = 0;
    while i < n
        invariant
            n == ab@.len() == bb@.len(),
            ab@ == a.spec_bytes(),
            bb@ == b.spec_bytes(),
            forall|j: int| 0 <= j < i ==> ab@[j] == bb@[j],
        decreases n - i,
    {
        if ab[i] != bb[i] {
            proof {
                if a@ == b@ {
                    assert(a.spec_bytes() == b.spec_bytes());
                    assert(false);
                }
            }
            return false;
        }
        i += 1;
    }
    proof {
        assert(ab@ =~= bb@);
    }
    true
}

/// The position of the first occurrence of `sep` in `b`, if any.
pub open spec fn spec_find_byte(b: Seq<u8>, sep: u8) -> Option<int>
    decreases b.len(),
{
    if b.len() == 0 {
        None
    } else if b[0] == sep {
        Some(0int)
    } else {
        match spec_find_byte(b.drop_first(), sep) {
            None => None,
            Some(i) => Some(i + 1),
        }
    }
}

/// The defining properties of [`spec_find_byte`]: it yields the position of
/// the first occurrence of the byte, and `None` exactly when the byte does
/// not occur.
pub proof fn lemma_find_byte(b: Seq<u8>, sep: u8)
    ensures
        match spec_find_byte(b, sep) {
            Some(i) => 0 <= i < b.len() && b[i] == sep && forall|j: int| 0 <= j < i ==> b[j] != sep,
            None => forall|j: int| 0 <= j < b.len() ==> b[j] != sep,
        },
    decreases b.len(),
{
    if b.len() == 0 {
    } else if b[0] == sep {
        assert(spec_find_byte(b, sep) == Some(0int));
    } else {
        lemma_find_byte(b.drop_first(), sep);
        match spec_find_byte(b.drop_first(), sep) {
            None => {
                assert(spec_find_byte(b, sep) is None);
                assert forall|j: int| 0 <= j < b.len() implies b[j] != sep by {
                    if j > 0 {
                        assert(b.drop_first()[j - 1] != sep);
                    }
                }
            },
            Some(i) => {
                assert(spec_find_byte(b, sep) == Some(i + 1));
                assert(b[i + 1] == b.drop_first()[i]);
                assert forall|j: int| 0 <= j < i + 1 implies b[j] != sep by {
                    if j > 0 {
                        assert(b.drop_first()[j - 1] != sep);
                    }
                }
            },
        }
    }
}

/// Relies on `memchr::memchr`: returns the position of the first occurrence
/// of the byte in the haystack, or `None` when it does not occur.
#[verifier::external_body]
pub fn find_byte(needle: u8, haystack: &[u8]) -> (r: Option<usize>)
    ensures
        match r {
            Some(i) => 0 <= i < haystack@.len() && haystack@[i as int] == needle && forall|j: int|
                0 <= j < i ==> haystack@[j] != needle,
            None => forall|j: int| 0 <= j < haystack@.len() ==> haystack@[j] != needle,
        },
{
    memchr::memchr(needle, haystack)
}

/// Executable counterpart of [`spec_find_byte`], backed by `memchr`.
pub fn find_byte_spec(needle: u8, haystack: &[u8]) -> (r: Option<usize>)
    ensures
        match r {
            Some(i) => spec_find_byte(haystack@, needle) == Some(i as int),
            None => spec_find_byte(haystack@, needle) is None,
        },
{
    let r = find_byte(needle, haystack);
    proof {
        lemma_find_byte(haystack@, needle);
        match r {
            Some(i) => {
                match spec_find_byte(haystack@, needle) {
                    Some(k) => {
                        assert(!(k < i) && !(i < k));
                    },
                    None => {
                        assert(false);
                    },
                }
            },
            None => {
                if let Some(k) = spec_find_byte(haystack@, needle) {
                    assert(false);
                }
            },
        }
    }
    r
}

/// The fields of `b` separated by `sep`: splitting always yields at least
/// one field, the separators themselves appear in no field, and an input
/// without the separator is a single field.
pub open spec fn spec_split_bytes(b: Seq<u8>, sep: u8) -> Seq<Seq<u8>>
    decreases b.len(),
{
    if b.len() == 0 {
        seq![Seq::<u8>::empty()]
    } else if b[0] == sep {
        seq![Seq::<u8>::empty()] + spec_split_bytes(b.drop_first(), sep)
    } else {
        let rest = spec_split_bytes(b.drop_first(), sep);
        seq![seq![b[0]] + rest[0]] + rest.drop_first()
    }
}

/// Splitting yields at least one field.
pub proof fn lemma_split_bytes_len(b: Seq<u8>, sep: u8)
    ensures
        spec_split_bytes(b, sep).len() >= 1,
    decreases b.len(),
{
    if b.len() > 0 {
        lemma_split_bytes_len(b.drop_first(), sep);
    }
}

/// A sequence without the separator is a single field: itself.
pub proof fn lemma_split_bytes_no_sep(b: Seq<u8>, sep: u8)
    requires
        forall|j: int| 0 <= j < b.len() ==> b[j] != sep,
    ensures
        spec_split_bytes(b, sep) =~= seq![b],
    decreases b.len(),
{
    if b.len() == 0 {
        assert(b =~= Seq::<u8>::empty());
        assert(spec_split_bytes(b, sep) =~= seq![b]);
    } else {
        assert(b[0] != sep);
        lemma_split_bytes_no_sep(b.drop_first(), sep);
        let rest = spec_split_bytes(b.drop_first(), sep);
        assert(rest[0] == b.drop_first());
        assert(rest.drop_first() =~= Seq::<Seq<u8>>::empty());
        assert(seq![b[0]] + b.drop_first() =~= b);
        assert(spec_split_bytes(b, sep) =~= seq![seq![b[0]] + rest[0]] + rest.drop_first());
        assert(spec_split_bytes(b, sep) =~= seq![b]);
    }
}


/// Splitting at the first separator: the field before it, then the fields of
/// what follows it.
pub proof fn lemma_split_bytes_first_sep(b: Seq<u8>, sep: u8, i: int)
    requires
        0 <= i < b.len(),
        b[i] == sep,
        forall|j: int| 0 <= j < i ==> b[j] != sep,
    ensures
        spec_split_bytes(b, sep) =~= seq![b.subrange(0, i)] + spec_split_bytes(
            b.subrange(i + 1, b.len() as int),
            sep,
        ),
    decreases i,
{
    if i == 0 {
        assert(b.subrange(0, 0) =~= Seq::<u8>::empty());
        assert(b.subrange(1, b.len() as int) =~= b.drop_first());
    } else {
        let tail = b.drop_first();
        lemma_split_bytes_first_sep(tail, sep, i - 1);
        let rest = spec_split_bytes(tail, sep);
        assert(rest =~= seq![tail.subrange(0, i - 1)] + spec_split_bytes(
            tail.subrange(i, tail.len() as int),
            sep,
        ));
        assert(rest[0] == tail.subrange(0, i - 1));
        assert(seq![b[0]] + tail.subrange(0, i - 1) =~= b.subrange(0, i));
        assert(rest.drop_first() =~= spec_split_bytes(tail.subrange(i, tail.len() as int), sep));
        assert(tail.subrange(i, tail.len() as int) =~= b.subrange(i + 1, b.len() as int));
    }
}

/// Split a string at newline bytes into its fields, decoded. A newline is
/// ASCII, so each field of the valid UTF-8 input is itself valid UTF-8.
pub fn split_lines(s: &str) -> (fields: Vec<String>)
    ensures
        ({
            let parts = spec_split_bytes(s.spec_bytes(), 10);
            &&& fields.deep_view().len() == parts.len()
            &&& forall|i: int|
                0 <= i < parts.len() ==> fields.deep_view()[i] == decode_utf8(#[trigger] parts[i])
        }),
{
    let bytes = s.as_bytes();
    let ghost full = s.spec_bytes();
    proof {
        vstd::utf8::encode_utf8_valid_utf8(s@);
        assert(full.skip(0) =~= full);
    }
    let mut fields: Vec<String> = Vec::new();
    let ghost mut pieces: Seq<Seq<u8>> = Seq::empty();
    let mut start: usize = 0;
    let n = bytes.len();
    proof {
        assert(spec_split_bytes(full, 10) =~= pieces + spec_split_bytes(full.skip(0), 10));
    }
    loop
        invariant_except_break
            bytes@ == full,
            n == full.len(),
            valid_utf8(full),
            start <= n,
            valid_utf8(full.skip(start as int)),
            spec_split_bytes(full, 10) == pieces + spec_split_bytes(full.skip(start as int), 10),
            fields.deep_view().len() == pieces.len(),
            forall|i: int|
                0 <= i < pieces.len() ==> fields.deep_view()[i] == decode_utf8(#[trigger] pieces[i]),
        ensures
            start <= n,
            n == full.len(),
            valid_utf8(full.skip(start as int)),
            spec_split_bytes(full, 10) == pieces + spec_split_bytes(full.skip(start as int), 10),
            fields.deep_view().len() == pieces.len(),
            forall|i: int|
                0 <= i < pieces.len() ==> fields.deep_view()[i] == decode_utf8(#[trigger] pieces[i]),
            spec_find_byte(full.skip(start as int), 10) is None,
        decreases n - start,
    {
        let seg = &bytes[start..n];
        proof {
            assert(seg@ =~= full.skip(start as int));
        }
        match find_byte_spec(10, seg) {
            None => {
                break;
            },
            Some(rel) => {
                let ghost remaining = full.skip(start as int);
                proof {
                    lemma_find_byte(remaining, 10);
                }
                let abs = start + rel;
                let piece_slice = &bytes[start..abs];
                proof {
                    assert(piece_slice@ =~= remaining.subrange(0, rel as int));
                    assert(remaining[rel as int] == 10);
                    lemma_valid_utf8_split_at_ascii(remaining, rel as int);
                    lemma_split_bytes_first_sep(remaining, 10, rel as int);
                    assert(remaining.subrange(rel + 1, remaining.len() as int) =~= full.skip(
                        abs + 1,
                    ));
                }
                let ghost fields_before = fields.deep_view();
                match bytes_to_str(piece_slice) {
                    Some(text) => {
                        fields.push(text.to_owned());
                        proof {
                            assert(fields.deep_view() =~~= fields_before.push(text@));
                        }
                    },
                    None => {
                        proof {
                            assert(false);
                        }
                        return fields;
                    },
                }
                proof {
                    let piece = remaining.subrange(0, rel as int);
                    pieces = pieces.push(piece);
                    assert(spec_split_bytes(full, 10) =~= pieces + spec_split_bytes(
                        full.skip(abs + 1),
                        10,
                    ));
                }
                start = abs + 1;
            },
        }
    }
    let ghost remaining = full.skip(start as int);
    proof {
        lemma_find_byte(remaining, 10);
        lemma_split_bytes_no_sep(remaining, 10);
    }
    let tail_slice = &bytes[start..n];
    proof {
        assert(tail_slice@ =~= remaining);
    }
    let ghost fields_before = fields.deep_view();
    match bytes_to_str(tail_slice) {
        Some(text) => {
            fields.push(text.to_owned());
            proof {
                assert(fields.deep_view() =~~= fields_before.push(text@));
            }
        },
        None => {
            proof {
                assert(false);
            }
            return fields;
        },
    }
    proof {
        let parts = spec_split_bytes(full, 10);
        assert(parts =~= pieces + seq![remaining]);
        assert(fields.deep_view().len() == parts.len());
        assert forall|i: int| 0 <= i < parts.len() implies fields.deep_view()[i] == decode_utf8(
            #[trigger] parts[i],
        ) by {
            if i < parts.len() - 1 {
                assert(parts[i] == pieces[i]);
            } else {
                assert(parts[i] == remaining);
            }
        }
    }
    fields
}

/// Splitting valid UTF-8 just before and just after an ASCII byte keeps
/// both sides valid: the byte sits on a character boundary and encodes a
/// whole one-byte scalar of its own.
pub proof fn lemma_valid_utf8_split_at_ascii(b: Seq<u8>, i: int)
    requires
        valid_utf8(b),
        0 <= i < b.len(),
        b[i] < 0x80,
    ensures
        is_char_boundary(b, i),
        valid_utf8(b.subrange(0, i)),
        valid_utf8(b.subrange(i + 1, b.len() as int)),
{
    is_char_boundary_iff_not_is_continuation_byte(b, i);
    valid_utf8_split(b, i);
    let suffix = b.subrange(i, b.len() as int);
    assert(suffix[0] == b[i]);
    assert(valid_utf8(suffix));
    assert(valid_first_scalar(suffix) && valid_utf8(pop_first_scalar(suffix)));
    assert(length_of_first_scalar(suffix) == 1);
    assert(pop_first_scalar(suffix) =~= b.subrange(i + 1, b.len() as int));
    assert(valid_utf8(b.subrange(i + 1, b.len() as int)));
}

} // verus!
