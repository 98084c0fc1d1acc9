//! Text that crosses to the engine: delimiter-joined path lists and the search
//! for NUL bytes, which the engine's strings cannot hold.
use vstd::prelude::*;
use vstd::string::*;
use vstd::utf8::{
    char_is_scalar, encode_scalar, encode_utf8, encode_utf8_decode_utf8, has_width_1_encoding,
    has_width_2_encoding, has_width_3_encoding, last_continuation_byte, leading_byte_width_1,
    leading_byte_width_2, leading_byte_width_3, leading_byte_width_4,
    second_last_continuation_byte, third_last_continuation_byte,
};

verus! {

/// The character that separates the paths of a rendered collection.
pub open spec fn delimiter() -> Seq<char> {
    seq![';']
}

/// The paths of `parts` in order, with one delimiter between neighbours and
/// none at either end.
pub open spec fn joined(parts: Seq<Seq<char>>) -> Seq<char>
    decreases parts.len(),
{
    if parts.len() == 0 {
        Seq::empty()
    } else if parts.len() == 1 {
        parts[0]
    } else {
        joined(parts.drop_last()) + delimiter() + parts.last()
    }
}

/// The views of a vector of strings.
pub open spec fn texts(parts: Seq<String>) -> Seq<Seq<char>> {
    Seq::new(parts.len(), |i: int| parts[i]@)
}

/// Joins `parts` with `;`.
pub fn join(parts: &Vec<String>) -> (line: String)
    ensures
        line@ == joined(texts(parts@)),
{
    let mut line = String::new();
    let mut i: usize = 0;
    proof {
        reveal_strlit(";");
        assert(texts(parts@).take(0) =~= Seq::<Seq<char>>::empty());
    }
    while i < parts.len()
        invariant
            i <= parts.len(),
            line@ == joined(texts(parts@).take(i as int)),
            ";"@ == delimiter(),
        decreases parts.len() - i,
    {
        let ghost before = texts(parts@).take(i as int);
        let ghost after = texts(parts@).take(i + 1);
        proof {
            assert(after.drop_last() =~= before);
            assert(after.last() == parts@[i as int]@);
        }
        if i > 0 {
            line.append(";");
        }
        line.append(parts[i].as_str());
        proof {
            if i == 0 {
                assert(line@ =~= parts@[0]@);
            }
        }
        i = i + 1;
    }
    proof {
        assert(texts(parts@).take(parts.len() as int) =~= texts(parts@));
    }
    line
}

/// `position` is the offset of the first NUL byte of `bytes`.
pub open spec fn is_first_nul(bytes: Seq<u8>, position: int) -> bool {
    &&& 0 <= position < bytes.len()
    &&& bytes[position] == 0u8
    &&& forall|j: int| 0 <= j < position ==> bytes[j] != 0u8
}

/// `bytes` holds no NUL byte.
pub open spec fn nul_free(bytes: Seq<u8>) -> bool {
    forall|i: int| 0 <= i < bytes.len() ==> bytes[i] != 0u8
}

/// Looks for a NUL byte in the encoding of `text` and reports the first.
pub fn nul_position(text: &str) -> (found: Option<usize>)
    ensures
        found is None <==> nul_free(text.spec_bytes()),
        found matches Some(position) ==> is_first_nul(text.spec_bytes(), position as int),
{
    let bytes = text.as_bytes();
    let mut i: usize = 0;
    while i < bytes.len()
        invariant
            i <= bytes.len(),
            bytes@ == text.spec_bytes(),
            forall|j: int| 0 <= j < i ==> bytes@[j] != 0u8,
        decreases bytes.len() - i,
    {
        if bytes[i] == 0 {
            return Some(i);
        }
        i = i + 1;
    }
    None
}

/// Whether two pieces of text hold the same characters.
pub fn same_text(left: &str, right: &str) -> (same: bool)
    ensures
        same == (left@ == right@),
{
    let a = left.as_bytes();
    let b = right.as_bytes();
    proof {
        encode_utf8_decode_utf8(left@);
        encode_utf8_decode_utf8(right@);
    }
    if a.len() != b.len() {
        return false;
    }
    let mut i: usize = 0;
    while i < a.len()
        invariant
            i <= a.len(),
            a.len() == b.len(),
            a@ == encode_utf8(left@),
            b@ == encode_utf8(right@),
            forall|j: int| 0 <= j < i ==> a@[j] == b@[j],
        decreases a.len() - i,
    {
        if a[i] != b[i] {
            return false;
        }
        i = i + 1;
    }
    proof {
        assert(a@ =~= b@);
    }
    true
}

/// A character that is encoded in one byte is encoded as NUL only if it is
/// the NUL character.
proof fn lemma_single_byte(scalar: u32)
    by (bit_vector)
    requires
        has_width_1_encoding(scalar),
    ensures
        (leading_byte_width_1(scalar) == 0u8) == (scalar == 0u32),
{
}

/// No byte of an encoding in several bytes is NUL.
proof fn lemma_several_bytes(scalar: u32)
    by (bit_vector)
    ensures
        leading_byte_width_2(scalar) != 0u8,
        leading_byte_width_3(scalar) != 0u8,
        leading_byte_width_4(scalar) != 0u8,
        last_continuation_byte(scalar) != 0u8,
        second_last_continuation_byte(scalar) != 0u8,
        third_last_continuation_byte(scalar) != 0u8,
{
}

/// The encoding of one character holds a NUL byte exactly if the character
/// is NUL.
pub proof fn lemma_nul_free_char(c: char)
    ensures
        nul_free(encode_scalar(c as u32)) <==> c != '\0',
{
    let scalar = c as u32;
    let bytes = encode_scalar(scalar);
    char_is_scalar(c);
    lemma_several_bytes(scalar);
    if has_width_1_encoding(scalar) {
        lemma_single_byte(scalar);
        assert(bytes[0] == leading_byte_width_1(scalar));
        if c == '\0' {
            assert(scalar == 0u32);
            assert(!nul_free(bytes));
        } else {
            assert(scalar != 0u32);
        }
    } else {
        assert(c != '\0');
        if has_width_2_encoding(scalar) {
            assert(nul_free(bytes));
        } else if has_width_3_encoding(scalar) {
            assert(nul_free(bytes));
        } else {
            assert(nul_free(bytes));
        }
    }
}

/// The encoding of a text holds a NUL byte exactly if the text holds the NUL
/// character.
pub proof fn lemma_nul_free_text(text: Seq<char>)
    ensures
        nul_free(encode_utf8(text)) <==> !text.contains('\0'),
    decreases text.len(),
{
    if text.len() > 0 {
        let head = encode_scalar(text[0] as u32);
        let rest = text.drop_first();
        let tail = encode_utf8(rest);
        lemma_nul_free_char(text[0]);
        lemma_nul_free_text(rest);
        assert(encode_utf8(text) == head + tail);
        if nul_free(head + tail) {
            assert forall|i: int| 0 <= i < head.len() implies head[i] != 0u8 by {
                assert((head + tail)[i] == head[i]);
            }
            assert forall|i: int| 0 <= i < tail.len() implies tail[i] != 0u8 by {
                assert((head + tail)[head.len() + i] == tail[i]);
            }
            assert forall|i: int| 0 <= i < text.len() implies text[i] != '\0' by {
                if i > 0 {
                    assert(rest[i - 1] == text[i]);
                }
            }
        }
        if !text.contains('\0') {
            assert(text[0] != '\0');
            assert forall|i: int| 0 <= i < rest.len() implies rest[i] != '\0' by {
                assert(rest[i] == text[i + 1]);
            }
            assert(!rest.contains('\0'));
            assert(nul_free(head + tail));
        }
    }
}

} // verus!
