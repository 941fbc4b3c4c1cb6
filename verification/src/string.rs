//! Text that can cross into the native library as it is: no NUL inside, one NUL at the end.

use vstd::prelude::*;
use vstd::std_specs::cmp::PartialEqSpecImpl;
use vstd::string::StringExecFns;
use vstd::string::StringSliceAdditionalSpecFns;
use vstd::utf8::*;

verus! {

/// Whether a text holds no NUL character.
pub open spec fn nul_free(text: Seq<char>) -> bool {
    forall|i: int| 0 <= i < text.len() ==> text[i] != '\0'
}

/// The native form of a text: its UTF-8 encoding followed by one NUL byte.
pub open spec fn terminated(text: Seq<char>) -> Seq<u8> {
    encode_utf8(text).push(0u8)
}

/// The encoding of a scalar holds a zero byte only if the scalar is zero.
proof fn scalar_zero_byte(c: u32)
    requires
        is_scalar(c),
    ensures
        forall|j: int|
            0 <= j < encode_scalar(c).len() ==> (#[trigger] encode_scalar(c)[j] == 0u8 <==> c
                == 0),
        encode_scalar(c).len() >= 1,
{
    assert(c <= 0x7f ==> ((c & 0x7F) as u8 == 0u8 <==> c == 0)) by (bit_vector);
    assert(0xC0u8 | ((c >> 6) & 0x1F) as u8 != 0u8) by (bit_vector);
    assert(0xE0u8 | ((c >> 12) & 0x0F) as u8 != 0u8) by (bit_vector);
    assert(0xF0u8 | ((c >> 18) & 0x7) as u8 != 0u8) by (bit_vector);
    assert(0x80u8 | (c & 0x3F) as u8 != 0u8) by (bit_vector);
    assert(0x80u8 | ((c >> 6) & 0x3F) as u8 != 0u8) by (bit_vector);
    assert(0x80u8 | ((c >> 12) & 0x3F) as u8 != 0u8) by (bit_vector);
}

/// Encoding distributes over concatenation.
proof fn encode_concat(a: Seq<char>, b: Seq<char>)
    ensures
        encode_utf8(a + b) == encode_utf8(a) + encode_utf8(b),
    decreases a.len(),
{
    if a.len() == 0 {
        assert(a + b =~= b);
        assert(encode_utf8(a) + encode_utf8(b) =~= encode_utf8(b));
    } else {
        encode_concat(a.drop_first(), b);
        assert((a + b).drop_first() =~= a.drop_first() + b);
        assert((a + b)[0] == a[0]);
        assert(encode_utf8(a + b) =~= encode_utf8(a) + encode_utf8(b));
    }
}

/// A text holds a NUL character exactly if its encoding holds a zero byte: what the
/// native library would take for the end of the text.
pub proof fn nul_shows_in_the_bytes(text: Seq<char>)
    ensures
        nul_free(text) <==> (forall|i: int|
            0 <= i < encode_utf8(text).len() ==> encode_utf8(text)[i] != 0u8),
    decreases text.len(),
{
    if text.len() == 0 {
    } else {
        let head = encode_scalar(text[0] as u32);
        let rest = text.drop_first();
        let tail = encode_utf8(rest);
        let whole = encode_utf8(text);
        char_is_scalar(text[0]);
        scalar_zero_byte(text[0] as u32);
        nul_shows_in_the_bytes(rest);
        assert(whole =~= head + tail);
        assert(text[0] as u32 == 0 <==> text[0] == '\0') by {
            char_u32_cast(text[0], text[0] as u32);
            char_u32_cast('\0', 0u32);
        }
        if nul_free(text) {
            assert(text[0] != '\0');
            assert forall|i: int| 0 <= i < rest.len() implies rest[i] != '\0' by {
                assert(rest[i] == text[i + 1]);
            }
            assert forall|i: int| 0 <= i < whole.len() implies whole[i] != 0u8 by {
                if i < head.len() {
                    assert(whole[i] == head[i]);
                    assert(encode_scalar(text[0] as u32)[i] != 0u8);
                } else {
                    assert(whole[i] == tail[i - head.len()]);
                }
            }
        }
        if forall|i: int| 0 <= i < whole.len() ==> whole[i] != 0u8 {
            assert(whole[0] == head[0]);
            assert(encode_scalar(text[0] as u32)[0] != 0u8);
            assert(text[0] as u32 != 0);
            assert forall|i: int| 0 <= i < tail.len() implies tail[i] != 0u8 by {
                assert(tail[i] == whole[i + head.len()]);
            }
            assert(nul_free(rest));
            assert forall|i: int| 0 <= i < text.len() implies text[i] != '\0' by {
                if i > 0 {
                    assert(text[i] == rest[i - 1]);
                }
            }
        }
    }
}

/// Text for the native library: valid UTF-8 without a NUL inside, kept with its terminating
/// NUL so that neither a check nor a copy is needed when it is handed over.
#[derive(Debug, PartialOrd, Ord, Hash)]
pub struct SafeString {
    /// The text, followed by one NUL character.
    inner: String,
}

impl View for SafeString {
    type V = Seq<char>;

    /// The text, without the terminator.
    closed spec fn view(&self) -> Seq<char> {
        self.inner@.drop_last()
    }
}

/// The encoding of a text that ends in NUL is the native form of the text before the
/// NUL.
proof fn encoding_of_terminated(whole: Seq<char>)
    requires
        whole.len() > 0,
        whole.last() == '\0',
    ensures
        encode_utf8(whole) == terminated(whole.drop_last()),
{
    let chars = whole.drop_last();
    assert(whole =~= chars + seq!['\0']);
    encode_concat(chars, seq!['\0']);
    reveal_with_fuel(encode_utf8, 2);
    assert(encode_scalar('\0' as u32) =~= seq![0u8]) by {
        assert((0u32 & 0x7F) as u8 == 0u8) by (bit_vector);
    }
    assert(encode_utf8(seq!['\0']) =~= seq![0u8]);
    assert(encode_utf8(whole) =~= encode_utf8(chars).push(0u8));
}

/// The native form of a text without NUL holds exactly one zero byte: its last.
pub proof fn native_form_has_one_nul(text: Seq<char>)
    requires
        nul_free(text),
    ensures
        terminated(text).last() == 0u8,
        forall|i: int| 0 <= i < terminated(text).len() - 1 ==> terminated(text)[i] != 0u8,
{
    nul_shows_in_the_bytes(text);
}

/// The native form of a text gives the text back: two texts with the same native form
/// are the same text.
pub proof fn native_form_determines_the_text(a: Seq<char>, b: Seq<char>)
    requires
        terminated(a) == terminated(b),
    ensures
        a == b,
{
    assert(encode_utf8(a) =~= terminated(a).drop_last());
    assert(encode_utf8(b) =~= terminated(b).drop_last());
    encode_utf8_decode_utf8(a);
    encode_utf8_decode_utf8(b);
}

impl SafeString {
    #[verifier::type_invariant]
    spec fn well_formed(&self) -> bool {
        &&& self.inner@.len() > 0
        &&& self.inner@.last() == '\0'
        &&& nul_free(self.inner@.drop_last())
    }

    /// Makes a safe string of a text; `None` if the text holds a NUL character.
    pub fn new(text: &str) -> (made: Option<SafeString>)
        ensures
            made is Some <==> nul_free(text@),
            made matches Some(s) ==> s@ == text@,
    {
        let bytes = text.as_bytes();
        let mut i: usize = 0;
        while i < bytes.len()
            invariant
                i <= bytes.len(),
                bytes@ == encode_utf8(text@),
                forall|j: int| 0 <= j < i ==> bytes@[j] != 0u8,
            decreases bytes.len() - i,
        {
            if bytes[i] == 0 {
                proof {
                    nul_shows_in_the_bytes(text@);
                }
                return None;
            }
            i += 1;
        }
        proof {
            nul_shows_in_the_bytes(text@);
        }
        let mut inner = String::from_str(text);
        inner.append("\0");
        proof {
            reveal_strlit("\0");
            assert(inner@ =~= text@.push('\0'));
            assert(inner@.drop_last() =~= text@);
        }
        Some(SafeString { inner })
    }

    /// Makes a safe string of a text that holds no NUL character.
    pub fn from(text: String) -> (made: SafeString)
        requires
            nul_free(text@),
        ensures
            made@ == text@,
    {
        let mut inner = text;
        inner.append("\0");
        proof {
            reveal_strlit("\0");
            assert(inner@ =~= text@.push('\0'));
            assert(inner@.drop_last() =~= text@);
        }
        SafeString { inner }
    }

    /// The text.
    pub fn as_str(&self) -> (text: &str)
        ensures
            text@ == self@,
            nul_free(self@),
    {
        proof {
            use_type_invariant(self);
        }
        let whole = self.inner.as_str();
        let ghost chars = self.inner@.drop_last();
        proof {
            encoding_of_terminated(self.inner@);
            encode_utf8_valid_utf8(self.inner@);
            let bytes = whole.spec_bytes();
            assert(bytes.len() >= 1);
            assert(bytes[bytes.len() - 1] == 0u8);
            is_char_boundary_iff_is_leading_byte(bytes, bytes.len() - 1);
            assert(is_char_boundary(bytes, bytes.len() - 1));
        }
        let (text, _) = whole.split_at(whole.as_bytes().len() - 1);
        proof {
            assert(text.spec_bytes() =~= encode_utf8(chars));
            encode_utf8_decode_utf8(text@);
            encode_utf8_decode_utf8(chars);
        }
        text
    }

    /// The native form: the bytes of the text and the terminating NUL, which is the only
    /// zero byte among them.
    pub fn as_bytes_with_nul(&self) -> (bytes: &[u8])
        ensures
            bytes@ == terminated(self@),
            forall|i: int| 0 <= i < bytes@.len() - 1 ==> bytes@[i] != 0u8,
    {
        proof {
            use_type_invariant(self);
        }
        let bytes = self.inner.as_str().as_bytes();
        proof {
            let chars = self.inner@.drop_last();
            encoding_of_terminated(self.inner@);
            nul_shows_in_the_bytes(chars);
        }
        bytes
    }

    /// The text as an owned string.
    pub fn into_string(self) -> (text: String)
        ensures
            text@ == self@,
    {
        String::from_str(self.as_str())
    }
}

impl Clone for SafeString {
    fn clone(&self) -> (copy: SafeString)
        ensures
            copy == *self,
    {
        proof {
            use_type_invariant(self);
        }
        SafeString { inner: self.inner.clone() }
    }
}

impl PartialEq for SafeString {
    fn eq(&self, other: &SafeString) -> (same: bool) {
        proof {
            use_type_invariant(self);
            use_type_invariant(other);
            if self.inner@.drop_last() == other.inner@.drop_last() {
                assert(self.inner@ =~= self.inner@.drop_last().push('\0'));
                assert(other.inner@ =~= other.inner@.drop_last().push('\0'));
            }
        }
        self.inner == other.inner
    }
}

impl PartialEqSpecImpl for SafeString {
    open spec fn obeys_eq_spec() -> bool {
        true
    }

    open spec fn eq_spec(&self, other: &SafeString) -> bool {
        self@ == other@
    }
}

impl Eq for SafeString {

}

} // verus!
