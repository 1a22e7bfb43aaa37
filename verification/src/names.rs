//! Names as Vulkan passes them around: byte strings without a zero byte, read
//! out of fixed-size buffers up to the first zero byte.

use vstd::prelude::*;

verus! {

/// The bytes of `text`.
pub open spec fn text_bytes(text: Seq<char>) -> Seq<u8> {
    vstd::utf8::encode_utf8(text)
}

/// What a buffer holds up to its first zero byte, if it holds one.
pub open spec fn until_nul(buffer: Seq<u8>) -> Option<Seq<u8>> {
    match buffer.index_of_first(0u8) {
        Some(end) => Some(buffer.take(end)),
        None => None,
    }
}

/// The bytes of each name of a list, in order.
pub open spec fn views(names: Seq<CName>) -> Seq<Seq<u8>> {
    names.map_values(|name: CName| name@)
}

/// The name of a layer or an extension: a byte string without a zero byte.
#[derive(Debug)]
pub struct CName {
    bytes: Vec<u8>,
}

impl View for CName {
    type V = Seq<u8>;

    closed spec fn view(&self) -> Seq<u8> {
        self.bytes@
    }
}

impl PartialEq for CName {
    fn eq(&self, other: &CName) -> (same: bool) {
        if self.bytes.len() != other.bytes.len() {
            return false;
        }
        let mut i: usize = 0;
        while i < self.bytes.len()
            invariant
                i <= self.bytes.len(),
                self.bytes.len() == other.bytes.len(),
                forall|j: int| 0 <= j < i ==> self.bytes@[j] == other.bytes@[j],
            decreases self.bytes.len() - i,
        {
            if self.bytes[i] != other.bytes[i] {
                return false;
            }
            i += 1;
        }
        assert(self.bytes@ =~= other.bytes@);
        true
    }
}

impl vstd::std_specs::cmp::PartialEqSpecImpl for CName {
    open spec fn obeys_eq_spec() -> bool {
        true
    }

    open spec fn eq_spec(&self, other: &CName) -> bool {
        self@ == other@
    }
}

impl CName {
    #[verifier::type_invariant]
    spec fn has_no_nul(self) -> bool {
        !self.bytes@.contains(0u8)
    }

    /// The name made of `bytes`, unless one of them is zero.
    pub fn new(bytes: Vec<u8>) -> (name: Option<CName>)
        ensures
            name is Some <==> !bytes@.contains(0u8),
            name matches Some(n) ==> n@ == bytes@,
    {
        let mut i: usize = 0;
        while i < bytes.len()
            invariant
                i <= bytes.len(),
                forall|j: int| 0 <= j < i ==> bytes@[j] != 0u8,
            decreases bytes.len() - i,
        {
            if bytes[i] == 0 {
                assert(bytes@.contains(0u8)) by {
                    assert(bytes@[i as int] == 0u8);
                }
                return None;
            }
            i += 1;
        }
        Some(CName { bytes })
    }

    /// The name made of `bytes`.
    pub(crate) fn from_nul_free(bytes: Vec<u8>) -> (name: CName)
        requires
            !bytes@.contains(0u8),
        ensures
            name@ == bytes@,
    {
        CName { bytes }
    }

    /// The bytes of the name.
    pub fn as_bytes(&self) -> (bytes: &[u8])
        ensures
            bytes@ == self@,
            !bytes@.contains(0u8),
    {
        proof {
            use_type_invariant(self);
        }
        self.bytes.as_slice()
    }
}

/// Reads a name out of a buffer, up to the first zero byte. A buffer without a
/// zero byte holds no name.
pub fn cstr_from_bytes_until_nul(buffer: &[u8]) -> (name: Option<CName>)
    ensures
        match name {
            Some(n) => until_nul(buffer@) == Some(n@),
            None => until_nul(buffer@) is None,
        },
{
    let mut bytes: Vec<u8> = Vec::new();
    let mut i: usize = 0;
    while i < buffer.len()
        invariant
            i <= buffer@.len(),
            bytes@ == buffer@.take(i as int),
            forall|j: int| 0 <= j < i ==> buffer@[j] != 0u8,
        decreases buffer@.len() - i,
    {
        if buffer[i] == 0 {
            proof {
                buffer@.index_of_first_ensures(0u8);
            }
            return Some(CName { bytes });
        }
        bytes.push(buffer[i]);
        i += 1;
        assert(buffer@.take(i as int) =~= buffer@.take(i - 1).push(buffer@[i - 1]));
    }
    proof {
        buffer@.index_of_first_ensures(0u8);
    }
    None
}

/// Whether a list holds a name.
pub fn contains_name(names: &[CName], name: &CName) -> (found: bool)
    ensures
        found == views(names@).contains(name@),
{
    let mut i: usize = 0;
    while i < names.len()
        invariant
            i <= names@.len(),
            forall|j: int| 0 <= j < i ==> names@[j]@ != name@,
        decreases names@.len() - i,
    {
        if names[i] == *name {
            assert(views(names@)[i as int] == name@);
            return true;
        }
        i += 1;
    }
    assert(!views(names@).contains(name@));
    false
}

/// The characters of a text are ASCII, and none is zero.
pub open spec fn is_plain(text: Seq<char>) -> bool {
    &&& vstd::utf8::is_ascii_chars(text)
    &&& forall|i: int| 0 <= i < text.len() ==> #[trigger] text[i] != '\0'
}

/// A plain text has no zero byte.
pub proof fn plain_text_has_no_nul(text: Seq<char>)
    requires
        is_plain(text),
    ensures
        !text_bytes(text).contains(0u8),
{
    vstd::utf8::is_ascii_chars_encode_utf8(text);
    assert forall|i: int| 0 <= i < text_bytes(text).len() implies text_bytes(text)[i] != 0u8 by {
        assert('\0' < text[i] <= '\u{7f}');
        assert(text_bytes(text)[i] == text[i] as u8);
    }
}

/// Two texts with the same bytes are the same text.
pub proof fn text_bytes_injective(a: Seq<char>, b: Seq<char>)
    requires
        text_bytes(a) == text_bytes(b),
    ensures
        a == b,
{
    vstd::utf8::encode_utf8_decode_utf8(a);
    vstd::utf8::encode_utf8_decode_utf8(b);
}

} // verus!
