//! What callers can count on, in plain terms: numbers, bits, bytes and texts that go in,
//! and what has to come out for them.

use vstd::prelude::*;

use crate::init::LayerProperties;
use crate::instance::ExtensionProperties;
use crate::laws::name_reads_back;
use crate::names::{until_nul, views, CName};

pub mod adapters;
pub mod creation;
pub mod extensions;
pub mod messages;
pub mod surfaces;

verus! {

/// Whether a buffer holds a text: it starts with the bytes of the text and a zero byte.
pub open spec fn holds(buffer: Seq<u8>, text: Seq<char>) -> bool {
    vstd::utf8::encode_utf8(text).push(0u8).is_prefix_of(buffer)
}

/// Whether a driver offers an extension under the given name.
pub open spec fn offers(listed: Seq<ExtensionProperties>, text: Seq<char>) -> bool {
    exists|i: int| 0 <= i < listed.len() && holds(#[trigger] listed[i].extension_name@, text)
}

/// Whether a driver offers a layer under the given name.
pub open spec fn offers_layer(listed: Seq<LayerProperties>, text: Seq<char>) -> bool {
    exists|i: int| 0 <= i < listed.len() && holds(#[trigger] listed[i].layer_name@, text)
}

/// A name without a zero byte is read out of a buffer if and only if the buffer starts with
/// the name and a zero byte.
pub proof fn name_is_read_iff_buffer_starts_with_it(buffer: Seq<u8>, name: Seq<u8>)
    requires
        !name.contains(0u8),
    ensures
        until_nul(buffer) == Some(name) <==> name.push(0u8).is_prefix_of(buffer),
{
    let written = name.push(0u8);
    if written.is_prefix_of(buffer) {
        let rest = buffer.skip(written.len() as int);
        assert(buffer =~= written + rest);
        name_reads_back(name, rest);
    }
    if until_nul(buffer) == Some(name) {
        buffer.index_of_first_ensures(0u8);
        let end = buffer.index_of_first(0u8)->0;
        assert(name == buffer.take(end));
        assert(written =~= buffer.subrange(0, written.len() as int));
    }
}

/// Names are the same if and only if their bytes are.
pub proof fn names_are_compared_by_their_bytes(a: CName, b: CName)
    ensures
        vstd::std_specs::cmp::PartialEqSpec::eq_spec(&a, &b) <==> {
            &&& a@.len() == b@.len()
            &&& forall|i: int| 0 <= i < a@.len() ==> #[trigger] a@[i] == b@[i]
        },
{
    if a@.len() == b@.len() && (forall|i: int| 0 <= i < a@.len() ==> #[trigger] a@[i] == b@[i]) {
        assert(a@ =~= b@);
    }
}

/// A list of names is seen name by name.
pub proof fn names_are_seen_one_by_one(names: Seq<CName>)
    ensures
        views(names).len() == names.len(),
        forall|i: int| 0 <= i < names.len() ==> #[trigger] views(names)[i] == names[i]@,
{
}

} // verus!
