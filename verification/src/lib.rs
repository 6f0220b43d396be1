//! A message selector: a pure function mapping a boolean flag to one of two
//! fixed greeting strings, together with the computational half of a C-ABI
//! export adapter that marshals the selected message into a null-terminated
//! UTF-8 byte buffer.

use vstd::prelude::*;

verus! {

use vstd::string::StrSliceExecFns;
use vstd::utf8::decode_utf8;
use vstd::utf8::encode_utf8;
use vstd::utf8::encode_utf8_decode_utf8;
use vstd::utf8::is_ascii_chars;
use vstd::utf8::is_ascii_chars_encode_utf8;

/// The greeting returned when the flag is set.
pub open spec fn hello_text() -> Seq<char> {
    "Hello, world!"@
}

/// The farewell returned when the flag is clear.
pub open spec fn bye_text() -> Seq<char> {
    "Bye bye"@
}

/// The message owed for each value of the flag: the mapping is total and
/// deterministic, with no other possible outputs.
pub open spec fn message_spec(hello: bool) -> Seq<char> {
    if hello {
        hello_text()
    } else {
        bye_text()
    }
}

/// Selects between the two fixed messages. Pure and total: `true` yields the
/// greeting, `false` the farewell, and nothing else can come back.
pub fn get_message(hello: bool) -> (r: String)
    ensures
        r@ == message_spec(hello),
{
    if hello {
        "Hello, world!".to_owned()
    } else {
        "Bye bye".to_owned()
    }
}

/// The buffer owed by the C-ABI export adapter: the UTF-8 bytes of the
/// selected message followed by a single terminating zero byte.
pub open spec fn exported_bytes(hello: bool) -> Seq<u8> {
    encode_utf8(message_spec(hello)).push(0u8)
}

/// Both fixed messages consist of ASCII characters only, and neither
/// contains a null character.
pub proof fn lemma_message_ascii(hello: bool)
    ensures
        is_ascii_chars(message_spec(hello)),
        forall|i: int| 0 <= i < message_spec(hello).len() ==> message_spec(hello)[i] != '\0',
{
    reveal_strlit("Hello, world!");
    reveal_strlit("Bye bye");
}

/// Shape of the exported buffer: one byte per message character plus the
/// terminator, the terminator is the only zero byte, so the buffer is always
/// a valid null-terminated string.
pub proof fn lemma_exported_bytes_shape(hello: bool)
    ensures
        exported_bytes(hello).len() == message_spec(hello).len() + 1,
        exported_bytes(hello).last() == 0u8,
        forall|i: int| 0 <= i < exported_bytes(hello).len() - 1 ==> exported_bytes(hello)[i] != 0u8,
{
    lemma_message_ascii(hello);
    is_ascii_chars_encode_utf8(message_spec(hello));
}

/// The computational half of the C-ABI export adapter: selects the message
/// and marshals it into an owned, null-terminated UTF-8 byte buffer. The
/// caller takes ownership of the buffer.
pub fn rust_sample_get_message(hello: bool) -> (r: Vec<u8>)
    ensures
        r@ == exported_bytes(hello),
{
    let s = get_message(hello);
    let mut v = s.as_str().as_bytes_vec();
    v.push(0u8);
    v
}

/// Round trip: stripping the terminator from an exported buffer and decoding
/// the remainder as UTF-8 yields exactly the selected message.
pub proof fn lemma_export_round_trip(hello: bool)
    ensures
        decode_utf8(exported_bytes(hello).drop_last()) == message_spec(hello),
{
    encode_utf8_decode_utf8(message_spec(hello));
    assert(exported_bytes(hello).drop_last() =~= encode_utf8(message_spec(hello)));
}

/// The selector picks the greeting exactly when the flag is set and the
/// farewell exactly when it is clear: the two messages are distinct, so the
/// result determines the flag.
pub proof fn lemma_message_selects(hello: bool)
    ensures
        (message_spec(hello) == hello_text()) <==> hello,
        (message_spec(hello) == bye_text()) <==> !hello,
{
    reveal_strlit("Hello, world!");
    reveal_strlit("Bye bye");
    assert(hello_text().len() != bye_text().len());
}

/// Idempotence: the mapping from flag to output is deterministic, so any two
/// results for the same flag — selected messages as well as exported buffers —
/// are byte-identical.
pub proof fn lemma_idempotent(hello: bool, m1: Seq<char>, m2: Seq<char>, b1: Seq<u8>, b2: Seq<u8>)
    requires
        m1 == message_spec(hello),
        m2 == message_spec(hello),
        b1 == exported_bytes(hello),
        b2 == exported_bytes(hello),
    ensures
        m1 == m2,
        b1 == b2,
{
}

} // verus!
