use std::collections::hash_map::Entry;
use std::collections::HashMap;
use std::string::FromUtf8Error;
use vstd::prelude::*;
use vstd::string::StringSliceAdditionalSpecFns;
use vstd::utf8::decode_utf8;
use vstd::utf8::valid_utf8;

verus! {

broadcast use vstd::std_specs::hash::group_hash_axioms;

/// The error of `String::from_utf8`, `std::string::FromUtf8Error`. It is
/// carried from the call to the place that maps it; nothing is read from it.
#[verifier::external_type_specification]
#[verifier::external_body]
pub struct ExFromUtf8Error(FromUtf8Error);

/// `String::from_utf8` accepts exactly the byte vectors that are well-formed
/// UTF-8, and the string it returns is the text those bytes encode.
pub assume_specification[ String::from_utf8 ](vec: Vec<u8>) -> (text: Result<String, FromUtf8Error>)
    ensures
        text is Ok <==> valid_utf8(vec@),
        text matches Ok(s) ==> s@ == decode_utf8(vec@),
;

/// Why a response could not be handed to the caller.
#[derive(Debug, Clone, Copy, PartialEq, Eq)]
pub enum ChannelError {
    /// The host reported more bytes than a buffer can hold.
    ResponseTooLong,
    /// Text was asked for and the response bytes are not valid UTF-8.
    InvalidText,
}

/// Capacity of every buffer in the table, in bytes.
pub const BUFFER_SIZE: usize = 128_000;

/// The contents of a buffer that has never been written: `BUFFER_SIZE` zero bytes.
pub open spec fn zeroed() -> Seq<u8> {
    Seq::new(BUFFER_SIZE as nat, |i: int| 0u8)
}

/// What `get_buffer` finds under `id`: the stored contents, or zeroes for an
/// id that has no buffer yet.
pub open spec fn contents(buffers: Map<u32, Seq<u8>>, id: u32) -> Seq<u8> {
    if buffers.contains_key(id) {
        buffers[id]
    } else {
        zeroed()
    }
}

/// Fixed-capacity byte buffers keyed by small integer identifiers.
pub struct BufferTable {
    buffers: HashMap<u32, [u8; BUFFER_SIZE]>,
}

impl View for BufferTable {
    type V = Map<u32, Seq<u8>>;

    closed spec fn view(&self) -> Map<u32, Seq<u8>> {
        self.buffers@.map_values(|b: [u8; BUFFER_SIZE]| b@)
    }
}

impl BufferTable {
    /// An empty table: no id has a buffer.
    pub fn new() -> (table: BufferTable)
        ensures
            table@ == Map::<u32, Seq<u8>>::empty(),
    {
        let table = BufferTable { buffers: HashMap::new() };
        assert(table@ =~= Map::<u32, Seq<u8>>::empty());
        table
    }
}

/// The buffer for `id`, created zero-filled if the table has none.
pub fn get_buffer(table: &mut BufferTable, id: u32) -> (buffer: &mut [u8; BUFFER_SIZE])
    ensures
        buffer@ == contents(old(table)@, id),
        final(table)@ == old(table)@.insert(id, final(buffer)@),
{
    let buffer = match table.buffers.entry(id) {
        Entry::Occupied(o) => o.into_mut(),
        Entry::Vacant(v) => v.insert([0; BUFFER_SIZE]),
    };
    buffer
}

/// The first `size` bytes of `id`'s buffer, copied out.
pub fn get_buffer_slice(table: &mut BufferTable, id: u32, size: usize) -> (bytes: Vec<u8>)
    requires
        size <= BUFFER_SIZE,
    ensures
        bytes@ == contents(old(table)@, id).subrange(0, size as int),
        bytes@.len() == size,
        final(table)@ == old(table)@.insert(id, contents(old(table)@, id)),
{
    let buffer = get_buffer(table, id);
    let mut bytes: Vec<u8> = Vec::with_capacity(size);
    let mut i: usize = 0;
    while i < size
        invariant
            i <= size <= BUFFER_SIZE,
            bytes@ == buffer@.subrange(0, i as int),
            buffer@.len() == BUFFER_SIZE,
        decreases size - i,
    {
        bytes.push(buffer[i]);
        i += 1;
        assert(bytes@ =~= buffer@.subrange(0, i as int));
    }
    bytes
}

/// The first `size` bytes of `id`'s buffer as text.
pub fn get_buffer_slice_as_string(table: &mut BufferTable, id: u32, size: usize) -> (text: Result<
    String,
    ChannelError,
>)
    requires
        size <= BUFFER_SIZE,
    ensures
        final(table)@ == old(table)@.insert(id, contents(old(table)@, id)),
        match text {
            Ok(s) => valid_utf8(contents(old(table)@, id).subrange(0, size as int)) && s@
                == decode_utf8(contents(old(table)@, id).subrange(0, size as int)),
            Err(e) => !valid_utf8(contents(old(table)@, id).subrange(0, size as int)) && e
                == ChannelError::InvalidText,
        },
{
    let data = get_buffer_slice(table, id, size);
    match String::from_utf8(data) {
        Ok(s) => Ok(s),
        Err(_) => Err(ChannelError::InvalidText),
    }
}

/// Removes `id`'s buffer and returns it with its id, or `None` if the table
/// has no buffer for `id`.
pub fn delete_buffer(table: &mut BufferTable, id: u32) -> (removed: Option<(u32, [u8; BUFFER_SIZE])>)
    ensures
        final(table)@ == old(table)@.remove(id),
        match removed {
            Some((key, buffer)) => old(table)@.contains_key(id) && key == id && buffer@ == old(
                table,
            )@[id],
            None => !old(table)@.contains_key(id),
        },
{
    let removed = table.buffers.remove(&id);
    assert(table@ =~= old(table)@.remove(id));
    match removed {
        Some(buffer) => Some((id, buffer)),
        None => None,
    }
}

/// The wire form of a host call: the name, a zero byte, the payload.
pub open spec fn message(name: Seq<u8>, payload: Seq<u8>) -> Seq<u8> {
    name + seq![0u8] + payload
}

/// The decimal digits of `n` in ASCII, most significant first, without
/// leading zeroes.
pub open spec fn decimal(n: nat) -> Seq<u8>
    decreases n,
{
    if n < 10 {
        seq![(48 + n) as u8]
    } else {
        decimal(n / 10).push((48 + n % 10) as u8)
    }
}

/// The name under which a request/response call goes out: the caller's
/// name, a dot, and the id of the buffer that receives the response.
pub open spec fn request_name(name: Seq<u8>, buffer_id: u32) -> Seq<u8> {
    name + seq![46u8] + decimal(buffer_id as nat)
}

/// Appends the decimal digits of `n` to `out`.
fn push_decimal(out: &mut Vec<u8>, n: u32)
    ensures
        final(out)@ == old(out)@ + decimal(n as nat),
    decreases n,
{
    if n >= 10 {
        push_decimal(out, n / 10);
    }
    let digit: u8 = (n % 10) as u8;
    out.push(48 + digit);
    assert(out@ =~= old(out)@ + decimal(n as nat));
}

/// Appends `bytes` to `out`.
pub(crate) fn push_all(out: &mut Vec<u8>, bytes: &[u8])
    ensures
        final(out)@ == old(out)@ + bytes@,
{
    let mut i: usize = 0;
    while i < bytes.len()
        invariant
            i <= bytes@.len(),
            out@ == old(out)@ + bytes@.subrange(0, i as int),
        decreases bytes@.len() - i,
    {
        out.push(bytes[i]);
        i += 1;
        assert(out@ =~= old(out)@ + bytes@.subrange(0, i as int));
    }
    assert(bytes@.subrange(0, i as int) =~= bytes@);
}

/// Lays out a host call as one contiguous region: `fn_name`, a zero byte,
/// then `bytes`. This is what the host's entry point is given.
pub fn send_bytes(fn_name: &str, bytes: &[u8]) -> (data: Vec<u8>)
    ensures
        data@ == message(fn_name.spec_bytes(), bytes@),
{
    let mut data: Vec<u8> = Vec::new();
    push_all(&mut data, fn_name.as_bytes());
    data.push(0);
    push_all(&mut data, bytes);
    assert(data@ =~= message(fn_name.spec_bytes(), bytes@));
    data
}

/// A request/response call on its way to the host: the region to hand over
/// and the buffer in which the host leaves its answer.
#[derive(Debug, PartialEq, Eq)]
pub struct PendingCall {
    pub message: Vec<u8>,
    pub buffer_id: u32,
}

/// A request/response call whose answer is to be read as text.
#[derive(Debug, PartialEq, Eq)]
pub struct PendingTextCall {
    pub call: PendingCall,
}

impl PendingCall {
    /// Reads the answer once the host has returned `size`: the first `size`
    /// bytes of the call's buffer. A size beyond the buffer's capacity is
    /// refused and leaves the table as it was.
    pub fn response(&self, table: &mut BufferTable, size: usize) -> (answer: Result<
        Vec<u8>,
        ChannelError,
    >)
        ensures
            match answer {
                Ok(bytes) => {
                    &&& size <= BUFFER_SIZE
                    &&& bytes@.len() == size
                    &&& bytes@ == contents(old(table)@, self.buffer_id).subrange(0, size as int)
                    &&& final(table)@ == old(table)@.insert(
                        self.buffer_id,
                        contents(old(table)@, self.buffer_id),
                    )
                },
                Err(e) => {
                    &&& size > BUFFER_SIZE
                    &&& e == ChannelError::ResponseTooLong
                    &&& final(table)@ == old(table)@
                },
            },
    {
        if size > BUFFER_SIZE {
            Err(ChannelError::ResponseTooLong)
        } else {
            Ok(get_buffer_slice(table, self.buffer_id, size))
        }
    }
}

/// What a text call answers for buffer contents `stored` and reported `size`.
pub open spec fn text_response(stored: Seq<u8>, size: usize) -> Result<Seq<char>, ChannelError> {
    if size > BUFFER_SIZE {
        Err(ChannelError::ResponseTooLong)
    } else if valid_utf8(stored.subrange(0, size as int)) {
        Ok(decode_utf8(stored.subrange(0, size as int)))
    } else {
        Err(ChannelError::InvalidText)
    }
}

impl PendingTextCall {
    /// Reads the answer once the host has returned `size`: the first `size`
    /// bytes of the call's buffer, decoded as UTF-8.
    pub fn response(&self, table: &mut BufferTable, size: usize) -> (answer: Result<
        String,
        ChannelError,
    >)
        ensures
            match answer {
                Ok(text) => Ok::<Seq<char>, ChannelError>(text@),
                Err(e) => Err(e),
            } == text_response(contents(old(table)@, self.call.buffer_id), size),
            final(table)@ == if size <= BUFFER_SIZE {
                old(table)@.insert(
                    self.call.buffer_id,
                    contents(old(table)@, self.call.buffer_id),
                )
            } else {
                old(table)@
            },
    {
        match self.call.response(table, size) {
            Ok(bytes) => match String::from_utf8(bytes) {
                Ok(text) => Ok(text),
                Err(_) => Err(ChannelError::InvalidText),
            },
            Err(e) => Err(e),
        }
    }
}

/// Starts a request/response call: the call goes out under
/// `"<fn_name>.<buffer_id>"` with `bytes` as its payload.
pub fn request_bytes(fn_name: &str, bytes: &[u8], buffer_id: u32) -> (call: PendingCall)
    ensures
        call.message@ == message(request_name(fn_name.spec_bytes(), buffer_id), bytes@),
        call.buffer_id == buffer_id,
{
    let mut data: Vec<u8> = Vec::new();
    push_all(&mut data, fn_name.as_bytes());
    data.push(46);
    push_decimal(&mut data, buffer_id);
    data.push(0);
    push_all(&mut data, bytes);
    assert(data@ =~= message(request_name(fn_name.spec_bytes(), buffer_id), bytes@));
    PendingCall { message: data, buffer_id }
}

/// Starts a request/response call whose answer is text.
pub fn request_string(fn_name: &str, bytes: &[u8], buffer_id: u32) -> (call: PendingTextCall)
    ensures
        call.call.message@ == message(request_name(fn_name.spec_bytes(), buffer_id), bytes@),
        call.call.buffer_id == buffer_id,
{
    PendingTextCall { call: request_bytes(fn_name, bytes, buffer_id) }
}

/// Starts a request/response call without a payload.
pub fn get_bytes(fn_name: &str, buffer_id: u32) -> (call: PendingCall)
    ensures
        call.message@ == message(request_name(fn_name.spec_bytes(), buffer_id), Seq::empty()),
        call.buffer_id == buffer_id,
{
    let empty: Vec<u8> = Vec::new();
    request_bytes(fn_name, empty.as_slice(), buffer_id)
}

/// Starts a request/response call without a payload whose answer is text.
pub fn get_string(fn_name: &str, buffer_id: u32) -> (call: PendingTextCall)
    ensures
        call.call.message@ == message(request_name(fn_name.spec_bytes(), buffer_id), Seq::empty()),
        call.call.buffer_id == buffer_id,
{
    PendingTextCall { call: get_bytes(fn_name, buffer_id) }
}

/// The bytes that the host left in a call's buffer are what the call
/// answers, up to the size that the host reported and in their order,
/// whatever the table held before.
pub proof fn lemma_response_is_what_host_wrote(
    table: Map<u32, Seq<u8>>,
    buffer_id: u32,
    written: Seq<u8>,
    size: usize,
)
    requires
        written.len() == BUFFER_SIZE,
        size <= BUFFER_SIZE,
    ensures
        contents(table.insert(buffer_id, written), buffer_id).subrange(0, size as int)
            == written.subrange(0, size as int),
        contents(table.insert(buffer_id, written), buffer_id).subrange(0, size as int).len()
            == size,
        forall|i: int|
            0 <= i < size ==> contents(table.insert(buffer_id, written), buffer_id).subrange(
                0,
                size as int,
            )[i] == written[i],
{
}

/// Asking for a buffer twice gives the same storage: the second look finds
/// what the first one found, and what was written through the first is
/// what the second finds.
pub proof fn lemma_buffer_identity(table: Map<u32, Seq<u8>>, id: u32, written: Seq<u8>)
    ensures
        contents(table.insert(id, contents(table, id)), id) == contents(table, id),
        contents(table.insert(id, written), id) == written,
        forall|other: u32|
            other != id ==> contents(table.insert(id, written), other) == contents(table, other),
{
}

} // verus!
