use vstd::prelude::*;
use bytes::BytesMut;
use crate::progress::Progress;

verus! {

#[verifier::external_type_specification]
#[verifier::external_body]
pub struct ExBytesMut(BytesMut);

#[verifier::external_type_specification]
#[verifier::external_body]
pub struct ExIoError(std::io::Error);

/// The bytes that a `BytesMut` holds, in order.
pub uninterp spec fn buffered(buf: BytesMut) -> Seq<u8>;

/// Calls `BytesMut::with_capacity`: an empty buffer (the capacity is a
/// matter of allocation and is not stated).
#[verifier::external_body]
fn buffer_with_capacity(capacity: usize) -> (b: BytesMut)
    ensures
        buffered(b) == Seq::<u8>::empty(),
{
    BytesMut::with_capacity(capacity)
}

/// Calls `BytesMut::len`: the number of bytes held.
#[verifier::external_body]
fn buffer_len(buf: &BytesMut) -> (n: usize)
    ensures
        n == buffered(*buf).len(),
{
    buf.len()
}

/// Calls `BytesMut::extend_from_slice`: the bytes are appended.  It panics
/// when the new length overflows what an allocation can hold, so that is excluded.
#[verifier::external_body]
fn buffer_extend(buf: &mut BytesMut, data: &[u8])
    requires
        buffered(*old(buf)).len() + data@.len() <= isize::MAX,
    ensures
        buffered(*final(buf)) == buffered(*old(buf)) + data@,
{
    buf.extend_from_slice(data)
}

/// The capacity a connection's read buffer starts with.
pub const READ_BUFFER_CAPACITY: usize = 4096;

/// A connection over the transport `IO`, with the bytes read from it so far.
pub struct HttpConnection<IO> {
    io: IO,
    pub buffer: BytesMut,
}

impl<IO> HttpConnection<IO> {
    /// A connection over `io` that has read nothing yet.
    pub fn new(io: IO) -> (c: Self)
        ensures
            c.io() == io,
            c.read_so_far() == Seq::<u8>::empty(),
    {
        Self { io, buffer: buffer_with_capacity(READ_BUFFER_CAPACITY) }
    }

    /// The transport.
    pub closed spec fn io(&self) -> IO {
        self.io
    }

    /// The bytes read so far.
    pub closed spec fn read_so_far(&self) -> Seq<u8> {
        buffered(self.buffer)
    }

    /// The transport, to read from.
    pub fn io_mut(&mut self) -> (r: &mut IO)
        ensures
            *r == old(self).io(),
            final(self).io() == *final(r),
            final(self).read_so_far() == old(self).read_so_far(),
    {
        &mut self.io
    }

    /// Whether `chunk` can be appended to what has been read without
    /// overflowing the buffer.
    pub fn can_record(&self, chunk: &[u8]) -> (r: bool)
        ensures
            r == (self.read_so_far().len() + chunk@.len() <= isize::MAX),
    {
        let held = buffer_len(&self.buffer);
        let limit = isize::MAX as usize;
        held <= limit && chunk.len() <= limit - held
    }

    /// Appends a chunk that was read from the transport to the buffer.
    pub fn record_read(&mut self, chunk: &[u8])
        requires
            old(self).read_so_far().len() + chunk@.len() <= isize::MAX,
        ensures
            final(self).read_so_far() == old(self).read_so_far() + chunk@,
            final(self).io() == old(self).io(),
    {
        buffer_extend(&mut self.buffer, chunk);
    }
}

/// The reading half of a [`Connection`]: the transport and its read buffer.
pub struct Dispatcher<IO> {
    io: IO,
    buffer: BytesMut,
}

impl<IO> Dispatcher<IO> {
    /// A dispatcher over `io` that has read nothing yet.
    pub fn new(io: IO) -> (d: Self)
        ensures
            d.io() == io,
            buffered(d.buffered_bytes()) == Seq::<u8>::empty(),
    {
        Self { io, buffer: buffer_with_capacity(READ_BUFFER_CAPACITY) }
    }

    /// The transport.
    pub closed spec fn io(&self) -> IO {
        self.io
    }

    /// The read buffer.
    pub closed spec fn buffered_bytes(&self) -> BytesMut {
        self.buffer
    }

    /// The transport, to read from.
    pub fn io_mut(&mut self) -> (r: &mut IO)
        ensures
            *r == old(self).io(),
            final(self).io() == *final(r),
            final(self).buffered_bytes() == old(self).buffered_bytes(),
    {
        &mut self.io
    }

    /// Whether `chunk` can be appended to what has been read without
    /// overflowing the buffer.
    pub fn can_record(&self, chunk: &[u8]) -> (r: bool)
        ensures
            r == (buffered(self.buffered_bytes()).len() + chunk@.len() <= isize::MAX),
    {
        let held = buffer_len(&self.buffer);
        let limit = isize::MAX as usize;
        held <= limit && chunk.len() <= limit - held
    }

    /// Appends a chunk that was read from the transport to the buffer and
    /// returns how many bytes came in.
    pub fn record_read(&mut self, chunk: &[u8]) -> (n: usize)
        requires
            buffered(old(self).buffered_bytes()).len() + chunk@.len() <= isize::MAX,
        ensures
            buffered(final(self).buffered_bytes()) == buffered(old(self).buffered_bytes()) + chunk@,
            final(self).io() == old(self).io(),
            n == chunk@.len(),
    {
        buffer_extend(&mut self.buffer, chunk);
        chunk.len()
    }

    /// The number of bytes read so far.
    pub fn bytes_read(&self) -> (n: usize)
        ensures
            n == buffered(self.buffered_bytes()).len(),
    {
        buffer_len(&self.buffer)
    }
}

/// A named connection that owns a dispatcher.
pub struct Connection<IO> {
    name: &'static str,
    dispatcher: Option<Box<Dispatcher<IO>>>,
}

impl<IO> Connection<IO> {
    /// A connection called `name` over `io`.
    pub fn new(name: &'static str, io: IO) -> (c: Self)
        ensures
            c.name() == name@,
            c.dispatcher() matches Some(d) && d.io() == io && buffered(d.buffered_bytes())
                == Seq::<u8>::empty(),
    {
        Self { name: name, dispatcher: Some(Box::new(Dispatcher::new(io))) }
    }

    /// The connection's name.
    pub closed spec fn name(&self) -> Seq<char> {
        self.name@
    }

    /// The dispatcher, if still owned.
    pub closed spec fn dispatcher(&self) -> Option<Dispatcher<IO>> {
        match self.dispatcher {
            Some(d) => Some(*d),
            None => None,
        }
    }

    /// The connection's name.
    pub fn current_name(&self) -> (s: &'static str)
        ensures
            s@ == self.name(),
    {
        self.name
    }

    /// One poll: the connection renames itself `"abc"` and is never ready.
    pub fn poll(&mut self) -> (r: Progress<Result<usize, std::io::Error>>)
        ensures
            r is Pending,
            final(self).name() == "abc"@,
            final(self).dispatcher() == old(self).dispatcher(),
    {
        self.name = "abc";
        Progress::Pending
    }
}

} // verus!
