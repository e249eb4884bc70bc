//! Bounded FIFO of raw bytes between the transport and the frame decoder.

use vstd::prelude::*;

verus! {

/// Capacity of the scan buffer: the size of the transport's receive buffer.
pub const BUF_SIZE: usize = 64;

/// `heapless::Deque`, a queue of fixed capacity that lives without a heap. Its
/// fields are not looked at: what it holds is known through [`queued`] alone.
#[verifier::external_type_specification]
#[verifier::external_body]
#[verifier::reject_recursive_types(T)]
pub struct ExDeque<T, const N: usize>(heapless::Deque<T, N>);

/// The bytes that a `heapless::Deque` holds, front first.
pub uninterp spec fn queued(queue: heapless::Deque<u8, BUF_SIZE>) -> Seq<u8>;

/// `heapless::Deque::new`: a queue that holds nothing.
#[verifier::external_body]
fn queue_new() -> (queue: heapless::Deque<u8, BUF_SIZE>)
    ensures
        queued(queue) == Seq::<u8>::empty(),
{
    heapless::Deque::new()
}

/// `heapless::Deque::len`: the number of bytes held, which is never above the capacity.
#[verifier::external_body]
fn queue_len(queue: &heapless::Deque<u8, BUF_SIZE>) -> (n: usize)
    ensures
        n == queued(*queue).len(),
        n <= BUF_SIZE,
{
    queue.len()
}

/// `heapless::Deque::push_back`: a queue that is not full takes the byte at its back;
/// a full queue hands the byte back and stays as it is.
#[verifier::external_body]
fn queue_push_back(queue: &mut heapless::Deque<u8, BUF_SIZE>, byte: u8) -> (r: Result<(), u8>)
    ensures
        r is Ok <==> queued(*old(queue)).len() < BUF_SIZE,
        r is Ok ==> queued(*final(queue)) == queued(*old(queue)).push(byte),
        r is Err ==> r->Err_0 == byte && queued(*final(queue)) == queued(*old(queue)),
{
    queue.push_back(byte)
}

/// `heapless::Deque::pop_front`: takes the byte at the front out, or returns `None`
/// and changes nothing where the queue is empty.
#[verifier::external_body]
fn queue_pop_front(queue: &mut heapless::Deque<u8, BUF_SIZE>) -> (r: Option<u8>)
    ensures
        r is None <==> queued(*old(queue)).len() == 0,
        r is None ==> queued(*final(queue)) == queued(*old(queue)),
        r is Some ==> r->Some_0 == queued(*old(queue))[0] && queued(*final(queue)) == queued(
            *old(queue),
        ).drop_first(),
{
    queue.pop_front()
}

/// `heapless::Deque::clear`: removes every byte.
#[verifier::external_body]
fn queue_clear(queue: &mut heapless::Deque<u8, BUF_SIZE>)
    ensures
        queued(*final(queue)) == Seq::<u8>::empty(),
{
    queue.clear()
}

/// `heapless::Deque::iter`: the bytes held, front first, copied out.
#[verifier::external_body]
fn queue_bytes(queue: &heapless::Deque<u8, BUF_SIZE>) -> (bytes: Vec<u8>)
    ensures
        bytes@ == queued(*queue),
{
    queue.iter().copied().collect()
}

/// Why a push was not admitted.
#[derive(Debug, Clone, Copy, PartialEq, Eq, Structural)]
pub enum Error {
    /// The slice did not fit into what was left of the buffer.
    Full,
}

/// A byte queue of capacity [`BUF_SIZE`]. The transport appends at the back, the
/// decoder reads and removes at the front.
pub struct ScanBuf {
    queue: heapless::Deque<u8, BUF_SIZE>,
}

impl ScanBuf {
    /// The buffered bytes, oldest first.
    pub closed spec fn view(&self) -> Seq<u8> {
        queued(self.queue)
    }

    pub fn new() -> (buf: Self)
        ensures
            buf@ == Seq::<u8>::empty(),
    {
        ScanBuf { queue: queue_new() }
    }

    /// Number of buffered bytes.
    pub fn len(&self) -> (n: usize)
        ensures
            n == self@.len(),
            n <= BUF_SIZE,
    {
        queue_len(&self.queue)
    }

    /// Appends `slice`. A slice that does not fit is not admitted in part: the whole
    /// buffer is cleared and the push fails.
    pub fn push_slice(&mut self, slice: &[u8]) -> (r: Result<(), Error>)
        ensures
            old(self)@.len() + slice@.len() <= BUF_SIZE ==> r is Ok && final(self)@ == old(self)@
                + slice@,
            old(self)@.len() + slice@.len() > BUF_SIZE ==> r == Err::<(), Error>(Error::Full)
                && final(self)@ == Seq::<u8>::empty(),
            final(self)@.len() <= BUF_SIZE,
    {
        let mut i: usize = 0;
        while i < slice.len()
            invariant
                i <= slice@.len(),
                self@ == old(self)@ + slice@.subrange(0, i as int),
            decreases slice@.len() - i,
        {
            let pushed = queue_push_back(&mut self.queue, slice[i]);
            if pushed.is_err() {
                queue_clear(&mut self.queue);
                return Err(Error::Full);
            }
            assert(slice@.subrange(0, i + 1) == slice@.subrange(0, i as int).push(slice@[i as int]));
            i += 1;
        }
        assert(slice@.subrange(0, i as int) == slice@);
        let _ = queue_len(&self.queue);
        Ok(())
    }

    /// Removes `n` bytes from the front, or all of them where fewer are buffered.
    pub fn eat(&mut self, n: usize)
        ensures
            n <= old(self)@.len() ==> final(self)@ == old(self)@.subrange(
                n as int,
                old(self)@.len() as int,
            ),
            n > old(self)@.len() ==> final(self)@ == Seq::<u8>::empty(),
    {
        let mut i: usize = 0;
        while i < n
            invariant
                i <= n,
                i <= old(self)@.len(),
                self@ == old(self)@.subrange(i as int, old(self)@.len() as int),
            decreases n - i,
        {
            if queue_pop_front(&mut self.queue).is_none() {
                return ;
            }
            i += 1;
        }
    }

    /// Drops every buffered byte.
    pub fn clear(&mut self)
        ensures
            final(self)@ == Seq::<u8>::empty(),
    {
        queue_clear(&mut self.queue);
    }

    /// The queue itself.
    pub fn inner(&self) -> (queue: &heapless::Deque<u8, BUF_SIZE>)
        ensures
            queued(*queue) == self@,
    {
        &self.queue
    }

    /// A copy of the buffered bytes, oldest first.
    pub fn bytes(&self) -> (bytes: Vec<u8>)
        ensures
            bytes@ == self@,
    {
        queue_bytes(&self.queue)
    }
}

} // verus!
