//! Assembling a payload from chunks.
//!
//! A payload arrives in pieces, each written at its own offset into a buffer
//! of fixed size. The pieces may come in any order and may be repeated. The
//! payload starts with its own length, so a reader can tell when every byte
//! that the payload declares has been written.

use vstd::prelude::*;
use vstd::bytes::{spec_u32_from_le_bytes, u32_from_le_bytes};
use vstd::slice::slice_subrange;
use crate::error::RoundLoaderError;

verus! {

/// An assembler as plain values.
pub ghost struct AssemblerView {
    /// The bytes of the buffer; zero where nothing was written.
    pub buffer: Seq<u8>,
    /// For each byte of the buffer, whether a chunk has written it.
    pub written: Seq<bool>,
    /// Whether the payload has been accepted; no chunk is taken after that.
    pub sealed: bool,
}

impl AssemblerView {
    /// The marks cover the buffer byte for byte.
    pub open spec fn wf(self) -> bool {
        self.buffer.len() == self.written.len()
    }

    /// A buffer of `capacity` bytes into which nothing has been written.
    pub open spec fn empty(capacity: nat) -> AssemblerView {
        AssemblerView {
            buffer: Seq::new(capacity, |i: int| 0u8),
            written: Seq::new(capacity, |i: int| false),
            sealed: false,
        }
    }
}

/// One piece of a payload: bytes and the offset at which they belong.
pub ghost struct Chunk {
    pub offset: nat,
    pub bytes: Seq<u8>,
}

impl Chunk {
    /// Position `p` lies in the window of the chunk.
    pub open spec fn covers(self, p: int) -> bool {
        self.offset <= p < self.offset + self.bytes.len()
    }

    /// The windows of the two chunks share no position.
    pub open spec fn apart_from(self, other: Chunk) -> bool {
        self.offset + self.bytes.len() <= other.offset || other.offset + other.bytes.len()
            <= self.offset
    }
}

/// What a write does: refused with `AlreadyInitialized` once the payload is
/// sealed, and with `InvalidChunkOffset` where the window reaches past the end
/// of the buffer; otherwise the window takes the bytes of the chunk and is
/// marked written, and nothing else changes.
pub open spec fn write_spec(a: AssemblerView, offset: nat, bytes: Seq<u8>) -> Result<
    AssemblerView,
    RoundLoaderError,
> {
    if a.sealed {
        Err(RoundLoaderError::AlreadyInitialized)
    } else if offset + bytes.len() > a.buffer.len() {
        Err(RoundLoaderError::InvalidChunkOffset)
    } else {
        Ok(
            AssemblerView {
                buffer: Seq::new(
                    a.buffer.len(),
                    |i: int|
                        if offset <= i < offset + bytes.len() {
                            bytes[i - offset]
                        } else {
                            a.buffer[i]
                        },
                ),
                written: Seq::new(
                    a.written.len(),
                    |i: int| (offset <= i < offset + bytes.len()) || a.written[i],
                ),
                sealed: false,
            },
        )
    }
}

/// The chunks written one after another, first to last; the first refusal ends it.
pub open spec fn write_all(a: AssemblerView, chunks: Seq<Chunk>) -> Result<
    AssemblerView,
    RoundLoaderError,
>
    decreases chunks.len(),
{
    if chunks.len() == 0 {
        Ok(a)
    } else {
        match write_all(a, chunks.drop_last()) {
            Ok(mid) => write_spec(mid, chunks.last().offset, chunks.last().bytes),
            Err(e) => Err(e),
        }
    }
}

/// Every chunk lies inside a buffer of `capacity` bytes.
pub open spec fn all_fit(chunks: Seq<Chunk>, capacity: nat) -> bool {
    forall|k: int| 0 <= k < chunks.len() ==> (#[trigger] chunks[k]).offset + chunks[k].bytes.len()
        <= capacity
}

/// No two chunks share a position.
pub open spec fn pairwise_apart(chunks: Seq<Chunk>) -> bool {
    forall|i: int, j: int|
        0 <= i < chunks.len() && 0 <= j < chunks.len() && i != j ==> (#[trigger] chunks[i]).apart_from(
            #[trigger] chunks[j],
        )
}

/// Some chunk covers position `p`.
pub open spec fn covered(chunks: Seq<Chunk>, p: int) -> bool {
    exists|k: int| 0 <= k < chunks.len() && (#[trigger] chunks[k]).covers(p)
}

/// `order` lists each of `0 .. n` once.
pub open spec fn is_permutation(order: Seq<int>, n: nat) -> bool {
    &&& order.len() == n
    &&& forall|i: int| 0 <= i < n ==> 0 <= #[trigger] order[i] < n
    &&& forall|i: int, j: int| 0 <= i < j < n ==> order[i] != order[j]
}

/// The chunks taken in the order that `order` gives.
pub open spec fn rearranged(chunks: Seq<Chunk>, order: Seq<int>) -> Seq<Chunk> {
    Seq::new(order.len(), |i: int| chunks[order[i]])
}

/// The total length that the buffer's first four bytes declare: the prefix
/// itself and the bytes that it announces.
pub open spec fn declared_len(a: AssemblerView) -> int {
    4 + spec_u32_from_le_bytes(a.buffer.subrange(0, 4))
}

/// Every byte that the payload declares has been written.
pub open spec fn complete(a: AssemblerView) -> bool {
    &&& a.buffer.len() >= 4
    &&& declared_len(a) <= a.buffer.len()
    &&& forall|i: int| 0 <= i < declared_len(a) ==> a.written[i]
}

/// The payload, once it is complete: the declared bytes from the start of the buffer.
pub open spec fn payload_spec(a: AssemblerView) -> Option<Seq<u8>> {
    if complete(a) {
        Some(a.buffer.subrange(0, declared_len(a)))
    } else {
        None
    }
}

/// What a run of non-overlapping writes leaves, position by position: a
/// covered position holds the byte of the chunk that covers it and is marked
/// written; every other position is as before.
pub proof fn lemma_write_all_pointwise(a: AssemblerView, chunks: Seq<Chunk>)
    requires
        a.wf(),
        !a.sealed,
        all_fit(chunks, a.buffer.len()),
        pairwise_apart(chunks),
    ensures
        write_all(a, chunks) is Ok,
        ({
            let r = write_all(a, chunks)->Ok_0;
            &&& r.wf()
            &&& !r.sealed
            &&& r.buffer.len() == a.buffer.len()
            &&& forall|p: int|
                0 <= p < a.buffer.len() ==> #[trigger] r.written[p] == (a.written[p] || covered(
                    chunks,
                    p,
                ))
            &&& forall|p: int|
                0 <= p < a.buffer.len() && !covered(chunks, p) ==> #[trigger] r.buffer[p]
                    == a.buffer[p]
            &&& forall|p: int, k: int|
                0 <= k < chunks.len() && (#[trigger] chunks[k]).covers(p) ==> #[trigger] r.buffer[p]
                    == chunks[k].bytes[p - chunks[k].offset]
        }),
    decreases chunks.len(),
{
    if chunks.len() > 0 {
        let head = chunks.drop_last();
        let last = chunks.last();
        let n = chunks.len() as int;
        assert(forall|k: int| 0 <= k < head.len() ==> head[k] == chunks[k]);
        assert(last == chunks[n - 1]);
        lemma_write_all_pointwise(a, head);
        let mid = write_all(a, head)->Ok_0;
        let r = write_all(a, chunks)->Ok_0;
        assert forall|p: int| 0 <= p < a.buffer.len() implies #[trigger] r.written[p] == (
        a.written[p] || covered(chunks, p)) by {
            if last.covers(p) {
                assert(chunks[n - 1].covers(p));
            } else if covered(head, p) {
                let k = choose|k: int| 0 <= k < head.len() && (#[trigger] head[k]).covers(p);
                assert(chunks[k].covers(p));
            } else if covered(chunks, p) {
                let k = choose|k: int| 0 <= k < chunks.len() && (#[trigger] chunks[k]).covers(p);
                assert(head[k].covers(p));
            }
        }
        assert forall|p: int| 0 <= p < a.buffer.len() && !covered(chunks, p) implies #[trigger] r.buffer[p]
            == a.buffer[p] by {
            if last.covers(p) {
                assert(chunks[n - 1].covers(p));
            }
            if covered(head, p) {
                let k = choose|k: int| 0 <= k < head.len() && (#[trigger] head[k]).covers(p);
                assert(chunks[k].covers(p));
            }
        }
        assert forall|p: int, k: int| 0 <= k < chunks.len() && (#[trigger] chunks[k]).covers(
            p,
        ) implies #[trigger] r.buffer[p] == chunks[k].bytes[p - chunks[k].offset] by {
            if k < n - 1 {
                assert(chunks[k].apart_from(chunks[n - 1]));
                assert(head[k].covers(p));
            }
        }
    }
}

/// A permutation of `0 .. n` reaches every index.
pub proof fn lemma_permutation_is_onto(order: Seq<int>, n: nat, k: int)
    requires
        is_permutation(order, n),
        0 <= k < n,
    ensures
        exists|i: int| 0 <= i < n && order[i] == k,
{
    let values = order.to_set();
    let range = Set::new(|x: int| 0 <= x < n);
    assert(order.no_duplicates());
    order.unique_seq_to_set();
    vstd::set_lib::lemma_int_range(0, n as int);
    assert(range =~= vstd::set_lib::set_int_range(0, n as int));
    assert(values.subset_of(range)) by {
        assert forall|x: int| values.contains(x) implies range.contains(x) by {
            let i = choose|i: int| 0 <= i < order.len() && order[i] == x;
            assert(0 <= order[i] < n);
        }
    }
    vstd::set_lib::lemma_subset_equality(values, range);
    assert(values.contains(k));
}

/// The order of non-overlapping writes does not matter: the same chunks,
/// written in any order, leave the same buffer with the same bytes marked.
pub proof fn law_chunk_order_is_irrelevant(a: AssemblerView, chunks: Seq<Chunk>, order: Seq<int>)
    requires
        a.wf(),
        !a.sealed,
        all_fit(chunks, a.buffer.len()),
        pairwise_apart(chunks),
        is_permutation(order, chunks.len()),
    ensures
        write_all(a, chunks) is Ok,
        write_all(a, rearranged(chunks, order)) == write_all(a, chunks),
        payload_spec(write_all(a, rearranged(chunks, order))->Ok_0) == payload_spec(
            write_all(a, chunks)->Ok_0,
        ),
{
    let other = rearranged(chunks, order);
    let n = chunks.len();
    assert(all_fit(other, a.buffer.len()));
    assert(pairwise_apart(other)) by {
        assert forall|i: int, j: int|
            0 <= i < other.len() && 0 <= j < other.len() && i != j implies (#[trigger] other[i]).apart_from(
            #[trigger] other[j],
        ) by {
            assert(order[i] != order[j]);
            assert(chunks[order[i]].apart_from(chunks[order[j]]));
        }
    }
    lemma_write_all_pointwise(a, chunks);
    lemma_write_all_pointwise(a, other);
    let r1 = write_all(a, chunks)->Ok_0;
    let r2 = write_all(a, other)->Ok_0;
    assert forall|p: int| 0 <= p < a.buffer.len() implies covered(chunks, p) == covered(
        other,
        p,
    ) by {
        if covered(chunks, p) {
            let k = choose|k: int| 0 <= k < chunks.len() && (#[trigger] chunks[k]).covers(p);
            lemma_permutation_is_onto(order, n, k);
            let i = choose|i: int| 0 <= i < n && order[i] == k;
            assert(other[i].covers(p));
        }
        if covered(other, p) {
            let i = choose|i: int| 0 <= i < other.len() && (#[trigger] other[i]).covers(p);
            assert(chunks[order[i]].covers(p));
        }
    }
    assert forall|p: int| 0 <= p < a.buffer.len() implies r1.buffer[p] == r2.buffer[p] by {
        if covered(chunks, p) {
            let k = choose|k: int| 0 <= k < chunks.len() && (#[trigger] chunks[k]).covers(p);
            lemma_permutation_is_onto(order, n, k);
            let i = choose|i: int| 0 <= i < n && order[i] == k;
            assert(other[i].covers(p));
            assert(r1.buffer[p] == chunks[k].bytes[p - chunks[k].offset]);
            assert(r2.buffer[p] == other[i].bytes[p - other[i].offset]);
        } else {
            assert(r1.buffer[p] == a.buffer[p]);
            assert(r2.buffer[p] == a.buffer[p]);
        }
    }
    assert(r1.buffer =~= r2.buffer);
    assert forall|p: int| 0 <= p < a.buffer.len() implies r1.written[p] == r2.written[p] by {
        assert(r1.written[p] == (a.written[p] || covered(chunks, p)));
        assert(r2.written[p] == (a.written[p] || covered(other, p)));
    }
    assert(r1.written =~= r2.written);
}

/// Writing the same chunk again changes nothing.
pub proof fn law_repeated_write_changes_nothing(a: AssemblerView, offset: nat, bytes: Seq<u8>)
    requires
        a.wf(),
        write_spec(a, offset, bytes) is Ok,
    ensures
        write_spec(write_spec(a, offset, bytes)->Ok_0, offset, bytes) == write_spec(
            a,
            offset,
            bytes,
        ),
{
    let once = write_spec(a, offset, bytes)->Ok_0;
    let twice = write_spec(once, offset, bytes)->Ok_0;
    assert(once.buffer =~= twice.buffer);
    assert(once.written =~= twice.written);
}

/// Chunks that together cover a payload assemble it: when every position of
/// `payload` lies in a chunk that carries the payload's byte for it, and the
/// payload's first four bytes declare its length, then the assembler is
/// complete after the writes and holds exactly `payload`.
pub proof fn law_covering_chunks_assemble_payload(
    a: AssemblerView,
    chunks: Seq<Chunk>,
    payload: Seq<u8>,
)
    requires
        a.wf(),
        !a.sealed,
        all_fit(chunks, a.buffer.len()),
        pairwise_apart(chunks),
        payload.len() >= 4,
        payload.len() == 4 + spec_u32_from_le_bytes(payload.subrange(0, 4)),
        forall|p: int| 0 <= p < payload.len() ==> covered(chunks, p),
        forall|p: int, k: int|
            0 <= p < payload.len() && 0 <= k < chunks.len() && (#[trigger] chunks[k]).covers(p)
                ==> chunks[k].bytes[p - chunks[k].offset] == #[trigger] payload[p],
    ensures
        write_all(a, chunks) is Ok,
        payload_spec(write_all(a, chunks)->Ok_0) == Some(payload),
{
    lemma_write_all_pointwise(a, chunks);
    let r = write_all(a, chunks)->Ok_0;
    assert forall|p: int| 0 <= p < payload.len() implies p < a.buffer.len() && r.buffer[p]
        == #[trigger] payload[p] by {
        assert(covered(chunks, p));
        let k = choose|k: int| 0 <= k < chunks.len() && (#[trigger] chunks[k]).covers(p);
        assert(chunks[k].offset + chunks[k].bytes.len() <= a.buffer.len());
        assert(r.buffer[p] == chunks[k].bytes[p - chunks[k].offset]);
    }
    assert(r.buffer[payload.len() - 1] == payload[payload.len() - 1]);
    assert(payload.len() <= a.buffer.len());
    assert forall|p: int| 0 <= p < payload.len() implies #[trigger] r.written[p] by {
        assert(covered(chunks, p));
        assert(r.written[p] == (a.written[p] || covered(chunks, p)));
    }
    assert(r.buffer.subrange(0, 4) =~= payload.subrange(0, 4));
    assert(declared_len(r) == payload.len());
    assert(r.buffer.subrange(0, declared_len(r)) =~= payload);
}

/// Where some declared byte has not been written, there is no payload yet.
pub proof fn law_missing_byte_means_incomplete(a: AssemblerView, p: int)
    requires
        a.wf(),
        0 <= p < declared_len(a),
        p < a.buffer.len() ==> !a.written[p],
    ensures
        payload_spec(a) is None,
{
    if complete(a) {
        assert(a.written[p]);
    }
}

/// Collects a payload that arrives in chunks.
pub struct ChunkedEventAssembler {
    buffer: Vec<u8>,
    written: Vec<bool>,
    sealed: bool,
}

impl View for ChunkedEventAssembler {
    type V = AssemblerView;

    closed spec fn view(&self) -> AssemblerView {
        AssemblerView { buffer: self.buffer@, written: self.written@, sealed: self.sealed }
    }
}

impl ChunkedEventAssembler {
    /// What holds of every assembler that exists at run time.
    #[verifier::type_invariant]
    pub open spec fn inv(&self) -> bool {
        self@.wf()
    }

    /// An assembler with a zeroed buffer of `capacity` bytes, none of them written.
    pub fn new(capacity: usize) -> (assembler: ChunkedEventAssembler)
        ensures
            assembler@ == AssemblerView::empty(capacity as nat),
    {
        let buffer: Vec<u8> = vec![0u8; capacity];
        let written: Vec<bool> = vec![false; capacity];
        assert(buffer@ =~= Seq::new(capacity as nat, |i: int| 0u8));
        assert(written@ =~= Seq::new(capacity as nat, |i: int| false));
        ChunkedEventAssembler { buffer, written, sealed: false }
    }

    /// The size of the buffer.
    pub fn capacity(&self) -> (n: usize)
        ensures
            n == self@.buffer.len(),
    {
        self.buffer.len()
    }

    /// Whether the payload has been accepted.
    pub fn is_sealed(&self) -> (sealed: bool)
        ensures
            sealed == self@.sealed,
    {
        self.sealed
    }

    /// Writes `bytes` at `offset`, as `write_spec` says. On a refusal the
    /// assembler is unchanged.
    pub fn write(&mut self, offset: u32, bytes: &Vec<u8>) -> (outcome: Result<(), RoundLoaderError>)
        ensures
            match write_spec(old(self)@, offset as nat, bytes@) {
                Ok(next) => outcome is Ok && final(self)@ == next,
                Err(e) => outcome == Err::<(), RoundLoaderError>(e) && final(self)@ == old(self)@,
            },
    {
        proof {
            use_type_invariant(&*self);
        }
        if self.sealed {
            return Err(RoundLoaderError::AlreadyInitialized);
        }
        let capacity = self.buffer.len();
        let count = bytes.len();
        let start = offset as usize;
        if count > capacity || start > capacity - count {
            return Err(RoundLoaderError::InvalidChunkOffset);
        }
        let ghost before = self@;
        let mut i: usize = 0;
        while i < count
            invariant
                count == bytes.len(),
                start + count <= capacity,
                capacity == before.buffer.len(),
                before.wf(),
                !before.sealed,
                i <= count,
                self@.sealed == before.sealed,
                self@.buffer.len() == capacity,
                self@.written.len() == capacity,
                forall|p: int|
                    0 <= p < capacity ==> #[trigger] self@.buffer[p] == if start <= p < start + i {
                        bytes@[p - start]
                    } else {
                        before.buffer[p]
                    },
                forall|p: int|
                    0 <= p < capacity ==> #[trigger] self@.written[p] == ((start <= p < start + i)
                        || before.written[p]),
            decreases count - i,
        {
            self.buffer[start + i] = bytes[i];
            self.written[start + i] = true;
            i += 1;
        }
        proof {
            let next = write_spec(before, offset as nat, bytes@)->Ok_0;
            assert(self@.buffer =~= next.buffer);
            assert(self@.written =~= next.written);
        }
        Ok(())
    }

    /// Whether every byte that the payload declares has been written.
    pub fn is_complete(&self) -> (done: bool)
        ensures
            done == complete(self@),
    {
        proof {
            use_type_invariant(self);
        }
        let capacity = self.buffer.len();
        if capacity < 4 {
            return false;
        }
        let announced = u32_from_le_bytes(slice_subrange(self.buffer.as_slice(), 0, 4));
        if announced as usize > capacity - 4 {
            return false;
        }
        let total = 4 + announced as usize;
        let mut i: usize = 0;
        while i < total
            invariant
                total <= capacity,
                capacity == self.written.len(),
                total == declared_len(self@),
                i <= total,
                forall|p: int| 0 <= p < i ==> self.written@[p],
            decreases total - i,
        {
            if !self.written[i] {
                assert(!self@.written[i as int]);
                return false;
            }
            i += 1;
        }
        true
    }

    /// The payload: `Some` once it is complete, with the declared bytes from
    /// the start of the buffer; `None` before.
    pub fn payload(&self) -> (bytes: Option<Vec<u8>>)
        ensures
            match bytes {
                Some(b) => payload_spec(self@) == Some(b@),
                None => payload_spec(self@) is None,
            },
    {
        if !self.is_complete() {
            return None;
        }
        let announced = u32_from_le_bytes(slice_subrange(self.buffer.as_slice(), 0, 4));
        let capacity = self.buffer.len();
        assert(4 + announced == declared_len(self@) && declared_len(self@) <= capacity);
        let total = 4 + announced as usize;
        let mut out: Vec<u8> = Vec::new();
        let mut i: usize = 0;
        while i < total
            invariant
                total <= self.buffer.len(),
                i <= total,
                out@ == self.buffer@.subrange(0, i as int),
            decreases total - i,
        {
            out.push(self.buffer[i]);
            assert(self.buffer@.subrange(0, i + 1) =~= self.buffer@.subrange(0, i as int).push(
                self.buffer@[i as int],
            ));
            i += 1;
        }
        Some(out)
    }

    /// Accepts the payload: from now on every write is refused.
    pub fn seal(&mut self)
        ensures
            final(self)@ == (AssemblerView {
                buffer: old(self)@.buffer,
                written: old(self)@.written,
                sealed: true,
            }),
    {
        proof {
            use_type_invariant(&*self);
        }
        self.sealed = true;
    }
}

} // verus!
