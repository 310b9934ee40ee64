//! Bump allocators.
//!
//! Memory is handed out from front to back and given back all at once. What is handed out is named
//! by where it starts in the memory it comes from, and aligned by its address.

use vstd::arithmetic::div_mod::{lemma_fundamental_div_mod, lemma_mod_multiples_vanish};
use vstd::prelude::*;

use crate::check_intrinsics::power_of_two;

verus! {

pub const DEFAULT_CHUNK_SIZE: usize = 4096;

/// The smallest multiple of an alignment that is not less than a value.
pub open spec fn aligned(value: int, align: int) -> int {
    if value % align == 0 {
        value
    } else {
        value + (align - value % align)
    }
}

/// An aligned value is a multiple of the alignment, and there is none between the value and it.
pub proof fn aligned_is_least(value: int, align: int)
    requires
        0 <= value,
        0 < align,
    ensures
        aligned(value, align) % align == 0,
        value <= aligned(value, align) < value + align,
        forall|other: int| value <= other && #[trigger] (other % align) == 0 ==> aligned(value, align) <= other,
{
    let rest = value % align;
    let count = value / align;
    lemma_fundamental_div_mod(value, align);
    assert(0 <= rest < align);
    assert(value == align * count + rest);
    if rest != 0 {
        assert(align * count + align == align * (count + 1)) by (nonlinear_arith);
        assert(aligned(value, align) == align * (count + 1));
        lemma_mod_multiples_vanish(count + 1, 0, align);
        assert((align * (count + 1) + 0) % align == 0int % align);
    }
    assert forall|other: int| value <= other && #[trigger] (other % align) == 0 implies aligned(
        value,
        align,
    ) <= other by {
        if rest != 0 {
            let times = other / align;
            lemma_fundamental_div_mod(other, align);
            assert(times >= count + 1) by (nonlinear_arith)
                requires
                    align * count + rest <= align * times,
                    0 < rest,
                    0 < align,
            ;
            assert(align * times >= align * (count + 1)) by (nonlinear_arith)
                requires
                    times >= count + 1,
                    0 < align,
            ;
        }
    }
}

/// The smallest multiple of a power of two that is not less than a value.
pub fn align_up(value: usize, align: usize) -> (result: usize)
    requires
        power_of_two(align as int),
        value + align - 1 <= usize::MAX,
    ensures
        result == aligned(value as int, align as int),
{
    let rest: usize = value % align;
    proof {
        aligned_is_least(value as int, align as int);
    }
    if rest == 0 {
        value
    } else {
        value + (align - rest)
    }
}

/// Where an allocation starts and ends in memory that lies at an address and is used up to an offset,
/// if it fits. Its own address is a multiple of the alignment.
pub open spec fn fitted(base: nat, offset: nat, capacity: nat, size: nat, align: nat) -> Option<
    (nat, nat),
> {
    let start = aligned((base + offset) as int, align as int) - base;
    if start + size > capacity {
        None
    } else {
        Some((start as nat, (start + size) as nat))
    }
}

proof fn powers_divide(small: int, large: int)
    requires
        power_of_two(small),
        power_of_two(large),
        small <= large,
    ensures
        large % small == 0,
    decreases small,
{
    if small > 1 {
        powers_divide(small / 2, large / 2);
        lemma_fundamental_div_mod(large / 2, small / 2);
        let times = (large / 2) / (small / 2);
        assert(large == small * times) by (nonlinear_arith)
            requires
                large == 2 * (large / 2),
                small == 2 * (small / 2),
                large / 2 == (small / 2) * times,
        ;
        lemma_mod_multiples_vanish(times, 0, small);
        assert(small * times + 0 == large);
    }
}

proof fn multiples_shift(base: int, value: int, align: int, whole: int)
    requires
        0 < align,
        0 < whole,
        whole % align == 0,
        base % whole == 0,
    ensures
        base % align == 0,
        (base + value) % align == value % align,
{
    lemma_fundamental_div_mod(base, whole);
    lemma_fundamental_div_mod(whole, align);
    let times = (base / whole) * (whole / align);
    assert(base == align * times) by (nonlinear_arith)
        requires
            base == whole * (base / whole),
            whole == align * (whole / align),
            times == (base / whole) * (whole / align),
    ;
    lemma_mod_multiples_vanish(times, value, align);
    lemma_mod_multiples_vanish(times, 0, align);
}

/// Where memory is itself aligned to what is asked for or more, its address makes no difference.
pub proof fn small_alignments_ignore_the_address(
    base: nat,
    offset: nat,
    capacity: nat,
    size: nat,
    align: nat,
    whole: nat,
)
    requires
        power_of_two(align as int),
        power_of_two(whole as int),
        align <= whole,
        base % whole == 0,
    ensures
        fitted(base, offset, capacity, size, align) == fitted(0, offset, capacity, size, align),
        size <= capacity ==> fitted(base, 0, capacity, size, align) == Some((0nat, size)),
{
    powers_divide(align as int, whole as int);
    multiples_shift(base as int, offset as int, align as int, whole as int);
    multiples_shift(base as int, 0, align as int, whole as int);
    assert(0int % (align as int) == 0);
}

/// Where an allocation starts and ends.
fn fit(base: usize, offset: usize, capacity: usize, size: usize, align: usize) -> (place: Option<
    (usize, usize),
>)
    requires
        power_of_two(align as int),
        offset <= capacity,
        base + capacity <= usize::MAX,
    ensures
        match place {
            Some((start, end)) => {
                &&& fitted(
                    base as nat,
                    offset as nat,
                    capacity as nat,
                    size as nat,
                    align as nat,
                ) == Some((start as nat, end as nat))
                &&& offset <= start <= end <= capacity
                &&& end - start == size
            },
            None => fitted(
                base as nat,
                offset as nat,
                capacity as nat,
                size as nat,
                align as nat,
            ) is None,
        },
{
    proof {
        aligned_is_least(base + offset, align as int);
    }
    let rest: usize = (base + offset) % align;
    let gap: usize = if rest == 0 {
        0
    } else {
        align - rest
    };
    let free: usize = capacity - offset;
    if gap > free || size > free - gap {
        None
    } else {
        Some((offset + gap, offset + gap + size))
    }
}

/// Memory with some bytes written over.
pub open spec fn written(memory: Seq<u8>, start: int, bytes: Seq<u8>) -> Seq<u8> {
    Seq::new(
        memory.len(),
        |i: int|
            if start <= i < start + bytes.len() {
                bytes[i - start]
            } else {
                memory[i]
            },
    )
}

fn write_at(memory: &mut Vec<u8>, start: usize, bytes: &[u8])
    requires
        start + bytes@.len() <= old(memory)@.len(),
    ensures
        final(memory)@ == written(old(memory)@, start as int, bytes@),
{
    let ghost before = memory@;
    let total: usize = memory.len();
    let mut done: usize = 0;
    while done < bytes.len()
        invariant
            start + bytes@.len() <= before.len() == total,
            done <= bytes@.len(),
            memory@ == written(before, start as int, bytes@.take(done as int)),
        decreases bytes.len() - done,
    {
        memory.set(start + done, bytes[done]);
        done = done + 1;
    }
    assert(bytes@.take(bytes@.len() as int) == bytes@);
}

/// `Vec::as_ptr`, as a number: the address of the first byte. No memory reaches beyond the end of the
/// address space. Which address it is depends on the allocator, so nothing more is said of it.
#[verifier::external_body]
fn address_of(memory: &Vec<u8>) -> (address: usize)
    ensures
        address + memory@.len() <= usize::MAX,
{
    memory.as_ptr() as usize
}

/// Memory whose address is a multiple of an alignment: a part of a vector that is large enough to
/// hold such a part, wherever it lies. The vector keeps its size, and so its address.
#[derive(Debug)]
struct Buffer {
    memory: Vec<u8>,
    lead: usize,
    size: usize,
    base: usize,
}

impl Buffer {
    spec fn bytes(self) -> Seq<u8> {
        Seq::new(self.size as nat, |i: int| self.memory@[self.lead + i])
    }

    spec fn wf(self) -> bool {
        &&& self.lead + self.size <= self.memory@.len() <= usize::MAX
        &&& self.base + self.size <= usize::MAX
    }

    fn new(capacity: usize, align: usize) -> (buffer: Buffer)
        requires
            power_of_two(align as int),
            capacity + align - 1 <= isize::MAX,
        ensures
            buffer.wf(),
            buffer.bytes().len() == capacity,
            buffer.size == capacity,
            buffer.base % align == 0,
    {
        let memory: Vec<u8> = vec![0u8; capacity + (align - 1)];
        let address: usize = address_of(&memory);
        proof {
            aligned_is_least(address as int, align as int);
        }
        let rest: usize = address % align;
        let lead: usize = if rest == 0 {
            0
        } else {
            align - rest
        };
        Buffer { memory, lead, size: capacity, base: address + lead }
    }

    fn write(&mut self, start: usize, bytes: &[u8])
        requires
            old(self).wf(),
            start + bytes@.len() <= old(self).size,
        ensures
            final(self).wf(),
            final(self).bytes() == written(old(self).bytes(), start as int, bytes@),
            final(self).base == old(self).base,
            final(self).size == old(self).size,
    {
        let at: usize = self.lead + start;
        write_at(&mut self.memory, at, bytes);
        assert(self.bytes() == written(old(self).bytes(), start as int, bytes@));
    }

    fn part(&self, start: usize, end: usize) -> (part: &[u8])
        requires
            self.wf(),
            start <= end <= self.size,
        ensures
            part@ == self.bytes().subrange(start as int, end as int),
    {
        let total: usize = self.memory.len();
        let part = vstd::slice::slice_subrange(
            self.memory.as_slice(),
            self.lead + start,
            self.lead + end,
        );
        assert(part@ == self.bytes().subrange(start as int, end as int));
        part
    }
}

/// One piece of memory.
#[derive(Debug)]
pub struct Bump {
    buffer: Buffer,
    offset: usize,
    align: usize,
}

impl Bump {
    /// The bytes of the memory.
    pub closed spec fn bytes(self) -> Seq<u8> {
        self.buffer.bytes()
    }

    /// The address of the first byte.
    pub closed spec fn base(self) -> nat {
        self.buffer.base as nat
    }

    /// How many bytes are used.
    pub closed spec fn used(self) -> nat {
        self.offset as nat
    }

    /// What the memory as a whole is aligned to.
    pub closed spec fn alignment(self) -> usize {
        self.align
    }

    pub closed spec fn sound(self) -> bool {
        self.buffer.wf()
    }

    pub open spec fn wf(self) -> bool {
        &&& self.sound()
        &&& self.used() <= self.bytes().len()
        &&& self.base() + self.bytes().len() <= usize::MAX
        &&& power_of_two(self.alignment() as int)
        &&& self.base() % (self.alignment() as nat) == 0
    }

    pub fn new() -> (bump: Bump)
        ensures
            bump.wf(),
            bump.used() == 0,
            bump.bytes().len() == DEFAULT_CHUNK_SIZE,
            bump.alignment() == 8,
    {
        Self::with_capacity(DEFAULT_CHUNK_SIZE)
    }

    pub fn with_capacity(capacity: usize) -> (bump: Bump)
        requires
            capacity + 7 <= isize::MAX,
        ensures
            bump.wf(),
            bump.used() == 0,
            bump.bytes().len() == capacity,
            bump.alignment() == 8,
    {
        proof {
            reveal_with_fuel(power_of_two, 4);
        }
        Self::with_capacity_and_aligned(capacity, 8)
    }

    pub fn with_capacity_and_aligned(capacity: usize, align: usize) -> (bump: Bump)
        requires
            power_of_two(align as int),
            capacity + align - 1 <= isize::MAX,
        ensures
            bump.wf(),
            bump.used() == 0,
            bump.bytes().len() == capacity,
            bump.alignment() == align,
    {
        Bump { buffer: Buffer::new(capacity, align), offset: 0, align }
    }

    /// The address of the first byte.
    pub fn base_address(&self) -> (address: usize)
        ensures
            address == self.base(),
    {
        self.buffer.base
    }

    /// Stores bytes behind what is used, at the next address that is a multiple of an alignment, and
    /// tells where. What was stored before stays as it is.
    pub fn allocate(&mut self, bytes: &[u8], align: usize) -> (place: Option<usize>)
        requires
            old(self).wf(),
            power_of_two(align as int),
        ensures
            final(self).wf(),
            final(self).alignment() == old(self).alignment(),
            final(self).base() == old(self).base(),
            match fitted(
                old(self).base(),
                old(self).used(),
                old(self).bytes().len(),
                bytes@.len(),
                align as nat,
            ) {
                Some((start, end)) => {
                    &&& place matches Some(at) && at == start
                    &&& final(self).used() == end
                    &&& final(self).bytes() == written(old(self).bytes(), start as int, bytes@)
                },
                None => place is None && *final(self) == *old(self),
            },
    {
        match fit(self.buffer.base, self.offset, self.buffer.size, bytes.len(), align) {
            None => None,
            Some((start, end)) => {
                self.buffer.write(start, bytes);
                self.offset = end;
                Some(start)
            },
        }
    }

    /// The used part of the memory.
    pub fn get_slice(&self) -> (used: &[u8])
        requires
            self.wf(),
        ensures
            used@ == self.bytes().take(self.used() as int),
    {
        self.buffer.part(0, self.offset)
    }

    /// Gives all memory back.
    pub fn reset(&mut self)
        requires
            old(self).wf(),
        ensures
            final(self).wf(),
            final(self).used() == 0,
            final(self).bytes() == old(self).bytes(),
            final(self).base() == old(self).base(),
            final(self).alignment() == old(self).alignment(),
    {
        self.offset = 0;
    }
}

/// Two allocations, one after the other, do not overlap, and the second leaves alone what the first
/// stored. The address of each is a multiple of its alignment.
pub proof fn allocations_keep_apart(
    base: nat,
    memory: Seq<u8>,
    used: nat,
    first: Seq<u8>,
    first_align: nat,
    second: Seq<u8>,
    second_align: nat,
)
    requires
        0 < first_align,
        0 < second_align,
        fitted(base, used, memory.len(), first.len(), first_align) is Some,
        fitted(
            base,
            (fitted(base, used, memory.len(), first.len(), first_align)->0).1,
            memory.len(),
            second.len(),
            second_align,
        ) is Some,
    ensures
        ({
            let (start, end) = fitted(base, used, memory.len(), first.len(), first_align)->0;
            let (next, last) = fitted(base, end, memory.len(), second.len(), second_align)->0;
            let after = written(written(memory, start as int, first), next as int, second);
            &&& used <= start
            &&& end <= next
            &&& (base + start) % first_align == 0
            &&& (base + next) % second_align == 0
            &&& after.subrange(start as int, end as int) == first
            &&& after.subrange(next as int, last as int) == second
        }),
{
    let (start, end) = fitted(base, used, memory.len(), first.len(), first_align)->0;
    let (next, last) = fitted(base, end, memory.len(), second.len(), second_align)->0;
    aligned_is_least((base + used) as int, first_align as int);
    aligned_is_least((base + end) as int, second_align as int);
    let after = written(written(memory, start as int, first), next as int, second);
    assert(after.subrange(start as int, end as int) == first);
    assert(after.subrange(next as int, last as int) == second);
}

/// Where an allocation of a growing allocator is: in which piece, from where on, and how long it is.
#[derive(Clone, Copy, Debug, PartialEq, Eq, Structural)]
pub struct Place {
    pub chunk: usize,
    pub start: usize,
    pub len: usize,
}

/// Pieces of memory, with a new one where the last is full.
#[derive(Debug)]
pub struct GrowableBump {
    chunks: Vec<Bump>,
    align: usize,
}

impl GrowableBump {
    pub closed spec fn pieces(self) -> Seq<Bump> {
        self.chunks@
    }

    pub closed spec fn alignment(self) -> usize {
        self.align
    }

    pub open spec fn wf(self) -> bool {
        &&& self.pieces().len() > 0
        &&& power_of_two(self.alignment() as int)
        &&& forall|i: int| 0 <= i < self.pieces().len() ==> (#[trigger] self.pieces()[i]).wf()
    }

    /// The bytes at a place.
    pub open spec fn stored(self, place: Place) -> Seq<u8> {
        if place.len == 0 {
            Seq::empty()
        } else {
            self.pieces()[place.chunk as int].bytes().subrange(
                place.start as int,
                place.start + place.len,
            )
        }
    }

    /// Whether a place lies in used memory.
    pub open spec fn holds(self, place: Place) -> bool {
        place.len == 0 || (place.chunk < self.pieces().len() && place.start + place.len
            <= self.pieces()[place.chunk as int].used())
    }

    pub fn new(initial_capacity: usize, align: usize) -> (bump: GrowableBump)
        requires
            power_of_two(align as int),
            initial_capacity + align - 1 <= isize::MAX,
        ensures
            bump.wf(),
            bump.pieces().len() == 1,
            bump.pieces()[0].used() == 0,
            bump.pieces()[0].bytes().len() == initial_capacity,
            bump.alignment() == align,
    {
        let mut chunks: Vec<Bump> = Vec::new();
        chunks.push(Bump::with_capacity_and_aligned(initial_capacity, align));
        GrowableBump { chunks, align }
    }

    /// How large a new piece is made for an allocation that the last piece has no room for: twice the
    /// size of the larger of the two.
    pub open spec fn grown_capacity(self, size: nat) -> nat {
        let capacity = self.pieces().last().bytes().len();
        2 * (if capacity < size {
            size
        } else {
            capacity
        })
    }

    /// Whether two places have no byte in common: the first lies in an earlier piece, or further to
    /// the front of the same.
    pub open spec fn precedes(earlier: Place, later: Place) -> bool {
        earlier.len == 0 || later.len == 0 || earlier.chunk < later.chunk || (earlier.chunk
            == later.chunk && earlier.start + earlier.len <= later.start)
    }

    /// Whether a new piece, as large as it is made for an allocation, was added to those there were.
    pub open spec fn gained_piece(self, earlier: GrowableBump, size: nat) -> bool {
        &&& self.pieces().drop_last() == earlier.pieces()
        &&& self.pieces().last().bytes().len() == earlier.grown_capacity(size)
        &&& self.pieces().last().alignment() == earlier.alignment()
    }

    /// Whether a new piece would be larger than memory can be.
    pub open spec fn too_large(self, size: nat) -> bool {
        self.grown_capacity(size) + self.alignment() - 1 > isize::MAX
    }

    /// Where an allocation fits into the last piece.
    pub open spec fn room(self, size: nat, align: nat) -> Option<(nat, nat)> {
        let last = self.pieces().last();
        fitted(last.base(), last.used(), last.bytes().len(), size, align)
    }

    /// Where an allocation fits into the last piece as long as nothing of it is used.
    pub open spec fn room_when_new(self, size: nat, align: nat) -> Option<(nat, nat)> {
        let last = self.pieces().last();
        fitted(last.base(), 0, last.bytes().len(), size, align)
    }

    /// Whether bytes, of which there are some, were stored at the next address that is a multiple of
    /// an alignment, and nothing else was changed: in the last piece where they fit there, or else in
    /// a new piece.
    pub open spec fn grew(self, earlier: GrowableBump, bytes: Seq<u8>, align: nat, place: Place) -> bool {
        let last = earlier.pieces().last();
        let now = self.pieces().last();
        match earlier.room(bytes.len(), align) {
            Some((start, end)) => {
                &&& self.pieces().drop_last() == earlier.pieces().drop_last()
                &&& now.used() == end
                &&& now.bytes() == written(last.bytes(), start as int, bytes)
                &&& now.base() == last.base()
                &&& now.alignment() == last.alignment()
                &&& place.chunk == earlier.pieces().len() - 1
                &&& place.start == start
            },
            None => {
                &&& self.gained_piece(earlier, bytes.len())
                &&& self.room_when_new(bytes.len(), align) matches Some((start, end))
                &&& now.used() == end
                &&& now.bytes().subrange(start as int, end as int) == bytes
                &&& place.chunk == earlier.pieces().len()
                &&& place.start == start
            },
        }
    }

    /// Stores bytes at the next address that is a multiple of an alignment: in the last piece where
    /// they fit there, or else in a new piece. Fails where the new piece would be too large, and where
    /// they do not even fit there, as the address of the new piece may have it where more than its
    /// own alignment is asked for.
    pub fn alloc_slice(&mut self, bytes: &[u8], align: usize) -> (place: Option<Place>)
        requires
            old(self).wf(),
            power_of_two(align as int),
        ensures
            final(self).wf(),
            final(self).alignment() == old(self).alignment(),
            match place {
                None => {
                    &&& bytes@.len() > 0
                    &&& old(self).room(bytes@.len(), align as nat) is None
                    &&& if old(self).too_large(bytes@.len()) {
                        *final(self) == *old(self)
                    } else {
                        &&& align > old(self).alignment()
                        &&& final(self).gained_piece(*old(self), bytes@.len())
                        &&& final(self).pieces().last().used() == 0
                        &&& final(self).room_when_new(bytes@.len(), align as nat) is None
                    }
                },
                Some(at) => {
                    &&& at.len == bytes@.len()
                    &&& final(self).holds(at)
                    &&& final(self).stored(at) == bytes@
                    &&& if bytes@.len() == 0 {
                        *final(self) == *old(self)
                    } else {
                        &&& old(self).room(bytes@.len(), align as nat) is Some || !old(
                            self,
                        ).too_large(bytes@.len())
                        &&& final(self).grew(*old(self), bytes@, align as nat, at)
                    }
                },
            },
            forall|earlier: Place| #[trigger]
                old(self).holds(earlier) ==> final(self).holds(earlier) && final(self).stored(
                    earlier,
                ) == old(self).stored(earlier) && (place is Some ==> Self::precedes(
                    earlier,
                    place->0,
                )),
    {
        let len: usize = bytes.len();
        if len == 0 {
            return Some(Place { chunk: 0, start: 0, len: 0 });
        }
        let ghost before = self.chunks@;
        let last: usize = self.chunks.len() - 1;
        proof {
            assert(self.pieces()[last as int].wf());
        }
        let base: usize = self.chunks[last].buffer.base;
        let used: usize = self.chunks[last].offset;
        let capacity: usize = self.chunks[last].buffer.size;
        match fit(base, used, capacity, len, align) {
            Some((start, _)) => {
                let mut chunk = self.take_last();
                chunk.allocate(bytes, align);
                self.chunks.push(chunk);
                let place = Place { chunk: last, start, len };
                proof {
                    aligned_is_least(base + used, align as int);
                    assert(self.chunks@.take(last as int) == before.take(last as int));
                    assert(self.chunks@.drop_last() == before.drop_last());
                    assert(self.stored(place) == bytes@);
                    assert forall|earlier: Place| #[trigger] old(self).holds(earlier) implies self.holds(
                        earlier,
                    ) && self.stored(earlier) == old(self).stored(earlier) by {
                        if earlier.len > 0 && earlier.chunk < last {
                            assert(self.chunks@[earlier.chunk as int] == before[earlier.chunk as int]);
                        }
                        assert(self.stored(earlier) == old(self).stored(earlier));
                    }
                }
                Some(place)
            },
            None => {
                let larger: usize = if capacity < len {
                    len
                } else {
                    capacity
                };
                let most: usize = isize::MAX as usize;
                if larger > most / 2 || self.align - 1 > most - 2 * larger {
                    return None;
                }
                let mut chunk = Bump::with_capacity_and_aligned(2 * larger, self.align);
                let ghost fresh = chunk;
                let stored = chunk.allocate(bytes, align);
                self.chunks.push(chunk);
                proof {
                    assert(self.chunks@ == before.push(chunk));
                    assert(self.chunks@.drop_last() == before);
                    aligned_is_least(fresh.base() as int, align as int);
                    if align <= self.align {
                        small_alignments_ignore_the_address(
                            fresh.base(),
                            0,
                            fresh.bytes().len(),
                            len as nat,
                            align as nat,
                            self.align as nat,
                        );
                    }
                    assert forall|earlier: Place| #[trigger] old(self).holds(earlier) implies self.holds(
                        earlier,
                    ) && self.stored(earlier) == old(self).stored(earlier) by {
                        if earlier.len > 0 {
                            assert(self.chunks@[earlier.chunk as int] == before[earlier.chunk as int]);
                        }
                    }
                }
                match stored {
                    None => None,
                    Some(start) => {
                        let place = Place { chunk: last + 1, start, len };
                        assert(chunk.bytes().subrange(start as int, start + len) == bytes@);
                        Some(place)
                    },
                }
            },
        }
    }

    /// Takes the last piece out, for a while.
    fn take_last(&mut self) -> (last: Bump)
        requires
            old(self).chunks@.len() > 0,
        ensures
            last == old(self).chunks@.last(),
            final(self).chunks@ == old(self).chunks@.drop_last(),
            final(self).align == old(self).align,
    {
        match self.chunks.pop() {
            Some(last) => last,
            None => Bump::new(),
        }
    }

    /// Stores a copy of bytes behind everything that is stored.
    pub fn alloc_bytes_copy(&mut self, src: &[u8]) -> (place: Option<Place>)
        requires
            old(self).wf(),
        ensures
            final(self).wf(),
            final(self).alignment() == old(self).alignment(),
            match place {
                None => {
                    &&& *final(self) == *old(self)
                    &&& old(self).pieces().last().used() + src@.len()
                        > old(self).pieces().last().bytes().len()
                    &&& old(self).too_large(src@.len())
                },
                Some(at) => {
                    &&& at.len == src@.len()
                    &&& final(self).holds(at)
                    &&& final(self).stored(at) == src@
                    &&& if src@.len() == 0 {
                        *final(self) == *old(self)
                    } else {
                        final(self).grew(*old(self), src@, 1, at)
                    }
                },
            },
            forall|earlier: Place| #[trigger]
                old(self).holds(earlier) ==> final(self).holds(earlier) && final(self).stored(
                    earlier,
                ) == old(self).stored(earlier) && (place is Some ==> Self::precedes(
                    earlier,
                    place->0,
                )),
    {
        proof {
            let last = old(self).pieces().last();
            assert(old(self).pieces()[old(self).pieces().len() - 1].wf());
            aligned_is_least((last.base() + last.used()) as int, 1);
        }
        self.alloc_slice(src, 1)
    }

    /// The bytes at a place.
    pub fn read(&self, place: Place) -> (bytes: &[u8])
        requires
            self.wf(),
            self.holds(place),
        ensures
            bytes@ == self.stored(place),
    {
        if place.len == 0 {
            proof {
                assert(self.pieces()[0].wf());
            }
            let none = self.chunks[0].buffer.part(0, 0);
            assert(none@ == Seq::<u8>::empty());
            none
        } else {
            proof {
                assert(self.pieces()[place.chunk as int].wf());
            }
            self.chunks[place.chunk].buffer.part(place.start, place.start + place.len)
        }
    }

    /// Gives all memory back but the first piece.
    pub fn reset(&mut self)
        requires
            old(self).wf(),
        ensures
            final(self).wf(),
            final(self).pieces().len() == 1,
            final(self).pieces()[0].used() == 0,
            final(self).pieces()[0].bytes() == old(self).pieces()[0].bytes(),
            final(self).pieces()[0].base() == old(self).pieces()[0].base(),
            final(self).pieces()[0].alignment() == old(self).pieces()[0].alignment(),
            final(self).alignment() == old(self).alignment(),
    {
        proof {
            assert(self.pieces()[0].wf());
        }
        self.chunks.truncate(1);
        let mut first = self.take_last();
        first.reset();
        self.chunks.push(first);
    }
}

/// One piece of memory whose allocations are all aligned alike.
#[derive(Debug)]
pub struct AtomicBump {
    buffer: Buffer,
    offset: usize,
    align: usize,
}

impl AtomicBump {
    pub closed spec fn bytes(self) -> Seq<u8> {
        self.buffer.bytes()
    }

    /// The address of the first byte.
    pub closed spec fn base(self) -> nat {
        self.buffer.base as nat
    }

    pub closed spec fn sound(self) -> bool {
        self.buffer.wf()
    }

    pub closed spec fn used(self) -> nat {
        self.offset as nat
    }

    pub closed spec fn alignment(self) -> usize {
        self.align
    }

    pub open spec fn wf(self) -> bool {
        &&& self.sound()
        &&& self.used() <= self.bytes().len()
        &&& self.base() + self.bytes().len() <= usize::MAX
        &&& power_of_two(self.alignment() as int)
        &&& self.base() % (self.alignment() as nat) == 0
    }

    pub fn new() -> (bump: AtomicBump)
        ensures
            bump.wf(),
            bump.used() == 0,
            bump.bytes().len() == 4096,
            bump.alignment() == 8,
    {
        Self::with_capacity(4096)
    }

    pub fn with_capacity(capacity: usize) -> (bump: AtomicBump)
        requires
            capacity + 7 <= isize::MAX,
        ensures
            bump.wf(),
            bump.used() == 0,
            bump.bytes().len() == capacity,
            bump.alignment() == 8,
    {
        proof {
            reveal_with_fuel(power_of_two, 4);
        }
        Self::with_capacity_and_aligned(capacity, 8)
    }

    pub fn with_capacity_and_aligned(capacity: usize, align: usize) -> (bump: AtomicBump)
        requires
            power_of_two(align as int),
            capacity + align - 1 <= isize::MAX,
        ensures
            bump.wf(),
            bump.used() == 0,
            bump.bytes().len() == capacity,
            bump.alignment() == align,
    {
        AtomicBump { buffer: Buffer::new(capacity, align), offset: 0, align }
    }

    pub fn len(&self) -> (len: usize)
        ensures
            len == self.used(),
    {
        self.offset
    }

    pub fn capacity(&self) -> (capacity: usize)
        ensures
            capacity == self.bytes().len(),
    {
        self.buffer.size
    }

    /// Sets memory aside for as many bytes as there are in `data` and tells where it starts. The
    /// memory itself is left as it is.
    pub fn alloc_many(&mut self, data: &[u8]) -> (place: Option<usize>)
        requires
            old(self).wf(),
        ensures
            final(self).wf(),
            final(self).bytes() == old(self).bytes(),
            final(self).alignment() == old(self).alignment(),
            final(self).base() == old(self).base(),
            match fitted(
                old(self).base(),
                old(self).used(),
                old(self).bytes().len(),
                data@.len(),
                old(self).alignment() as nat,
            ) {
                Some((start, end)) => {
                    &&& place matches Some(at) && at == start
                    &&& final(self).used() == end
                },
                None => place is None && final(self).used() == old(self).used(),
            },
    {
        match fit(self.buffer.base, self.offset, self.buffer.size, data.len(), self.align) {
            None => None,
            Some((start, end)) => {
                self.offset = end;
                Some(start)
            },
        }
    }

    /// Stores bytes at the next address that is a multiple of an alignment and tells where.
    pub fn allocate(&mut self, bytes: &[u8], align: usize) -> (place: Option<usize>)
        requires
            old(self).wf(),
            power_of_two(align as int),
        ensures
            final(self).wf(),
            final(self).alignment() == old(self).alignment(),
            final(self).base() == old(self).base(),
            match fitted(
                old(self).base(),
                old(self).used(),
                old(self).bytes().len(),
                bytes@.len(),
                align as nat,
            ) {
                Some((start, end)) => {
                    &&& place matches Some(at) && at == start
                    &&& final(self).used() == end
                    &&& final(self).bytes() == written(old(self).bytes(), start as int, bytes@)
                },
                None => place is None && *final(self) == *old(self),
            },
    {
        match fit(self.buffer.base, self.offset, self.buffer.size, bytes.len(), align) {
            None => None,
            Some((start, end)) => {
                self.buffer.write(start, bytes);
                self.offset = end;
                Some(start)
            },
        }
    }

    /// A part of the used memory. What does not lie in it is empty.
    pub fn get_slice(&self, start: usize, end: usize) -> (part: &[u8])
        requires
            self.wf(),
        ensures
            part@ == if start > end || end > self.used() {
                Seq::empty()
            } else {
                self.bytes().subrange(start as int, end as int)
            },
    {
        if start > end || end > self.offset {
            let none = self.buffer.part(0, 0);
            assert(none@ == Seq::<u8>::empty());
            none
        } else {
            self.buffer.part(start, end)
        }
    }

    /// Gives all memory back.
    pub fn reset(&mut self)
        requires
            old(self).wf(),
        ensures
            final(self).wf(),
            final(self).used() == 0,
            final(self).bytes() == old(self).bytes(),
            final(self).base() == old(self).base(),
            final(self).alignment() == old(self).alignment(),
    {
        self.offset = 0;
    }
}

} // verus!
