//! Segmented virtual memory: an ordered list of non-overlapping segments,
//! each mapping a base address to a backing memory. Attachment keeps the
//! list sorted by base address and rejects any insertion whose address range
//! would intersect an existing segment's range.

use vstd::prelude::*;
use crate::mem::{Memory, MemoryError, MemResult};

verus! {

/// An error raised by a virtual memory management operation.
#[derive(Copy, Clone, Debug, PartialEq, Eq, Structural)]
pub enum Error {
    /// The memory being attached would overlap a memory already attached.
    MemoryOverlap,
}

/// One mapped region: a backing memory placed at a base address.
pub struct Segment<M: Memory> {
    /// The lowest address the segment occupies.
    pub base: u64,
    /// The backing memory; local offset 0 sits at `base`.
    pub memory: M,
}

impl<M: Memory> Segment<M> {
    /// One past the highest address the segment occupies.
    pub open spec fn spec_end(&self) -> int {
        self.base + self.memory.mem_size()
    }

    /// Whether `addr` falls inside the segment's range.
    pub open spec fn spec_contains(&self, addr: int) -> bool {
        self.base <= addr < self.spec_end()
    }

    /// Places `memory` at `base`.
    pub fn new(base: u64, memory: M) -> (r: Segment<M>)
        ensures
            r.base == base,
            r.memory == memory,
    {
        Segment { base, memory }
    }

    /// Whether `addr` falls inside the segment's range.
    pub fn has_addr(&self, addr: u64) -> (r: bool)
        ensures
            r == self.spec_contains(addr as int),
    {
        addr >= self.base && addr - self.base < self.memory.len()
    }
}

/// The index of the first segment whose range contains `addr`, or -1.
pub open spec fn find_index<M: Memory>(segs: Seq<Segment<M>>, addr: int) -> int
    decreases segs.len(),
{
    if segs.len() == 0 {
        -1
    } else if segs[0].spec_contains(addr) {
        0
    } else {
        let r = find_index(segs.drop_first(), addr);
        if r < 0 {
            -1
        } else {
            r + 1
        }
    }
}

/// `find_index` returns `i` when segment `i` contains `addr` and no earlier
/// segment does.
proof fn lemma_find_index_first<M: Memory>(segs: Seq<Segment<M>>, addr: int, i: int)
    requires
        0 <= i < segs.len(),
        segs[i].spec_contains(addr),
        forall|k: int| 0 <= k < i ==> !(#[trigger] segs[k].spec_contains(addr)),
    ensures
        find_index(segs, addr) == i,
    decreases segs.len(),
{
    if i > 0 {
        lemma_find_index_first(segs.drop_first(), addr, i - 1);
    }
}

/// `find_index` returns -1 when no segment contains `addr`.
proof fn lemma_find_index_none<M: Memory>(segs: Seq<Segment<M>>, addr: int)
    requires
        forall|k: int| 0 <= k < segs.len() ==> !(#[trigger] segs[k].spec_contains(addr)),
    ensures
        find_index(segs, addr) == -1,
    decreases segs.len(),
{
    if segs.len() > 0 {
        lemma_find_index_none(segs.drop_first(), addr);
    }
}

/// A successful `find_index` names a containing segment, and no earlier one
/// contains `addr`.
proof fn lemma_find_index_found<M: Memory>(segs: Seq<Segment<M>>, addr: int)
    requires
        find_index(segs, addr) >= 0,
    ensures
        0 <= find_index(segs, addr) < segs.len(),
        segs[find_index(segs, addr)].spec_contains(addr),
        forall|k: int| 0 <= k < find_index(segs, addr) ==>
            !(#[trigger] segs[k].spec_contains(addr)),
    decreases segs.len(),
{
    if segs.len() > 0 && !segs[0].spec_contains(addr) {
        lemma_find_index_found(segs.drop_first(), addr);
        assert forall|k: int| 0 <= k < find_index(segs, addr) implies
            !(#[trigger] segs[k].spec_contains(addr)) by {
            if k > 0 {
                assert(segs[k] == segs.drop_first()[k - 1]);
            }
        }
    }
}

/// `find_index` depends only on each segment's base and size.
proof fn lemma_find_index_layout<M: Memory>(s1: Seq<Segment<M>>, s2: Seq<Segment<M>>, addr: int)
    requires
        s1.len() == s2.len(),
        forall|k: int| 0 <= k < s1.len() ==> (#[trigger] s2[k]).base == s1[k].base
            && s2[k].memory.mem_size() == s1[k].memory.mem_size(),
    ensures
        find_index(s1, addr) == find_index(s2, addr),
    decreases s1.len(),
{
    if s1.len() > 0 {
        assert(s2[0].base == s1[0].base && s2[0].memory.mem_size() == s1[0].memory.mem_size());
        assert(forall|k: int| 0 <= k < s1.drop_first().len() ==>
            (#[trigger] s2.drop_first()[k]).base == s1.drop_first()[k].base
            && s2.drop_first()[k].memory.mem_size() == s1.drop_first()[k].memory.mem_size());
        lemma_find_index_layout(s1.drop_first(), s2.drop_first(), addr);
    }
}

/// The position at which a segment based at `base` is inserted: the index of
/// the first segment with a strictly greater base.
pub open spec fn insert_pos<M: Memory>(segs: Seq<Segment<M>>, base: u64) -> int
    decreases segs.len(),
{
    if segs.len() == 0 {
        0
    } else if segs[0].base > base {
        0
    } else {
        1 + insert_pos(segs.drop_first(), base)
    }
}

/// `insert_pos` returns `p` when all segments before `p` have base at most
/// `base` and segment `p` (if any) has a strictly greater base.
pub proof fn lemma_insert_pos_at<M: Memory>(segs: Seq<Segment<M>>, base: u64, p: int)
    requires
        0 <= p <= segs.len(),
        forall|k: int| 0 <= k < p ==> (#[trigger] segs[k]).base <= base,
        p < segs.len() ==> segs[p].base > base,
    ensures
        insert_pos(segs, base) == p,
    decreases segs.len(),
{
    if segs.len() > 0 && p > 0 {
        assert(segs[0].base <= base);
        assert forall|k: int| 0 <= k < p - 1 implies
            (#[trigger] segs.drop_first()[k]).base <= base by {
            assert(segs.drop_first()[k] == segs[k + 1]);
        }
        assert(p - 1 < segs.drop_first().len() ==> segs.drop_first()[p - 1].base > base);
        lemma_insert_pos_at(segs.drop_first(), base, p - 1);
    }
}

/// Whether attaching a memory of `size` bytes at `base` would conflict with
/// a neighbour at the insertion position.
pub open spec fn attach_conflict<M: Memory>(segs: Seq<Segment<M>>, base: u64, size: nat) -> bool {
    let p = insert_pos(segs, base);
    ||| (p > 0 && segs[p - 1].spec_end() > base)
    ||| (p < segs.len() && base + size > segs[p].base)
}

/// Whether the two half-open ranges `[b1, e1)` and `[b2, e2)` share an
/// address.
pub open spec fn ranges_overlap(b1: int, e1: int, b2: int, e2: int) -> bool {
    &&& b1 < e1
    &&& b2 < e2
    &&& b1 < e2
    &&& b2 < e1
}

/// Provides a `Memory` over a list of attached memories by forwarding each
/// operation to the segment mapped at the given address.
///
/// Segments may not overlap: see `wf`.
pub struct Virtual<M: Memory> {
    /// The attached segments, sorted by base address.
    pub segments: Vec<Segment<M>>,
}

/// Well-formedness of a segment list: any two segments, taken in base order,
/// cover disjoint address ranges (the earlier one ends before the later one
/// begins).
pub open spec fn segs_wf<M: Memory>(segs: Seq<Segment<M>>) -> bool {
    forall|i: int, j: int| 0 <= i < j < segs.len() ==>
        (#[trigger] segs[i]).spec_end() <= (#[trigger] segs[j]).base
}

/// The clamped end of a segment, for sizing the whole address space.
pub open spec fn seg_end_clamped<M: Memory>(s: Segment<M>) -> nat {
    if s.base + s.memory.mem_size() > u64::MAX {
        u64::MAX as nat
    } else {
        (s.base + s.memory.mem_size()) as nat
    }
}

/// One past the highest address covered by any segment (clamped to `u64`).
pub open spec fn max_end<M: Memory>(segs: Seq<Segment<M>>) -> nat
    decreases segs.len(),
{
    if segs.len() == 0 {
        0
    } else {
        let rest = max_end(segs.drop_last());
        if seg_end_clamped(segs.last()) > rest {
            seg_end_clamped(segs.last())
        } else {
            rest
        }
    }
}

/// `max_end` depends only on each segment's base and size.
proof fn lemma_max_end_layout<M: Memory>(s1: Seq<Segment<M>>, s2: Seq<Segment<M>>)
    requires
        s1.len() == s2.len(),
        forall|k: int| 0 <= k < s1.len() ==> (#[trigger] s2[k]).base == s1[k].base
            && s2[k].memory.mem_size() == s1[k].memory.mem_size(),
    ensures
        max_end(s1) == max_end(s2),
    decreases s1.len(),
{
    if s1.len() > 0 {
        assert(s1.drop_last().len() == s2.drop_last().len());
        assert forall|k: int| 0 <= k < s1.drop_last().len() implies
            (#[trigger] s2.drop_last()[k]).base == s1.drop_last()[k].base
            && s2.drop_last()[k].memory.mem_size() == s1.drop_last()[k].memory.mem_size() by {
            assert(s1.drop_last()[k] == s1[k] && s2.drop_last()[k] == s2[k]);
        }
        lemma_max_end_layout(s1.drop_last(), s2.drop_last());
        assert(seg_end_clamped(s1.last()) == seg_end_clamped(s2.last()));
    }
}

impl<M: Memory> Virtual<M> {
    /// Well-formedness: the segment list is sorted by base address and no
    /// two segments overlap.
    pub open spec fn wf(&self) -> bool {
        segs_wf(self.segments@)
    }

    /// Constructs a virtual memory with no attached segments.
    pub fn new() -> (r: Virtual<M>)
        ensures
            r.wf(),
            r.segments@.len() == 0,
    {
        Virtual { segments: Vec::new() }
    }

    /// The number of attached segments.
    pub fn segment_count(&self) -> (r: usize)
        ensures
            r == self.segments@.len(),
    {
        self.segments.len()
    }

    /// The base address of the attached segment at `index`.
    pub fn segment_base(&self, index: usize) -> (r: u64)
        requires
            index < self.segments@.len(),
        ensures
            r == self.segments@[index as int].base,
    {
        self.segments[index].base
    }

    /// The index of the segment whose range contains `addr`, if any.
    pub fn find(&self, addr: u64) -> (r: Option<usize>)
        ensures
            match r {
                Some(i) => i == find_index(self.segments@, addr as int),
                None => find_index(self.segments@, addr as int) == -1,
            },
    {
        let mut i: usize = 0;
        let n = self.segments.len();
        while i < n
            invariant
                i <= n,
                n == self.segments@.len(),
                forall|k: int| 0 <= k < i ==>
                    !(#[trigger] self.segments@[k].spec_contains(addr as int)),
            decreases n - i,
        {
            if self.segments[i].has_addr(addr) {
                proof {
                    lemma_find_index_first(self.segments@, addr as int, i as int);
                }
                return Some(i);
            }
            i = i + 1;
        }
        proof {
            lemma_find_index_none(self.segments@, addr as int);
        }
        None
    }

    /// Attaches `memory` at `base`, keeping the segment list in base-address
    /// order. Fails with `MemoryOverlap`, leaving the list unchanged, exactly
    /// when the new segment would conflict with a neighbour at its insertion
    /// position; under `wf` and a non-empty memory that is exactly an address
    /// range intersection (see `lemma_conflict_iff_overlap`).
    pub fn attach(&mut self, base: u64, memory: M) -> (r: Result<(), Error>)
        requires
            old(self).wf(),
        ensures
            final(self).wf(),
            attach_conflict(old(self).segments@, base, memory.mem_size()) ==> {
                &&& r == Result::<(), Error>::Err(Error::MemoryOverlap)
                &&& final(self).segments@ == old(self).segments@
            },
            !attach_conflict(old(self).segments@, base, memory.mem_size()) ==> {
                &&& r == Result::<(), Error>::Ok(())
                &&& final(self).segments@ == old(self).segments@.insert(
                    insert_pos(old(self).segments@, base),
                    Segment { base, memory },
                )
            },
    {
        let ghost orig = self.segments@;
        let n = self.segments.len();
        let mut p: usize = 0;
        while p < n && self.segments[p].base <= base
            invariant
                p <= n,
                n == self.segments@.len(),
                self.segments@ == orig,
                forall|k: int| 0 <= k < p ==> (#[trigger] self.segments@[k]).base <= base,
            decreases n - p,
        {
            p = p + 1;
        }
        proof {
            lemma_insert_pos_at(orig, base, p as int);
        }

        if p > 0 {
            let left = &self.segments[p - 1];
            if left.memory.len() > base - left.base {
                return Err(Error::MemoryOverlap);
            }
        }
        if p < n {
            let right_base = self.segments[p].base;
            if memory.len() > right_base - base {
                return Err(Error::MemoryOverlap);
            }
        }

        proof {
            assert forall|i: int, j: int| 0 <= i < j < orig.insert(p as int, Segment { base, memory }).len()
                implies (#[trigger] orig.insert(p as int, Segment { base, memory })[i]).spec_end()
                    <= (#[trigger] orig.insert(p as int, Segment { base, memory })[j]).base
            by {
                let new_seg = Segment { base, memory };
                let ns = orig.insert(p as int, new_seg);
                if i < p && j < p {
                    assert(ns[i] == orig[i] && ns[j] == orig[j]);
                } else if i < p && j == p {
                    assert(ns[i] == orig[i] && ns[j] == new_seg);
                    if i < p - 1 {
                        assert(orig[i].spec_end() <= orig[p - 1].base);
                        assert(orig[p - 1].base <= base);
                    }
                } else if i < p && j > p {
                    assert(ns[i] == orig[i] && ns[j] == orig[j - 1]);
                } else if i == p {
                    assert(ns[i] == new_seg && ns[j] == orig[j - 1]);
                    if j - 1 > p as int {
                        assert(orig[p as int].spec_end() <= orig[j - 1].base);
                        assert(orig[p as int].base <= orig[p as int].spec_end());
                    }
                } else {
                    assert(ns[i] == orig[i - 1] && ns[j] == orig[j - 1]);
                }
            }
        }
        self.segments.insert(p, Segment { base, memory });
        Ok(())
    }
}

/// Any two attached segments of a well-formed virtual memory cover disjoint
/// address ranges: taken in base order, the earlier segment ends no later
/// than the later one begins.
pub proof fn lemma_segments_disjoint<M: Memory>(v: &Virtual<M>, i: int, j: int)
    requires
        v.wf(),
        0 <= i < j < v.segments@.len(),
    ensures
        v.segments@[i].spec_end() <= v.segments@[j].base,
        !ranges_overlap(
            v.segments@[i].base as int,
            v.segments@[i].spec_end(),
            v.segments@[j].base as int,
            v.segments@[j].spec_end(),
        ),
{
}

/// Under well-formedness, the neighbour check made by `attach` is exactly an
/// address-range intersection with some attached segment (for a non-empty
/// memory; an empty one has no range to intersect).
pub proof fn lemma_conflict_iff_overlap<M: Memory>(segs: Seq<Segment<M>>, base: u64, size: nat)
    requires
        segs_wf(segs),
        size > 0,
        forall|k: int| 0 <= k < segs.len() ==> (#[trigger] segs[k]).memory.mem_size() > 0,
    ensures
        attach_conflict(segs, base, size) <==> exists|k: int| 0 <= k < segs.len()
            && ranges_overlap(
                base as int,
                base + size,
                (#[trigger] segs[k]).base as int,
                segs[k].spec_end(),
            ),
{
    let p = insert_pos(segs, base);
    lemma_insert_pos_props(segs, base);
    if attach_conflict(segs, base, size) {
        if p > 0 && segs[p - 1].spec_end() > base {
            assert(ranges_overlap(base as int, base + size, segs[p - 1].base as int,
                segs[p - 1].spec_end()));
        } else {
            assert(p < segs.len() && base + size > segs[p].base);
            assert(ranges_overlap(base as int, base + size, segs[p as int].base as int,
                segs[p as int].spec_end()));
        }
    } else {
        assert forall|k: int| 0 <= k < segs.len() implies !ranges_overlap(
            base as int,
            base + size,
            (#[trigger] segs[k]).base as int,
            segs[k].spec_end(),
        ) by {
            if k < p {
                if k < p - 1 {
                    assert(segs[k].spec_end() <= segs[p - 1].base);
                    assert(segs[p - 1].base as int <= segs[p - 1].spec_end());
                }
                assert(segs[k].spec_end() <= base);
            } else {
                if k > p {
                    assert(segs[p].spec_end() <= segs[k].base);
                    assert(segs[p].base as int <= segs[p].spec_end());
                }
                assert(base + size <= segs[k].base);
            }
        }
    }
}

/// Every segment before the insertion position has base at most `base`, and
/// every one at or after it has a strictly greater base.
pub proof fn lemma_insert_pos_props<M: Memory>(segs: Seq<Segment<M>>, base: u64)
    ensures
        0 <= insert_pos(segs, base) <= segs.len(),
        forall|k: int| 0 <= k < insert_pos(segs, base) ==> (#[trigger] segs[k]).base <= base,
        insert_pos(segs, base) < segs.len() ==> segs[insert_pos(segs, base)].base > base,
    decreases segs.len(),
{
    if segs.len() > 0 && !(segs[0].base > base) {
        lemma_insert_pos_props(segs.drop_first(), base);
        assert forall|k: int| 0 <= k < insert_pos(segs, base) implies
            (#[trigger] segs[k]).base <= base by {
            if k > 0 {
                assert(segs[k] == segs.drop_first()[k - 1]);
            }
        }
        if insert_pos(segs, base) < segs.len() {
            assert(segs[insert_pos(segs, base)]
                == segs.drop_first()[insert_pos(segs.drop_first(), base)]);
        }
    }
}

impl<M: Memory> Memory for Virtual<M> {
    open spec fn mem_size(&self) -> nat {
        max_end(self.segments@)
    }

    open spec fn can_read(&self, addr: int) -> bool {
        let i = find_index(self.segments@, addr);
        i >= 0 && self.segments@[i].memory.can_read(addr - self.segments@[i].base)
    }

    open spec fn can_write(&self, addr: int) -> bool {
        let i = find_index(self.segments@, addr);
        i >= 0 && self.segments@[i].memory.can_write(addr - self.segments@[i].base)
    }

    open spec fn byte_at(&self, addr: int) -> u8 {
        let i = find_index(self.segments@, addr);
        if i >= 0 {
            self.segments@[i].memory.byte_at(addr - self.segments@[i].base)
        } else {
            0
        }
    }

    open spec fn read_err(&self, addr: int) -> MemoryError {
        let i = find_index(self.segments@, addr);
        if i >= 0 {
            self.segments@[i].memory.read_err(addr - self.segments@[i].base)
        } else {
            MemoryError::OutOfBounds(addr as u64)
        }
    }

    open spec fn write_err(&self, addr: int) -> MemoryError {
        let i = find_index(self.segments@, addr);
        if i >= 0 {
            self.segments@[i].memory.write_err(addr - self.segments@[i].base)
        } else {
            MemoryError::OutOfBounds(addr as u64)
        }
    }

    open spec fn aliases(&self, a: int, b: int) -> bool {
        let i = find_index(self.segments@, a);
        let j = find_index(self.segments@, b);
        &&& i >= 0
        &&& j == i
        &&& self.segments@[i].memory.aliases(
            a - self.segments@[i].base,
            b - self.segments@[i].base,
        )
    }

    fn len(&self) -> (r: u64) {
        let mut acc: u64 = 0;
        let mut i: usize = 0;
        let n = self.segments.len();
        proof {
            assert(self.segments@.take(0) =~= Seq::<Segment<M>>::empty());
        }
        while i < n
            invariant
                i <= n,
                n == self.segments@.len(),
                acc as nat == max_end(self.segments@.take(i as int)),
            decreases n - i,
        {
            let seg = &self.segments[i];
            let e = seg.base.saturating_add(seg.memory.len());
            proof {
                let t = self.segments@.take(i + 1);
                assert(t.drop_last() =~= self.segments@.take(i as int));
                assert(t.last() == self.segments@[i as int]);
                assert(e as nat == seg_end_clamped(self.segments@[i as int]));
            }
            if e > acc {
                acc = e;
            }
            i = i + 1;
        }
        proof {
            assert(self.segments@.take(n as int) =~= self.segments@);
        }
        acc
    }

    fn get_u8(&self, addr: u64) -> (r: MemResult<u8>) {
        match self.find(addr) {
            Some(i) => {
                proof {
                    lemma_find_index_found(self.segments@, addr as int);
                }
                let seg = &self.segments[i];
                seg.memory.get_u8(addr - seg.base)
            },
            None => Err(MemoryError::OutOfBounds(addr)),
        }
    }

    fn set_u8(&mut self, addr: u64, val: u8) -> (r: MemResult<()>) {
        let ghost orig = self.segments@;
        match self.find(addr) {
            Some(i) => {
                proof {
                    lemma_find_index_found(self.segments@, addr as int);
                }
                let seg = self.segments.remove(i);
                let base = seg.base;
                let ghost old_inner = seg.memory;
                let mut memory = seg.memory;
                let r = memory.set_u8(addr - base, val);
                self.segments.insert(i, Segment { base, memory });
                proof {
                    let ns = self.segments@;
                    assert(ns =~= orig.update(i as int, Segment { base, memory }));
                    assert forall|k: int| 0 <= k < orig.len() implies (#[trigger] ns[k]).base
                        == orig[k].base && ns[k].memory.mem_size() == orig[k].memory.mem_size()
                    by {
                        if k != i {
                            assert(ns[k] == orig[k]);
                        }
                    }
                    assert forall|a: int| true implies
                        #[trigger] find_index(ns, a) == find_index(orig, a) by {
                        lemma_find_index_layout(orig, ns, a);
                    }
                    lemma_max_end_layout(orig, ns);
                    let fa = find_index(orig, addr as int);
                    assert(fa == i);
                    assert forall|a: int, b: int| true implies
                        #[trigger] self.aliases(a, b) == old(self).aliases(a, b) by {
                        let f = find_index(orig, a);
                        let g = find_index(orig, b);
                        if f >= 0 && g == f {
                            lemma_find_index_found(orig, a);
                            if f != i {
                                assert(ns[f] == orig[f]);
                            }
                        }
                    }
                    if old(self).can_write(addr as int) {
                        assert forall|a: int| true implies #[trigger] self.byte_at(a) == (
                            if old(self).aliases(addr as int, a) {
                                val
                            } else {
                                old(self).byte_at(a)
                            }) by {
                            let f = find_index(orig, a);
                            if f >= 0 {
                                lemma_find_index_found(orig, a);
                                if f != i {
                                    assert(ns[f] == orig[f]);
                                }
                            }
                        }
                    } else {
                        assert forall|a: int| true implies
                            #[trigger] self.byte_at(a) == old(self).byte_at(a) by {
                            let f = find_index(orig, a);
                            if f >= 0 {
                                lemma_find_index_found(orig, a);
                                if f != i {
                                    assert(ns[f] == orig[f]);
                                }
                            }
                        }
                    }
                    assert forall|a: int| true implies
                        #[trigger] self.can_read(a) == old(self).can_read(a) by {
                        let f = find_index(orig, a);
                        if f >= 0 {
                            lemma_find_index_found(orig, a);
                            if f != i {
                                assert(ns[f] == orig[f]);
                            }
                        }
                    }
                    assert forall|a: int| true implies
                        #[trigger] self.can_write(a) == old(self).can_write(a) by {
                        let f = find_index(orig, a);
                        if f >= 0 {
                            lemma_find_index_found(orig, a);
                            if f != i {
                                assert(ns[f] == orig[f]);
                            }
                        }
                    }
                    assert forall|a: int| true implies
                        #[trigger] self.read_err(a) == old(self).read_err(a) by {
                        let f = find_index(orig, a);
                        if f >= 0 {
                            lemma_find_index_found(orig, a);
                            if f != i {
                                assert(ns[f] == orig[f]);
                            }
                        }
                    }
                    assert forall|a: int| true implies
                        #[trigger] self.write_err(a) == old(self).write_err(a) by {
                        let f = find_index(orig, a);
                        if f >= 0 {
                            lemma_find_index_found(orig, a);
                            if f != i {
                                assert(ns[f] == orig[f]);
                            }
                        }
                    }
                }
                r
            },
            None => Err(MemoryError::OutOfBounds(addr)),
        }
    }
}

} // verus!
