//! Byte-addressable memory bus: a small capability (length, byte read, byte
//! write) together with composable implementations. `Fixed` is a contiguous
//! buffer, `Empty` has no storage at all, `ReadOnlyMemory` /
//! `WriteOnlyMemory` wrap another memory and refuse one direction, and
//! `Mirrored` repeats a window over a larger range, aliasing its copies.

use vstd::prelude::*;

verus! {

/// An error raised by a memory operation.
#[derive(Copy, Clone, Debug, PartialEq, Eq, Structural)]
pub enum MemoryError {
    /// The address is not backed by any storage. Carries the offending address.
    OutOfBounds(u64),
    /// The memory cannot be read at this address. Carries the offending address.
    MemoryNotReadable(u64),
    /// The memory cannot be written at this address. Carries the offending address.
    MemoryNotWritable(u64),
}

/// The result type of memory operations.
pub type MemResult<T> = Result<T, MemoryError>;

/// The memory capability. A memory is modelled by its size, a byte value for
/// every address, per-address read/write permissions, and an aliasing
/// relation saying which addresses share a storage cell; `read_err` and
/// `write_err` name the error a denied access reports.
pub trait Memory: Sized {
    /// The number of addressable bytes.
    spec fn mem_size(&self) -> nat;

    /// Whether a read at `addr` succeeds.
    spec fn can_read(&self, addr: int) -> bool;

    /// Whether a write at `addr` succeeds.
    spec fn can_write(&self, addr: int) -> bool;

    /// The byte stored at `addr` (meaningful for mapped addresses).
    spec fn byte_at(&self, addr: int) -> u8;

    /// The error reported by a denied read at `addr`.
    spec fn read_err(&self, addr: int) -> MemoryError;

    /// The error reported by a denied write at `addr`.
    spec fn write_err(&self, addr: int) -> MemoryError;

    /// Whether two addresses name the same storage cell. For a plain memory
    /// this is equality; a mirrored memory also aliases the copies of each
    /// cell across its windows.
    spec fn aliases(&self, a: int, b: int) -> bool;

    /// Returns the number of addressable bytes.
    fn len(&self) -> (r: u64)
        ensures
            r as nat == self.mem_size(),
    ;

    /// Reads the byte at `addr`.
    fn get_u8(&self, addr: u64) -> (r: MemResult<u8>)
        ensures
            self.can_read(addr as int) ==> r == MemResult::<u8>::Ok(self.byte_at(addr as int)),
            !self.can_read(addr as int) ==> r == MemResult::<u8>::Err(self.read_err(addr as int)),
    ;

    /// Writes `val` at `addr`. The layout (size, permissions, error
    /// reporting, aliasing) never changes; a permitted write lands on every
    /// alias of `addr` and nowhere else, and a denied write changes no byte.
    fn set_u8(&mut self, addr: u64, val: u8) -> (r: MemResult<()>)
        ensures
            final(self).mem_size() == old(self).mem_size(),
            forall|a: int| #[trigger] final(self).can_read(a) == old(self).can_read(a),
            forall|a: int| #[trigger] final(self).can_write(a) == old(self).can_write(a),
            forall|a: int| #[trigger] final(self).read_err(a) == old(self).read_err(a),
            forall|a: int| #[trigger] final(self).write_err(a) == old(self).write_err(a),
            forall|a: int, b: int| #[trigger] final(self).aliases(a, b)
                == old(self).aliases(a, b),
            old(self).can_write(addr as int) ==> {
                &&& r == MemResult::<()>::Ok(())
                &&& final(self).byte_at(addr as int) == val
                &&& forall|a: int| #[trigger] final(self).byte_at(a) == (
                    if old(self).aliases(addr as int, a) {
                        val
                    } else {
                        old(self).byte_at(a)
                    })
            },
            !old(self).can_write(addr as int) ==> {
                &&& r == MemResult::<()>::Err(old(self).write_err(addr as int))
                &&& forall|a: int| #[trigger] final(self).byte_at(a) == old(self).byte_at(a)
            },
    ;
}

/// Two memory states agree on size, permissions and error reporting.
pub open spec fn same_layout<M: Memory>(m1: &M, m2: &M) -> bool {
    &&& m1.mem_size() == m2.mem_size()
    &&& forall|a: int| #[trigger] m1.can_read(a) == m2.can_read(a)
    &&& forall|a: int| #[trigger] m1.can_write(a) == m2.can_write(a)
    &&& forall|a: int| #[trigger] m1.read_err(a) == m2.read_err(a)
    &&& forall|a: int| #[trigger] m1.write_err(a) == m2.write_err(a)
    &&& forall|a: int, b: int| #[trigger] m1.aliases(a, b) == m2.aliases(a, b)
}

/// Two memory states hold the same byte at every address.
pub open spec fn same_bytes<M: Memory>(m1: &M, m2: &M) -> bool {
    forall|a: int| #[trigger] m1.byte_at(a) == m2.byte_at(a)
}

/// A contiguous, bounds-checked buffer, readable and writable everywhere.
pub struct Fixed {
    /// The backing bytes.
    pub data: Vec<u8>,
}

impl Fixed {
    /// The bytes held by the buffer.
    pub open spec fn view(&self) -> Seq<u8> {
        self.data@
    }

    /// Allocates a zero-filled buffer of `size` bytes.
    pub fn new(size: usize) -> (r: Fixed)
        ensures
            r@ == Seq::<u8>::new(size as nat, |i: int| 0u8),
    {
        let mut data: Vec<u8> = Vec::new();
        let mut i: usize = 0;
        while i < size
            invariant
                i <= size,
                data@ == Seq::<u8>::new(i as nat, |j: int| 0u8),
            decreases size - i,
        {
            data.push(0);
            i = i + 1;
            proof {
                assert(data@ =~= Seq::<u8>::new(i as nat, |j: int| 0u8));
            }
        }
        Fixed { data }
    }

    /// Wraps an existing byte vector as a memory.
    pub fn from_vec(data: Vec<u8>) -> (r: Fixed)
        ensures
            r == (Fixed { data }),
            r@ == data@,
    {
        Fixed { data }
    }
}

impl Memory for Fixed {
    open spec fn mem_size(&self) -> nat {
        self.data@.len()
    }

    open spec fn can_read(&self, addr: int) -> bool {
        0 <= addr < self.data@.len()
    }

    open spec fn can_write(&self, addr: int) -> bool {
        0 <= addr < self.data@.len()
    }

    open spec fn byte_at(&self, addr: int) -> u8 {
        if 0 <= addr < self.data@.len() {
            self.data@[addr]
        } else {
            0
        }
    }

    open spec fn read_err(&self, addr: int) -> MemoryError {
        MemoryError::OutOfBounds(addr as u64)
    }

    open spec fn write_err(&self, addr: int) -> MemoryError {
        MemoryError::OutOfBounds(addr as u64)
    }

    open spec fn aliases(&self, a: int, b: int) -> bool {
        a == b
    }

    fn len(&self) -> (r: u64) {
        self.data.len() as u64
    }

    fn get_u8(&self, addr: u64) -> (r: MemResult<u8>) {
        if addr < self.data.len() as u64 {
            Ok(self.data[addr as usize])
        } else {
            Err(MemoryError::OutOfBounds(addr))
        }
    }

    fn set_u8(&mut self, addr: u64, val: u8) -> (r: MemResult<()>) {
        if addr < self.data.len() as u64 {
            self.data.set(addr as usize, val);
            Ok(())
        } else {
            Err(MemoryError::OutOfBounds(addr))
        }
    }
}

/// A memory with no storage: every access is out of bounds.
pub struct Empty;

impl Memory for Empty {
    open spec fn mem_size(&self) -> nat {
        0
    }

    open spec fn can_read(&self, addr: int) -> bool {
        false
    }

    open spec fn can_write(&self, addr: int) -> bool {
        false
    }

    open spec fn byte_at(&self, addr: int) -> u8 {
        0
    }

    open spec fn read_err(&self, addr: int) -> MemoryError {
        MemoryError::OutOfBounds(addr as u64)
    }

    open spec fn write_err(&self, addr: int) -> MemoryError {
        MemoryError::OutOfBounds(addr as u64)
    }

    open spec fn aliases(&self, a: int, b: int) -> bool {
        a == b
    }

    fn len(&self) -> (r: u64) {
        0
    }

    fn get_u8(&self, addr: u64) -> (r: MemResult<u8>) {
        Err(MemoryError::OutOfBounds(addr))
    }

    fn set_u8(&mut self, addr: u64, val: u8) -> (r: MemResult<()>) {
        Err(MemoryError::OutOfBounds(addr))
    }
}

/// Forwards reads to the wrapped memory and fails every write with
/// `MemoryNotWritable`. Models ROM banks.
pub struct ReadOnlyMemory<M: Memory> {
    /// The wrapped memory.
    pub inner: M,
}

/// Wraps `inner` so that only reads are forwarded.
pub fn read_only<M: Memory>(inner: M) -> (r: ReadOnlyMemory<M>)
    ensures
        r == (ReadOnlyMemory { inner }),
{
    ReadOnlyMemory { inner }
}

impl<M: Memory> ReadOnlyMemory<M> {
    /// The wrapped memory.
    pub open spec fn inner_mem(&self) -> M {
        self.inner
    }
}

impl<M: Memory> Memory for ReadOnlyMemory<M> {
    open spec fn mem_size(&self) -> nat {
        self.inner.mem_size()
    }

    open spec fn can_read(&self, addr: int) -> bool {
        self.inner.can_read(addr)
    }

    open spec fn can_write(&self, addr: int) -> bool {
        false
    }

    open spec fn byte_at(&self, addr: int) -> u8 {
        self.inner.byte_at(addr)
    }

    open spec fn read_err(&self, addr: int) -> MemoryError {
        self.inner.read_err(addr)
    }

    open spec fn write_err(&self, addr: int) -> MemoryError {
        MemoryError::MemoryNotWritable(addr as u64)
    }

    open spec fn aliases(&self, a: int, b: int) -> bool {
        self.inner.aliases(a, b)
    }

    fn len(&self) -> (r: u64) {
        self.inner.len()
    }

    fn get_u8(&self, addr: u64) -> (r: MemResult<u8>) {
        self.inner.get_u8(addr)
    }

    fn set_u8(&mut self, addr: u64, val: u8) -> (r: MemResult<()>) {
        Err(MemoryError::MemoryNotWritable(addr))
    }
}

/// Forwards writes to the wrapped memory and fails every read with
/// `MemoryNotReadable`. Models write-only memory-mapped registers.
pub struct WriteOnlyMemory<M: Memory> {
    /// The wrapped memory.
    pub inner: M,
}

/// Wraps `inner` so that only writes are forwarded.
pub fn write_only<M: Memory>(inner: M) -> (r: WriteOnlyMemory<M>)
    ensures
        r == (WriteOnlyMemory { inner }),
{
    WriteOnlyMemory { inner }
}

impl<M: Memory> WriteOnlyMemory<M> {
    /// The wrapped memory.
    pub open spec fn inner_mem(&self) -> M {
        self.inner
    }
}

impl<M: Memory> Memory for WriteOnlyMemory<M> {
    open spec fn mem_size(&self) -> nat {
        self.inner.mem_size()
    }

    open spec fn can_read(&self, addr: int) -> bool {
        false
    }

    open spec fn can_write(&self, addr: int) -> bool {
        self.inner.can_write(addr)
    }

    open spec fn byte_at(&self, addr: int) -> u8 {
        self.inner.byte_at(addr)
    }

    open spec fn read_err(&self, addr: int) -> MemoryError {
        MemoryError::MemoryNotReadable(addr as u64)
    }

    open spec fn write_err(&self, addr: int) -> MemoryError {
        self.inner.write_err(addr)
    }

    open spec fn aliases(&self, a: int, b: int) -> bool {
        self.inner.aliases(a, b)
    }

    fn len(&self) -> (r: u64) {
        self.inner.len()
    }

    fn get_u8(&self, addr: u64) -> (r: MemResult<u8>) {
        Err(MemoryError::MemoryNotReadable(addr))
    }

    fn set_u8(&mut self, addr: u64, val: u8) -> (r: MemResult<()>) {
        self.inner.set_u8(addr, val)
    }
}


/// A window of memory repeated over a larger address range: every copy of a
/// cell names the same storage, so a write through any copy is visible
/// through all of them. Models the console's mirrored RAM and register
/// windows.
pub struct Mirrored<M: Memory> {
    /// The backing window; its cell at offset `k` repeats at every address
    /// congruent to `k` modulo the window size.
    pub inner: M,
    /// The number of addressable bytes the repeated window covers.
    pub total: u64,
}

impl<M: Memory> Mirrored<M> {
    /// The size of one window.
    pub open spec fn window(&self) -> int {
        self.inner.mem_size() as int
    }

    /// Repeats `inner` until `total` bytes are covered.
    pub fn new(inner: M, total: u64) -> (r: Mirrored<M>)
        ensures
            r == (Mirrored { inner, total }),
    {
        Mirrored { inner, total }
    }
}

impl<M: Memory> Memory for Mirrored<M> {
    open spec fn mem_size(&self) -> nat {
        self.total as nat
    }

    open spec fn can_read(&self, addr: int) -> bool {
        0 <= addr < self.total && self.window() > 0 && self.inner.can_read(addr % self.window())
    }

    open spec fn can_write(&self, addr: int) -> bool {
        0 <= addr < self.total && self.window() > 0 && self.inner.can_write(addr % self.window())
    }

    open spec fn byte_at(&self, addr: int) -> u8 {
        if 0 <= addr < self.total && self.window() > 0 {
            self.inner.byte_at(addr % self.window())
        } else {
            0
        }
    }

    open spec fn read_err(&self, addr: int) -> MemoryError {
        if 0 <= addr < self.total && self.window() > 0 {
            self.inner.read_err(addr % self.window())
        } else {
            MemoryError::OutOfBounds(addr as u64)
        }
    }

    open spec fn write_err(&self, addr: int) -> MemoryError {
        if 0 <= addr < self.total && self.window() > 0 {
            self.inner.write_err(addr % self.window())
        } else {
            MemoryError::OutOfBounds(addr as u64)
        }
    }

    open spec fn aliases(&self, a: int, b: int) -> bool {
        &&& 0 <= a < self.total
        &&& 0 <= b < self.total
        &&& self.window() > 0
        &&& self.inner.aliases(a % self.window(), b % self.window())
    }

    fn len(&self) -> (r: u64) {
        self.total
    }

    fn get_u8(&self, addr: u64) -> (r: MemResult<u8>) {
        if addr < self.total {
            let w = self.inner.len();
            if w > 0 {
                self.inner.get_u8(addr % w)
            } else {
                Err(MemoryError::OutOfBounds(addr))
            }
        } else {
            Err(MemoryError::OutOfBounds(addr))
        }
    }

    fn set_u8(&mut self, addr: u64, val: u8) -> (r: MemResult<()>) {
        if addr < self.total {
            let w = self.inner.len();
            if w > 0 {
                let ghost win = self.window();
                let c = addr % w;
                let r = self.inner.set_u8(c, val);
                proof {
                    assert(self.window() == win);
                    assert(c as int == addr as int % win);
                    if old(self).can_write(addr as int) {
                        assert(old(self).inner.can_write(c as int));
                        assert forall|a: int| true implies #[trigger] self.byte_at(a) == (
                            if old(self).aliases(addr as int, a) {
                                val
                            } else {
                                old(self).byte_at(a)
                            }) by {
                            if 0 <= a < self.total {
                                let d = a % win;
                                assert(self.byte_at(a) == self.inner.byte_at(d));
                                assert(self.inner.byte_at(d) == (
                                    if old(self).inner.aliases(c as int, d) {
                                        val
                                    } else {
                                        old(self).inner.byte_at(d)
                                    }));
                            }
                        }
                    } else {
                        assert forall|a: int| true implies
                            #[trigger] self.byte_at(a) == old(self).byte_at(a) by {
                            if 0 <= a < self.total {
                                assert(self.byte_at(a) == self.inner.byte_at(a % win));
                            }
                        }
                    }
                }
                r
            } else {
                Err(MemoryError::OutOfBounds(addr))
            }
        } else {
            Err(MemoryError::OutOfBounds(addr))
        }
    }
}

/// The 16-bit value encoded little-endian by the byte pair `(lo, hi)`.
pub open spec fn le16(lo: u8, hi: u8) -> u16 {
    (lo + hi * 256) as u16
}

/// Reads the little-endian 16-bit value stored at `addr` and `addr + 1`.
pub fn get_u16_le<M: Memory>(mem: &M, addr: u64) -> (r: MemResult<u16>)
    requires
        addr < u64::MAX,
    ensures
        mem.can_read(addr as int) && mem.can_read(addr + 1) ==>
            r == MemResult::<u16>::Ok(le16(mem.byte_at(addr as int), mem.byte_at(addr + 1))),
        !mem.can_read(addr as int) ==> r == MemResult::<u16>::Err(mem.read_err(addr as int)),
        mem.can_read(addr as int) && !mem.can_read(addr + 1) ==>
            r == MemResult::<u16>::Err(mem.read_err(addr + 1)),
{
    let lo = mem.get_u8(addr)?;
    let hi = mem.get_u8(addr + 1)?;
    Ok(lo as u16 + hi as u16 * 256)
}

/// Writes `val` little-endian at `addr` and `addr + 1`. If the second write
/// is denied, the first byte stays written (partial mutation is left in
/// place). Each byte lands on every alias of its address; the high byte is
/// written last, so where the two addresses alias it wins.
pub fn set_u16_le<M: Memory>(mem: &mut M, addr: u64, val: u16) -> (r: MemResult<()>)
    requires
        addr < u64::MAX,
    ensures
        same_layout(old(mem), final(mem)),
        old(mem).can_write(addr as int) && old(mem).can_write(addr + 1) ==> {
            &&& r == MemResult::<()>::Ok(())
            &&& final(mem).byte_at(addr + 1) == (val / 256) as u8
            &&& forall|a: int| #[trigger] final(mem).byte_at(a) == (
                if old(mem).aliases(addr + 1, a) {
                    (val / 256) as u8
                } else if old(mem).aliases(addr as int, a) {
                    val as u8
                } else {
                    old(mem).byte_at(a)
                })
            &&& !old(mem).aliases(addr + 1, addr as int) ==> {
                &&& final(mem).byte_at(addr as int) == val as u8
                &&& le16(final(mem).byte_at(addr as int), final(mem).byte_at(addr + 1)) == val
            }
        },
        !old(mem).can_write(addr as int) ==> {
            &&& r == MemResult::<()>::Err(old(mem).write_err(addr as int))
            &&& same_bytes(old(mem), final(mem))
        },
        old(mem).can_write(addr as int) && !old(mem).can_write(addr + 1) ==> {
            &&& r == MemResult::<()>::Err(old(mem).write_err(addr + 1))
            &&& final(mem).byte_at(addr as int) == val as u8
            &&& forall|a: int| #[trigger] final(mem).byte_at(a) == (
                if old(mem).aliases(addr as int, a) {
                    val as u8
                } else {
                    old(mem).byte_at(a)
                })
        },
{
    let lo = (val % 256) as u8;
    let hi = (val / 256) as u8;
    proof {
        assert(lo == val as u8) by (bit_vector)
            requires lo == val % 256,
        ;
        assert(lo + hi * 256 == val);
    }
    mem.set_u8(addr, lo)?;
    mem.set_u8(addr + 1, hi)?;
    Ok(())
}


/// Reads `len` consecutive bytes starting at `addr`. Fails with the error of
/// the first unreadable address.
pub fn get_range<M: Memory>(mem: &M, addr: u64, len: usize) -> (r: MemResult<Vec<u8>>)
    requires
        addr + len <= u64::MAX,
    ensures
        (forall|k: int| 0 <= k < len ==> #[trigger] mem.can_read(addr + k)) ==> (r matches Ok(v)
            && v@ == Seq::new(len as nat, |k: int| mem.byte_at(addr + k))),
        r matches Err(e) ==> exists|i: int| {
            &&& 0 <= i < len
            &&& !(#[trigger] mem.can_read(addr + i))
            &&& e == mem.read_err(addr + i)
            &&& forall|k: int| 0 <= k < i ==> #[trigger] mem.can_read(addr + k)
        },
{
    let mut out: Vec<u8> = Vec::new();
    let mut i: usize = 0;
    while i < len
        invariant
            i <= len,
            addr + len <= u64::MAX,
            forall|k: int| 0 <= k < i ==> #[trigger] mem.can_read(addr + k),
            out@ == Seq::new(i as nat, |k: int| mem.byte_at(addr + k)),
        decreases len - i,
    {
        match mem.get_u8(addr + i as u64) {
            Ok(b) => {
                out.push(b);
            },
            Err(e) => {
                proof {
                    assert(!mem.can_read(addr + i as int));
                }
                return Err(e);
            },
        }
        i = i + 1;
        proof {
            assert(out@ =~= Seq::new(i as nat, |k: int| mem.byte_at(addr + k)));
        }
    }
    Ok(out)
}

/// Writes the bytes of `data` consecutively starting at `addr`. Fails with
/// the error of the first unwritable address, leaving the bytes before it
/// written (partial mutation is left in place). Each byte lands on every
/// alias of its address; the written bytes are reported exactly where no two
/// written addresses alias each other.
pub fn set_range<M: Memory>(mem: &mut M, addr: u64, data: &Vec<u8>) -> (r: MemResult<()>)
    requires
        addr + data@.len() <= u64::MAX,
    ensures
        final(mem).mem_size() == old(mem).mem_size(),
        forall|a: int| #[trigger] final(mem).can_read(a) == old(mem).can_read(a),
        forall|a: int| #[trigger] final(mem).can_write(a) == old(mem).can_write(a),
        forall|a: int| #[trigger] final(mem).read_err(a) == old(mem).read_err(a),
        forall|a: int| #[trigger] final(mem).write_err(a) == old(mem).write_err(a),
        forall|a: int, b: int| #[trigger] final(mem).aliases(a, b) == old(mem).aliases(a, b),
        (forall|k: int| 0 <= k < data@.len() ==> #[trigger] old(mem).can_write(addr + k))
            ==> r == MemResult::<()>::Ok(()),
        r matches Err(e) ==> exists|i: int| {
            &&& 0 <= i < data@.len()
            &&& !(#[trigger] old(mem).can_write(addr + i))
            &&& e == old(mem).write_err(addr + i)
            &&& forall|k: int| 0 <= k < i ==> #[trigger] old(mem).can_write(addr + k)
        },
        (forall|j: int, k: int| 0 <= j < data@.len() && 0 <= k < data@.len() && j != k ==>
            !(#[trigger] old(mem).aliases(addr + j, addr + k))) && r == MemResult::<()>::Ok(())
            ==> forall|k: int| 0 <= k < data@.len() ==>
                #[trigger] final(mem).byte_at(addr + k) == data@[k],
        forall|a: int| (forall|k: int| 0 <= k < data@.len()
            ==> !(#[trigger] old(mem).aliases(addr + k, a)))
            ==> #[trigger] final(mem).byte_at(a) == old(mem).byte_at(a),
{
    let mut i: usize = 0;
    let len = data.len();
    while i < len
        invariant
            i <= len,
            len == data@.len(),
            addr + len <= u64::MAX,
            forall|a: int| #[trigger] mem.can_read(a) == old(mem).can_read(a),
            forall|a: int| #[trigger] mem.can_write(a) == old(mem).can_write(a),
            forall|a: int| #[trigger] mem.read_err(a) == old(mem).read_err(a),
            forall|a: int| #[trigger] mem.write_err(a) == old(mem).write_err(a),
            forall|a: int, b: int| #[trigger] mem.aliases(a, b) == old(mem).aliases(a, b),
            mem.mem_size() == old(mem).mem_size(),
            forall|k: int| 0 <= k < i ==> #[trigger] old(mem).can_write(addr + k),
            (forall|j: int, k: int| 0 <= j < len && 0 <= k < len && j != k ==>
                !(#[trigger] old(mem).aliases(addr + j, addr + k)))
                ==> forall|k: int| 0 <= k < i ==> #[trigger] mem.byte_at(addr + k) == data@[k],
            forall|a: int| (forall|k: int| 0 <= k < i
                ==> !(#[trigger] old(mem).aliases(addr + k, a)))
                ==> #[trigger] mem.byte_at(a) == old(mem).byte_at(a),
        decreases len - i,
    {
        match mem.set_u8(addr + i as u64, data[i]) {
            Ok(()) => {},
            Err(e) => {
                proof {
                    assert(!old(mem).can_write(addr + i as int));
                }
                return Err(e);
            },
        }
        i = i + 1;
    }
    Ok(())
}

} // verus!
