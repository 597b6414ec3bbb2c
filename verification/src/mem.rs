//! Shared memory and snapshot store: the guest's physical memory backing
//! store, bulk transfer operations with bounds checks, and full-memory
//! snapshots that restore the store byte for byte to its captured state.
//!
//! Exclusive access is encoded in the types: every operation that reads or
//! writes the backing store takes the store by `&self` or `&mut self`, so a
//! holder of a `&mut` reference is the single writer by construction, which
//! is the discipline the snapshot guarantees rely on.

use vstd::prelude::*;

use crate::CoreError;

verus! {

/// Page size of the platform; backing stores are sized in whole pages.
pub const PAGE_SIZE_USIZE: usize = 4096;

/// Descriptor of an address range mapped into the guest and its access
/// permissions. Regions are created when memory is mapped into the VM and
/// dropped when it is unmapped or the sandbox is torn down.
#[derive(Debug, Clone, Copy, PartialEq, Eq, Structural)]
pub struct MemoryRegion {
    /// Guest-physical address at which the region starts.
    pub guest_base: u64,
    /// Length of the region in bytes.
    pub size: usize,
    /// Whether the guest may read the region.
    pub readable: bool,
    /// Whether the guest may write the region.
    pub writable: bool,
    /// Whether the guest may execute from the region.
    pub executable: bool,
}

/// The size `min_size` rounds up to: the smallest whole number of pages
/// that holds `min_size` bytes.
pub open spec fn round_to_pages(min_size: usize) -> int {
    ((min_size + PAGE_SIZE_USIZE - 1) / (PAGE_SIZE_USIZE as int)) * (PAGE_SIZE_USIZE as int)
}

/// The bytes of `mem` with the range starting at `offset` replaced by
/// `src`; everything outside that range is unchanged.
pub open spec fn overwrite(mem: Seq<u8>, src: Seq<u8>, offset: int) -> Seq<u8> {
    Seq::new(
        mem.len(),
        |i: int|
            if offset <= i < offset + src.len() {
                src[i - offset]
            } else {
                mem[i]
            },
    )
}

/// A backing store for guest memory. Implementors expose the store's bytes
/// for bulk transfer; a `&mut` receiver marks the operations that demand
/// exclusive access.
pub trait SharedMemory: Sized {
    /// The current bytes of the backing store.
    spec fn mem(&self) -> Seq<u8>;

    /// The size of the backing store in bytes.
    fn mem_size(&self) -> (n: usize)
        ensures
            n == self.mem().len(),
    ;

    /// Copy every byte of the backing store into a fresh vector.
    fn copy_all_to_vec(&self) -> (r: Result<Vec<u8>, CoreError>)
        ensures
            r matches Ok(v) && v@ == self.mem(),
    ;

    /// Copy `len` bytes starting at `offset` out of the backing store. A
    /// read that would run past the end of the store fails with a bounds
    /// error.
    fn copy_range_to_vec(&self, offset: usize, len: usize) -> (r: Result<Vec<u8>, CoreError>)
        ensures
            match r {
                Ok(v) => offset + len <= self.mem().len() && v@ == self.mem().subrange(
                    offset as int,
                    offset + len,
                ),
                Err(e) => {
                    &&& offset + len > self.mem().len()
                    &&& (e matches CoreError::OutOfBounds { offset: o, len: l, size: s } && o
                        == offset && l == len && s == self.mem().len())
                },
            },
    ;

    /// Copy `src` into the backing store starting at `offset`. A copy that
    /// would run past the end of the store fails with a bounds error and
    /// leaves the store unchanged.
    fn copy_from_slice(&mut self, src: &[u8], offset: usize) -> (r: Result<(), CoreError>)
        ensures
            match r {
                Ok(()) => offset + src@.len() <= old(self).mem().len() && final(self).mem()
                    == overwrite(old(self).mem(), src@, offset as int),
                Err(e) => {
                    &&& offset + src@.len() > old(self).mem().len()
                    &&& final(self).mem() == old(self).mem()
                    &&& (e matches CoreError::OutOfBounds { offset: o, len: l, size: s } && o
                        == offset && l == src@.len() && s == old(self).mem().len())
                },
            },
    ;
}

/// A guest memory backing store owned outright by the host, with no
/// concurrent mapping; the owner of a `&mut` reference is its only writer.
pub struct ExclusiveSharedMemory {
    data: Vec<u8>,
}

impl ExclusiveSharedMemory {
    /// Allocate a zero-initialized backing store of at least `min_size`
    /// bytes, rounded up to a whole number of pages. A request of zero
    /// bytes, or one so large that rounding it up would exceed the address
    /// space, is rejected.
    pub fn new(min_size: usize) -> (r: Result<ExclusiveSharedMemory, CoreError>)
        ensures
            match r {
                Ok(s) => {
                    &&& 0 < min_size <= usize::MAX - (PAGE_SIZE_USIZE - 1)
                    &&& s.mem() =~= Seq::new(round_to_pages(min_size) as nat, |i: int| 0u8)
                },
                Err(e) => {
                    &&& !(0 < min_size <= usize::MAX - (PAGE_SIZE_USIZE - 1))
                    &&& e == CoreError::InvalidMemorySize { requested: min_size }
                },
            },
    {
        if min_size == 0 || min_size > usize::MAX - (PAGE_SIZE_USIZE - 1) {
            return Err(CoreError::InvalidMemorySize { requested: min_size });
        }
        let pages: usize = (min_size + (PAGE_SIZE_USIZE - 1)) / PAGE_SIZE_USIZE;
        assert(pages * PAGE_SIZE_USIZE == round_to_pages(min_size)) by (nonlinear_arith)
            requires
                pages == (min_size + (PAGE_SIZE_USIZE - 1)) / (PAGE_SIZE_USIZE as int),
                round_to_pages(min_size) == ((min_size + PAGE_SIZE_USIZE - 1) / (
                PAGE_SIZE_USIZE as int)) * (PAGE_SIZE_USIZE as int),
        ;
        assert(pages * PAGE_SIZE_USIZE <= min_size + (PAGE_SIZE_USIZE - 1)) by (nonlinear_arith)
            requires
                pages == (min_size + (PAGE_SIZE_USIZE - 1)) / (PAGE_SIZE_USIZE as int),
                min_size + (PAGE_SIZE_USIZE - 1) <= usize::MAX,
        ;
        let total: usize = pages * PAGE_SIZE_USIZE;
        let mut data: Vec<u8> = Vec::new();
        let mut i: usize = 0;
        while i < total
            invariant
                i <= total,
                data@.len() == i,
                forall|j: int| 0 <= j < i ==> data@[j] == 0u8,
            decreases total - i,
        {
            data.push(0u8);
            i = i + 1;
        }
        Ok(ExclusiveSharedMemory { data })
    }
}

impl SharedMemory for ExclusiveSharedMemory {
    closed spec fn mem(&self) -> Seq<u8> {
        self.data@
    }

    fn mem_size(&self) -> (n: usize) {
        self.data.len()
    }

    fn copy_all_to_vec(&self) -> (r: Result<Vec<u8>, CoreError>) {
        let mut out: Vec<u8> = Vec::new();
        let mut i: usize = 0;
        while i < self.data.len()
            invariant
                i <= self.data@.len(),
                out@ =~= self.data@.subrange(0, i as int),
            decreases self.data@.len() - i,
        {
            out.push(self.data[i]);
            i = i + 1;
        }
        assert(out@ =~= self.data@);
        Ok(out)
    }

    fn copy_range_to_vec(&self, offset: usize, len: usize) -> (r: Result<Vec<u8>, CoreError>) {
        if len > self.data.len() || offset > self.data.len() - len {
            return Err(CoreError::OutOfBounds { offset, len, size: self.data.len() });
        }
        let mut out: Vec<u8> = Vec::new();
        let mut i: usize = 0;
        while i < len
            invariant
                i <= len,
                offset + len <= self.data@.len(),
                self.data@.len() <= usize::MAX,
                out@ =~= self.data@.subrange(offset as int, offset + i),
            decreases len - i,
        {
            out.push(self.data[offset + i]);
            i = i + 1;
        }
        assert(out@ =~= self.data@.subrange(offset as int, offset + len));
        Ok(out)
    }

    fn copy_from_slice(&mut self, src: &[u8], offset: usize) -> (r: Result<(), CoreError>) {
        if src.len() > self.data.len() || offset > self.data.len() - src.len() {
            return Err(
                CoreError::OutOfBounds { offset, len: src.len(), size: self.data.len() },
            );
        }
        let mut i: usize = 0;
        while i < src.len()
            invariant
                i <= src@.len(),
                offset + src@.len() <= self.data@.len(),
                self.data@.len() <= usize::MAX,
                self.data@.len() == old(self).data@.len(),
                forall|j: int|
                    0 <= j < self.data@.len() && !(offset <= j < offset + i) ==> self.data@[j]
                        == old(self).data@[j],
                forall|j: int| offset <= j < offset + i ==> self.data@[j] == src@[j - offset],
            decreases src@.len() - i,
        {
            self.data[offset + i] = src[i];
            i = i + 1;
        }
        assert(self.data@ =~= overwrite(old(self).data@, src@, offset as int));
        Ok(())
    }
}

/// A full snapshot of a guest memory backing store: the bytes of the store
/// at capture time, the identifier of the sandbox the capture was taken
/// from, and the regions that were mapped beyond the initial sandbox
/// layout.
///
/// The snapshot is read-only between captures: `restore_from_snapshot`
/// consumes nothing and never mutates it, so restoring the same snapshot
/// any number of times reproduces the same bytes.
#[derive(Clone)]
pub struct SharedMemorySnapshot {
    /// Unique identifier of the sandbox this snapshot was taken from.
    sandbox_id: u64,
    /// Memory of the sandbox at the time this snapshot was taken.
    snapshot: Vec<u8>,
    /// The regions mapped when this snapshot was taken, excluding the
    /// initial sandbox regions.
    regions: Vec<MemoryRegion>,
}

impl SharedMemorySnapshot {
    /// The bytes this snapshot captured.
    pub closed spec fn spec_snapshot(&self) -> Seq<u8> {
        self.snapshot@
    }

    /// The identifier of the sandbox this snapshot was taken from.
    pub closed spec fn spec_sandbox_id(&self) -> u64 {
        self.sandbox_id
    }

    /// The regions recorded in this snapshot.
    pub closed spec fn spec_regions(&self) -> Seq<MemoryRegion> {
        self.regions@
    }

    /// Capture the entire backing store of `shared_mem` into a new
    /// snapshot. The store is read, never changed.
    pub fn new<S: SharedMemory>(
        shared_mem: &mut S,
        sandbox_id: u64,
        regions: Vec<MemoryRegion>,
    ) -> (r: Result<SharedMemorySnapshot, CoreError>)
        ensures
            final(shared_mem).mem() == old(shared_mem).mem(),
            r matches Ok(s) && s.spec_snapshot() == old(shared_mem).mem()
                && s.spec_sandbox_id() == sandbox_id && s.spec_regions() == regions@,
    {
        let snapshot = shared_mem.copy_all_to_vec()?;
        Ok(SharedMemorySnapshot { sandbox_id, snapshot, regions })
    }

    /// Capture the backing store again, discarding the prior snapshot
    /// buffer. The sandbox identifier and the recorded regions are kept.
    pub fn replace_snapshot<S: SharedMemory>(&mut self, shared_mem: &mut S) -> (r: Result<
        (),
        CoreError,
    >)
        ensures
            final(shared_mem).mem() == old(shared_mem).mem(),
            r matches Ok(()) && final(self).spec_snapshot() == old(shared_mem).mem()
                && final(self).spec_sandbox_id() == old(self).spec_sandbox_id()
                && final(self).spec_regions() == old(self).spec_regions(),
    {
        self.snapshot = shared_mem.copy_all_to_vec()?;
        Ok(())
    }

    /// Copy the snapshot back into the backing store at offset 0,
    /// overwriting its current contents. When the store still has the size
    /// it had at capture time, the store afterwards equals the snapshot
    /// byte for byte; a snapshot larger than the store is a bounds error
    /// and leaves the store unchanged.
    pub fn restore_from_snapshot<S: SharedMemory>(&self, shared_mem: &mut S) -> (r: Result<
        (),
        CoreError,
    >)
        ensures
            match r {
                Ok(()) => {
                    &&& self.spec_snapshot().len() <= old(shared_mem).mem().len()
                    &&& final(shared_mem).mem() == overwrite(
                        old(shared_mem).mem(),
                        self.spec_snapshot(),
                        0,
                    )
                    &&& self.spec_snapshot().len() == old(shared_mem).mem().len() ==> final(shared_mem).mem() =~= self.spec_snapshot()
                },
                Err(e) => {
                    &&& self.spec_snapshot().len() > old(shared_mem).mem().len()
                    &&& final(shared_mem).mem() == old(shared_mem).mem()
                    &&& (e matches CoreError::OutOfBounds { offset: o, len: l, size: s } && o == 0
                        && l == self.spec_snapshot().len() && s == old(shared_mem).mem().len())
                },
            },
    {
        let r = shared_mem.copy_from_slice(self.snapshot.as_slice(), 0);
        proof {
            if r is Ok && self.snapshot@.len() == old(shared_mem).mem().len() {
                assert(overwrite(old(shared_mem).mem(), self.snapshot@, 0) =~= self.snapshot@);
            }
        }
        r
    }

    /// The identifier of the sandbox this snapshot was taken from.
    pub fn sandbox_id(&self) -> (id: u64)
        ensures
            id == self.spec_sandbox_id(),
    {
        self.sandbox_id
    }

    /// The regions that were mapped when this snapshot was taken.
    pub fn regions(&self) -> (r: &[MemoryRegion])
        ensures
            r@ == self.spec_regions(),
    {
        self.regions.as_slice()
    }

    /// The size of the snapshot in bytes, which is the size the backing
    /// store had at capture time.
    pub fn mem_size(&self) -> (n: usize)
        ensures
            n == self.spec_snapshot().len(),
    {
        self.snapshot.len()
    }
}

/// Whether a guest-relative access of `len` bytes at `guest_address`
/// falls inside memory mapped at `base` with `mem_len` bytes.
pub open spec fn guest_range_in_bounds(
    base: u64,
    guest_address: u64,
    len: nat,
    mem_len: nat,
) -> bool {
    &&& base <= guest_address
    &&& guest_address - base + len <= mem_len
}

/// Composes the backing store with layout metadata: the guest-physical
/// base the store is mapped at, and the snapshot captured right after
/// the initial guest image load. Restoring before each subsequent guest
/// invocation gives every call a clean-slate start from the same VM.
/// The accessors read and write at guest-relative addresses, which is
/// how the OutB dispatcher pulls payload data out of guest memory.
pub struct SandboxMemoryManager<S: SharedMemory> {
    /// The guest memory backing store.
    shared_mem: S,
    /// Guest-physical address at which the store is mapped.
    base_address: u64,
    /// The snapshot restores return to, once one was captured.
    snapshot: Option<SharedMemorySnapshot>,
}

impl<S: SharedMemory> SandboxMemoryManager<S> {
    /// The bytes of the managed backing store.
    pub closed spec fn mem(&self) -> Seq<u8> {
        self.shared_mem.mem()
    }

    /// The guest-physical base address of the mapping.
    pub closed spec fn spec_base_address(&self) -> u64 {
        self.base_address
    }

    /// The bytes of the captured snapshot, when one was taken.
    pub closed spec fn spec_snapshot(&self) -> Option<Seq<u8>> {
        match self.snapshot {
            Some(s) => Some(s.spec_snapshot()),
            None => None,
        }
    }

    /// Take over a backing store mapped into the guest at `base_address`.
    /// No snapshot exists yet; one is captured after the image loads.
    pub fn new(shared_mem: S, base_address: u64) -> (m: SandboxMemoryManager<S>)
        ensures
            m.mem() == shared_mem.mem(),
            m.spec_base_address() == base_address,
            m.spec_snapshot() is None,
    {
        SandboxMemoryManager { shared_mem, base_address, snapshot: None }
    }

    /// Read `len` bytes of guest memory at a guest-physical address. An
    /// access below the base or past the end of the mapping is an
    /// invalid-address error.
    pub fn read_guest(&self, guest_address: u64, len: usize) -> (r: Result<Vec<u8>, CoreError>)
        ensures
            match r {
                Ok(v) => {
                    &&& guest_range_in_bounds(
                        self.spec_base_address(),
                        guest_address,
                        len as nat,
                        self.mem().len(),
                    )
                    &&& v@ == self.mem().subrange(
                        guest_address - self.spec_base_address(),
                        guest_address - self.spec_base_address() + len,
                    )
                },
                Err(e) => {
                    &&& !guest_range_in_bounds(
                        self.spec_base_address(),
                        guest_address,
                        len as nat,
                        self.mem().len(),
                    )
                    &&& e == (CoreError::InvalidGuestAddress { guest_address, len })
                },
            },
    {
        let size = self.shared_mem.mem_size();
        if guest_address < self.base_address {
            return Err(CoreError::InvalidGuestAddress { guest_address, len });
        }
        let delta: u64 = guest_address - self.base_address;
        if delta > size as u64 {
            return Err(CoreError::InvalidGuestAddress { guest_address, len });
        }
        let offset: usize = delta as usize;
        match self.shared_mem.copy_range_to_vec(offset, len) {
            Ok(v) => Ok(v),
            Err(_) => Err(CoreError::InvalidGuestAddress { guest_address, len }),
        }
    }

    /// Write `data` into guest memory at a guest-physical address. An
    /// access below the base or past the end of the mapping is an
    /// invalid-address error and leaves memory unchanged.
    pub fn write_guest(&mut self, guest_address: u64, data: &[u8]) -> (r: Result<(), CoreError>)
        ensures
            final(self).spec_base_address() == old(self).spec_base_address(),
            final(self).spec_snapshot() == old(self).spec_snapshot(),
            match r {
                Ok(()) => {
                    &&& guest_range_in_bounds(
                        old(self).spec_base_address(),
                        guest_address,
                        data@.len(),
                        old(self).mem().len(),
                    )
                    &&& final(self).mem() == overwrite(
                        old(self).mem(),
                        data@,
                        guest_address - old(self).spec_base_address(),
                    )
                },
                Err(e) => {
                    &&& !guest_range_in_bounds(
                        old(self).spec_base_address(),
                        guest_address,
                        data@.len(),
                        old(self).mem().len(),
                    )
                    &&& final(self).mem() == old(self).mem()
                    &&& e == (CoreError::InvalidGuestAddress { guest_address, len: data@.len() as usize })
                },
            },
    {
        let size = self.shared_mem.mem_size();
        if guest_address < self.base_address {
            return Err(CoreError::InvalidGuestAddress { guest_address, len: data.len() });
        }
        let delta: u64 = guest_address - self.base_address;
        if delta > size as u64 {
            return Err(CoreError::InvalidGuestAddress { guest_address, len: data.len() });
        }
        let offset: usize = delta as usize;
        match self.shared_mem.copy_from_slice(data, offset) {
            Ok(()) => Ok(()),
            Err(_) => Err(CoreError::InvalidGuestAddress { guest_address, len: data.len() }),
        }
    }

    /// Capture the snapshot that later restores return to; called right
    /// after the initial guest image load, and again to re-baseline.
    pub fn capture_snapshot(&mut self, sandbox_id: u64, regions: Vec<MemoryRegion>) -> (r: Result<
        (),
        CoreError,
    >)
        ensures
            r is Ok,
            final(self).mem() == old(self).mem(),
            final(self).spec_base_address() == old(self).spec_base_address(),
            final(self).spec_snapshot() == Some(old(self).mem()),
    {
        let snapshot = SharedMemorySnapshot::new(&mut self.shared_mem, sandbox_id, regions)?;
        self.snapshot = Some(snapshot);
        Ok(())
    }

    /// Restore guest memory to the captured snapshot before the next
    /// guest invocation, so the call starts from a clean slate. Restoring
    /// with no snapshot captured, or after the store shrank below the
    /// snapshot, is an error that leaves memory unchanged.
    pub fn restore_snapshot(&mut self) -> (r: Result<(), CoreError>)
        ensures
            final(self).spec_base_address() == old(self).spec_base_address(),
            final(self).spec_snapshot() == old(self).spec_snapshot(),
            match r {
                Ok(()) => {
                    &&& (old(self).spec_snapshot() matches Some(snap) && {
                        &&& snap.len() <= old(self).mem().len()
                        &&& final(self).mem() == overwrite(old(self).mem(), snap, 0)
                        &&& snap.len() == old(self).mem().len() ==> final(self).mem() =~= snap
                    })
                },
                Err(e) => {
                    &&& final(self).mem() == old(self).mem()
                    &&& match old(self).spec_snapshot() {
                        Some(snap) => snap.len() > old(self).mem().len() && (
                        e matches CoreError::OutOfBounds { .. }),
                        None => e == CoreError::NoSnapshotTaken,
                    }
                },
            },
    {
        match &self.snapshot {
            Some(snapshot) => snapshot.restore_from_snapshot(&mut self.shared_mem),
            None => Err(CoreError::NoSnapshotTaken),
        }
    }
}

/// Round trip: restoring a snapshot of bytes `captured` into a store of
/// the same size yields exactly `captured`, whatever bytes `mutated` the
/// store holds at restore time.
pub proof fn lemma_snapshot_round_trip(captured: Seq<u8>, mutated: Seq<u8>)
    requires
        captured.len() == mutated.len(),
    ensures
        overwrite(mutated, captured, 0) =~= captured,
{
}

/// Idempotence: restoring the same snapshot a second time changes nothing;
/// both restores leave the store with identical contents.
pub proof fn lemma_restore_idempotent(captured: Seq<u8>, mem: Seq<u8>)
    requires
        captured.len() <= mem.len(),
    ensures
        overwrite(overwrite(mem, captured, 0), captured, 0) =~= overwrite(mem, captured, 0),
{
}

} // verus!
