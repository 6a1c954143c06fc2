//! The walk of the process list: the list of `_EPROCESS` structures linked
//! through `ActiveProcessLinks`, what a walk emits, and how it stops.

use vstd::prelude::*;

use super::kernel::{Win32Kernel, MAX_ITER_COUNT};
use crate::architecture::lemma_arch_layout_unique;
use crate::error::ErrorKind;
use crate::os::process::ProcessInfo;
use crate::phys_mem::PhysicalMemory;
use crate::types::Address;
use crate::virt_mem::lemma_read_addr_same_translation;
use vstd::wrapping::u64_specs::{wrapping_add, wrapping_sub};

verus! {

impl<T: PhysicalMemory> Win32Kernel<T> {
    /// The walk of the process list from the entry `entry`, with at most
    /// `fuel` entries left: the `_EPROCESS` addresses it emits, and how it ends.
    pub open spec fn walk_spec(&self, list_start: u64, entry: u64, fuel: nat) -> (
        Seq<u64>,
        Result<(), ErrorKind>,
    )
        decreases fuel,
    {
        if fuel == 0 {
            (Seq::empty(), Err(ErrorKind::ListCorrupted))
        } else {
            match self.read_addr(entry) {
                Err(e) => (Seq::empty(), Err(e)),
                Ok(flink) => match self.read_addr(wrapping_add(entry, self.offsets.list_blink)) {
                    Err(e) => (Seq::empty(), Err(e)),
                    Ok(blink) => if flink == 0 || blink == 0 || flink == list_start || flink == entry {
                        (Seq::empty(), Ok(()))
                    } else {
                        let rest = self.walk_spec(list_start, flink, (fuel - 1) as nat);
                        (
                            seq![wrapping_sub(entry, self.offsets.eproc_link)] + rest.0,
                            rest.1,
                        )
                    },
                },
            }
        }
    }

    /// Head of the process list: the links of the System process.
    pub open spec fn list_start_spec(&self) -> u64 {
        wrapping_add(self.kernel_info.eprocess_base.addr, self.offsets.eproc_link)
    }

    /// The walk of the whole process list.
    pub open spec fn process_list_spec(&self) -> (Seq<u64>, Result<(), ErrorKind>) {
        self.walk_spec(self.list_start_spec(), self.list_start_spec(), MAX_ITER_COUNT as nat)
    }

    /// Walks `_EPROCESS.ActiveProcessLinks` from the System process and returns
    /// the address of each `_EPROCESS` passed, with how the walk ended: `Ok`
    /// at a null link, back at the head or at an entry that links to itself;
    /// `ListCorrupted` after `MAX_ITER_COUNT` entries; the read error where a
    /// link cannot be read. The addresses emitted before an error stay valid.
    pub fn process_address_list(&self) -> (r: (Vec<Address>, Result<(), ErrorKind>))
        requires
            self.wf(),
        ensures
            r.0@.len() == self.process_list_spec().0.len(),
            forall|i: int|
                0 <= i < r.0@.len() ==> #[trigger] r.0@[i].addr == self.process_list_spec().0[i],
            r.1 == self.process_list_spec().1,
    {
        let arch = self.kernel_info.arch;
        let list_start = self.kernel_info.eprocess_base.addr.wrapping_add(self.offsets.eproc_link);
        let mut entry = list_start;
        let mut out: Vec<Address> = Vec::new();
        let ghost emitted: Seq<u64> = Seq::empty();
        let mut n: usize = 0;
        while n < MAX_ITER_COUNT
            invariant
                self.wf(),
                arch == self.kernel_info.arch,
                list_start == self.list_start_spec(),
                n <= MAX_ITER_COUNT,
                out@.len() == emitted.len(),
                forall|i: int| 0 <= i < out@.len() ==> #[trigger] out@[i].addr == emitted[i],
                emitted + self.walk_spec(list_start, entry, (MAX_ITER_COUNT - n) as nat).0
                    == self.process_list_spec().0,
                self.walk_spec(list_start, entry, (MAX_ITER_COUNT - n) as nat).1
                    == self.process_list_spec().1,
            decreases MAX_ITER_COUNT - n,
        {
            let ghost fuel = (MAX_ITER_COUNT - n) as nat;
            let flink = match self.virt_mem.virt_read_addr_arch(arch, Address::from_u64(entry)) {
                Ok(a) => a.addr,
                Err(e) => {
                    assert(emitted + Seq::<u64>::empty() =~= emitted);
                    return (out, Err(e));
                },
            };
            let blink = match self.virt_mem.virt_read_addr_arch(
                arch,
                Address::from_u64(entry.wrapping_add(self.offsets.list_blink)),
            ) {
                Ok(a) => a.addr,
                Err(e) => {
                    assert(emitted + Seq::<u64>::empty() =~= emitted);
                    return (out, Err(e));
                },
            };
            if flink == 0 || blink == 0 || flink == list_start || flink == entry {
                assert(emitted + Seq::<u64>::empty() =~= emitted);
                return (out, Ok(()));
            }
            let eprocess = entry.wrapping_sub(self.offsets.eproc_link);
            out.push(Address::from_u64(eprocess));
            proof {
                let rest = self.walk_spec(list_start, flink, (fuel - 1) as nat);
                assert(emitted + (seq![eprocess] + rest.0) =~= emitted.push(eprocess) + rest.0);
                emitted = emitted.push(eprocess);
            }
            entry = flink;
            n = n + 1;
        }
        assert(emitted + Seq::<u64>::empty() =~= emitted);
        (out, Err(ErrorKind::ListCorrupted))
    }

    /// Whether `address` holds a readable process with id `pid`.
    pub open spec fn has_pid(&self, address: u64, pid: u32) -> bool {
        self.base_info_spec(address) is Ok && self.base_info_spec(address)->Ok_0.0 == pid
    }

    /// Finds the process with id `pid`: the first entry of the process list
    /// whose `_EPROCESS` reads with that id; entries that do not read are
    /// passed over. `ProcessNotFound` where no entry has the id.
    pub fn process_info_by_pid(&self, pid: u32) -> (r: Result<ProcessInfo, ErrorKind>)
        requires
            self.wf(),
        ensures
            r is Ok ==> exists|i: int|
                #![trigger self.process_list_spec().0[i]]
                0 <= i < self.process_list_spec().0.len() && self.has_pid(
                    self.process_list_spec().0[i],
                    pid,
                ) && (forall|j: int|
                    0 <= j < i ==> !self.has_pid(self.process_list_spec().0[j], pid))
                    && r->Ok_0.address.addr == self.process_list_spec().0[i]
                    && r->Ok_0.pid == pid,
            r is Err ==> r->Err_0 == ErrorKind::ProcessNotFound && forall|i: int|
                0 <= i < self.process_list_spec().0.len() ==> !#[trigger] self.has_pid(
                    self.process_list_spec().0[i],
                    pid,
                ),
    {
        let (list, _) = self.process_address_list();
        let ghost s = self.process_list_spec().0;
        let mut i: usize = 0;
        while i < list.len()
            invariant
                self.wf(),
                s == self.process_list_spec().0,
                list@.len() == s.len(),
                forall|j: int| 0 <= j < list@.len() ==> #[trigger] list@[j].addr == s[j],
                i <= list@.len(),
                forall|j: int| 0 <= j < i ==> !#[trigger] self.has_pid(s[j], pid),
            decreases list@.len() - i,
        {
            let address = list[i];
            assert(address.addr == s[i as int]);
            match self.process_info_base_by_address(address) {
                Ok(info) => {
                    if info.pid == pid {
                        return Ok(info);
                    }
                },
                Err(_) => {},
            }
            i = i + 1;
        }
        Err(ErrorKind::ProcessNotFound)
    }
}

impl<T: PhysicalMemory> Win32Kernel<T> {
    /// The entry that the list entry at `entry` links forward to; null where
    /// its link cannot be read.
    pub open spec fn next_entry(&self, entry: u64) -> u64 {
        match self.read_addr(entry) {
            Ok(flink) => flink,
            Err(_) => 0,
        }
    }

    /// The entry reached from `entry` by following `i` forward links.
    pub open spec fn chain(&self, entry: u64, i: nat) -> u64
        decreases i,
    {
        if i == 0 {
            entry
        } else {
            self.chain(self.next_entry(entry), (i - 1) as nat)
        }
    }
}

proof fn lemma_chain_succ<T: PhysicalMemory>(k: &Win32Kernel<T>, e: u64, i: nat)
    ensures
        k.chain(e, i + 1) == k.next_entry(k.chain(e, i)),
    decreases i,
{
    assert(k.chain(e, i + 1) == k.chain(k.next_entry(e), i));
    if i > 0 {
        lemma_chain_succ(k, k.next_entry(e), (i - 1) as nat);
        assert(k.chain(e, i) == k.chain(k.next_entry(e), (i - 1) as nat));
        assert((i - 1) as nat + 1 == i);
    } else {
        assert(k.chain(k.next_entry(e), 0) == k.next_entry(e));
    }
}

/// Once the chain meets an entry again, it repeats.
proof fn lemma_chain_shift<T: PhysicalMemory>(k: &Win32Kernel<T>, e: u64, i: nat, j: nat, t: nat)
    requires
        k.chain(e, i) == k.chain(e, j),
    ensures
        k.chain(e, i + t) == k.chain(e, j + t),
    decreases t,
{
    if t > 0 {
        lemma_chain_shift(k, e, i, j, (t - 1) as nat);
        lemma_chain_succ(k, e, (i + t - 1) as nat);
        lemma_chain_succ(k, e, (j + t - 1) as nat);
    }
}

/// An entry that the repeating chain reaches at or after `i` it reaches before `j`.
proof fn lemma_chain_reduce<T: PhysicalMemory>(k: &Win32Kernel<T>, e: u64, i: nat, j: nat, m: nat)
    requires
        i < j,
        i <= m,
        k.chain(e, i) == k.chain(e, j),
    ensures
        exists|r: nat| i <= r < j && #[trigger] k.chain(e, r) == k.chain(e, m),
    decreases m,
{
    if m < j {
        assert(i <= m < j && k.chain(e, m) == k.chain(e, m));
    } else {
        let back = (m - (j - i)) as nat;
        lemma_chain_shift(k, e, i, j, (back - i) as nat);
        lemma_chain_reduce(k, e, i, j, back);
    }
}

/// The entries a walk emits are those of the chain, and the walk goes on only
/// while the chain has not come back to the head.
proof fn lemma_walk_chain<T: PhysicalMemory>(k: &Win32Kernel<T>, start: u64, e: u64, fuel: nat)
    ensures
        forall|i: int|
            0 <= i < k.walk_spec(start, e, fuel).0.len() ==> #[trigger] k.walk_spec(
                start,
                e,
                fuel,
            ).0[i] == wrapping_sub(k.chain(e, i as nat), k.offsets.eproc_link),
        forall|i: nat|
            1 <= i <= k.walk_spec(start, e, fuel).0.len() ==> #[trigger] k.chain(e, i) != start,
    decreases fuel,
{
    if fuel > 0 {
        match k.read_addr(e) {
            Ok(flink) => match k.read_addr(wrapping_add(e, k.offsets.list_blink)) {
                Ok(blink) => {
                    if !(flink == 0 || blink == 0 || flink == start || flink == e) {
                        lemma_walk_chain(k, start, flink, (fuel - 1) as nat);
                        let rest = k.walk_spec(start, flink, (fuel - 1) as nat).0;
                        let s = k.walk_spec(start, e, fuel).0;
                        assert(s == seq![wrapping_sub(e, k.offsets.eproc_link)] + rest);
                        assert(k.next_entry(e) == flink);
                        assert forall|i: int| 0 <= i < s.len() implies #[trigger] s[i]
                            == wrapping_sub(k.chain(e, i as nat), k.offsets.eproc_link) by {
                            if i > 0 {
                                assert(s[i] == rest[i - 1]);
                                assert(k.chain(e, i as nat) == k.chain(flink, (i - 1) as nat));
                            }
                        }
                        assert forall|i: nat| 1 <= i <= s.len() implies #[trigger] k.chain(e, i)
                            != start by {
                            assert(k.chain(e, i) == k.chain(flink, (i - 1) as nat));
                            if i > 1 {
                                assert(1 <= (i - 1) as nat <= rest.len());
                            } else {
                                assert(k.chain(flink, 0) == flink);
                            }
                        }
                    }
                },
                Err(_) => {},
            },
            Err(_) => {},
        }
    }
}

/// If following the forward links from the head of the process list comes
/// back to the head, the walk emits each `_EPROCESS` at most once.
pub proof fn lemma_process_list_distinct<T: PhysicalMemory>(k: &Win32Kernel<T>, m: nat)
    requires
        m >= 1,
        k.chain(k.list_start_spec(), m) == k.list_start_spec(),
    ensures
        forall|i: int, j: int|
            0 <= i < j < k.process_list_spec().0.len() ==> k.process_list_spec().0[i]
                != k.process_list_spec().0[j],
{
    let start = k.list_start_spec();
    let s = k.process_list_spec().0;
    lemma_walk_chain(k, start, start, MAX_ITER_COUNT as nat);
    assert forall|i: int, j: int| 0 <= i < j < s.len() implies s[i] != s[j] by {
        if s[i] == s[j] {
            let ci = k.chain(start, i as nat);
            let cj = k.chain(start, j as nat);
            assert(s[i] == wrapping_sub(ci, k.offsets.eproc_link));
            assert(s[j] == wrapping_sub(cj, k.offsets.eproc_link));
            assert(ci == cj);
            if m <= s.len() {
                assert(k.chain(start, m) != start);
            }
            lemma_chain_reduce(k, start, i as nat, j as nat, m);
            let r = choose|r: nat| i <= r < j && #[trigger] k.chain(start, r) == k.chain(start, m);
            if r >= 1 {
                assert(k.chain(start, r) != start);
            } else {
                assert(k.chain(start, j as nat) != start);
            }
        }
    }
}

/// Two kernels that read the same memory through the same translation, with
/// the same offsets and kernel information, walk the same process list.
proof fn lemma_walk_same<T: PhysicalMemory, U: PhysicalMemory>(
    k1: &Win32Kernel<T>,
    k2: &Win32Kernel<U>,
    list_start: u64,
    entry: u64,
    fuel: nat,
)
    requires
        k1.virt_mem.mem() == k2.virt_mem.mem(),
        k1.virt_mem.vat.same_as(&k2.virt_mem.vat),
        k1.virt_mem.dtb == k2.virt_mem.dtb,
        k1.offsets == k2.offsets,
        k1.kernel_info == k2.kernel_info,
    ensures
        k1.walk_spec(list_start, entry, fuel) == k2.walk_spec(list_start, entry, fuel),
    decreases fuel,
{
    let m = k1.virt_mem.mem();
    let bits = k1.kernel_info.arch.bits_spec();
    let dtb = k1.virt_mem.dtb.addr;
    lemma_read_addr_same_translation(m, &k1.virt_mem.vat, &k2.virt_mem.vat, dtb, bits, entry);
    lemma_read_addr_same_translation(
        m,
        &k1.virt_mem.vat,
        &k2.virt_mem.vat,
        dtb,
        bits,
        wrapping_add(entry, k1.offsets.list_blink),
    );
    if fuel > 0 {
        match k1.read_addr(entry) {
            Ok(flink) => {
                lemma_walk_same(k1, k2, list_start, flink, (fuel - 1) as nat);
            },
            Err(_) => {},
        }
    }
}

/// Opening the kernel again over physical memory with the same contents, with
/// the same offsets and kernel information, gives the same process list in
/// the same order, ending the same way.
pub proof fn lemma_reopen_same_process_list<T: PhysicalMemory, U: PhysicalMemory>(
    k1: &Win32Kernel<T>,
    k2: &Win32Kernel<U>,
)
    requires
        k1.opened(),
        k2.opened(),
        k1.virt_mem.mem() == k2.virt_mem.mem(),
        k1.offsets == k2.offsets,
        k1.kernel_info == k2.kernel_info,
    ensures
        k1.process_list_spec() == k2.process_list_spec(),
{
    lemma_arch_layout_unique(k1.kernel_info.arch, &k1.virt_mem.vat.mmu, &k2.virt_mem.vat.mmu);
    lemma_walk_same(
        k1,
        k2,
        k1.list_start_spec(),
        k1.list_start_spec(),
        MAX_ITER_COUNT as nat,
    );
}

/// When the System process links to a first process that links to itself,
/// the walk emits the System process alone and ends normally.
pub proof fn lemma_self_linked_first_process<T: PhysicalMemory>(k: &Win32Kernel<T>)
    requires
        ({
            let head = k.list_start_spec();
            let first = k.next_entry(head);
            &&& k.read_addr(head) is Ok
            &&& first != 0
            &&& first != head
            &&& k.read_addr(wrapping_add(head, k.offsets.list_blink)) is Ok
            &&& k.read_addr(wrapping_add(head, k.offsets.list_blink))->Ok_0 != 0
            &&& k.read_addr(first) == Ok::<u64, ErrorKind>(first)
            &&& k.read_addr(wrapping_add(first, k.offsets.list_blink)) is Ok
        }),
    ensures
        k.process_list_spec() == (seq![k.kernel_info.eprocess_base.addr], Ok::<(), ErrorKind>(())),
{
    let head = k.list_start_spec();
    let first = k.next_entry(head);
    assert(wrapping_sub(head, k.offsets.eproc_link) == k.kernel_info.eprocess_base.addr);
    reveal_with_fuel(Win32Kernel::walk_spec, 3);
    let rest = k.walk_spec(head, first, (MAX_ITER_COUNT - 1) as nat);
    assert(rest.0 =~= Seq::<u64>::empty());
    assert(seq![k.kernel_info.eprocess_base.addr] + rest.0 =~= seq![k.kernel_info.eprocess_base.addr]);
}

/// Why a walk of a list stopped.
#[derive(Clone, Copy, Debug, PartialEq, Eq, Structural)]
pub enum WalkStop {
    /// The callback asked to stop.
    User,
    /// The list ended.
    End,
    /// The list did not end within the most entries a walk visits.
    Truncated,
    /// A link could not be read.
    IOError(ErrorKind),
}

/// Where a walk of a list stands.
#[derive(Clone, Copy, Debug, PartialEq, Eq, Structural)]
pub enum WalkState {
    Init,
    Walking,
    Stopped(WalkStop),
}

/// What happened at one step of a walk.
#[derive(Clone, Copy, Debug, PartialEq, Eq, Structural)]
pub enum WalkEvent {
    /// The walk begins.
    Start,
    /// An entry was emitted and the callback asked for more.
    Continue,
    /// An entry was emitted and the callback asked to stop.
    CallbackStop,
    /// A link ended the list.
    SentinelReached,
    /// The most entries a walk visits were passed.
    MaxIter,
    /// A link could not be read.
    ReadErr(ErrorKind),
}

impl WalkState {
    /// The state after `event`: `Start` begins a walk; from `Walking`,
    /// `Continue` keeps walking and every other event stops it for its
    /// reason; a stopped walk stays stopped.
    pub fn next(self, event: WalkEvent) -> (r: WalkState)
        ensures
            self == WalkState::Init ==> r == (if event == WalkEvent::Start {
                WalkState::Walking
            } else {
                WalkState::Init
            }),
            self == WalkState::Walking ==> r == match event {
                WalkEvent::Start => WalkState::Walking,
                WalkEvent::Continue => WalkState::Walking,
                WalkEvent::CallbackStop => WalkState::Stopped(WalkStop::User),
                WalkEvent::SentinelReached => WalkState::Stopped(WalkStop::End),
                WalkEvent::MaxIter => WalkState::Stopped(WalkStop::Truncated),
                WalkEvent::ReadErr(e) => WalkState::Stopped(WalkStop::IOError(e)),
            },
            self is Stopped ==> r == self,
    {
        match self {
            WalkState::Init => match event {
                WalkEvent::Start => WalkState::Walking,
                _ => WalkState::Init,
            },
            WalkState::Walking => match event {
                WalkEvent::Start => WalkState::Walking,
                WalkEvent::Continue => WalkState::Walking,
                WalkEvent::CallbackStop => WalkState::Stopped(WalkStop::User),
                WalkEvent::SentinelReached => WalkState::Stopped(WalkStop::End),
                WalkEvent::MaxIter => WalkState::Stopped(WalkStop::Truncated),
                WalkEvent::ReadErr(e) => WalkState::Stopped(WalkStop::IOError(e)),
            },
            WalkState::Stopped(reason) => WalkState::Stopped(reason),
        }
    }
}

/// How a whole walk that ended as `end` stopped.
pub open spec fn stop_of(end: Result<(), ErrorKind>) -> WalkStop {
    match end {
        Ok(_) => WalkStop::End,
        Err(e) => if e == ErrorKind::ListCorrupted {
            WalkStop::Truncated
        } else {
            WalkStop::IOError(e)
        },
    }
}

impl<T: PhysicalMemory> Win32Kernel<T> {
    /// Walks the process list as `process_address_list` does, handing each
    /// `_EPROCESS` address to `callback` as it is found; the walk stops after
    /// the first address for which `callback` returns `false`. Returns the
    /// addresses handed over and why the walk stopped.
    pub fn process_address_list_callback<F: Fn(Address) -> bool>(&self, callback: F) -> (r: (
        Vec<Address>,
        WalkState,
    ))
        requires
            self.wf(),
            forall|a: Address| callback.requires((a,)),
        ensures
            r.0@.len() <= self.process_list_spec().0.len(),
            forall|i: int|
                0 <= i < r.0@.len() ==> #[trigger] r.0@[i].addr == self.process_list_spec().0[i],
            r.1 is Stopped,
            r.1 == WalkState::Stopped(WalkStop::User) ==> r.0@.len() >= 1 && callback.ensures(
                (r.0@[r.0@.len() - 1],),
                false,
            ),
            forall|i: int|
                0 <= i < r.0@.len() - 1 ==> #[trigger] callback.ensures((r.0@[i],), true),
            r.1 != WalkState::Stopped(WalkStop::User) ==> r.0@.len() == self.process_list_spec().0.len()
                && r.1 == WalkState::Stopped(stop_of(self.process_list_spec().1)) && (r.0@.len() > 0 ==> callback.ensures(
                (r.0@[r.0@.len() - 1],),
                true,
            )),
    {
        let arch = self.kernel_info.arch;
        let list_start = self.kernel_info.eprocess_base.addr.wrapping_add(self.offsets.eproc_link);
        let mut entry = list_start;
        let mut out: Vec<Address> = Vec::new();
        let ghost emitted: Seq<u64> = Seq::empty();
        let mut state = WalkState::Init.next(WalkEvent::Start);
        let mut n: usize = 0;
        while n < MAX_ITER_COUNT
            invariant
                self.wf(),
                state == WalkState::Walking,
                arch == self.kernel_info.arch,
                list_start == self.list_start_spec(),
                forall|a: Address| callback.requires((a,)),
                n <= MAX_ITER_COUNT,
                out@.len() == emitted.len(),
                forall|i: int| 0 <= i < out@.len() ==> #[trigger] out@[i].addr == emitted[i],
                forall|i: int| 0 <= i < out@.len() ==> #[trigger] callback.ensures((out@[i],), true),
                emitted + self.walk_spec(list_start, entry, (MAX_ITER_COUNT - n) as nat).0
                    == self.process_list_spec().0,
                self.walk_spec(list_start, entry, (MAX_ITER_COUNT - n) as nat).1
                    == self.process_list_spec().1,
            decreases MAX_ITER_COUNT - n,
        {
            let ghost fuel = (MAX_ITER_COUNT - n) as nat;
            let flink = match self.virt_mem.virt_read_addr_arch(arch, Address::from_u64(entry)) {
                Ok(a) => a.addr,
                Err(e) => {
                    assert(emitted + Seq::<u64>::empty() =~= emitted);
                    state = state.next(WalkEvent::ReadErr(e));
                    return (out, state);
                },
            };
            let blink = match self.virt_mem.virt_read_addr_arch(
                arch,
                Address::from_u64(entry.wrapping_add(self.offsets.list_blink)),
            ) {
                Ok(a) => a.addr,
                Err(e) => {
                    assert(emitted + Seq::<u64>::empty() =~= emitted);
                    state = state.next(WalkEvent::ReadErr(e));
                    return (out, state);
                },
            };
            if flink == 0 || blink == 0 || flink == list_start || flink == entry {
                assert(emitted + Seq::<u64>::empty() =~= emitted);
                state = state.next(WalkEvent::SentinelReached);
                return (out, state);
            }
            let eprocess = Address::from_u64(entry.wrapping_sub(self.offsets.eproc_link));
            out.push(eprocess);
            proof {
                let rest = self.walk_spec(list_start, flink, (fuel - 1) as nat);
                assert(emitted + (seq![eprocess.addr] + rest.0) =~= emitted.push(eprocess.addr)
                    + rest.0);
                emitted = emitted.push(eprocess.addr);
                assert(self.process_list_spec().0[emitted.len() - 1] == eprocess.addr);
            }
            if !callback(eprocess) {
                state = state.next(WalkEvent::CallbackStop);
                return (out, state);
            }
            state = state.next(WalkEvent::Continue);
            entry = flink;
            n = n + 1;
        }
        assert(emitted + Seq::<u64>::empty() =~= emitted);
        state = state.next(WalkEvent::MaxIter);
        (out, state)
    }
}

} // verus!
