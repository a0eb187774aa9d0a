//! The physical/DMA memory layer: memory with a known physical address, and
//! cache maintenance over virtual ranges.

use crate::init_cap::InitCap;
use crate::kcall::{KernelReply, KernelRequest, KCALL_OK};
use crate::object_type::ObjectType;
use crate::vka::VkaObject;
use crate::{Allocator, Error, MAX_UNTYPED_SIZE, MIN_UNTYPED_SIZE, PAGE_SIZE_4K};
use vstd::arithmetic::power2::pow2;
use vstd::prelude::*;

verus! {

/// A mapped region with both of its addresses known.
#[derive(Clone, Copy, Debug)]
pub struct PMem {
    pub vaddr: usize,
    pub paddr: usize,
}

/// The cache-maintenance operations the kernel offers over a virtual range.
#[derive(Clone, Copy, Debug, PartialEq, Eq, Structural)]
pub enum DMACacheOp {
    Clean,
    Invalidate,
    CleanInvalidate,
}

/// The floor base-two logarithm, as a specification.
pub open spec fn spec_log2(v: int) -> int
    decreases v,
{
    if v < 2 {
        0
    } else {
        1 + spec_log2(v / 2)
    }
}

/// The number of set bits of a value: exactly how many split steps the
/// largest-power-of-two walk over that offset takes.
pub open spec fn pop_count(d: nat) -> nat
    decreases d,
{
    if d == 0 {
        0nat
    } else {
        (d % 2 + pop_count(d / 2)) as nat
    }
}

/// Removing a value's top set bit lowers its popcount by exactly one.
proof fn lemma_pop_count_top(r: int, k: nat)
    requires
        pow2(k) <= r < pow2((k + 1) as nat),
    ensures
        pop_count((r - pow2(k)) as nat) == pop_count(r as nat) - 1,
    decreases k,
{
    vstd::arithmetic::power2::lemma2_to64();
    if k == 0 {
        assert(r == 1);
        assert(pop_count(1nat) == 1 + pop_count(0nat));
        assert(pop_count(0nat) == 0);
    } else {
        vstd::arithmetic::power2::lemma_pow2_unfold(k);
        vstd::arithmetic::power2::lemma_pow2_unfold((k + 1) as nat);
        let m = pow2((k - 1) as nat) as int;
        let r2 = r / 2;
        let b = r % 2;
        vstd::arithmetic::div_mod::lemma_fundamental_div_mod(r, 2);
        vstd::arithmetic::div_mod::lemma_mod_bound(r, 2);
        assert(m <= r2 < pow2(k));
        lemma_pop_count_top(r2, (k - 1) as nat);
        let rp = r - 2 * m;
        vstd::arithmetic::div_mod::lemma_fundamental_div_mod_converse(rp, 2, r2 - m, b);
        assert(pop_count(r as nat) == b + pop_count(r2 as nat));
        assert(pop_count(rp as nat) == b + pop_count((r2 - m) as nat));
    }
}

/// The power-of-two exponent a byte count is rounded up to: untypeds come
/// only in power-of-two sizes.
pub open spec fn rounded_size_exp(sz: int) -> int {
    if pow2(spec_log2(sz) as nat) == sz {
        spec_log2(sz)
    } else {
        spec_log2(sz) + 1
    }
}

/// `val` rounded up to the next multiple of `base`.
pub open spec fn round_up_spec(val: int, base: int) -> int {
    if val % base == 0 {
        val
    } else {
        val + base - val % base
    }
}

/// Rounds `val` up to the next multiple of `base`.
pub fn round_up(val: usize, base: usize) -> (r: usize)
    requires
        base > 0,
        val + base <= usize::MAX,
    ensures
        r == round_up_spec(val as int, base as int),
        r as int % base as int == 0,
        val <= r < val + base,
{
    let rem = val % base;
    proof {
        assert(0 <= rem < base) by (nonlinear_arith)
            requires
                base > 0,
                rem == val as int % base as int,
        ;
        vstd::arithmetic::div_mod::lemma_fundamental_div_mod(val as int, base as int);
        if rem != 0 {
            let q = val as int / base as int;
            assert(val + base - rem == (q + 1) * base) by (nonlinear_arith)
                requires
                    (val as int) == (base as int) * q + rem,
            ;
            vstd::arithmetic::div_mod::lemma_mod_multiples_basic(q + 1, base as int);
        }
    }
    if rem == 0 {
        val
    } else {
        val + (base - rem)
    }
}

/// Every natural number is strictly below its own power of two.
proof fn lemma_n_lt_pow2(n: nat)
    ensures
        n < pow2(n),
    decreases n,
{
    if n == 0 {
        vstd::arithmetic::power2::lemma2_to64();
    } else {
        lemma_n_lt_pow2((n - 1) as nat);
        vstd::arithmetic::power2::lemma_pow2_unfold(n);
    }
}

/// The position of the highest set bit of `val`: the largest exponent `e`
/// with `2^e <= val`.
pub fn log_base_2(val: usize) -> (r: usize)
    requires
        val >= 1,
    ensures
        pow2(r as nat) <= val < pow2((r + 1) as nat),
        r == spec_log2(val as int),
{
    let mut v: usize = val;
    let mut e: usize = 0;
    proof {
        vstd::arithmetic::power2::lemma2_to64();
    }
    while v >= 2
        invariant
            1 <= v <= val,
            pow2(e as nat) <= val,
            pow2(e as nat) * v <= val < pow2(e as nat) * (v + 1),
            e + spec_log2(v as int) == spec_log2(val as int),
        decreases v,
    {
        let ghost pe = pow2(e as nat) as int;
        let ghost v0 = v as int;
        proof {
            vstd::arithmetic::power2::lemma_pow2_pos(e as nat);
            lemma_n_lt_pow2(e as nat);
            assert(spec_log2(v0) == 1 + spec_log2(v0 / 2));
        }
        v = v / 2;
        e = e + 1;
        proof {
            vstd::arithmetic::power2::lemma_pow2_unfold(e as nat);
            assert(pow2(e as nat) == 2 * pe);
            let vh = v0 / 2;
            let b = v0 % 2;
            vstd::arithmetic::div_mod::lemma_fundamental_div_mod(v0, 2);
            vstd::arithmetic::div_mod::lemma_mod_bound(v0, 2);
            assert((2 * pe) * vh <= val && val < (2 * pe) * (vh + 1) && 2 * pe <= val)
                by (nonlinear_arith)
                requires
                    pe > 0,
                    v0 >= 2,
                    v0 == 2 * vh + b,
                    0 <= b < 2,
                    pe * v0 <= (val as int),
                    (val as int) < pe * (v0 + 1),
            ;
        }
    }
    proof {
        assert(v == 1);
        vstd::arithmetic::power2::lemma_pow2_unfold((e + 1) as nat);
        assert(pow2((e + 1) as nat) == 2 * pow2(e as nat));
        assert(val < pow2(e as nat) * (1 + 1));
    }
    e
}


/// The total number of bytes covered by a sequence of power-of-two size
/// exponents.
pub open spec fn pow2_sum(s: Seq<usize>) -> int
    decreases s.len(),
{
    if s.len() == 0 {
        0
    } else {
        pow2(s[0] as nat) as int + pow2_sum(s.drop_first())
    }
}

/// Appending an exponent adds its power of two to the total.
proof fn lemma_pow2_sum_push(s: Seq<usize>, k: usize)
    ensures
        pow2_sum(s.push(k)) == pow2_sum(s) + pow2(k as nat),
    decreases s.len(),
{
    if s.len() == 0 {
        assert(s.push(k).drop_first() =~= Seq::<usize>::empty());
        assert(pow2_sum(s.push(k)) == pow2(k as nat) as int + pow2_sum(
            s.push(k).drop_first(),
        ));
        assert(pow2_sum(Seq::<usize>::empty()) == 0);
        assert(pow2_sum(s) == 0);
    } else {
        assert(s.push(k).drop_first() =~= s.drop_first().push(k));
        lemma_pow2_sum_push(s.drop_first(), k);
        assert(s.push(k)[0] == s[0]);
        assert(pow2_sum(s.push(k)) == pow2(s[0] as nat) as int + pow2_sum(
            s.drop_first().push(k),
        ));
        assert(pow2_sum(s) == pow2(s[0] as nat) as int + pow2_sum(s.drop_first()));
    }
}

/// Plans the walk from a region's base toward an interior offset `d`: the
/// sizes to split off the front, each the largest power of two not
/// exceeding what remains. The exponents come out strictly descending and
/// their powers sum to exactly `d`, so the walk terminates with the
/// remaining capability's base exactly `d` bytes past where it began.
pub fn split_offset_plan(d: usize) -> (r: Vec<usize>)
    ensures
        pow2_sum(r@) == d,
        forall|i: int| 0 <= i < r@.len() - 1 ==> #[trigger] r@[i] > r@[i + 1],
        forall|i: int| 0 <= i < r@.len() ==> pow2(#[trigger] r@[i] as nat) <= d,
        d > 0 ==> r@.len() > 0,
        r@.len() == pop_count(d as nat),
{
    let mut plan: Vec<usize> = Vec::new();
    let mut remaining: usize = d;
    while remaining != 0
        invariant
            pow2_sum(plan@) + remaining == d,
            remaining <= d,
            plan@.len() > 0 ==> remaining < pow2(plan@[plan@.len() - 1] as nat),
            plan@.len() + pop_count(remaining as nat) == pop_count(d as nat),
            forall|i: int| 0 <= i < plan@.len() - 1 ==> #[trigger] plan@[i] > plan@[i + 1],
            forall|i: int| 0 <= i < plan@.len() ==> pow2(#[trigger] plan@[i] as nat) <= d,
        decreases remaining,
    {
        let k = log_base_2(remaining);
        let ghost plan0 = plan@;
        proof {
            lemma_pow2_sum_push(plan@, k);
            vstd::arithmetic::power2::lemma_pow2_pos(k as nat);
            if plan@.len() > 0 {
                let last = plan@[plan@.len() - 1];
                if k >= last {
                    vstd::arithmetic::power2::lemma_pow2(k as nat);
                    vstd::arithmetic::power2::lemma_pow2(last as nat);
                    if k > last {
                        vstd::arithmetic::power2::lemma_pow2_strictly_increases(
                            last as nat,
                            k as nat,
                        );
                    }
                    assert(false);
                }
            }
            lemma_pow2_le_bits(k, remaining);
            vstd::arithmetic::power2::lemma_pow2_unfold((k + 1) as nat);
            lemma_pop_count_top(remaining as int, k as nat);
        }
        let chunk = crate::pow2_usize(k);
        plan.push(k);
        remaining = remaining - chunk;
    }
    plan
}

/// An exponent whose power of two fits below a value that itself fits in a
/// machine word is a legal shift amount.
proof fn lemma_pow2_le_bits(k: usize, v: usize)
    requires
        pow2(k as nat) <= v,
    ensures
        k < usize::BITS,
        pow2(k as nat) <= usize::MAX,
{
    if k >= usize::BITS {
        vstd::arithmetic::power2::lemma2_to64();
        vstd::arithmetic::power2::lemma2_to64_rest();
        if (k as nat) > (usize::BITS as nat) {
            vstd::arithmetic::power2::lemma_pow2_strictly_increases(
                usize::BITS as nat,
                k as nat,
            );
        }
        assert(false);
    }
}

/// The first-containing-region index is exactly the witness of a minimal
/// containing region: the minimality clause makes it unique.
proof fn lemma_containing_index_determined(a: Allocator, p: usize, i: int)
    requires
        0 <= i < a.init_untyped_items.len(),
        region_contains(a.init_untyped_items[i].item, p),
        forall|j: int|
            0 <= j < i ==> !region_contains((#[trigger] a.init_untyped_items[j]).item, p),
    ensures
        a.containing_region_index(p) == i,
        a.containing_region_base(p) == a.init_untyped_items[i].item.paddr,
{
    assert(region_contains((#[trigger] a.init_untyped_items[i]).item, p));
    let c = a.containing_region_index(p);
    assert(0 <= c < a.init_untyped_items.len() && region_contains(
        a.init_untyped_items[c].item,
        p,
    ) && forall|j: int|
        0 <= j < c ==> !region_contains((#[trigger] a.init_untyped_items[j]).item, p));
    if c < i {
        assert(!region_contains(a.init_untyped_items[c].item, p));
    }
    if c > i {
        assert(!region_contains(a.init_untyped_items[i].item, p));
    }
}

/// The first-region-at-base index is exactly the witness of a minimal
/// match: the minimality clause makes it unique.
proof fn lemma_starting_index_determined(a: Allocator, p: usize, i: int)
    requires
        0 <= i < a.init_untyped_items.len(),
        a.init_untyped_items[i].item.paddr == p,
        forall|j: int| 0 <= j < i ==> (#[trigger] a.init_untyped_items[j]).item.paddr != p,
    ensures
        a.starting_region_index(p) == i,
        a.region_size_at(p) == a.init_untyped_items[i].item.size_bits,
{
    assert((#[trigger] a.init_untyped_items[i]).item.paddr == p);
    let c = a.starting_region_index(p);
    assert(0 <= c < a.init_untyped_items.len() && a.init_untyped_items[c].item.paddr == p
        && forall|j: int|
        0 <= j < c ==> (#[trigger] a.init_untyped_items[j]).item.paddr != p);
    if c < i {
        assert(a.init_untyped_items[c].item.paddr != p);
    }
    if c > i {
        assert(a.init_untyped_items[i].item.paddr != p);
    }
}

/// Law: the split walk makes strict progress — after each planned step the
/// distance covered toward the target strictly grows by that step's power
/// of two, so the remaining offset strictly decreases and the walk
/// terminates.
pub proof fn lemma_split_walk_progress(bits: Seq<usize>, k: int)
    requires
        0 <= k < bits.len(),
    ensures
        pow2_sum(bits.take(k + 1)) == pow2_sum(bits.take(k)) + pow2(bits[k] as nat),
        pow2_sum(bits.take(k + 1)) > pow2_sum(bits.take(k)),
{
    assert(bits.take(k + 1) =~= bits.take(k).push(bits[k]));
    lemma_pow2_sum_push(bits.take(k), bits[k]);
    vstd::arithmetic::power2::lemma_pow2_pos(bits[k] as nat);
}

/// The bounds of one cache-maintenance chunk.
pub open spec fn chunk_start(req: KernelRequest) -> int {
    match req {
        KernelRequest::CacheRange { start, .. } => start as int,
        _ => 0,
    }
}

/// The (exclusive) end of one cache-maintenance chunk.
pub open spec fn chunk_end(req: KernelRequest) -> int {
    match req {
        KernelRequest::CacheRange { end, .. } => end as int,
        _ => 0,
    }
}

/// True when `req` is a cache-maintenance request over `root` performing
/// `op`.
pub open spec fn is_cache_chunk(req: KernelRequest, root: usize, op: DMACacheOp) -> bool {
    match req {
        KernelRequest::CacheRange { root: r, start, end, op: o } => r == root && o == op,
        _ => false,
    }
}

/// True when physical address `p` lies inside the item's region
/// `[paddr, paddr + 2^size_bits)`.
pub open spec fn region_contains(item: crate::UntypedItem, p: usize) -> bool {
    item.paddr <= p < item.paddr + pow2(item.size_bits as nat)
}

impl Allocator {
    /// True when some inventory region contains `p`.
    pub open spec fn some_region_contains(self, p: usize) -> bool {
        exists|i: int|
            0 <= i < self.init_untyped_items.len() && region_contains(
                (#[trigger] self.init_untyped_items[i]).item,
                p,
            )
    }

    /// Returns the base physical address of the first inventory region that
    /// contains `paddr`, or `InvalidAddress` if none does.
    pub fn contained_paddr(&self, paddr: usize) -> (r: Result<usize, Error>)
        requires
            self.wf(),
        ensures
            match r {
                Ok(base) => exists|i: int|
                    {
                        &&& 0 <= i < self.init_untyped_items.len()
                        &&& region_contains((#[trigger] self.init_untyped_items[i]).item, paddr)
                        &&& base == self.init_untyped_items[i].item.paddr
                        &&& forall|j: int|
                            0 <= j < i ==> !region_contains(
                                (#[trigger] self.init_untyped_items[j]).item,
                                paddr,
                            )
                    },
                Err(e) => e == Error::InvalidAddress && !self.some_region_contains(paddr),
            },
    {
        let n = self.init_untyped_items.len();
        let mut i: usize = 0;
        while i < n
            invariant
                self.wf(),
                n == self.init_untyped_items.len(),
                i <= n,
                forall|j: int|
                    0 <= j < i ==> !region_contains(
                        (#[trigger] self.init_untyped_items[j]).item,
                        paddr,
                    ),
            decreases n - i,
        {
            let item = self.init_untyped_items[i].item;
            let ut_size = crate::pow2_usize(item.size_bits);
            if paddr >= item.paddr && paddr < item.paddr + ut_size {
                return Ok(item.paddr);
            }
            i = i + 1;
        }
        Err(Error::InvalidAddress)
    }

    /// True when some inventory region starts exactly at `p`.
    pub open spec fn some_region_starts_at(self, p: usize) -> bool {
        exists|i: int|
            0 <= i < self.init_untyped_items.len() && (#[trigger] self.init_untyped_items[i]).item.paddr
                == p
    }

    /// The index of the first inventory region containing `p`; meaningful
    /// when `some_region_contains(p)`.
    pub open spec fn containing_region_index(self, p: usize) -> int {
        choose|i: int|
            {
                &&& 0 <= i < self.init_untyped_items.len()
                &&& region_contains((#[trigger] self.init_untyped_items[i]).item, p)
                &&& forall|j: int|
                    0 <= j < i ==> !region_contains(
                        (#[trigger] self.init_untyped_items[j]).item,
                        p,
                    )
            }
    }

    /// The base of the first inventory region containing `p`; meaningful
    /// when `some_region_contains(p)`.
    pub open spec fn containing_region_base(self, p: usize) -> usize {
        self.init_untyped_items@[self.containing_region_index(p)].item.paddr
    }

    /// The index of the first inventory region starting exactly at `p`;
    /// meaningful when `some_region_starts_at(p)`.
    pub open spec fn starting_region_index(self, p: usize) -> int {
        choose|i: int|
            {
                &&& 0 <= i < self.init_untyped_items.len()
                &&& (#[trigger] self.init_untyped_items[i]).item.paddr == p
                &&& forall|j: int|
                    0 <= j < i ==> (#[trigger] self.init_untyped_items[j]).item.paddr != p
            }
    }

    /// Spec-level size lookup: the size exponent of the first inventory
    /// region starting exactly at `p`; meaningful when
    /// `some_region_starts_at(p)`.
    pub open spec fn region_size_at(self, p: usize) -> usize {
        self.init_untyped_items@[self.starting_region_index(p)].item.size_bits
    }

    /// Returns the size exponent of the first inventory region whose base is
    /// exactly `paddr`, or `InvalidAddress` if none starts there.
    pub fn untyped_size_bits(&self, paddr: usize) -> (r: Result<usize, Error>)
        requires
            self.wf(),
        ensures
            match r {
                Ok(sb) => exists|i: int|
                    {
                        &&& 0 <= i < self.init_untyped_items.len()
                        &&& (#[trigger] self.init_untyped_items[i]).item.paddr == paddr
                        &&& sb == self.init_untyped_items[i].item.size_bits
                        &&& MIN_UNTYPED_SIZE <= sb <= MAX_UNTYPED_SIZE
                        &&& forall|j: int|
                            0 <= j < i ==> (#[trigger] self.init_untyped_items[j]).item.paddr
                                != paddr
                    },
                Err(e) => e == Error::InvalidAddress && !self.some_region_starts_at(paddr),
            },
    {
        let n = self.init_untyped_items.len();
        let mut i: usize = 0;
        while i < n
            invariant
                self.wf(),
                n == self.init_untyped_items.len(),
                i <= n,
                forall|j: int|
                    0 <= j < i ==> (#[trigger] self.init_untyped_items[j]).item.paddr != paddr,
            decreases n - i,
        {
            let item = self.init_untyped_items[i].item;
            if item.paddr == paddr {
                return Ok(item.size_bits);
            }
            i = i + 1;
        }
        Err(Error::InvalidAddress)
    }
}

impl Allocator {
    /// Plans the cache-maintenance requests for the virtual range
    /// `[vaddr, vaddr + size)`: one request per page-bounded chunk, in
    /// address order, covering the range exactly, without gaps or overlaps.
    /// The driver must treat any failure reply as fatal: cache incoherency
    /// cannot be papered over.
    pub fn dma_cache_op(&self, vaddr: usize, size: usize, op: DMACacheOp) -> (r: Vec<
        KernelRequest,
    >)
        requires
            vaddr + size + PAGE_SIZE_4K <= usize::MAX,
        ensures
            (size == 0) <==> (r@.len() == 0),
            forall|i: int|
                0 <= i < r@.len() ==> is_cache_chunk(#[trigger] r@[i], self.page_directory, op),
            r@.len() > 0 ==> chunk_start(r@[0]) == vaddr,
            r@.len() > 0 ==> chunk_end(r@[r@.len() - 1]) == vaddr + size,
            forall|i: int|
                0 <= i < r@.len() - 1 ==> chunk_end(#[trigger] r@[i]) == chunk_start(r@[i + 1]),
            forall|i: int| 0 <= i < r@.len() ==> chunk_start(#[trigger] r@[i]) < chunk_end(r@[i]),
            forall|i: int|
                0 <= i < r@.len() ==> chunk_end(#[trigger] r@[i]) == if round_up_spec(
                    chunk_start(r@[i]) + 1,
                    PAGE_SIZE_4K as int,
                ) <= vaddr + size {
                    round_up_spec(chunk_start(r@[i]) + 1, PAGE_SIZE_4K as int)
                } else {
                    vaddr + size
                },
    {
        let root = self.vspace_get_root();
        let end: usize = vaddr + size;
        let mut cur: usize = vaddr;
        let mut v: Vec<KernelRequest> = Vec::new();
        while cur < end
            invariant
                vaddr <= cur <= end,
                end == vaddr + size,
                end + PAGE_SIZE_4K <= usize::MAX,
                root == self.page_directory,
                (cur == vaddr && v@.len() == 0) || (cur > vaddr && v@.len() > 0 && chunk_end(
                    v@[v@.len() - 1],
                ) == cur),
                v@.len() > 0 ==> chunk_start(v@[0]) == vaddr,
                forall|i: int|
                    0 <= i < v@.len() ==> is_cache_chunk(#[trigger] v@[i], root, op),
                forall|i: int|
                    0 <= i < v@.len() - 1 ==> chunk_end(#[trigger] v@[i]) == chunk_start(
                        v@[i + 1],
                    ),
                forall|i: int|
                    0 <= i < v@.len() ==> chunk_start(#[trigger] v@[i]) < chunk_end(v@[i]),
                forall|i: int|
                    0 <= i < v@.len() ==> chunk_end(#[trigger] v@[i]) == if round_up_spec(
                        chunk_start(v@[i]) + 1,
                        PAGE_SIZE_4K as int,
                    ) <= end {
                        round_up_spec(chunk_start(v@[i]) + 1, PAGE_SIZE_4K as int)
                    } else {
                        end as int
                    },
            decreases end - cur,
        {
            let mut top = round_up(cur + 1, PAGE_SIZE_4K);
            if top > end {
                top = end;
            }
            v.push(KernelRequest::CacheRange { root, start: cur, end: top, op });
            cur = top;
        }
        v
    }
}

/// Law: the planned cache-maintenance chunks are pairwise disjoint — each
/// chunk ends no later than any later chunk starts.
pub proof fn lemma_cache_chunks_disjoint(r: Seq<KernelRequest>, i: int, j: int)
    requires
        forall|k: int| 0 <= k < r.len() - 1 ==> chunk_end(#[trigger] r[k]) == chunk_start(r[k + 1]),
        forall|k: int| 0 <= k < r.len() ==> chunk_start(#[trigger] r[k]) < chunk_end(r[k]),
        0 <= i < j < r.len(),
    ensures
        chunk_end(r[i]) <= chunk_start(r[j]),
    decreases j - i,
{
    if j == i + 1 {
    } else {
        lemma_cache_chunks_disjoint(r, i + 1, j);
    }
}

/// Largest page count one physically-addressed request may ask for.
pub const MAX_PAGES_PER_CALL: usize = 64;

/// Which kernel reply a physical-memory operation is waiting for.
#[derive(Clone, Copy, Debug, PartialEq, Eq, Structural)]
pub enum PmemPhase {
    /// Answering the precomputed retype requests, in order.
    Retypes,
    /// Awaiting the physical address of the first frame, before mapping.
    GetAddrPre,
    /// Awaiting the map reply for the current frame.
    MapFrame,
    /// Awaiting the retype reply for the on-demand page table.
    PtRetype,
    /// Awaiting the map reply for the on-demand page table.
    PtMap,
    /// Awaiting the retried map reply for the current frame.
    MapRetry,
    /// Awaiting the physical address of the first frame, after mapping.
    GetAddrPost,
    /// The region is ready.
    Done,
    /// The operation failed; retypes already performed are not undone.
    Failed,
    /// The kernel reported a physical address other than the requested one:
    /// a broken invariant, which the driver must treat as fatal rather than
    /// recoverable.
    Fault,
}

/// An in-flight physical-memory operation: a list of retype requests to
/// answer, then (optionally) a physical-address query, then `num_pages`
/// small-page maps at consecutive addresses from `base_vaddr`.
#[derive(Clone)]
pub struct PmemOp {
    pub num_pages: usize,
    pub attrs: usize,
    pub base_vaddr: usize,
    /// Index of the retype request currently awaiting its reply.
    pub req_idx: usize,
    /// The slot of the first page frame; frame `f` sits at slot
    /// `first_frame_slot + f`.
    pub first_frame_slot: usize,
    /// Pages mapped so far.
    pub map_index: usize,
    /// The page table created by the fallback path, if any.
    pub pt_obj: VkaObject,
    /// The physical address the first frame must have; a mismatch is a
    /// fault.
    pub check_target: Option<usize>,
    /// Whether the address query comes before the maps.
    pub has_pre: bool,
    /// Whether the address query comes after the maps.
    pub want_after: bool,
    /// Whether the cursor advances one page per mapped page (it was
    /// advanced up front otherwise).
    pub advance_per_map: bool,
    /// The physical address the kernel reported.
    pub paddr: usize,
    /// The slot holding the claimed untyped region.
    pub claim_slot: usize,
    /// The size exponent the claimed untyped region was allocated with.
    pub claim_size_bits: usize,
    /// The untyped capability the claim was retyped from.
    pub ut_cap: usize,
    /// The physical base of the containing untyped region.
    pub ut_base: usize,
    /// The size exponent passed to the frame retypes.
    pub obj_size_bits: usize,
    /// The power-of-two split walk toward the target address.
    pub split_bits: Ghost<Seq<usize>>,
    pub phase: PmemPhase,
    pub reqs: Vec<KernelRequest>,
    /// The request the kernel must answer next, if the operation is still
    /// running.
    pub pending: Option<KernelRequest>,
}

impl PmemOp {
    /// True while the operation still expects kernel replies.
    pub open spec fn in_progress(self) -> bool {
        match self.phase {
            PmemPhase::Done => false,
            PmemPhase::Failed => false,
            PmemPhase::Fault => false,
            _ => true,
        }
    }

    /// The allocator cursor position expected while the operation runs.
    pub open spec fn expected_cursor(self) -> int {
        if self.advance_per_map {
            self.base_vaddr + self.map_index * PAGE_SIZE_4K
        } else {
            self.base_vaddr + self.num_pages * PAGE_SIZE_4K
        }
    }

    /// The virtual address of page `i`.
    pub open spec fn page_vaddr(self, i: int) -> int {
        self.base_vaddr + i * PAGE_SIZE_4K
    }

    /// The operation's invariant, relative to the allocator it runs
    /// against.
    pub open spec fn wf(self, a: Allocator) -> bool {
        &&& self.num_pages >= 1
        &&& self.base_vaddr + self.num_pages * PAGE_SIZE_4K <= usize::MAX
        &&& self.base_vaddr as int % PAGE_SIZE_4K as int == 0
        &&& self.req_idx <= self.reqs.len()
        &&& self.first_frame_slot + self.num_pages - 1 <= usize::MAX
        &&& if self.in_progress() {
            &&& a.last_allocated == self.expected_cursor()
            &&& match self.phase {
                PmemPhase::Retypes => {
                    &&& self.map_index == 0
                    &&& self.req_idx < self.reqs.len()
                    &&& self.pending == Some(self.reqs[self.req_idx as int])
                },
                PmemPhase::GetAddrPre => {
                    &&& self.map_index == 0
                    &&& self.pending == Some(
                        KernelRequest::GetPageAddr { frame: self.first_frame_slot },
                    )
                },
                PmemPhase::GetAddrPost => {
                    &&& self.map_index == self.num_pages
                    &&& self.pending == Some(
                        KernelRequest::GetPageAddr { frame: self.first_frame_slot },
                    )
                },
                PmemPhase::MapFrame | PmemPhase::MapRetry => {
                    &&& self.map_index < self.num_pages
                    &&& self.pending == Some(
                        KernelRequest::MapPage {
                            frame: (self.first_frame_slot + self.map_index) as usize,
                            root: a.page_directory,
                            vaddr: self.page_vaddr(self.map_index as int) as usize,
                            attrs: self.attrs,
                        },
                    )
                },
                PmemPhase::PtRetype => {
                    &&& self.map_index < self.num_pages
                    &&& self.pending is Some
                },
                PmemPhase::PtMap => {
                    &&& self.map_index < self.num_pages
                    &&& self.pending == Some(
                        KernelRequest::MapPageTable {
                            table: self.pt_obj.cptr,
                            root: a.page_directory,
                            vaddr: self.page_vaddr(self.map_index as int) as usize,
                            attrs: self.attrs,
                        },
                    )
                },
                _ => false,
            }
        } else {
            &&& self.pending is None
            &&& (self.phase is Done ==> self.map_index == self.num_pages)
        }
    }

    /// Returns the pending kernel request, if the operation is running.
    pub fn pending(&self) -> (r: Option<KernelRequest>)
        ensures
            r == self.pending,
    {
        self.pending
    }

    /// True once the region is ready.
    pub fn is_done(&self) -> (r: bool)
        ensures
            r == (self.phase is Done),
    {
        matches!(self.phase, PmemPhase::Done)
    }

    /// True when the kernel reported a physical address other than the
    /// requested one. The driver must treat this as fatal.
    pub fn is_fault(&self) -> (r: bool)
        ensures
            r == (self.phase is Fault),
    {
        matches!(self.phase, PmemPhase::Fault)
    }

    /// The finished region; meaningful once the operation is done.
    pub fn result(&self) -> (r: PMem)
        ensures
            r == (PMem { vaddr: self.base_vaddr, paddr: self.paddr }),
    {
        PMem { vaddr: self.base_vaddr, paddr: self.paddr }
    }
}

impl Allocator {
    /// What one step of a physical-memory operation does.
    pub open spec fn pmem_step_spec(
        pre_a: Allocator,
        post_a: Allocator,
        pre: PmemOp,
        post: PmemOp,
        reply: KernelReply,
        r: Result<(), Error>,
    ) -> bool {
        match pre.phase {
            PmemPhase::Retypes => if reply.spec_code() != KCALL_OK {
                Self::pmem_fail(pre_a, post_a, pre, post, r, Error::ResourceExhausted)
            } else {
                &&& r == Ok::<(), Error>(())
                &&& post_a == pre_a
                &&& post == (PmemOp {
                    req_idx: (pre.req_idx + 1) as usize,
                    phase: post.phase,
                    pending: post.pending,
                    ..pre
                })
                &&& if pre.req_idx + 1 < pre.reqs.len() {
                    &&& post.phase is Retypes
                    &&& post.pending == Some(pre.reqs[pre.req_idx + 1])
                } else if pre.has_pre {
                    &&& post.phase is GetAddrPre
                    &&& post.pending == Some(
                        KernelRequest::GetPageAddr { frame: pre.first_frame_slot },
                    )
                } else {
                    &&& post.phase is MapFrame
                    &&& post.pending == Some(
                        KernelRequest::MapPage {
                            frame: pre.first_frame_slot,
                            root: pre_a.page_directory,
                            vaddr: pre.base_vaddr,
                            attrs: pre.attrs,
                        },
                    )
                }
            },
            PmemPhase::GetAddrPre => {
                let reported = reply->Addr_paddr;
                if reply.spec_code() != KCALL_OK {
                    Self::pmem_fail(pre_a, post_a, pre, post, r, Error::Other)
                } else if pre.check_target is Some && reported != pre.check_target.unwrap() {
                    &&& r == Ok::<(), Error>(())
                    &&& post_a == pre_a
                    &&& post == (PmemOp { phase: PmemPhase::Fault, pending: None, ..pre })
                } else {
                    &&& r == Ok::<(), Error>(())
                    &&& post_a == pre_a
                    &&& post == (PmemOp {
                        phase: PmemPhase::MapFrame,
                        paddr: reported,
                        pending: Some(
                            KernelRequest::MapPage {
                                frame: pre.first_frame_slot,
                                root: pre_a.page_directory,
                                vaddr: pre.base_vaddr,
                                attrs: pre.attrs,
                            },
                        ),
                        ..pre
                    })
                }
            },
            PmemPhase::MapFrame => if reply.spec_code() == KCALL_OK {
                Self::pmem_map_advance(pre_a, post_a, pre, post, r)
            } else {
                Self::pmem_fallback(pre_a, post_a, pre, post, r)
            },
            PmemPhase::PtRetype => if reply.spec_code() != KCALL_OK {
                Self::pmem_fail(pre_a, post_a, pre, post, r, Error::ResourceExhausted)
            } else {
                &&& r == Ok::<(), Error>(())
                &&& post_a == pre_a
                &&& post == (PmemOp {
                    phase: PmemPhase::PtMap,
                    pending: Some(
                        KernelRequest::MapPageTable {
                            table: pre.pt_obj.cptr,
                            root: pre_a.page_directory,
                            vaddr: pre.page_vaddr(pre.map_index as int) as usize,
                            attrs: pre.attrs,
                        },
                    ),
                    ..pre
                })
            },
            PmemPhase::PtMap => if reply.spec_code() != KCALL_OK {
                Self::pmem_fail(pre_a, post_a, pre, post, r, Error::Other)
            } else {
                &&& r == Ok::<(), Error>(())
                &&& post_a == pre_a
                &&& post == (PmemOp {
                    phase: PmemPhase::MapRetry,
                    pending: Some(
                        KernelRequest::MapPage {
                            frame: (pre.first_frame_slot + pre.map_index) as usize,
                            root: pre_a.page_directory,
                            vaddr: pre.page_vaddr(pre.map_index as int) as usize,
                            attrs: pre.attrs,
                        },
                    ),
                    ..pre
                })
            },
            PmemPhase::MapRetry => if reply.spec_code() == KCALL_OK {
                Self::pmem_map_advance(pre_a, post_a, pre, post, r)
            } else {
                Self::pmem_fail(pre_a, post_a, pre, post, r, Error::Other)
            },
            PmemPhase::GetAddrPost => if reply.spec_code() != KCALL_OK {
                Self::pmem_fail(pre_a, post_a, pre, post, r, Error::Other)
            } else {
                &&& r == Ok::<(), Error>(())
                &&& post_a == pre_a
                &&& post == (PmemOp {
                    phase: PmemPhase::Done,
                    paddr: reply->Addr_paddr,
                    pending: None,
                    ..pre
                })
            },
            _ => false,
        }
    }

    /// The operation fails with `e`; the allocator is untouched.
    pub open spec fn pmem_fail(
        pre_a: Allocator,
        post_a: Allocator,
        pre: PmemOp,
        post: PmemOp,
        r: Result<(), Error>,
        e: Error,
    ) -> bool {
        &&& r == Err::<(), Error>(e)
        &&& post_a == pre_a
        &&& post == (PmemOp { phase: PmemPhase::Failed, pending: None, ..pre })
    }

    /// The transition after one page was mapped: the cursor advances if the
    /// operation advances per page, and the next page's map request (or the
    /// closing address query, or completion) follows.
    pub open spec fn pmem_map_advance(
        pre_a: Allocator,
        post_a: Allocator,
        pre: PmemOp,
        post: PmemOp,
        r: Result<(), Error>,
    ) -> bool {
        let mi = (pre.map_index + 1) as usize;
        &&& r == Ok::<(), Error>(())
        &&& post_a == if pre.advance_per_map {
            Allocator { last_allocated: (pre_a.last_allocated + PAGE_SIZE_4K) as usize, ..pre_a }
        } else {
            pre_a
        }
        &&& if mi == pre.num_pages {
            if pre.want_after {
                post == (PmemOp {
                    map_index: mi,
                    phase: PmemPhase::GetAddrPost,
                    pending: Some(KernelRequest::GetPageAddr { frame: pre.first_frame_slot }),
                    ..pre
                })
            } else {
                post == (PmemOp {
                    map_index: mi,
                    phase: PmemPhase::Done,
                    pending: None,
                    ..pre
                })
            }
        } else {
            post == (PmemOp {
                map_index: mi,
                phase: PmemPhase::MapFrame,
                pending: Some(
                    KernelRequest::MapPage {
                        frame: (pre.first_frame_slot + mi) as usize,
                        root: pre_a.page_directory,
                        vaddr: pre.page_vaddr(mi as int) as usize,
                        attrs: pre.attrs,
                    },
                ),
                ..pre
            })
        }
    }

    /// The transition after a page map failed: a page table is allocated
    /// and remembered, and its retype request is emitted.
    pub open spec fn pmem_fallback(
        pre_a: Allocator,
        post_a: Allocator,
        pre: PmemOp,
        post: PmemOp,
        r: Result<(), Error>,
    ) -> bool {
        match r {
            Ok(()) => {
                &&& post.pending is Some
                &&& post_a.page_table == post.pt_obj.cptr
                &&& Self::object_alloc_ok(
                    pre_a,
                    (Allocator { page_table: pre_a.page_table, ..post_a }),
                    ObjectType::ARM_PageTableObject,
                    0,
                    None,
                    false,
                    post.pt_obj,
                    post.pending.unwrap(),
                )
                &&& post == (PmemOp {
                    phase: PmemPhase::PtRetype,
                    pending: post.pending,
                    pt_obj: post.pt_obj,
                    ..pre
                })
            },
            Err(e) => {
                &&& post_a == pre_a
                &&& Self::object_alloc_err(pre_a, ObjectType::ARM_PageTableObject, 0, None, false, e)
                &&& post == (PmemOp { phase: PmemPhase::Failed, pending: None, ..pre })
            },
        }
    }

    /// Advances one in-flight physical-memory operation by one kernel
    /// reply. The reply must carry an address exactly for the two
    /// address-query phases.
    pub fn pmem_step(&mut self, op: &mut PmemOp, reply: KernelReply) -> (r: Result<(), Error>)
        requires
            old(self).wf(),
            old(op).wf(*old(self)),
            old(op).in_progress(),
            (reply is Addr) <==> (old(op).phase is GetAddrPre || old(op).phase is GetAddrPost),
        ensures
            final(self).wf(),
            final(op).wf(*final(self)),
            Self::pmem_step_spec(*old(self), *final(self), *old(op), *final(op), reply, r),
    {
        let code = reply.code();
        match op.phase {
            PmemPhase::Retypes => {
                if code != KCALL_OK {
                    op.phase = PmemPhase::Failed;
                    op.pending = None;
                    Err(Error::ResourceExhausted)
                } else {
                    op.req_idx = op.req_idx + 1;
                    if op.req_idx < op.reqs.len() {
                        op.pending = Some(op.reqs[op.req_idx]);
                    } else if op.has_pre {
                        op.phase = PmemPhase::GetAddrPre;
                        op.pending = Some(
                            KernelRequest::GetPageAddr { frame: op.first_frame_slot },
                        );
                    } else {
                        op.phase = PmemPhase::MapFrame;
                        op.pending = Some(
                            KernelRequest::MapPage {
                                frame: op.first_frame_slot,
                                root: self.page_directory,
                                vaddr: op.base_vaddr,
                                attrs: op.attrs,
                            },
                        );
                    }
                    Ok(())
                }
            },
            PmemPhase::GetAddrPre => {
                let reported = match reply {
                    KernelReply::Addr { code: _, paddr } => paddr,
                    KernelReply::Code(_) => 0,
                };
                if code != KCALL_OK {
                    op.phase = PmemPhase::Failed;
                    op.pending = None;
                    Err(Error::Other)
                } else {
                    let mismatch = match op.check_target {
                        Some(t) => reported != t,
                        None => false,
                    };
                    if mismatch {
                        op.phase = PmemPhase::Fault;
                        op.pending = None;
                        Ok(())
                    } else {
                        op.paddr = reported;
                        op.phase = PmemPhase::MapFrame;
                        op.pending = Some(
                            KernelRequest::MapPage {
                                frame: op.first_frame_slot,
                                root: self.page_directory,
                                vaddr: op.base_vaddr,
                                attrs: op.attrs,
                            },
                        );
                        Ok(())
                    }
                }
            },
            PmemPhase::MapFrame => {
                if code == KCALL_OK {
                    self.pmem_finish_page(op)
                } else {
                    self.pmem_start_fallback(op)
                }
            },
            PmemPhase::PtRetype => {
                if code != KCALL_OK {
                    op.phase = PmemPhase::Failed;
                    op.pending = None;
                    Err(Error::ResourceExhausted)
                } else {
                    let page_size = PAGE_SIZE_4K;
                    let vaddr: usize = op.base_vaddr + op.map_index * page_size;
                    op.phase = PmemPhase::PtMap;
                    op.pending = Some(
                        KernelRequest::MapPageTable {
                            table: op.pt_obj.cptr,
                            root: self.page_directory,
                            vaddr,
                            attrs: op.attrs,
                        },
                    );
                    Ok(())
                }
            },
            PmemPhase::PtMap => {
                if code != KCALL_OK {
                    op.phase = PmemPhase::Failed;
                    op.pending = None;
                    Err(Error::Other)
                } else {
                    let vaddr: usize = op.base_vaddr + op.map_index * PAGE_SIZE_4K;
                    op.phase = PmemPhase::MapRetry;
                    op.pending = Some(
                        KernelRequest::MapPage {
                            frame: op.first_frame_slot + op.map_index,
                            root: self.page_directory,
                            vaddr,
                            attrs: op.attrs,
                        },
                    );
                    Ok(())
                }
            },
            PmemPhase::MapRetry => {
                if code == KCALL_OK {
                    self.pmem_finish_page(op)
                } else {
                    op.phase = PmemPhase::Failed;
                    op.pending = None;
                    Err(Error::Other)
                }
            },
            PmemPhase::GetAddrPost => {
                let reported = match reply {
                    KernelReply::Addr { code: _, paddr } => paddr,
                    KernelReply::Code(_) => 0,
                };
                if code != KCALL_OK {
                    op.phase = PmemPhase::Failed;
                    op.pending = None;
                    Err(Error::Other)
                } else {
                    op.paddr = reported;
                    op.phase = PmemPhase::Done;
                    op.pending = None;
                    Ok(())
                }
            },
            PmemPhase::Done => Err(Error::Other),
            PmemPhase::Failed => Err(Error::Other),
            PmemPhase::Fault => Err(Error::Other),
        }
    }

    /// One page is mapped: advance the cursor if this operation does so per
    /// page, then complete or move to the next page.
    fn pmem_finish_page(&mut self, op: &mut PmemOp) -> (r: Result<(), Error>)
        requires
            old(self).wf(),
            old(op).wf(*old(self)),
            old(op).phase is MapFrame || old(op).phase is MapRetry,
        ensures
            final(self).wf(),
            final(op).wf(*final(self)),
            Self::pmem_map_advance(*old(self), *final(self), *old(op), *final(op), r),
    {
        proof {
            vstd::arithmetic::div_mod::lemma_mod_multiples_basic(op.map_index as int + 1, 4096);
            vstd::arithmetic::div_mod::lemma_mod_multiples_basic(op.map_index as int, 4096);
            lemma_aligned_page_sum(op.base_vaddr as int, op.map_index as int + 1);
            lemma_aligned_page_sum(op.base_vaddr as int, op.map_index as int);
        }
        if op.advance_per_map {
            self.last_allocated = self.last_allocated + PAGE_SIZE_4K;
        }
        op.map_index = op.map_index + 1;
        if op.map_index == op.num_pages {
            if op.want_after {
                op.phase = PmemPhase::GetAddrPost;
                op.pending = Some(KernelRequest::GetPageAddr { frame: op.first_frame_slot });
            } else {
                op.phase = PmemPhase::Done;
                op.pending = None;
            }
        } else {
            let vaddr: usize = op.base_vaddr + op.map_index * PAGE_SIZE_4K;
            op.phase = PmemPhase::MapFrame;
            op.pending = Some(
                KernelRequest::MapPage {
                    frame: op.first_frame_slot + op.map_index,
                    root: self.page_directory,
                    vaddr,
                    attrs: op.attrs,
                },
            );
        }
        Ok(())
    }

    /// A page map failed: allocate a page table on demand, remember it, and
    /// emit its retype request.
    fn pmem_start_fallback(&mut self, op: &mut PmemOp) -> (r: Result<(), Error>)
        requires
            old(self).wf(),
            old(op).wf(*old(self)),
            old(op).phase is MapFrame,
        ensures
            final(self).wf(),
            final(op).wf(*final(self)),
            Self::pmem_fallback(*old(self), *final(self), *old(op), *final(op), r),
    {
        match self.vka_alloc_page_table() {
            Ok((obj, req)) => {
                self.page_table = obj.cptr;
                op.pt_obj = obj;
                op.phase = PmemPhase::PtRetype;
                op.pending = Some(req);
                Ok(())
            },
            Err(e) => {
                op.phase = PmemPhase::Failed;
                op.pending = None;
                Err(e)
            },
        }
    }
}

/// `base + n * 4096` is page-aligned when `base` is.
proof fn lemma_aligned_page_sum(base: int, n: int)
    requires
        base % (PAGE_SIZE_4K as int) == 0,
        base >= 0,
        n >= 0,
    ensures
        (base + n * (PAGE_SIZE_4K as int)) % (PAGE_SIZE_4K as int) == 0,
{
    vstd::arithmetic::div_mod::lemma_mod_multiples_basic(n, PAGE_SIZE_4K as int);
    vstd::arithmetic::mul::lemma_mul_nonnegative(n, PAGE_SIZE_4K as int);
    vstd::arithmetic::div_mod::lemma_add_mod_noop(base, n * (PAGE_SIZE_4K as int), PAGE_SIZE_4K as int);
}

impl Allocator {
    /// Allocates one ordinary page, reports the physical address the kernel
    /// assigned, and maps it at the cursor: one frame retype, then the
    /// address query, then the map. The cursor advances by one page
    /// immediately; the physical address is kernel-chosen.
    pub fn pmem_new_page(&mut self) -> (r: Result<PmemOp, Error>)
        requires
            old(self).wf(),
            old(self).last_allocated + PAGE_SIZE_4K <= usize::MAX,
        ensures
            final(self).wf(),
            match r {
                Ok(op) => {
                    &&& op.wf(*final(self))
                    &&& op.base_vaddr == old(self).last_allocated
                    &&& op.num_pages == 1
                    &&& op.attrs == crate::vspace::DEFAULT_VM_ATTRIBUTES
                    &&& op.phase is Retypes
                    &&& op.req_idx == 0
                    &&& op.has_pre
                    &&& op.check_target is None
                    &&& !op.want_after
                    &&& !op.advance_per_map
                    &&& op.reqs@.len() == 1
                    &&& final(self).last_allocated == old(self).last_allocated + PAGE_SIZE_4K
                    &&& Self::object_alloc_ok(
                        (Allocator { last_allocated: final(self).last_allocated, ..*old(self) }),
                        *final(self),
                        ObjectType::ARM_SmallPageObject,
                        crate::PAGE_BITS_4K,
                        None,
                        false,
                        (VkaObject { cptr: op.first_frame_slot, ut: op.ut_cap }),
                        op.reqs@[0],
                    )
                },
                Err(e) => {
                    &&& *final(self) == *old(self)
                    &&& Self::object_alloc_err(
                        *old(self),
                        ObjectType::ARM_SmallPageObject,
                        crate::PAGE_BITS_4K,
                        None,
                        false,
                        e,
                    )
                },
            },
    {
        let base_vaddr = self.last_allocated;
        match self.vka_alloc_object(ObjectType::ARM_SmallPageObject, crate::PAGE_BITS_4K, None, false) {
            Ok((obj, req)) => {
                proof {
                    lemma_aligned_page_sum(base_vaddr as int, 1);
                }
                self.last_allocated = self.last_allocated + PAGE_SIZE_4K;
                let mut reqs: Vec<KernelRequest> = Vec::new();
                reqs.push(req);
                Ok(
                    PmemOp {
                        num_pages: 1,
                        attrs: crate::vspace::DEFAULT_VM_ATTRIBUTES,
                        base_vaddr,
                        req_idx: 0,
                        first_frame_slot: obj.cptr,
                        map_index: 0,
                        pt_obj: VkaObject { cptr: 0, ut: 0 },
                        check_target: None,
                        has_pre: true,
                        want_after: false,
                        advance_per_map: false,
                        paddr: 0,
                        claim_slot: 0,
                        claim_size_bits: 0,
                        ut_cap: obj.ut,
                        ut_base: 0,
                        obj_size_bits: crate::PAGE_BITS_4K,
                        split_bits: Ghost(Seq::empty()),
                        phase: PmemPhase::Retypes,
                        reqs,
                        pending: Some(req),
                    },
                )
            },
            Err(e) => Err(e),
        }
    }

    /// Allocates one DMA page through the explicit
    /// untyped-then-retype-then-map sequence: claim a fresh page-sized
    /// untyped, retype a frame out of it, map a page, and finally ask the
    /// kernel for the mapped frame's physical address. Fails, leaving the
    /// allocator unchanged, exactly when fewer than three slots are free or
    /// the page size class cannot supply the two untyped selections the
    /// sequence makes.
    pub fn pmem_new_dma_page(&mut self) -> (r: Result<PmemOp, Error>)
        requires
            old(self).wf(),
            old(self).last_allocated + PAGE_SIZE_4K <= usize::MAX,
        ensures
            final(self).wf(),
            (r is Err) <==> (old(self).slots_free() < 3 || !old(self).can_alloc_untyped(
                crate::PAGE_BITS_4K,
                false,
            ) || !old(self).can_alloc_untyped_twice(crate::PAGE_BITS_4K, false)),
            match r {
                Ok(op) => {
                    &&& op.wf(*final(self))
                    &&& op.base_vaddr == old(self).last_allocated
                    &&& op.num_pages == 1
                    &&& op.attrs == 0
                    &&& op.phase is Retypes
                    &&& op.req_idx == 0
                    &&& !op.has_pre
                    &&& op.check_target is None
                    &&& op.want_after
                    &&& op.advance_per_map
                    &&& op.reqs@.len() == 3
                    &&& final(self).last_allocated == old(self).last_allocated
                    &&& op.claim_slot == old(self).next_slot()
                    &&& op.first_frame_slot == old(self).next_slot() + 2
                    &&& final(self).num_slots_used == old(self).num_slots_used + 3
                    &&& op.reqs@[0] == old(self).retype_request(
                        op.ut_cap,
                        ObjectType::UntypedObject,
                        crate::PAGE_BITS_4K,
                        op.claim_slot,
                    )
                    &&& op.reqs@[1] == old(self).retype_request(
                        op.claim_slot,
                        ObjectType::ARM_SmallPageObject,
                        crate::PAGE_BITS_4K,
                        (op.claim_slot + 1) as usize,
                    )
                    &&& exists|ut3: usize|
                        op.reqs@[2] == old(self).retype_request(
                            ut3,
                            ObjectType::ARM_SmallPageObject,
                            crate::PAGE_BITS_4K,
                            op.first_frame_slot,
                        )
                },
                Err(e) => {
                    &&& e == Error::ResourceExhausted
                    &&& *final(self) == *old(self)
                },
            },
    {
        let base_vaddr = self.last_allocated;
        if self.cslots.count - self.num_slots_used < 3 {
            return Err(Error::ResourceExhausted);
        }
        if !self.has_untyped_fit(crate::PAGE_BITS_4K, false) {
            return Err(Error::ResourceExhausted);
        }
        if !self.has_second_untyped_fit(crate::PAGE_BITS_4K, false) {
            return Err(Error::ResourceExhausted);
        }
        let (ut_obj, req0) = match self.vka_alloc_untyped(crate::PAGE_BITS_4K) {
            Ok(x) => x,
            Err(_) => {
                proof {
                    assert(false);
                }
                return Err(Error::ResourceExhausted);
            },
        };
        let ghost mid1 = *self;
        let frame_slot = match self.vka_cspace_alloc() {
            Ok(s) => s,
            Err(_) => {
                proof {
                    assert(false);
                }
                return Err(Error::ResourceExhausted);
            },
        };
        let req1 = KernelRequest::Retype {
            untyped: ut_obj.cptr,
            obj_type: ObjectType::ARM_SmallPageObject.value(),
            size_bits: crate::PAGE_BITS_4K,
            root: InitCap::InitThreadCNode.value(),
            node_index: self.root_cnode,
            node_depth: self.root_cnode_depth,
            node_offset: frame_slot,
            num_objects: 1,
        };
        let (f_obj, req2) = match self.vka_alloc_object(
            ObjectType::ARM_SmallPageObject,
            crate::PAGE_BITS_4K,
            None,
            false,
        ) {
            Ok(x) => x,
            Err(_) => {
                proof {
                    let u1 = (old(self).num_slots_used + 1) as usize;
                    let pre1 = old(self).with_slots_used(u1);
                    crate::untyped::lemma_untyped_specs_ignore_slots(
                        *old(self),
                        u1,
                        crate::PAGE_BITS_4K,
                        false,
                    );
                    crate::untyped::lemma_untyped_alloc_twice(
                        pre1,
                        mid1,
                        crate::PAGE_BITS_4K,
                        false,
                        ut_obj.ut,
                    );
                    crate::untyped::lemma_untyped_specs_ignore_slots(
                        mid1,
                        (mid1.num_slots_used + 1) as usize,
                        crate::PAGE_BITS_4K,
                        false,
                    );
                    assert(false);
                }
                return Err(Error::ResourceExhausted);
            },
        };
        let mut reqs: Vec<KernelRequest> = Vec::new();
        reqs.push(req0);
        reqs.push(req1);
        reqs.push(req2);
        let op = PmemOp {
            num_pages: 1,
            attrs: 0,
            base_vaddr,
            req_idx: 0,
            first_frame_slot: f_obj.cptr,
            map_index: 0,
            pt_obj: VkaObject { cptr: 0, ut: 0 },
            check_target: None,
            has_pre: false,
            want_after: true,
            advance_per_map: true,
            paddr: 0,
            claim_slot: ut_obj.cptr,
            claim_size_bits: crate::PAGE_BITS_4K,
            ut_cap: ut_obj.ut,
            ut_base: 0,
            obj_size_bits: crate::PAGE_BITS_4K,
            split_bits: Ghost(Seq::empty()),
            phase: PmemPhase::Retypes,
            reqs,
            pending: Some(req0),
        };
        proof {
            assert(op.reqs@[2] == old(self).retype_request(
                f_obj.ut,
                ObjectType::ARM_SmallPageObject,
                crate::PAGE_BITS_4K,
                op.first_frame_slot,
            ));
        }
        Ok(op)
    }
}

impl Allocator {

    /// The size exponent the claim at `paddr`'s containing region is
    /// requested with: the containing region's own size when a split walk
    /// is needed, the rounded request size when `paddr` is already the
    /// region's base. Meaningful when `some_region_contains(paddr)`.
    pub open spec fn pmem_claim_bits(self, paddr: usize, num_pages: usize) -> usize {
        if self.containing_region_base(paddr) == paddr {
            rounded_size_exp(num_pages * PAGE_SIZE_4K) as usize
        } else {
            self.region_size_at(self.containing_region_base(paddr))
        }
    }

    /// How many capability slots the composite physically-addressed
    /// operation consumes: one for the claim, one per split step (the set
    /// bits of the offset), one per page frame.
    pub open spec fn pmem_at_slots_needed(self, paddr: usize, num_pages: usize) -> int {
        if self.containing_region_base(paddr) == paddr {
            1 + num_pages
        } else {
            1 + pop_count((paddr - self.containing_region_base(paddr)) as nat) + num_pages
        }
    }

    /// Builds the composite operation producing `num_pages` mapped pages
    /// whose first frame sits at physical address exactly `paddr`: locate
    /// the inventory region containing `paddr`; if `paddr` is not the
    /// region's base, claim the whole region and plan the power-of-two
    /// split walk toward `paddr`; retype the frames; check the first
    /// frame's physical address (a mismatch is a fault); and map the frames
    /// at the cursor, one page of cursor advance per mapped page. All
    /// bookkeeping happens here; on any failure the allocator is left
    /// unchanged.
    #[verifier::rlimit(100)]
    pub fn pmem_new_pages_at_paddr(
        &mut self,
        paddr: usize,
        num_pages: usize,
        cache_attributes: usize,
    ) -> (r: Result<PmemOp, Error>)
        requires
            old(self).wf(),
            1 <= num_pages <= MAX_PAGES_PER_CALL,
            old(self).last_allocated + num_pages * PAGE_SIZE_4K <= usize::MAX,
        ensures
            final(self).wf(),
            match r {
                Ok(op) => {
                    &&& op.wf(*final(self))
                    &&& op.base_vaddr == old(self).last_allocated
                    &&& op.num_pages == num_pages
                    &&& op.attrs == cache_attributes
                    &&& op.phase is Retypes
                    &&& op.req_idx == 0
                    &&& op.has_pre
                    &&& op.check_target == Some(paddr)
                    &&& !op.want_after
                    &&& op.advance_per_map
                    &&& final(self).last_allocated == old(self).last_allocated
                    &&& old(self).some_region_contains(paddr)
                    &&& op.ut_base <= paddr
                    &&& pow2_sum(op.split_bits@) == paddr - op.ut_base
                    &&& forall|i: int|
                        0 <= i < op.split_bits@.len() - 1 ==> #[trigger] op.split_bits@[i]
                            > op.split_bits@[i + 1]
                    &&& (op.ut_base == paddr <==> op.split_bits@.len() == 0)
                    &&& op.claim_slot == old(self).next_slot()
                    &&& op.first_frame_slot as int == op.claim_slot + 1 + op.split_bits@.len()
                    &&& final(self).num_slots_used as int == old(self).num_slots_used + 1
                        + op.split_bits@.len() + num_pages
                    &&& Self::inventory_alloc_ok(
                        old(self).with_slots_used(final(self).num_slots_used),
                        *final(self),
                        op.claim_size_bits,
                        Some(op.ut_base),
                        true,
                        op.ut_cap,
                    )
                    &&& op.reqs@.len() == 1 + op.split_bits@.len() + num_pages
                    &&& op.reqs@[0] == old(self).retype_request(
                        op.ut_cap,
                        ObjectType::UntypedObject,
                        op.claim_size_bits,
                        op.claim_slot,
                    )
                    &&& forall|j: int|
                        0 <= j < op.split_bits@.len() ==> #[trigger] op.reqs@[1 + j] == old(
                            self,
                        ).retype_request(
                            op.claim_slot,
                            ObjectType::UntypedObject,
                            op.split_bits@[j],
                            (op.claim_slot + 1 + j) as usize,
                        )
                    &&& forall|f: int|
                        0 <= f < num_pages ==> #[trigger] op.reqs@[1 + op.split_bits@.len() + f]
                            == old(self).retype_request(
                            op.claim_slot,
                            ObjectType::ARM_SmallPageObject,
                            op.obj_size_bits,
                            (op.first_frame_slot + f) as usize,
                        )
                    &&& num_pages * PAGE_SIZE_4K <= pow2(op.obj_size_bits as nat)
                    &&& pow2(op.obj_size_bits as nat) < 2 * (num_pages * PAGE_SIZE_4K)
                },
                Err(e) => {
                    &&& *final(self) == *old(self)
                    &&& (e == Error::InvalidAddress <==> !old(self).some_region_contains(paddr))
                    &&& (e == Error::ResourceExhausted <==> old(self).some_region_contains(paddr)
                        && (old(self).slots_free() < old(self).pmem_at_slots_needed(
                        paddr,
                        num_pages,
                    ) || !old(self).has_inventory_fit_at(
                        old(self).pmem_claim_bits(paddr, num_pages),
                        old(self).containing_region_base(paddr),
                        true,
                    )))
                },
            },
    {
        let ut_paddr = match self.contained_paddr(paddr) {
            Ok(b) => b,
            Err(_) => {
                return Err(Error::InvalidAddress);
            },
        };
        proof {
            let wi = choose|i: int|
                {
                    &&& 0 <= i < self.init_untyped_items.len()
                    &&& region_contains((#[trigger] self.init_untyped_items[i]).item, paddr)
                    &&& ut_paddr == self.init_untyped_items[i].item.paddr
                    &&& forall|j: int|
                        0 <= j < i ==> !region_contains(
                            (#[trigger] self.init_untyped_items[j]).item,
                            paddr,
                        )
                };
            lemma_containing_index_determined(*self, paddr, wi);
        }
        let size: usize = num_pages * PAGE_SIZE_4K;
        let base_size_bits = log_base_2(size);
        proof {
            lemma_pow2_le_bits(base_size_bits, size);
            vstd::arithmetic::power2::lemma_pow2_unfold((base_size_bits + 1) as nat);
        }
        let psz = crate::pow2_usize(base_size_bits);
        let obj_size_bits: usize = if psz != size {
            base_size_bits + 1
        } else {
            base_size_bits
        };
        let claim_size_bits: usize = if ut_paddr != paddr {
            match self.untyped_size_bits(ut_paddr) {
                Ok(b) => b,
                Err(_) => {
                    proof {
                        assert(false);
                    }
                    return Err(Error::InvalidAddress);
                },
            }
        } else {
            obj_size_bits
        };
        proof {
            if ut_paddr != paddr {
                let wi = choose|i: int|
                    {
                        &&& 0 <= i < self.init_untyped_items.len()
                        &&& (#[trigger] self.init_untyped_items[i]).item.paddr == ut_paddr
                        &&& claim_size_bits == self.init_untyped_items[i].item.size_bits
                        &&& MIN_UNTYPED_SIZE <= claim_size_bits <= MAX_UNTYPED_SIZE
                        &&& forall|j: int|
                            0 <= j < i ==> (#[trigger] self.init_untyped_items[j]).item.paddr
                                != ut_paddr
                    };
                lemma_starting_index_determined(*self, ut_paddr, wi);
            }
            assert(claim_size_bits == self.pmem_claim_bits(paddr, num_pages));
        }
        let plan: Vec<usize> = if ut_paddr != paddr {
            split_offset_plan(paddr - ut_paddr)
        } else {
            Vec::new()
        };
        proof {
            assert(1 + plan@.len() + num_pages == self.pmem_at_slots_needed(paddr, num_pages));
        }
        let used0: usize = self.num_slots_used;
        let base_vaddr = self.last_allocated;
        let claim_slot = match self.vka_cspace_alloc() {
            Ok(s) => s,
            Err(_) => {
                return Err(Error::ResourceExhausted);
            },
        };
        let ns = plan.len();
        let mut j: usize = 0;
        while j < ns
            invariant
                self.wf(),
                j <= ns,
                used0 == old(self).num_slots_used,
                old(self).some_region_contains(paddr),
                num_pages >= 1,
                ut_paddr == old(self).containing_region_base(paddr),
                claim_size_bits == old(self).pmem_claim_bits(paddr, num_pages),
                1 + ns + num_pages == old(self).pmem_at_slots_needed(paddr, num_pages),
                *self == old(self).with_slots_used((used0 + 1 + j) as usize),
                used0 + 1 + j <= self.cslots.count,
                claim_slot == old(self).cslots.first + used0,
            decreases ns - j,
        {
            match self.vka_cspace_alloc() {
                Ok(_) => {
                    j = j + 1;
                },
                Err(_) => {
                    self.num_slots_used = used0;
                    proof {
                        assert(*self == *old(self));
                    }
                    return Err(Error::ResourceExhausted);
                },
            }
        }
        let mut f: usize = 0;
        while f < num_pages
            invariant
                self.wf(),
                f <= num_pages,
                ns == plan.len(),
                used0 == old(self).num_slots_used,
                old(self).some_region_contains(paddr),
                num_pages >= 1,
                ut_paddr == old(self).containing_region_base(paddr),
                claim_size_bits == old(self).pmem_claim_bits(paddr, num_pages),
                1 + ns + num_pages == old(self).pmem_at_slots_needed(paddr, num_pages),
                *self == old(self).with_slots_used((used0 + 1 + ns + f) as usize),
                used0 + 1 + ns + f <= self.cslots.count,
                claim_slot == old(self).cslots.first + used0,
            decreases num_pages - f,
        {
            match self.vka_cspace_alloc() {
                Ok(_) => {
                    f = f + 1;
                },
                Err(_) => {
                    self.num_slots_used = used0;
                    proof {
                        assert(*self == *old(self));
                    }
                    return Err(Error::ResourceExhausted);
                },
            }
        }
        let ut_cap = match self.alloc_untyped(claim_size_bits, Some(ut_paddr), true) {
            Ok(c) => c,
            Err(_) => {
                self.num_slots_used = used0;
                proof {
                    assert(*self == *old(self));
                }
                return Err(Error::ResourceExhausted);
            },
        };
        let root_val = InitCap::InitThreadCNode.value();
        let ut_type_val = ObjectType::UntypedObject.value();
        let page_type_val = ObjectType::ARM_SmallPageObject.value();
        let mut reqs: Vec<KernelRequest> = Vec::new();
        reqs.push(
            KernelRequest::Retype {
                untyped: ut_cap,
                obj_type: ut_type_val,
                size_bits: claim_size_bits,
                root: root_val,
                node_index: self.root_cnode,
                node_depth: self.root_cnode_depth,
                node_offset: claim_slot,
                num_objects: 1,
            },
        );
        let mut j2: usize = 0;
        while j2 < ns
            invariant
                self.wf(),
                ns == plan.len(),
                j2 <= ns,
                reqs@.len() == 1 + j2,
                claim_slot == old(self).cslots.first + used0,
                used0 == old(self).num_slots_used,
                self.cslots == old(self).cslots,
                self.root_cnode == old(self).root_cnode,
                self.root_cnode_depth == old(self).root_cnode_depth,
                used0 + 1 + ns + num_pages <= self.cslots.count,
                root_val == InitCap::InitThreadCNode.spec_value(),
                ut_type_val == ObjectType::UntypedObject.spec_value(),
                reqs@[0] == old(self).retype_request(
                    ut_cap,
                    ObjectType::UntypedObject,
                    claim_size_bits,
                    claim_slot,
                ),
                forall|k: int|
                    0 <= k < j2 ==> #[trigger] reqs@[1 + k] == old(self).retype_request(
                        claim_slot,
                        ObjectType::UntypedObject,
                        plan@[k],
                        (claim_slot + 1 + k) as usize,
                    ),
            decreases ns - j2,
        {
            let dest: usize = claim_slot + 1 + j2;
            reqs.push(
                KernelRequest::Retype {
                    untyped: claim_slot,
                    obj_type: ut_type_val,
                    size_bits: plan[j2],
                    root: root_val,
                    node_index: self.root_cnode,
                    node_depth: self.root_cnode_depth,
                    node_offset: dest,
                    num_objects: 1,
                },
            );
            j2 = j2 + 1;
        }
        let first_frame_slot: usize = claim_slot + 1 + ns;
        let mut f2: usize = 0;
        while f2 < num_pages
            invariant
                self.wf(),
                ns == plan.len(),
                f2 <= num_pages,
                reqs@.len() == 1 + ns + f2,
                claim_slot == old(self).cslots.first + used0,
                used0 == old(self).num_slots_used,
                self.cslots == old(self).cslots,
                self.root_cnode == old(self).root_cnode,
                self.root_cnode_depth == old(self).root_cnode_depth,
                used0 + 1 + ns + num_pages <= self.cslots.count,
                first_frame_slot == claim_slot + 1 + ns,
                root_val == InitCap::InitThreadCNode.spec_value(),
                ut_type_val == ObjectType::UntypedObject.spec_value(),
                page_type_val == ObjectType::ARM_SmallPageObject.spec_value(),
                reqs@[0] == old(self).retype_request(
                    ut_cap,
                    ObjectType::UntypedObject,
                    claim_size_bits,
                    claim_slot,
                ),
                forall|k: int|
                    0 <= k < ns ==> #[trigger] reqs@[1 + k] == old(self).retype_request(
                        claim_slot,
                        ObjectType::UntypedObject,
                        plan@[k],
                        (claim_slot + 1 + k) as usize,
                    ),
                forall|k: int|
                    0 <= k < f2 ==> #[trigger] reqs@[1 + ns + k] == old(self).retype_request(
                        claim_slot,
                        ObjectType::ARM_SmallPageObject,
                        obj_size_bits,
                        (first_frame_slot + k) as usize,
                    ),
            decreases num_pages - f2,
        {
            let dest: usize = first_frame_slot + f2;
            reqs.push(
                KernelRequest::Retype {
                    untyped: claim_slot,
                    obj_type: page_type_val,
                    size_bits: obj_size_bits,
                    root: root_val,
                    node_index: self.root_cnode,
                    node_depth: self.root_cnode_depth,
                    node_offset: dest,
                    num_objects: 1,
                },
            );
            f2 = f2 + 1;
        }
        let pending = Some(reqs[0]);
        let op = PmemOp {
            num_pages,
            attrs: cache_attributes,
            base_vaddr,
            req_idx: 0,
            first_frame_slot,
            map_index: 0,
            pt_obj: VkaObject { cptr: 0, ut: 0 },
            check_target: Some(paddr),
            has_pre: true,
            want_after: false,
            advance_per_map: true,
            paddr: 0,
            claim_slot,
            claim_size_bits,
            ut_cap,
            ut_base: ut_paddr,
            obj_size_bits,
            split_bits: Ghost(plan@),
            phase: PmemPhase::Retypes,
            reqs,
            pending,
        };
        Ok(op)
    }
}

} // verus!
