//! Selection of untyped memory: the pool of boot-granted untyped
//! capabilities, classified by power-of-two size exponent, from which every
//! kernel object is retyped.
//!
//! Untyped capabilities move one way only: a selected item is marked used
//! and never returns to the pool.

use crate::{Allocator, CapRange, Error, InitUntypedItem, MAX_UNTYPED_SIZE, MIN_UNTYPED_SIZE};
use vstd::prelude::*;

verus! {

/// True when the inventory entry can satisfy a request for `2^size_bits`
/// bytes: it is still free, at least as large as requested, and device
/// memory only if the caller allowed that.
pub open spec fn ut_fits(e: InitUntypedItem, size_bits: usize, can_use_dev: bool) -> bool {
    &&& e.is_free
    &&& e.item.size_bits >= size_bits
    &&& can_use_dev || !e.item.is_device
}

/// `ut_fits`, additionally demanding that the region start exactly at
/// physical address `paddr`.
pub open spec fn ut_fits_at(
    e: InitUntypedItem,
    size_bits: usize,
    paddr: usize,
    can_use_dev: bool,
) -> bool {
    ut_fits(e, size_bits, can_use_dev) && e.item.paddr == paddr
}

impl Allocator {
    /// The size-class bucket index for exponent `size_bits`.
    pub open spec fn class_index(size_bits: usize) -> int {
        size_bits - MIN_UNTYPED_SIZE
    }

    /// True when the free list of size class `size_bits` holds a capability.
    pub open spec fn has_bucket_item(self, size_bits: usize) -> bool {
        &&& MIN_UNTYPED_SIZE <= size_bits <= MAX_UNTYPED_SIZE
        &&& self.untyped_items[Self::class_index(size_bits)].count > 0
    }

    /// True when some inventory entry can satisfy the request.
    pub open spec fn has_inventory_fit(self, size_bits: usize, can_use_dev: bool) -> bool {
        exists|i: int|
            0 <= i < self.init_untyped_items.len() && ut_fits(
                #[trigger] self.init_untyped_items[i],
                size_bits,
                can_use_dev,
            )
    }

    /// True when an untyped allocation without an address constraint will
    /// succeed.
    pub open spec fn can_alloc_untyped(self, size_bits: usize, can_use_dev: bool) -> bool {
        self.has_bucket_item(size_bits) || self.has_inventory_fit(size_bits, can_use_dev)
    }

    /// True when some inventory entry starting exactly at `paddr` can
    /// satisfy the request.
    pub open spec fn has_inventory_fit_at(
        self,
        size_bits: usize,
        paddr: usize,
        can_use_dev: bool,
    ) -> bool {
        exists|i: int|
            0 <= i < self.init_untyped_items.len() && ut_fits_at(
                #[trigger] self.init_untyped_items[i],
                size_bits,
                paddr,
                can_use_dev,
            )
    }

    /// The state transition of a successful unconstrained untyped
    /// allocation: either the exact size class's free list shrank by one run
    /// entry (and `cap` is that entry), or the first fitting inventory item
    /// was marked used (and `cap` names it).
    pub open spec fn untyped_alloc_ok(
        pre: Allocator,
        post: Allocator,
        size_bits: usize,
        can_use_dev: bool,
        cap: usize,
    ) -> bool {
        if pre.has_bucket_item(size_bits) {
            let ci = Self::class_index(size_bits);
            let b = pre.untyped_items[ci];
            &&& cap == b.first + b.count - 1
            &&& post == (Allocator { untyped_items: post.untyped_items, ..pre })
            &&& post.untyped_items@ =~= pre.untyped_items@.update(
                ci,
                CapRange { first: b.first, count: (b.count - 1) as usize },
            )
        } else {
            Self::inventory_alloc_ok(pre, post, size_bits, None, can_use_dev, cap)
        }
    }

    /// The state transition of taking the first fitting inventory item,
    /// optionally constrained to start at a physical address.
    pub open spec fn inventory_alloc_ok(
        pre: Allocator,
        post: Allocator,
        size_bits: usize,
        paddr: Option<usize>,
        can_use_dev: bool,
        cap: usize,
    ) -> bool {
        exists|i: int|
            {
                &&& 0 <= i < pre.init_untyped_items.len()
                &&& (match paddr {
                    None => ut_fits(#[trigger] pre.init_untyped_items[i], size_bits, can_use_dev),
                    Some(p) => ut_fits_at(pre.init_untyped_items[i], size_bits, p, can_use_dev),
                })
                &&& forall|j: int|
                    0 <= j < i ==> (match paddr {
                        None => !ut_fits(
                            #[trigger] pre.init_untyped_items[j],
                            size_bits,
                            can_use_dev,
                        ),
                        Some(p) => !ut_fits_at(
                            pre.init_untyped_items[j],
                            size_bits,
                            p,
                            can_use_dev,
                        ),
                    })
                &&& cap == pre.init_untyped_items[i].item.cap
                &&& post == (Allocator { init_untyped_items: post.init_untyped_items, ..pre })
                &&& post.init_untyped_items@ =~= pre.init_untyped_items@.update(
                    i,
                    InitUntypedItem { item: pre.init_untyped_items[i].item, is_free: false },
                )
            }
    }

    /// The index of the first inventory entry that fits an unconstrained
    /// request; meaningful when `has_inventory_fit`.
    pub open spec fn first_fit_index(self, size_bits: usize, can_use_dev: bool) -> int {
        choose|i: int|
            {
                &&& 0 <= i < self.init_untyped_items.len()
                &&& ut_fits(#[trigger] self.init_untyped_items[i], size_bits, can_use_dev)
                &&& forall|j: int|
                    0 <= j < i ==> !ut_fits(
                        #[trigger] self.init_untyped_items[j],
                        size_bits,
                        can_use_dev,
                    )
            }
    }

    /// True when two successive unconstrained selections of the same class
    /// can both succeed: the class's free list holds a second run entry, or
    /// an inventory fit remains after the first selection.
    pub open spec fn can_alloc_untyped_twice(self, size_bits: usize, can_use_dev: bool) -> bool {
        if self.has_bucket_item(size_bits) {
            self.untyped_items[Self::class_index(size_bits)].count >= 2
                || self.has_inventory_fit(size_bits, can_use_dev)
        } else {
            exists|i: int|
                {
                    &&& 0 <= i < self.init_untyped_items.len()
                    &&& i != self.first_fit_index(size_bits, can_use_dev)
                    &&& ut_fits(#[trigger] self.init_untyped_items[i], size_bits, can_use_dev)
                }
        }
    }

    /// Reports whether an unconstrained selection would succeed, consuming
    /// nothing.
    pub fn has_untyped_fit(&self, size_bits: usize, can_use_dev: bool) -> (r: bool)
        requires
            self.wf(),
        ensures
            r == self.can_alloc_untyped(size_bits, can_use_dev),
    {
        if size_bits >= MIN_UNTYPED_SIZE && size_bits <= MAX_UNTYPED_SIZE {
            let ci: usize = size_bits - MIN_UNTYPED_SIZE;
            if self.untyped_items[ci].count > 0 {
                return true;
            }
        }
        match self.find_first_fit(size_bits, can_use_dev) {
            Some(_) => true,
            None => false,
        }
    }

    /// Finds the first inventory entry fitting an unconstrained request,
    /// consuming nothing.
    fn find_first_fit(&self, size_bits: usize, can_use_dev: bool) -> (r: Option<usize>)
        requires
            self.wf(),
        ensures
            match r {
                Some(i) => {
                    &&& i < self.init_untyped_items.len()
                    &&& ut_fits(self.init_untyped_items[i as int], size_bits, can_use_dev)
                    &&& i as int == self.first_fit_index(size_bits, can_use_dev)
                    &&& self.has_inventory_fit(size_bits, can_use_dev)
                },
                None => !self.has_inventory_fit(size_bits, can_use_dev),
            },
    {
        let n = self.init_untyped_items.len();
        let mut i: usize = 0;
        while i < n
            invariant
                self.wf(),
                n == self.init_untyped_items.len(),
                i <= n,
                forall|j: int|
                    0 <= j < i ==> !ut_fits(
                        #[trigger] self.init_untyped_items[j],
                        size_bits,
                        can_use_dev,
                    ),
            decreases n - i,
        {
            let e = self.init_untyped_items[i];
            if e.is_free && e.item.size_bits >= size_bits && (can_use_dev || !e.item.is_device) {
                proof {
                    lemma_first_fit_determined(*self, size_bits, can_use_dev, i as int);
                }
                return Some(i);
            }
            i = i + 1;
        }
        None
    }

    /// Reports whether, after one unconstrained selection, a second one of
    /// the same class would still succeed, consuming nothing.
    /// Reports whether any entry other than `skip` fits an unconstrained
    /// request, consuming nothing.
    fn find_fit_excluding(&self, size_bits: usize, can_use_dev: bool, skip: usize) -> (r: bool)
        requires
            self.wf(),
        ensures
            r == exists|i: int|
                {
                    &&& 0 <= i < self.init_untyped_items.len()
                    &&& i != skip
                    &&& ut_fits(#[trigger] self.init_untyped_items[i], size_bits, can_use_dev)
                },
    {
        let n = self.init_untyped_items.len();
        let mut i: usize = 0;
        while i < n
            invariant
                self.wf(),
                n == self.init_untyped_items.len(),
                i <= n,
                forall|j: int|
                    0 <= j < i && j != skip ==> !ut_fits(
                        #[trigger] self.init_untyped_items[j],
                        size_bits,
                        can_use_dev,
                    ),
            decreases n - i,
        {
            if i != skip {
                let e = self.init_untyped_items[i];
                if e.is_free && e.item.size_bits >= size_bits && (can_use_dev
                    || !e.item.is_device) {
                    proof {
                        assert(ut_fits(
                            #[trigger] self.init_untyped_items[i as int],
                            size_bits,
                            can_use_dev,
                        ));
                    }
                    return true;
                }
            }
            i = i + 1;
        }
        false
    }

    /// Reports whether, after one unconstrained selection, a second one of
    /// the same class would still succeed, consuming nothing.
    pub fn has_second_untyped_fit(&self, size_bits: usize, can_use_dev: bool) -> (r: bool)
        requires
            self.wf(),
        ensures
            r == self.can_alloc_untyped_twice(size_bits, can_use_dev),
    {
        if size_bits >= MIN_UNTYPED_SIZE && size_bits <= MAX_UNTYPED_SIZE {
            let ci: usize = size_bits - MIN_UNTYPED_SIZE;
            let c = self.untyped_items[ci].count;
            if c >= 2 {
                return true;
            }
            if c == 1 {
                return match self.find_first_fit(size_bits, can_use_dev) {
                    Some(_) => true,
                    None => false,
                };
            }
        }
        match self.find_first_fit(size_bits, can_use_dev) {
            None => {
                proof {
                    if self.can_alloc_untyped_twice(size_bits, can_use_dev) {
                        let i = choose|i: int|
                            {
                                &&& 0 <= i < self.init_untyped_items.len()
                                &&& i != self.first_fit_index(size_bits, can_use_dev)
                                &&& ut_fits(
                                    #[trigger] self.init_untyped_items[i],
                                    size_bits,
                                    can_use_dev,
                                )
                            };
                        assert(ut_fits(
                            #[trigger] self.init_untyped_items[i],
                            size_bits,
                            can_use_dev,
                        ));
                    }
                }
                false
            },
            Some(first) => {
                let r = self.find_fit_excluding(size_bits, can_use_dev, first);
                proof {
                    if r {
                        let i = choose|i: int|
                            {
                                &&& 0 <= i < self.init_untyped_items.len()
                                &&& i != first
                                &&& ut_fits(
                                    #[trigger] self.init_untyped_items[i],
                                    size_bits,
                                    can_use_dev,
                                )
                            };
                        assert(ut_fits(
                            #[trigger] self.init_untyped_items[i],
                            size_bits,
                            can_use_dev,
                        ));
                    }
                    if self.can_alloc_untyped_twice(size_bits, can_use_dev) {
                        let i = choose|i: int|
                            {
                                &&& 0 <= i < self.init_untyped_items.len()
                                &&& i != self.first_fit_index(size_bits, can_use_dev)
                                &&& ut_fits(
                                    #[trigger] self.init_untyped_items[i],
                                    size_bits,
                                    can_use_dev,
                                )
                            };
                        assert(ut_fits(
                            #[trigger] self.init_untyped_items[i],
                            size_bits,
                            can_use_dev,
                        ));
                    }
                }
                r
            },
        }
    }

    /// Selects an untyped capability of at least `2^size_bits` bytes and
    /// consumes it.
    ///
    /// Without an address constraint, the exact size class's free list is
    /// preferred; otherwise the first fitting inventory item is taken. With
    /// `paddr`, only an inventory item starting exactly there will do:
    /// `InvalidAddress` reports an address no inventory item starts at,
    /// `ResourceExhausted` an address whose items are all consumed, too
    /// small, or device memory the caller refused.
    pub fn alloc_untyped(
        &mut self,
        size_bits: usize,
        paddr: Option<usize>,
        can_use_dev: bool,
    ) -> (r: Result<usize, Error>)
        requires
            old(self).wf(),
        ensures
            final(self).wf(),
            match r {
                Ok(cap) => match paddr {
                    None => Self::untyped_alloc_ok(*old(self), *final(self), size_bits, can_use_dev, cap),
                    Some(p) => Self::inventory_alloc_ok(
                        *old(self),
                        *final(self),
                        size_bits,
                        paddr,
                        can_use_dev,
                        cap,
                    ),
                },
                Err(e) => {
                    &&& *final(self) == *old(self)
                    &&& match paddr {
                        None => e == Error::ResourceExhausted && !old(self).can_alloc_untyped(
                            size_bits,
                            can_use_dev,
                        ),
                        Some(p) => {
                            &&& !old(self).has_inventory_fit_at(size_bits, p, can_use_dev)
                            &&& (e == Error::ResourceExhausted <==> old(self).some_region_starts_at(
                                p,
                            ))
                            &&& (e == Error::InvalidAddress <==> !old(self).some_region_starts_at(
                                p,
                            ))
                        },
                    }
                },
            },
    {
        let use_paddr: bool = paddr.is_some();
        if !use_paddr && size_bits >= MIN_UNTYPED_SIZE && size_bits <= MAX_UNTYPED_SIZE {
            let ci: usize = size_bits - MIN_UNTYPED_SIZE;
            let b = self.untyped_items[ci];
            if b.count > 0 {
                let cap: usize = b.first + (b.count - 1);
                self.untyped_items.set(ci, CapRange { first: b.first, count: b.count - 1 });
                return Ok(cap);
            }
        }
        let n = self.init_untyped_items.len();
        let mut i: usize = 0;
        let mut seen_paddr: bool = false;
        while i < n
            invariant
                self.wf(),
                *self == *old(self),
                paddr is Some || !old(self).has_bucket_item(size_bits),
                n == self.init_untyped_items.len(),
                i <= n,
                forall|j: int|
                    0 <= j < i ==> (match paddr {
                        None => !ut_fits(
                            #[trigger] self.init_untyped_items[j],
                            size_bits,
                            can_use_dev,
                        ),
                        Some(p) => !ut_fits_at(
                            self.init_untyped_items[j],
                            size_bits,
                            p,
                            can_use_dev,
                        ),
                    }),
                seen_paddr <==> (paddr is Some && exists|j: int|
                    0 <= j < i && (#[trigger] self.init_untyped_items[j]).item.paddr
                        == paddr.unwrap()),
            decreases n - i,
        {
            let entry = self.init_untyped_items[i];
            let matches_addr: bool = match paddr {
                None => true,
                Some(p) => entry.item.paddr == p,
            };
            if matches_addr && paddr.is_some() {
                seen_paddr = true;
            }
            if matches_addr && entry.is_free && entry.item.size_bits >= size_bits && (can_use_dev
                || !entry.item.is_device) {
                let ghost pre = *old(self);
                self.init_untyped_items.set(
                    i,
                    InitUntypedItem { item: entry.item, is_free: false },
                );
                proof {
                    let wi = i as int;
                    assert(pre.init_untyped_items[wi] == entry);
                    assert(match paddr {
                        None => ut_fits(pre.init_untyped_items[wi], size_bits, can_use_dev),
                        Some(p) => ut_fits_at(
                            pre.init_untyped_items[wi],
                            size_bits,
                            p,
                            can_use_dev,
                        ),
                    });
                    assert(Self::inventory_alloc_ok(
                        pre,
                        *self,
                        size_bits,
                        paddr,
                        can_use_dev,
                        entry.item.cap,
                    ));
                }
                return Ok(entry.item.cap);
            }
            i = i + 1;
        }
        if use_paddr {
            if seen_paddr {
                Err(Error::ResourceExhausted)
            } else {
                Err(Error::InvalidAddress)
            }
        } else {
            Err(Error::ResourceExhausted)
        }
    }
}

/// Where some entry fits, a first (minimal-index) fitting entry exists.
proof fn lemma_minimal_fit_exists(a: Allocator, size_bits: usize, can_use_dev: bool, i: int)
    requires
        0 <= i < a.init_untyped_items.len(),
        ut_fits(a.init_untyped_items[i], size_bits, can_use_dev),
    ensures
        exists|k: int|
            {
                &&& 0 <= k < a.init_untyped_items.len()
                &&& ut_fits(#[trigger] a.init_untyped_items[k], size_bits, can_use_dev)
                &&& forall|j: int|
                    0 <= j < k ==> !ut_fits(
                        #[trigger] a.init_untyped_items[j],
                        size_bits,
                        can_use_dev,
                    )
            },
    decreases i,
{
    if forall|j: int|
        0 <= j < i ==> !ut_fits(#[trigger] a.init_untyped_items[j], size_bits, can_use_dev) {
        assert(ut_fits(#[trigger] a.init_untyped_items[i], size_bits, can_use_dev));
    } else {
        let j = choose|j: int|
            0 <= j < i && ut_fits(#[trigger] a.init_untyped_items[j], size_bits, can_use_dev);
        lemma_minimal_fit_exists(a, size_bits, can_use_dev, j);
    }
}

/// The first-fit index is exactly the witness of a minimal fit: the
/// minimality clause makes it unique.
pub proof fn lemma_first_fit_determined(a: Allocator, size_bits: usize, can_use_dev: bool, i: int)
    requires
        0 <= i < a.init_untyped_items.len(),
        ut_fits(a.init_untyped_items[i], size_bits, can_use_dev),
        forall|j: int|
            0 <= j < i ==> !ut_fits(#[trigger] a.init_untyped_items[j], size_bits, can_use_dev),
    ensures
        a.first_fit_index(size_bits, can_use_dev) == i,
        a.has_inventory_fit(size_bits, can_use_dev),
{
    assert(ut_fits(#[trigger] a.init_untyped_items[i], size_bits, can_use_dev));
    let c = a.first_fit_index(size_bits, can_use_dev);
    assert(0 <= c < a.init_untyped_items.len() && ut_fits(
        a.init_untyped_items[c],
        size_bits,
        can_use_dev,
    ) && forall|j: int|
        0 <= j < c ==> !ut_fits(#[trigger] a.init_untyped_items[j], size_bits, can_use_dev));
    if c < i {
        assert(!ut_fits(a.init_untyped_items[c], size_bits, can_use_dev));
    }
    if c > i {
        assert(!ut_fits(a.init_untyped_items[i], size_bits, can_use_dev));
    }
}

/// The untyped-pool predicates read only the inventory and the free lists,
/// so changing the used-slot counter changes none of them.
#[verifier::rlimit(100)]
pub proof fn lemma_untyped_specs_ignore_slots(
    a: Allocator,
    n: usize,
    size_bits: usize,
    can_use_dev: bool,
)
    ensures
        a.with_slots_used(n).can_alloc_untyped(size_bits, can_use_dev) == a.can_alloc_untyped(
            size_bits,
            can_use_dev,
        ),
        a.with_slots_used(n).can_alloc_untyped_twice(size_bits, can_use_dev)
            == a.can_alloc_untyped_twice(size_bits, can_use_dev),
{
    let b = a.with_slots_used(n);
    assert(b.init_untyped_items == a.init_untyped_items);
    assert(b.untyped_items == a.untyped_items);
    if a.has_inventory_fit(size_bits, can_use_dev) {
        let i = choose|i: int|
            0 <= i < a.init_untyped_items.len() && ut_fits(
                #[trigger] a.init_untyped_items[i],
                size_bits,
                can_use_dev,
            );
        assert(ut_fits(#[trigger] b.init_untyped_items[i], size_bits, can_use_dev));
    }
    if b.has_inventory_fit(size_bits, can_use_dev) {
        let i = choose|i: int|
            0 <= i < b.init_untyped_items.len() && ut_fits(
                #[trigger] b.init_untyped_items[i],
                size_bits,
                can_use_dev,
            );
        assert(ut_fits(#[trigger] a.init_untyped_items[i], size_bits, can_use_dev));
    }
    if a.has_inventory_fit(size_bits, can_use_dev) {
        let w = choose|i: int|
            0 <= i < a.init_untyped_items.len() && ut_fits(
                #[trigger] a.init_untyped_items[i],
                size_bits,
                can_use_dev,
            );
        lemma_minimal_fit_exists(a, size_bits, can_use_dev, w);
        let fa = a.first_fit_index(size_bits, can_use_dev);
        assert(0 <= fa < a.init_untyped_items.len() && ut_fits(
            a.init_untyped_items[fa],
            size_bits,
            can_use_dev,
        ) && forall|j: int|
            0 <= j < fa ==> !ut_fits(#[trigger] a.init_untyped_items[j], size_bits, can_use_dev));
        lemma_first_fit_determined(b, size_bits, can_use_dev, fa);
        if a.can_alloc_untyped_twice(size_bits, can_use_dev) && !a.has_bucket_item(size_bits) {
            let i = choose|i: int|
                {
                    &&& 0 <= i < a.init_untyped_items.len()
                    &&& i != a.first_fit_index(size_bits, can_use_dev)
                    &&& ut_fits(#[trigger] a.init_untyped_items[i], size_bits, can_use_dev)
                };
            assert(ut_fits(#[trigger] b.init_untyped_items[i], size_bits, can_use_dev));
        }
        if b.can_alloc_untyped_twice(size_bits, can_use_dev) && !b.has_bucket_item(size_bits) {
            let i = choose|i: int|
                {
                    &&& 0 <= i < b.init_untyped_items.len()
                    &&& i != b.first_fit_index(size_bits, can_use_dev)
                    &&& ut_fits(#[trigger] b.init_untyped_items[i], size_bits, can_use_dev)
                };
            assert(ut_fits(#[trigger] a.init_untyped_items[i], size_bits, can_use_dev));
        }
    }
}

/// Law: if two selections of a class are possible, then after one
/// successful selection a second still is.
pub proof fn lemma_untyped_alloc_twice(
    pre: Allocator,
    post: Allocator,
    size_bits: usize,
    can_use_dev: bool,
    cap: usize,
)
    requires
        pre.wf(),
        Allocator::untyped_alloc_ok(pre, post, size_bits, can_use_dev, cap),
        pre.can_alloc_untyped_twice(size_bits, can_use_dev),
    ensures
        post.can_alloc_untyped(size_bits, can_use_dev),
{
    if pre.has_bucket_item(size_bits) {
        let ci = Allocator::class_index(size_bits);
        if pre.untyped_items[ci].count >= 2 {
            assert(post.untyped_items[ci].count >= 1);
            assert(post.has_bucket_item(size_bits));
        } else {
            let i = choose|i: int|
                0 <= i < pre.init_untyped_items.len() && ut_fits(
                    #[trigger] pre.init_untyped_items[i],
                    size_bits,
                    can_use_dev,
                );
            assert(post.init_untyped_items == pre.init_untyped_items);
            assert(ut_fits(#[trigger] post.init_untyped_items[i], size_bits, can_use_dev));
        }
    } else {
        let wi = choose|i: int|
            {
                &&& 0 <= i < pre.init_untyped_items.len()
                &&& ut_fits(#[trigger] pre.init_untyped_items[i], size_bits, can_use_dev)
                &&& forall|j: int|
                    0 <= j < i ==> !ut_fits(
                        #[trigger] pre.init_untyped_items[j],
                        size_bits,
                        can_use_dev,
                    )
                &&& cap == pre.init_untyped_items[i].item.cap
                &&& post == (Allocator { init_untyped_items: post.init_untyped_items, ..pre })
                &&& post.init_untyped_items@ =~= pre.init_untyped_items@.update(
                    i,
                    InitUntypedItem { item: pre.init_untyped_items[i].item, is_free: false },
                )
            };
        lemma_first_fit_determined(pre, size_bits, can_use_dev, wi);
        let j = choose|j: int|
            {
                &&& 0 <= j < pre.init_untyped_items.len()
                &&& j != pre.first_fit_index(size_bits, can_use_dev)
                &&& ut_fits(#[trigger] pre.init_untyped_items[j], size_bits, can_use_dev)
            };
        assert(post.init_untyped_items@[j] == pre.init_untyped_items@[j]);
        assert(ut_fits(#[trigger] post.init_untyped_items[j], size_bits, can_use_dev));
    }
}

} // verus!
