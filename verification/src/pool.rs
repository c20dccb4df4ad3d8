//! The addresses that are assigned to the device at present.

use vstd::prelude::*;

use crate::address::texts;

verus! {

/// Whether a pool takes an address: it does unless it holds the address already.
pub open spec fn accepts(pool: Seq<Seq<char>>, address: Seq<char>) -> bool {
    !pool.contains(address)
}

/// The pool after an address was offered to it: the address stands at the
/// end if the pool took it, and the pool is as it was if not.
pub open spec fn offered(pool: Seq<Seq<char>>, address: Seq<char>) -> Seq<Seq<char>> {
    if accepts(pool, address) {
        pool.push(address)
    } else {
        pool
    }
}

/// The pool after the addresses were offered to it one by one.
pub open spec fn offered_all(pool: Seq<Seq<char>>, addresses: Seq<Seq<char>>) -> Seq<Seq<char>>
    decreases addresses.len(),
{
    if addresses.len() == 0 {
        pool
    } else {
        offered(offered_all(pool, addresses.drop_last()), addresses.last())
    }
}

/// The addresses in the order in which they were assigned, none of them twice.
#[derive(Debug, PartialEq)]
pub struct AddressPool {
    entries: Vec<String>,
}

impl View for AddressPool {
    type V = Seq<Seq<char>>;

    closed spec fn view(&self) -> Seq<Seq<char>> {
        texts(self.entries@)
    }
}

impl AddressPool {
    /// No address stands in the pool twice.
    pub open spec fn wf(&self) -> bool {
        self@.no_duplicates()
    }

    /// A pool without addresses.
    pub fn new() -> (pool: Self)
        ensures
            pool@ == Seq::<Seq<char>>::empty(),
            pool.wf(),
    {
        let pool = AddressPool { entries: Vec::new() };
        pool
    }

    /// The number of addresses in the pool.
    pub fn len(&self) -> (n: usize)
        ensures
            n == self@.len(),
    {
        self.entries.len()
    }

    /// Whether the pool holds the address.
    pub fn contains(&self, address: &String) -> (found: bool)
        ensures
            found == self@.contains(address@),
    {
        let mut i: usize = 0;
        while i < self.entries.len()
            invariant
                i <= self.entries@.len(),
                forall|j: int| 0 <= j < i ==> self@[j] != address@,
            decreases self.entries.len() - i,
        {
            if self.entries[i] == *address {
                assert(self@[i as int] == address@);
                return true;
            }
            i += 1;
        }
        false
    }

    /// Takes the address in, at the end, unless the pool holds it already.
    /// Says whether the address was taken in.
    pub fn try_add(&mut self, address: String) -> (added: bool)
        ensures
            added == accepts(old(self)@, address@),
            final(self)@ == offered(old(self)@, address@),
            old(self).wf() ==> final(self).wf(),
    {
        if self.contains(&address) {
            false
        } else {
            self.entries.push(address);
            true
        }
    }

    /// The address at a place of the pool, the places counted from 0 at the
    /// address that was taken in first. Behind the last address there is none.
    pub fn get(&self, index: usize) -> (address: Option<&String>)
        ensures
            address is Some <==> index < self@.len(),
            address is Some ==> address->0@ == self@[index as int],
    {
        if index < self.entries.len() {
            Some(&self.entries[index])
        } else {
            None
        }
    }

    /// A pool of its own with the same addresses in the same order.
    pub fn duplicate(&self) -> (pool: Self)
        ensures
            pool@ == self@,
    {
        let mut entries: Vec<String> = Vec::new();
        let mut i: usize = 0;
        while i < self.entries.len()
            invariant
                i <= self.entries@.len(),
                entries@.len() == i,
                texts(entries@) == self@.take(i as int),
            decreases self.entries.len() - i,
        {
            let ghost before = entries@;
            entries.push(self.entries[i].clone());
            assert forall|j: int| 0 <= j <= i implies texts(entries@)[j] == self@[j] by {
                if j < i {
                    assert(texts(before)[j] == self@.take(i as int)[j]);
                }
            }
            i += 1;
        }
        AddressPool { entries }
    }

    /// The addresses in the order in which they were taken in.
    pub fn all(&self) -> (entries: &Vec<String>)
        ensures
            texts(entries@) == self@,
    {
        &self.entries
    }

    /// Empties the pool and hands out what it held, in the order in which
    /// the addresses were taken in.
    pub fn take_all(&mut self) -> (entries: Vec<String>)
        ensures
            texts(entries@) == old(self)@,
            final(self)@ == Seq::<Seq<char>>::empty(),
            final(self).wf(),
    {
        let mut entries: Vec<String> = Vec::new();
        std::mem::swap(&mut self.entries, &mut entries);
        entries
    }

    /// Empties the pool.
    pub fn clear(&mut self)
        ensures
            final(self)@ == Seq::<Seq<char>>::empty(),
            final(self).wf(),
    {
        self.entries.clear();
    }
}

/// An address that was offered to a pool is refused when it is offered
/// again, and the pool stays as the first offer left it.
pub proof fn lemma_second_offer_refused(pool: Seq<Seq<char>>, address: Seq<char>)
    ensures
        !accepts(offered(pool, address), address),
        offered(offered(pool, address), address) == offered(pool, address),
{
    if accepts(pool, address) {
        assert(pool.push(address)[pool.len() as int] == address);
    }
}

/// An offer leaves a pool without duplicates as one.
pub proof fn lemma_offer_keeps_distinct(pool: Seq<Seq<char>>, address: Seq<char>)
    requires
        pool.no_duplicates(),
    ensures
        offered(pool, address).no_duplicates(),
{
}

/// Addresses that differ from each other and from all that a pool holds are
/// all taken in, and stand behind the pool's own in the order of the offers.
pub proof fn lemma_fresh_offers_in_order(pool: Seq<Seq<char>>, addresses: Seq<Seq<char>>)
    requires
        (pool + addresses).no_duplicates(),
    ensures
        offered_all(pool, addresses) == pool + addresses,
        forall|i: int|
            0 <= i < addresses.len() ==> accepts(
                #[trigger] offered_all(pool, addresses.take(i)),
                addresses[i],
            ),
    decreases addresses.len(),
{
    if addresses.len() > 0 {
        let front = addresses.drop_last();
        let last = addresses.last();
        assert forall|i: int, j: int| 0 <= i < j < (pool + front).len() implies (pool + front)[i]
            != (pool + front)[j] by {
            assert((pool + front)[i] == (pool + addresses)[i]);
            assert((pool + front)[j] == (pool + addresses)[j]);
        }
        lemma_fresh_offers_in_order(pool, front);
        assert forall|k: int| 0 <= k < (pool + front).len() implies (pool + front)[k] != last by {
            assert((pool + front)[k] == (pool + addresses)[k]);
            assert(last == (pool + addresses)[(pool + addresses).len() - 1]);
        }
        assert forall|i: int| 0 <= i < addresses.len() implies accepts(
            #[trigger] offered_all(pool, addresses.take(i)),
            addresses[i],
        ) by {
            if i < front.len() {
                assert(addresses.take(i) =~= front.take(i));
            }
        }
    }
}

} // verus!
