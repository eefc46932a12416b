use vstd::prelude::*;

use crate::errors::TokenFactoryError;
use crate::pubkey::Pubkey;

verus! {

/// The addresses of one token that pay no token-level fee, in the order they were added.
#[derive(Clone, Debug)]
pub struct FeeExemptList {
    /// The exempt addresses, each at most once.
    pub exempt_addresses: Vec<Pubkey>,
    /// The authority who may change the list.
    pub authority: Pubkey,
    /// The mint this list belongs to.
    pub mint: Pubkey,
    /// The bump seed of the record's address.
    pub bump: u8,
}

/// Most addresses one exemption list can hold.
pub const MAX_EXEMPT_ADDRESSES: usize = 100;

/// The list after adding `a`: unchanged if `a` is in it, `a` appended if there is room,
/// else the error.
pub open spec fn added(s: Seq<Pubkey>, a: Pubkey) -> Result<Seq<Pubkey>, TokenFactoryError> {
    if s.contains(a) {
        Ok(s)
    } else if s.len() >= MAX_EXEMPT_ADDRESSES {
        Err(TokenFactoryError::ExemptListFull)
    } else {
        Ok(s.push(a))
    }
}

/// Holds of every address but `a`.
pub open spec fn other_than(a: Pubkey) -> spec_fn(Pubkey) -> bool {
    |x: Pubkey| x != a
}

/// The list after removing `a`: the others, in their order, if `a` is in it, else the error.
pub open spec fn removed(s: Seq<Pubkey>, a: Pubkey) -> Result<Seq<Pubkey>, TokenFactoryError> {
    if s.contains(a) {
        Ok(s.filter(other_than(a)))
    } else {
        Err(TokenFactoryError::AddressNotExempt)
    }
}

impl View for FeeExemptList {
    type V = Seq<Pubkey>;

    open spec fn view(&self) -> Seq<Pubkey> {
        self.exempt_addresses@
    }
}

impl FeeExemptList {
    /// No address twice, and at most the maximum number of addresses.
    pub open spec fn wf(&self) -> bool {
        &&& self@.no_duplicates()
        &&& self@.len() <= MAX_EXEMPT_ADDRESSES
    }

    /// Size of a stored list that can hold `max_addresses` addresses: discriminator,
    /// length prefix and addresses, authority, mint, bump.
    pub fn calculate_len(max_addresses: usize) -> (r: usize)
        requires
            77 + 32 * max_addresses <= usize::MAX,
        ensures
            r == 8 + 4 + 32 * max_addresses + 32 + 32 + 1,
    {
        8 + 4 + (32 * max_addresses) + 32 + 32 + 1
    }

    /// Whether the list is well formed: no address twice, and at most the maximum number.
    pub fn check_wf(&self) -> (r: bool)
        ensures
            r == self.wf(),
    {
        let n = self.exempt_addresses.len();
        if n > MAX_EXEMPT_ADDRESSES {
            return false;
        }
        let mut i: usize = 0;
        while i < n
            invariant
                n == self@.len(),
                0 <= i <= n,
                forall|a: int, b: int| 0 <= a < b < n && a < i ==> self@[a] != self@[b],
            decreases n - i,
        {
            let mut j: usize = i + 1;
            while j < n
                invariant
                    n == self@.len(),
                    0 <= i < n,
                    i + 1 <= j <= n,
                    forall|a: int, b: int| 0 <= a < b < n && a < i ==> self@[a] != self@[b],
                    forall|b: int| i < b < j ==> self@[i as int] != self@[b],
                decreases n - j,
            {
                if self.exempt_addresses[i].same(&self.exempt_addresses[j]) {
                    return false;
                }
                j = j + 1;
            }
            i = i + 1;
        }
        true
    }

    /// Whether `address` is in the list.
    pub fn is_exempt(&self, address: &Pubkey) -> (r: bool)
        ensures
            r == self@.contains(*address),
    {
        let mut i: usize = 0;
        while i < self.exempt_addresses.len()
            invariant
                0 <= i <= self@.len(),
                forall|j: int| 0 <= j < i ==> self@[j] != *address,
            decreases self@.len() - i,
        {
            if self.exempt_addresses[i].same(address) {
                return true;
            }
            i = i + 1;
        }
        false
    }

    /// Adds `address` at the end, unless it is already in the list; fails when the list
    /// is full and `address` is new, leaving the list as it was.
    pub fn add_exempt(&mut self, address: Pubkey) -> (r: Result<(), TokenFactoryError>)
        requires
            old(self).wf(),
        ensures
            final(self).wf(),
            final(self).authority == old(self).authority,
            final(self).mint == old(self).mint,
            final(self).bump == old(self).bump,
            match added(old(self)@, address) {
                Ok(s) => r is Ok && final(self)@ == s,
                Err(e) => r == Err::<(), TokenFactoryError>(e) && final(self)@ == old(self)@,
            },
    {
        if self.is_exempt(&address) {
            return Ok(());
        }
        if self.exempt_addresses.len() >= MAX_EXEMPT_ADDRESSES {
            return Err(TokenFactoryError::ExemptListFull);
        }
        self.exempt_addresses.push(address);
        proof {
            assert forall|i: int, j: int|
                0 <= i < j < final(self)@.len() implies final(self)@[i] != final(self)@[j] by {
                if j == old(self)@.len() as int {
                    assert(old(self)@.contains(old(self)@[i]));
                } else {
                    assert(old(self)@[i] != old(self)@[j]);
                }
            }
        }
        Ok(())
    }

    /// Removes `address`, keeping the order of the others; fails when it is not in the
    /// list, leaving the list as it was.
    pub fn remove_exempt(&mut self, address: &Pubkey) -> (r: Result<(), TokenFactoryError>)
        requires
            old(self).wf(),
        ensures
            final(self).wf(),
            final(self).authority == old(self).authority,
            final(self).mint == old(self).mint,
            final(self).bump == old(self).bump,
            match removed(old(self)@, *address) {
                Ok(s) => r is Ok && final(self)@ == s,
                Err(e) => r == Err::<(), TokenFactoryError>(e) && final(self)@ == old(self)@,
            },
    {
        if !self.is_exempt(address) {
            return Err(TokenFactoryError::AddressNotExempt);
        }
        let ghost s = self@;
        let mut kept: Vec<Pubkey> = Vec::new();
        let mut i: usize = 0;
        while i < self.exempt_addresses.len()
            invariant
                self@ == s,
                0 <= i <= s.len(),
                kept@ == s.take(i as int).filter(other_than(*address)),
            decreases s.len() - i,
        {
            let a = self.exempt_addresses[i];
            proof {
                reveal(Seq::filter);
                assert(s.take(i + 1).drop_last() =~= s.take(i as int));
                assert(s.take(i + 1).last() == s[i as int]);
            }
            if !a.same(address) {
                kept.push(a);
            }
            i = i + 1;
        }
        proof {
            assert(s.take(s.len() as int) =~= s);
            lemma_filter_keeps_bound_and_uniqueness(s, *address);
        }
        self.exempt_addresses = kept;
        Ok(())
    }
}

/// Filtering out one address keeps the length bound and the uniqueness of a list.
pub proof fn lemma_filter_keeps_bound_and_uniqueness(s: Seq<Pubkey>, a: Pubkey)
    requires
        s.no_duplicates(),
    ensures
        s.filter(other_than(a)).len() <= s.len(),
        s.filter(other_than(a)).no_duplicates(),
    decreases s.len(),
{
    reveal(Seq::filter);
    s.lemma_filter_len(other_than(a));
    if s.len() > 0 {
        let rest = s.drop_last();
        assert forall|i: int, j: int| 0 <= i < j < rest.len() implies rest[i] != rest[j] by {
            assert(s[i] != s[j]);
        }
        lemma_filter_keeps_bound_and_uniqueness(rest, a);
        if rest.filter(other_than(a)).contains(s.last()) {
            rest.lemma_filter_contains_rev(other_than(a), s.last());
            let k = choose|k: int| 0 <= k < rest.len() && rest[k] == s.last();
            assert(s[k] == s[s.len() - 1]);
        }
    }
}

} // verus!
