//! The word store interface: a set of words with lookup, insertion, removal
//! and uniform random selection.

use vstd::prelude::*;

pub mod hashmap;

verus! {

/// Errors surfaced by a word store. `E` is the store's own internal error
/// type, folded into `InternalStoreError`.
#[derive(Debug)]
pub enum StoreError<E> {
    NotFound(String),
    AlreadyExists(String),
    Empty,
    InternalStoreError(E),
}

/// No word occurs twice in the sequence.
pub open spec fn distinct_words(s: Seq<Seq<char>>) -> bool {
    forall|i: int, j: int| 0 <= i < j < s.len() ==> s[i] != s[j]
}

/// A word just added is found: a word sequence extended with `w` contains
/// `w`. Together with the lookup contract this says that after `add_word(w)`
/// succeeds, `get_word(w)` returns `w`.
pub proof fn lemma_added_word_is_found(before: Seq<Seq<char>>, w: Seq<char>)
    ensures
        before.push(w).contains(w),
{
    assert(before.push(w)[before.len() as int] == w);
}

/// A word just removed is gone: removing `w` from a duplicate-free word
/// sequence leaves a sequence that does not contain `w`. Together with the
/// lookup contract this says that after `remove_word(w)` succeeds,
/// `get_word(w)` fails with `NotFound`.
pub proof fn lemma_removed_word_is_gone(before: Seq<Seq<char>>, w: Seq<char>)
    requires
        distinct_words(before),
        before.contains(w),
    ensures
        !before.remove(before.index_of(w)).contains(w),
{
    let i = before.index_of(w);
    assert(0 <= i < before.len() && before[i] == w);
    before.remove_ensures(i);
    let after = before.remove(i);
    assert forall|k: int| 0 <= k < after.len() implies after[k] != w by {
        if k < i {
            assert(after[k] == before[k]);
        } else {
            assert(after[k] == before[k + 1]);
        }
    }
}

/// A store of words. The words it holds are modelled as the sequence of their
/// character views, `words()`, with `inv()` saying the sequence holds no
/// duplicates: a word is present at most once.
pub trait Store: Sized {
    type E;

    /// The words currently held, in some enumeration order.
    spec fn words(&self) -> Seq<Seq<char>>;

    /// Well-formedness: no word occurs twice.
    spec fn inv(&self) -> bool;

    /// Look a word up; fails with `NotFound` exactly when it is absent.
    fn get_word(&self, word: String) -> (r: Result<String, StoreError<Self::E>>)
        requires
            self.inv(),
        ensures
            self.words().contains(word@) ==> (r matches Ok(w) && w@ == word@),
            !self.words().contains(word@) ==> (r matches Err(e)
                && e matches StoreError::NotFound(w) && w@ == word@),
    ;

    /// Pick one of the held words; fails with `Empty` exactly when none is held.
    fn get_random_word(&self) -> (r: Result<String, StoreError<Self::E>>)
        requires
            self.inv(),
        ensures
            self.words().len() == 0 ==> (r matches Err(e) && e is Empty),
            self.words().len() > 0 ==> (r matches Ok(w) && self.words().contains(w@)),
    ;

    /// Insert a word; fails with `AlreadyExists` exactly when it is present,
    /// leaving the store unchanged.
    fn add_word(&mut self, word: String) -> (r: Result<(), StoreError<Self::E>>)
        requires
            old(self).inv(),
        ensures
            final(self).inv(),
            old(self).words().contains(word@) ==> (r matches Err(e)
                && e matches StoreError::AlreadyExists(w) && w@ == word@
                && final(self).words() == old(self).words()),
            !old(self).words().contains(word@) ==> (r is Ok
                && final(self).words() == old(self).words().push(word@)),
    ;

    /// Remove a word; fails with `NotFound` exactly when it is absent,
    /// leaving the store unchanged.
    fn remove_word(&mut self, word: String) -> (r: Result<(), StoreError<Self::E>>)
        requires
            old(self).inv(),
        ensures
            final(self).inv(),
            !old(self).words().contains(word@) ==> (r matches Err(e)
                && e matches StoreError::NotFound(w) && w@ == word@
                && final(self).words() == old(self).words()),
            old(self).words().contains(word@) ==> (r is Ok
                && final(self).words()
                    == old(self).words().remove(old(self).words().index_of(word@))),
    ;
}

} // verus!
