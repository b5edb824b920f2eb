//! The in-memory word store.

use vstd::prelude::*;

use crate::random::random_index_below;
use crate::stores::distinct_words;
use crate::stores::Store;
use crate::stores::StoreError;

verus! {

/// Errors internal to the in-memory store. `WrongIndexGeneration` marks a
/// random index falling outside the key range; the verified implementation
/// proves this cannot happen, so the variant is never produced.
#[derive(Debug)]
pub enum HashmapStoreError {
    WrongIndexGeneration,
}

/// An in-memory word store. The word is both key and value, so a flat vector
/// of distinct words carries the whole map.
pub struct HashmapStore {
    words: Vec<String>,
}

impl HashmapStore {
    /// A store pre-populated with the fixed seed set of words.
    pub fn new() -> (r: Result<HashmapStore, HashmapStoreError>)
        ensures
            r matches Ok(s) && s.inv() && s.words() == seed_words(),
    {
        let mut words: Vec<String> = Vec::new();
        words.push(String::from_str("hello"));
        words.push(String::from_str("world"));
        words.push(String::from_str("how"));
        words.push(String::from_str("are"));
        words.push(String::from_str("you"));
        words.push(String::from_str("?"));
        proof {
            reveal_strlit("hello");
            reveal_strlit("world");
            reveal_strlit("how");
            reveal_strlit("are");
            reveal_strlit("you");
            reveal_strlit("?");
            assert(words.deep_view() =~= seed_words());
            assert forall|a: int, b: int|
                0 <= a < b < seed_words().len() implies seed_words()[a] != seed_words()[b] by {
                let s = seed_words();
                assert("hello"@.len() == 5 && "world"@.len() == 5 && "how"@.len() == 3
                    && "are"@.len() == 3 && "you"@.len() == 3 && "?"@.len() == 1);
                assert("hello"@[0] == 'h' && "world"@[0] == 'w' && "how"@[0] == 'h'
                    && "are"@[0] == 'a' && "you"@[0] == 'y');
                assert(s[0] != s[1] && s[0] != s[2] && s[0] != s[3] && s[0] != s[4]
                    && s[0] != s[5]);
                assert(s[1] != s[2] && s[1] != s[3] && s[1] != s[4] && s[1] != s[5]);
                assert(s[2] != s[3] && s[2] != s[4] && s[2] != s[5]);
                assert(s[3] != s[4] && s[3] != s[5]);
                assert(s[4] != s[5]);
            }
        }
        Ok(HashmapStore { words })
    }
}

/// The seed set a fresh store starts with.
pub open spec fn seed_words() -> Seq<Seq<char>> {
    seq!["hello"@, "world"@, "how"@, "are"@, "you"@, "?"@]
}

impl Store for HashmapStore {
    type E = HashmapStoreError;

    closed spec fn words(&self) -> Seq<Seq<char>> {
        self.words.deep_view()
    }

    open spec fn inv(&self) -> bool {
        distinct_words(self.words())
    }

    fn get_word(&self, word: String) -> (r: Result<String, StoreError<HashmapStoreError>>) {
        match self.index_of(&word) {
            Some(i) => {
                let w = self.words[i].clone();
                proof {
                    assert(self.words().contains(word@)) by {
                        assert(self.words()[i as int] == word@);
                    }
                }
                Ok(w)
            }
            None => Err(StoreError::NotFound(word)),
        }
    }

    fn get_random_word(&self) -> (r: Result<String, StoreError<HashmapStoreError>>) {
        if self.words.len() == 0 {
            return Err(StoreError::Empty);
        }
        let index = random_index_below(self.words.len());
        let w = self.words[index].clone();
        proof {
            assert(self.words().contains(w@)) by {
                assert(self.words()[index as int] == self.words@[index as int]@);
            }
        }
        Ok(w)
    }

    fn add_word(&mut self, word: String) -> (r: Result<(), StoreError<HashmapStoreError>>) {
        match self.index_of(&word) {
            Some(_) => Err(StoreError::AlreadyExists(word)),
            None => {
                self.words.push(word);
                proof {
                    assert(self.words() =~= old(self).words().push(word@));
                    assert forall|a: int, b: int|
                        0 <= a < b < self.words().len() implies
                        self.words()[a] != self.words()[b] by {
                        if b == old(self).words().len() {
                            assert(self.words()[a] == old(self).words()[a]);
                            assert(old(self).words()[a] != word@) by {
                                assert(!old(self).words().contains(word@));
                            }
                        }
                    }
                }
                Ok(())
            }
        }
    }

    fn remove_word(&mut self, word: String) -> (r: Result<(), StoreError<HashmapStoreError>>) {
        match self.index_of(&word) {
            Some(i) => {
                proof {
                    lemma_unique_index(old(self).words(), word@, i as int);
                }
                self.words.remove(i);
                proof {
                    assert(self.words() =~= old(self).words().remove(i as int));
                    lemma_distinct_remove(old(self).words(), i as int);
                }
                Ok(())
            }
            None => Err(StoreError::NotFound(word)),
        }
    }
}

/// In a duplicate-free sequence, an index holding `w` is the one `index_of`
/// picks.
proof fn lemma_unique_index(s: Seq<Seq<char>>, w: Seq<char>, i: int)
    requires
        0 <= i < s.len(),
        s[i] == w,
        distinct_words(s),
    ensures
        s.contains(w),
        s.index_of(w) == i,
{
    assert(s.contains(w)) by {
        assert(s[i] == w);
    }
    let k = s.index_of(w);
    assert(0 <= k < s.len() && s[k] == w);
    if k < i {
        assert(s[k] != s[i]);
    } else if i < k {
        assert(s[i] != s[k]);
    }
}

/// Removing an element from a duplicate-free sequence leaves it
/// duplicate-free.
proof fn lemma_distinct_remove(s: Seq<Seq<char>>, i: int)
    requires
        0 <= i < s.len(),
        distinct_words(s),
    ensures
        distinct_words(s.remove(i)),
{
    s.remove_ensures(i);
    assert forall|a: int, b: int|
        0 <= a < b < s.remove(i).len() implies s.remove(i)[a] != s.remove(i)[b] by {
        let a0: int = if a < i { a } else { a + 1 };
        let b0: int = if b < i { b } else { b + 1 };
        assert(s.remove(i)[a] == s[a0]);
        assert(s.remove(i)[b] == s[b0]);
        assert(s[a0] != s[b0]);
    }
}

impl HashmapStore {
    /// Where `word` sits in the vector, if it is present.
    fn index_of(&self, word: &String) -> (r: Option<usize>)
        ensures
            r matches Some(i) ==> i < self.words().len() && self.words()[i as int] == word@,
            r is None ==> !self.words().contains(word@),
    {
        let mut i: usize = 0;
        while i < self.words.len()
            invariant
                i <= self.words().len(),
                forall|j: int| 0 <= j < i ==> self.words()[j] != word@,
            decreases self.words().len() - i,
        {
            proof {
                assert(self.words()[i as int] == self.words@[i as int]@);
            }
            if self.words[i].eq(word) {
                return Some(i);
            }
            i += 1;
        }
        None
    }
}

} // verus!
