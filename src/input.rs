use vstd::prelude::*;
use crate::offset::Key;

verus! {

/// The keys currently held down, each once, in the order they were pressed.
pub struct HeldKeys {
    keys: Vec<Key>,
}

impl View for HeldKeys {
    type V = Seq<Key>;

    closed spec fn view(&self) -> Seq<Key> {
        self.keys@
    }
}

/// First index of `key` in `keys`, if it is there.
fn position(keys: &Vec<Key>, key: Key) -> (r: Option<usize>)
    ensures
        match r {
            Some(i) => i < keys@.len() && keys@[i as int] == key && forall|j: int|
                0 <= j < i ==> keys@[j] != key,
            None => !keys@.contains(key),
        },
{
    let mut i: usize = 0;
    while i < keys.len()
        invariant
            i <= keys.len(),
            forall|j: int| 0 <= j < i ==> keys@[j] != key,
        decreases keys.len() - i,
    {
        if keys[i] == key {
            return Some(i);
        }
        i = i + 1;
    }
    None
}

impl HeldKeys {
    /// No key is held twice.
    #[verifier::type_invariant]
    spec fn no_key_twice(&self) -> bool {
        self.keys@.no_duplicates()
    }

    /// Nothing held.
    pub fn new() -> (r: HeldKeys)
        ensures
            r@ == Seq::<Key>::empty(),
    {
        HeldKeys { keys: Vec::new() }
    }

    /// The held keys, in the order they were pressed.
    pub fn keys(&self) -> (r: &Vec<Key>)
        ensures
            r@ == self@,
    {
        &self.keys
    }

    /// Records that `key` went down: it joins the end of the list unless it is
    /// already there.
    pub fn press(&mut self, key: Key)
        ensures
            final(self)@.no_duplicates(),
            old(self)@.contains(key) ==> final(self)@ == old(self)@,
            !old(self)@.contains(key) ==> final(self)@ == old(self)@.push(key),
    {
        proof {
            use_type_invariant(&*self);
        }
        if position(&self.keys, key).is_none() {
            let mut keys: Vec<Key> = Vec::new();
            std::mem::swap(&mut self.keys, &mut keys);
            keys.push(key);
            proof {
                assert(keys@ == old(self)@.push(key));
                assert forall|i: int, j: int|
                    0 <= i < keys@.len() && 0 <= j < keys@.len() && i != j implies keys@[i]
                    != keys@[j] by {
                    if i == keys@.len() - 1 {
                        assert(old(self)@.contains(keys@[j]));
                    } else if j == keys@.len() - 1 {
                        assert(old(self)@.contains(keys@[i]));
                    }
                }
            }
            self.keys = keys;
        }
    }

    /// Records that `key` went up: it leaves the list, and the others keep
    /// their order.
    pub fn release(&mut self, key: Key)
        ensures
            final(self)@.no_duplicates(),
            !final(self)@.contains(key),
            !old(self)@.contains(key) ==> final(self)@ == old(self)@,
            old(self)@.contains(key) ==> exists|i: int|
                0 <= i < old(self)@.len() && old(self)@[i] == key && final(self)@ == old(
                    self,
                )@.remove(i),
    {
        proof {
            use_type_invariant(&*self);
        }
        match position(&self.keys, key) {
            Some(i) => {
                let mut keys: Vec<Key> = Vec::new();
                std::mem::swap(&mut self.keys, &mut keys);
                keys.remove(i);
                proof {
                    assert(keys@ == old(self)@.remove(i as int));
                    assert forall|a: int, b: int|
                        0 <= a < keys@.len() && 0 <= b < keys@.len() && a != b implies keys@[a]
                        != keys@[b] by {
                        let oa = if a < i { a } else { a + 1 };
                        let ob = if b < i { b } else { b + 1 };
                        assert(keys@[a] == old(self)@[oa]);
                        assert(keys@[b] == old(self)@[ob]);
                    }
                    if keys@.contains(key) {
                        let k = choose|k: int| 0 <= k < keys@.len() && keys@[k] == key;
                        let ok = if k < i { k } else { k + 1 };
                        assert(old(self)@[ok] == key);
                    }
                }
                self.keys = keys;
            },
            None => {},
        }
    }
}

} // verus!
