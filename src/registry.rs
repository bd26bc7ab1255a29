use vstd::prelude::*;

verus! {

/// The keys that threads of this process currently hold a local token for.
///
/// Before a participant contacts the store for a key it takes the key's local
/// token here, so two of its own threads never race each other at the store.
/// An entry lives exactly as long as its token is held.
pub struct LocalRegistry {
    held: Vec<String>,
    keys: Ghost<Set<Seq<char>>>,
}

impl View for LocalRegistry {
    type V = Set<Seq<char>>;

    closed spec fn view(&self) -> Set<Seq<char>> {
        self.keys@
    }
}

impl LocalRegistry {
    /// Each held key has one entry, and the entries are what the view holds.
    pub closed spec fn wf(&self) -> bool {
        &&& forall|i: int, j: int|
            0 <= i < j < self.held@.len() ==> #[trigger] self.held@[i]@ != #[trigger] self.held@[j]@
        &&& forall|i: int| 0 <= i < self.held@.len() ==> self.keys@.contains(#[trigger] self.held@[i]@)
        &&& forall|k: Seq<char>|
            #[trigger] self.keys@.contains(k) ==> exists|i: int|
                0 <= i < self.held@.len() && (#[trigger] self.held@[i])@ == k
    }

    /// A registry with no token held.
    pub fn new() -> (r: LocalRegistry)
        ensures
            r.wf(),
            r@ == Set::<Seq<char>>::empty(),
    {
        LocalRegistry { held: Vec::new(), keys: Ghost(Set::empty()) }
    }

    fn find(&self, key: &String) -> (r: Option<usize>)
        requires
            self.wf(),
        ensures
            match r {
                Some(i) => i < self.held@.len() && self.held@[i as int]@ == key@ && self@.contains(
                    key@,
                ),
                None => !self@.contains(key@),
            },
    {
        let mut i: usize = 0;
        while i < self.held.len()
            invariant
                self.wf(),
                i <= self.held@.len(),
                forall|j: int| 0 <= j < i ==> self.held@[j]@ != key@,
            decreases self.held@.len() - i,
        {
            if self.held[i] == *key {
                return Some(i);
            }
            i = i + 1;
        }
        None
    }

    /// Whether a thread of this process holds the token for `key`.
    pub fn is_held(&self, key: &String) -> (r: bool)
        requires
            self.wf(),
        ensures
            r == self@.contains(key@),
    {
        self.find(key).is_some()
    }

    /// Takes the token for `key` if no thread holds it, and says whether it
    /// did. The registry then holds `key` either way.
    pub fn try_lock(&mut self, key: &String) -> (r: bool)
        requires
            old(self).wf(),
        ensures
            final(self).wf(),
            r == !old(self)@.contains(key@),
            final(self)@ == old(self)@.insert(key@),
    {
        match self.find(key) {
            Some(_) => {
                assert(self@.insert(key@) =~= self@);
                false
            },
            None => {
                let ghost s = self.keys@;
                let ghost old_held = self.held@;
                self.held.push(key.clone());
                self.keys = Ghost(s.insert(key@));
                assert forall|k: Seq<char>| #[trigger] self.keys@.contains(k) implies exists|
                    i: int,
                |
                    0 <= i < self.held@.len() && (#[trigger] self.held@[i])@ == k by {
                    if k != key@ {
                        let i = choose|i: int|
                            0 <= i < old_held.len() && (#[trigger] old_held[i])@ == k;
                        assert(self.held@[i] == old_held[i]);
                    } else {
                        assert(self.held@[old_held.len() as int]@ == k);
                    }
                }
                true
            },
        }
    }

    /// Gives back the token for `key` and drops its entry.
    pub fn unlock(&mut self, key: &String)
        requires
            old(self).wf(),
        ensures
            final(self).wf(),
            final(self)@ == old(self)@.remove(key@),
    {
        match self.find(key) {
            Some(i) => {
                let ghost s = self.keys@;
                let ghost old_held = self.held@;
                self.held.remove(i);
                self.keys = Ghost(s.remove(key@));
                assert forall|j: int| 0 <= j < self.held@.len() implies self.keys@.contains(
                    #[trigger] self.held@[j]@,
                ) by {
                    if j < i {
                        assert(self.held@[j] == old_held[j]);
                    } else {
                        assert(self.held@[j] == old_held[j + 1]);
                    }
                }
                assert forall|k: Seq<char>| #[trigger] self.keys@.contains(k) implies exists|
                    j: int,
                |
                    0 <= j < self.held@.len() && (#[trigger] self.held@[j])@ == k by {
                    let j = choose|j: int|
                        0 <= j < old_held.len() && (#[trigger] old_held[j])@ == k;
                    assert(j != i);
                    if j < i {
                        assert(self.held@[j] == old_held[j]);
                    } else {
                        assert(self.held@[j - 1] == old_held[j]);
                    }
                }
            },
            None => {
                assert(self@.remove(key@) =~= self@);
            },
        }
    }
}

} // verus!
