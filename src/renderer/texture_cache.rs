//! Which textures have been uploaded, by name.
use vstd::prelude::*;

verus! {

/// The outcome of looking a texture up: the slot it already has, or the slot it must
/// be uploaded into (the next free one).
#[derive(Debug, Clone, Copy, PartialEq, Eq, Structural)]
pub enum TextureLookup {
    Cached(usize),
    Upload(usize),
}

/// The names of the uploaded textures, in upload order; a texture's slot is the index
/// of its name. Entries are never evicted, and no name appears twice.
pub struct TextureCache {
    names: Vec<String>,
}

/// The slot lookup that a cache holding `names` gives for `key`.
pub open spec fn lookup_in(names: Seq<Seq<char>>, key: Seq<char>) -> TextureLookup {
    if names.contains(key) {
        TextureLookup::Cached(names.index_of(key) as usize)
    } else {
        TextureLookup::Upload(names.len() as usize)
    }
}

/// The names a cache holding `names` holds once `key` has been looked up.
pub open spec fn inserted(names: Seq<Seq<char>>, key: Seq<char>) -> Seq<Seq<char>> {
    if names.contains(key) {
        names
    } else {
        names.push(key)
    }
}

impl TextureCache {
    /// The cached names, in upload order.
    pub closed spec fn view(&self) -> Seq<Seq<char>> {
        self.names@.map_values(|s: String| s@)
    }

    /// No name is cached twice.
    pub open spec fn wf(&self) -> bool {
        self.view().no_duplicates()
    }

    pub fn new() -> (r: Self)
        ensures
            r.view() == Seq::<Seq<char>>::empty(),
            r.wf(),
    {
        let r = TextureCache { names: Vec::new() };
        assert(r.view() =~= Seq::<Seq<char>>::empty());
        r
    }

    /// The number of cached textures.
    pub fn len(&self) -> (r: usize)
        ensures
            r == self.view().len(),
    {
        self.names.len()
    }

    /// The slot of the texture named `name`, if it is cached.
    pub fn slot_of(&self, name: &String) -> (r: Option<usize>)
        requires
            self.wf(),
        ensures
            match r {
                Some(i) => self.view().contains(name@) && i == self.view().index_of(name@),
                None => !self.view().contains(name@),
            },
    {
        let mut i: usize = 0;
        while i < self.names.len()
            invariant
                i <= self.names@.len(),
                self.wf(),
                self.view().len() == self.names@.len(),
                forall|j: int| 0 <= j < i ==> self.view()[j] != name@,
            decreases self.names@.len() - i,
        {
            if self.names[i] == *name {
                proof {
                    let names = self.view();
                    assert(names[i as int] == name@);
                    assert(names.contains(name@));
                    let k = names.index_of(name@);
                    assert(0 <= k < names.len() && names[k] == name@);
                    assert(k == i);
                }
                return Some(i);
            }
            i = i + 1;
        }
        None
    }

    /// Looks up the texture named `name`, and records it as uploaded when it is not
    /// cached yet.
    pub fn get_or_insert(&mut self, name: &String) -> (r: TextureLookup)
        requires
            old(self).wf(),
            old(self).view().len() < usize::MAX,
        ensures
            r == lookup_in(old(self).view(), name@),
            final(self).view() == inserted(old(self).view(), name@),
            final(self).wf(),
    {
        match self.slot_of(name) {
            Some(i) => TextureLookup::Cached(i),
            None => {
                let slot = self.names.len();
                self.names.push(name.clone());
                assert(self.view() =~= old(self).view().push(name@));
                TextureLookup::Upload(slot)
            },
        }
    }
}

} // verus!
