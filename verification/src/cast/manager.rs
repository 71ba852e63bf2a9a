//! The list of cast libraries that the player has loaded, held in a slab and
//! numbered by their slab keys.

use crate::config::Platform;
use slab::Slab;
use vstd::prelude::*;

verus! {

#[verifier::external_type_specification]
#[verifier::external_body]
#[verifier::reject_recursive_types(T)]
pub struct ExSlab<T>(Slab<T>);

/// The number of a cast library in the player's list.
#[derive(Clone, Copy, Debug, PartialEq, Eq, Structural)]
pub struct GlobalLibNum(pub i16);

/// A cast library: where it comes from and whose it is.
#[derive(Debug)]
pub struct Cast {
    /// The path of the file the library was loaded from; empty for an
    /// internal library.
    pub own_path: Vec<u8>,
    /// The index of the library among the files embedded in a projector;
    /// -1 for none.
    pub embedded_file_index: i32,
    /// Whether the library is a file of its own.
    pub is_external_cast: bool,
    pub ref_count: i32,
    pub platform: Platform,
}

/// A cast library, as values.
pub struct CastView {
    pub own_path: Seq<u8>,
    pub embedded_file_index: i32,
    pub is_external_cast: bool,
    pub ref_count: i32,
    pub platform: Platform,
}

impl View for Cast {
    type V = CastView;

    open spec fn view(&self) -> CastView {
        CastView {
            own_path: self.own_path@,
            embedded_file_index: self.embedded_file_index,
            is_external_cast: self.is_external_cast,
            ref_count: self.ref_count,
            platform: self.platform,
        }
    }
}

/// A new, empty cast library for the given platform.
pub open spec fn spec_new_cast(platform: Platform) -> CastView {
    CastView { own_path: Seq::empty(), embedded_file_index: -1i32, is_external_cast: false, ref_count: 1i32, platform }
}

impl Cast {
    /// A new, empty cast library for the given platform.
    pub fn new(platform: Platform) -> (r: Cast)
        ensures
            r@ == spec_new_cast(platform),
    {
        Cast { own_path: Vec::new(), embedded_file_index: -1, is_external_cast: false, ref_count: 1, platform }
    }
}

/// The cast libraries that a slab holds, by key.
pub uninterp spec fn slab_casts(s: Slab<Cast>) -> Map<usize, CastView>;

/// The number of entries of a slab, occupied or vacant: one more than the
/// highest key it has ever given out, or 0.
pub uninterp spec fn slab_entries(s: Slab<Cast>) -> nat;

/// `Slab::with_capacity` of slab 0.4: a slab with no entries, and so no
/// values.
#[verifier::external_body]
fn slab_with_capacity(capacity: usize) -> (slab: Slab<Cast>)
    ensures
        slab_casts(slab).dom().is_empty(),
        slab_entries(slab) == 0,
{
    Slab::with_capacity(capacity)
}

/// `Slab::insert` of slab 0.4: stores the value under a key that held no
/// value and gives the key. The slab's source takes the key from its list
/// of vacant entries (the entry freed last), and appends a new entry when
/// that list is empty: so when every entry is occupied, the key is the
/// number of entries, and the number grows by one. Keys always lie below
/// the number of entries. Which vacant entry is taken otherwise is left
/// unsaid.
#[verifier::external_body]
fn slab_insert(s: &mut Slab<Cast>, cast: Cast) -> (r: usize)
    ensures
        !slab_casts(*old(s)).dom().contains(r),
        slab_casts(*final(s)) == slab_casts(*old(s)).insert(r, cast@),
        slab_casts(*old(s)).dom().finite() ==> slab_casts(*final(s)).dom().finite(),
        forall|k: usize| #[trigger] slab_casts(*final(s)).dom().contains(k) ==> (k as int) < slab_entries(*final(s)),
        (forall|k: usize| (k as int) < slab_entries(*old(s)) ==> #[trigger] slab_casts(*old(s)).dom().contains(k))
            ==> r == slab_entries(*old(s)) && slab_entries(*final(s)) == slab_entries(*old(s)) + 1,
{
    s.insert(cast)
}

/// `Slab::get` of slab 0.4: the value stored under `key`, if any.
#[verifier::external_body]
fn slab_get(s: &Slab<Cast>, key: usize) -> (r: Option<&Cast>)
    ensures
        match r {
            Some(cast) => slab_casts(*s).dom().contains(key) && cast@ == slab_casts(*s)[key],
            None => !slab_casts(*s).dom().contains(key),
        },
{
    s.get(key)
}

/// What the search for a library compares: its key, its embedded file
/// index and its path.
pub struct CastKey {
    pub key: usize,
    pub embedded_file_index: i32,
    pub own_path: Vec<u8>,
}

/// `Slab::iter` of slab 0.4, each value mapped to its key, embedded file
/// index and path: the slab's source walks its entries by increasing key
/// and yields the occupied ones.
#[verifier::external_body]
fn slab_keys(s: &Slab<Cast>) -> (r: Vec<CastKey>)
    ensures
        forall|i: int| 0 <= i < r@.len() ==> {
            &&& slab_casts(*s).dom().contains(#[trigger] r@[i].key)
            &&& r@[i].embedded_file_index == slab_casts(*s)[r@[i].key].embedded_file_index
            &&& r@[i].own_path@ == slab_casts(*s)[r@[i].key].own_path
        },
        forall|i: int, j: int| 0 <= i < j < r@.len() ==> r@[i].key < r@[j].key,
        forall|k: usize| #[trigger] slab_casts(*s).dom().contains(k) ==> exists|i: int| 0 <= i < r@.len() && r@[i].key == k,
{
    s.iter().map(|(key, cast)| CastKey { key, embedded_file_index: cast.embedded_file_index, own_path: cast.own_path.clone() }).collect()
}

/// How a shared cast library is named: by its path, by its index among the
/// files embedded in a projector, or by both.
#[derive(Clone, Debug)]
pub enum SharedCastId {
    Path(Vec<u8>),
    Index(i32),
    PathAndIndex(Vec<u8>, i32),
}

/// Whether the library with the given index and path is the one `id` names:
/// by path for a path alone, by index otherwise.
pub open spec fn cast_matches(id: SharedCastId, embedded_file_index: i32, own_path: Seq<u8>) -> bool {
    match id {
        SharedCastId::Path(path) => own_path == path@,
        SharedCastId::Index(index) => embedded_file_index == index,
        SharedCastId::PathAndIndex(_, index) => embedded_file_index == index,
    }
}

/// The library that a new entry for `id` holds.
pub open spec fn spec_cast_for(id: SharedCastId, platform: Platform) -> CastView {
    match id {
        SharedCastId::Index(index) => CastView { embedded_file_index: index, ..spec_new_cast(platform) },
        SharedCastId::Path(path) => CastView { own_path: path@, is_external_cast: true, ..spec_new_cast(platform) },
        SharedCastId::PathAndIndex(path, index) => CastView {
            own_path: path@,
            embedded_file_index: index,
            is_external_cast: true,
            ..spec_new_cast(platform)
        },
    }
}

/// What looking a library up by `id`, and adding it where it is missing,
/// gives and leaves: the lowest-numbered library that `id` names, the list
/// unchanged; or, where none does, a new library numbered after the others.
pub open spec fn get_or_insert_post(
    before: Map<usize, CastView>,
    platform: Platform,
    id: SharedCastId,
    r: GlobalLibNum,
    after: Map<usize, CastView>,
) -> bool {
    if 0 <= r.0 && before.dom().contains(r.0 as usize) {
        &&& after == before
        &&& cast_matches(id, before[r.0 as usize].embedded_file_index, before[r.0 as usize].own_path)
        &&& forall|k: usize| (k as int) < r.0 && #[trigger] before.dom().contains(k)
            ==> !cast_matches(id, before[k].embedded_file_index, before[k].own_path)
    } else {
        &&& r.0 == before.len()
        &&& forall|k: usize| #[trigger] before.dom().contains(k) ==> !cast_matches(id, before[k].embedded_file_index, before[k].own_path)
        &&& after == before.insert(r.0 as usize, spec_cast_for(id, platform))
    }
}

/// Looking the same library up twice gives the same number, and the second
/// lookup adds nothing.
pub proof fn lemma_get_or_insert_twice(
    first: Map<usize, CastView>,
    second: Map<usize, CastView>,
    third: Map<usize, CastView>,
    platform: Platform,
    id: SharedCastId,
    r1: GlobalLibNum,
    r2: GlobalLibNum,
)
    requires
        first.dom().finite(),
        forall|k: usize| #[trigger] first.dom().contains(k) <==> (k as int) < first.len(),
        get_or_insert_post(first, platform, id, r1, second),
        get_or_insert_post(second, platform, id, r2, third),
    ensures
        r2 == r1,
        third == second,
{
    if 0 <= r1.0 && first.dom().contains(r1.0 as usize) {
        if !(0 <= r2.0 && second.dom().contains(r2.0 as usize)) {
            assert(second.dom().contains(r1.0 as usize));
        } else if r2.0 < r1.0 {
            assert(first.dom().contains(r2.0 as usize));
        } else if r1.0 < r2.0 {
            assert(second.dom().contains(r1.0 as usize));
        }
    } else {
        let k1 = r1.0 as usize;
        assert(second.dom().contains(k1));
        assert(cast_matches(id, second[k1].embedded_file_index, second[k1].own_path));
        if !(0 <= r2.0 && second.dom().contains(r2.0 as usize)) {
        } else if r2.0 < r1.0 {
            assert(first.dom().contains(r2.0 as usize));
            assert(second[r2.0 as usize] == first[r2.0 as usize]);
        } else if r1.0 < r2.0 {
        }
    }
}

/// Whether two byte strings are equal.
fn same_bytes(a: &Vec<u8>, b: &Vec<u8>) -> (r: bool)
    ensures
        r == (a@ == b@),
{
    if a.len() != b.len() {
        return false;
    }
    let mut i: usize = 0;
    while i < a.len()
        invariant
            i <= a@.len() == b@.len(),
            forall|k: int| 0 <= k < i ==> a@[k] == b@[k],
        decreases a@.len() - i,
    {
        if a[i] != b[i] {
            return false;
        }
        i = i + 1;
    }
    assert(a@ =~= b@);
    true
}

/// The list of loaded cast libraries.
pub struct Manager {
    casts: Slab<Cast>,
    platform: Platform,
}

impl Manager {
    /// The libraries, by number.
    pub closed spec fn casts(&self) -> Map<usize, CastView> {
        slab_casts(self.casts)
    }

    /// The platform of new libraries.
    pub closed spec fn platform(&self) -> Platform {
        self.platform
    }

    /// The libraries are numbered from zero with no gaps, and the slab has
    /// no vacant entry.
    #[verifier::type_invariant]
    spec fn dense(&self) -> bool {
        &&& slab_casts(self.casts).dom().finite()
        &&& forall|k: usize| #[trigger] slab_casts(self.casts).dom().contains(k) <==> (k as int) < slab_casts(self.casts).len()
        &&& slab_entries(self.casts) == slab_casts(self.casts).len()
    }

    /// The number of libraries.
    pub open spec fn count(&self) -> nat {
        self.casts().len()
    }

    /// An empty list.
    pub fn new(platform: Platform) -> (r: Manager)
        ensures
            r.casts() == Map::<usize, CastView>::empty(),
            r.platform() == platform,
    {
        let casts = slab_with_capacity(1);
        assert(slab_casts(casts).dom() =~= Set::<usize>::empty());
        Manager { casts, platform }
    }

    /// The library numbered `index`.
    pub fn get(&self, index: GlobalLibNum) -> (r: Option<&Cast>)
        requires
            index.0 >= 0,
        ensures
            match r {
                Some(cast) => self.casts().dom().contains(index.0 as usize) && cast@ == self.casts()[index.0 as usize],
                None => !self.casts().dom().contains(index.0 as usize),
            },
    {
        slab_get(&self.casts, index.0 as usize)
    }

    /// The lowest-numbered library that `id` names, if any.
    pub fn get_index(&self, id: &SharedCastId) -> (r: Option<GlobalLibNum>)
        requires
            self.count() <= i16::MAX + 1,
        ensures
            match r {
                Some(n) => 0 <= n.0 && self.casts().dom().contains(n.0 as usize)
                    && cast_matches(*id, self.casts()[n.0 as usize].embedded_file_index, self.casts()[n.0 as usize].own_path)
                    && forall|k: usize| (k as int) < n.0 && #[trigger] self.casts().dom().contains(k)
                        ==> !cast_matches(*id, self.casts()[k].embedded_file_index, self.casts()[k].own_path),
                None => forall|k: usize| #[trigger] self.casts().dom().contains(k)
                    ==> !cast_matches(*id, self.casts()[k].embedded_file_index, self.casts()[k].own_path),
            },
    {
        proof { use_type_invariant(self); }
        let keys = slab_keys(&self.casts);
        let mut i: usize = 0;
        while i < keys.len()
            invariant
                i <= keys@.len(),
                forall|j: int| 0 <= j < i ==> !cast_matches(*id, keys@[j].embedded_file_index, keys@[j].own_path@),
                forall|j: int| 0 <= j < keys@.len() ==> {
                    &&& slab_casts(self.casts).dom().contains(#[trigger] keys@[j].key)
                    &&& keys@[j].embedded_file_index == slab_casts(self.casts)[keys@[j].key].embedded_file_index
                    &&& keys@[j].own_path@ == slab_casts(self.casts)[keys@[j].key].own_path
                },
                forall|a: int, b: int| 0 <= a < b < keys@.len() ==> keys@[a].key < keys@[b].key,
                forall|k: usize| #[trigger] slab_casts(self.casts).dom().contains(k) ==> exists|j: int| 0 <= j < keys@.len() && keys@[j].key == k,
                forall|k: usize| #[trigger] slab_casts(self.casts).dom().contains(k) <==> (k as int) < slab_casts(self.casts).len(),
                slab_casts(self.casts).len() <= i16::MAX + 1,
            decreases keys@.len() - i,
        {
            let found = match id {
                SharedCastId::Path(path) => same_bytes(&keys[i].own_path, path),
                SharedCastId::Index(index) => keys[i].embedded_file_index == *index,
                SharedCastId::PathAndIndex(_, index) => keys[i].embedded_file_index == *index,
            };
            if found {
                let key = keys[i].key;
                assert((key as int) < slab_casts(self.casts).len());
                proof {
                    assert forall|k: usize| (k as int) < key && #[trigger] self.casts().dom().contains(k)
                        implies !cast_matches(*id, self.casts()[k].embedded_file_index, self.casts()[k].own_path) by {
                        let j = choose|j: int| 0 <= j < keys@.len() && keys@[j].key == k;
                        if j >= i {
                            assert(keys@[i as int].key <= keys@[j].key);
                        }
                    }
                }
                return Some(GlobalLibNum(key as i16));
            }
            i = i + 1;
        }
        proof {
            assert forall|k: usize| #[trigger] self.casts().dom().contains(k)
                implies !cast_matches(*id, self.casts()[k].embedded_file_index, self.casts()[k].own_path) by {
                let j = choose|j: int| 0 <= j < keys@.len() && keys@[j].key == k;
            }
        }
        None
    }

    /// Adds a new, empty library, numbered after the others.
    pub fn insert_new(&mut self) -> (r: GlobalLibNum)
        requires
            old(self).count() <= i16::MAX,
        ensures
            r.0 == old(self).count(),
            final(self).casts() == old(self).casts().insert(r.0 as usize, spec_new_cast(old(self).platform())),
            final(self).platform() == old(self).platform(),
    {
        proof { use_type_invariant(&*self); }
        let cast = Cast::new(self.platform);
        self.insert_cast(cast)
    }

    fn insert_cast(&mut self, cast: Cast) -> (r: GlobalLibNum)
        requires
            old(self).count() <= i16::MAX,
        ensures
            r.0 == old(self).count(),
            final(self).casts() == old(self).casts().insert(r.0 as usize, cast@),
            final(self).platform() == old(self).platform(),
    {
        proof { use_type_invariant(&*self); }
        let mut casts = slab_with_capacity(0);
        std::mem::swap(&mut casts, &mut self.casts);
        let ghost before = slab_casts(casts);
        let key = slab_insert(&mut casts, cast);
        proof {
            let after = slab_casts(casts);
            assert(after.dom() =~= before.dom().insert(key));
            assert forall|k: usize| #[trigger] after.dom().contains(k) <==> (k as int) < after.len() by {
                if (k as int) < after.len() {
                    if k != key {
                        assert((k as int) < before.len());
                    }
                }
            }
        }
        self.casts = casts;
        GlobalLibNum(key as i16)
    }

    /// The number of the lowest-numbered library that `id` names, adding a
    /// new library for it, numbered after the others, if there is none.
    pub fn get_or_insert_index(&mut self, id: &SharedCastId) -> (r: GlobalLibNum)
        requires
            old(self).count() <= i16::MAX,
        ensures
            final(self).platform() == old(self).platform(),
            get_or_insert_post(old(self).casts(), old(self).platform(), *id, r, final(self).casts()),
    {
        proof { use_type_invariant(&*self); }
        if let Some(n) = self.get_index(id) {
            return n;
        }
        let mut cast = Cast::new(self.platform);
        match id {
            SharedCastId::Index(index) => {
                cast.embedded_file_index = *index;
            },
            SharedCastId::Path(path) => {
                cast.own_path = path.clone();
                cast.is_external_cast = true;
            },
            SharedCastId::PathAndIndex(path, index) => {
                cast.own_path = path.clone();
                cast.embedded_file_index = *index;
                cast.is_external_cast = true;
            },
        }
        assert(cast@ == spec_cast_for(*id, self.platform));
        let r = self.insert_cast(cast);
        assert(!old(self).casts().dom().contains(r.0 as usize));
        r
    }
}

} // verus!
