//! The resources of a Macintosh resource fork, as the detection of Mac
//! projectors and movies reads them.

use crate::bytes::{be_u16_at, read_be_u16};
use crate::collections::riff::ResourceId;
use crate::config::OsType;
use vstd::prelude::*;

verus! {

/// A resource: its ID, its name if it has one, and its data.
#[derive(Clone, Debug)]
pub struct Resource {
    pub id: ResourceId,
    pub name: Option<Vec<u8>>,
    pub data: Vec<u8>,
}

/// A resource, as values.
pub struct ResourceView {
    pub id: ResourceId,
    pub name: Option<Seq<u8>>,
    pub data: Seq<u8>,
}

impl View for Resource {
    type V = ResourceView;

    open spec fn view(&self) -> ResourceView {
        ResourceView {
            id: self.id,
            name: match self.name {
                Some(n) => Some(n@),
                None => None,
            },
            data: self.data@,
        }
    }
}

/// The resources of a resource fork, the name of the file, and the bytes of
/// the fork from where it was opened.
#[derive(Clone, Debug)]
pub struct ResourceFork {
    pub resources: Vec<Resource>,
    pub name: Option<Vec<u8>>,
    pub bytes: Vec<u8>,
}

/// The views of a list of resources.
pub open spec fn resources_view(resources: Seq<Resource>) -> Seq<ResourceView> {
    Seq::new(resources.len(), |i: int| resources[i]@)
}

/// The data of the first resource with the given ID.
pub open spec fn spec_find(resources: Seq<ResourceView>, id: ResourceId) -> Option<Seq<u8>>
    decreases resources.len(),
{
    if resources.len() == 0 {
        None
    } else if resources[0].id == id {
        Some(resources[0].data)
    } else {
        spec_find(resources.drop_first(), id)
    }
}

/// The number of resources of the given type.
pub open spec fn spec_count(resources: Seq<ResourceView>, os_type: OsType) -> nat
    decreases resources.len(),
{
    if resources.len() == 0 {
        0
    } else {
        (if resources[0].id.os_type == os_type { 1nat } else { 0nat }) + spec_count(resources.drop_first(), os_type)
    }
}

/// The ID of the first resource of the given type with the given name.
pub open spec fn spec_id_of_name(resources: Seq<ResourceView>, os_type: OsType, name: Seq<u8>) -> Option<i16>
    decreases resources.len(),
{
    if resources.len() == 0 {
        None
    } else if resources[0].id.os_type == os_type && resources[0].name == Some(name) {
        Some(resources[0].id.id)
    } else {
        spec_id_of_name(resources.drop_first(), os_type, name)
    }
}

/// Whether two byte strings are equal.
fn bytes_eq(a: &[u8], b: &[u8]) -> (r: bool)
    ensures
        r == (a@ == b@),
{
    if a.len() != b.len() {
        return false;
    }
    let mut i: usize = 0;
    while i < a.len()
        invariant
            i <= a@.len() == b@.len(),
            forall|k: int| 0 <= k < i ==> a@[k] == b@[k],
        decreases a@.len() - i,
    {
        if a[i] != b[i] {
            return false;
        }
        i = i + 1;
    }
    assert(a@ =~= b@);
    true
}

impl ResourceFork {
    /// The resources, as values.
    pub open spec fn resources_view(&self) -> Seq<ResourceView> {
        resources_view(self.resources@)
    }

    /// The data of the first resource with the given ID.
    pub fn find(&self, id: ResourceId) -> (r: Option<&Vec<u8>>)
        ensures
            match (r, spec_find(self.resources_view(), id)) {
                (Some(data), Some(v)) => data@ == v,
                (None, None) => true,
                _ => false,
            },
    {
        let mut i: usize = 0;
        assert(self.resources_view().subrange(0, self.resources@.len() as int) =~= self.resources_view());
        while i < self.resources.len()
            invariant
                i <= self.resources@.len(),
                spec_find(self.resources_view(), id) == spec_find(self.resources_view().subrange(i as int, self.resources@.len() as int), id),
            decreases self.resources@.len() - i,
        {
            let ghost rest = self.resources_view().subrange(i as int, self.resources@.len() as int);
            assert(rest[0] == self.resources@[i as int]@);
            if self.resources[i].id == id {
                return Some(&self.resources[i].data);
            }
            assert(rest.drop_first() =~= self.resources_view().subrange(i + 1, self.resources@.len() as int));
            i = i + 1;
        }
        None
    }

    /// Whether there is a resource with the given ID.
    pub fn contains(&self, id: ResourceId) -> (r: bool)
        ensures
            r == (spec_find(self.resources_view(), id) is Some),
    {
        self.find(id).is_some()
    }

    /// The number of resources of the given type.
    pub fn count(&self, os_type: OsType) -> (r: usize)
        ensures
            r == spec_count(self.resources_view(), os_type),
    {
        let mut i: usize = self.resources.len();
        let mut n: usize = 0;
        assert(self.resources_view().subrange(0, self.resources@.len() as int) =~= self.resources_view());
        while i > 0
            invariant
                i <= self.resources@.len(),
                n <= self.resources@.len() - i,
                n + spec_count(self.resources_view().subrange(0, i as int), os_type) == spec_count(self.resources_view(), os_type),
            decreases i,
        {
            let ghost all = self.resources_view();
            let ghost prefix = all.subrange(0, i as int);
            let ghost shorter = all.subrange(0, i - 1);
            proof { lemma_count_last(prefix, os_type); }
            assert(prefix.drop_last() =~= shorter);
            assert(prefix.last() == self.resources@[i - 1]@);
            assert(n + 1 <= self.resources.len());
            if self.resources[i - 1].id.os_type == os_type {
                n = n + 1;
            }
            i = i - 1;
        }
        assert(self.resources_view().subrange(0, 0) =~= Seq::<ResourceView>::empty());
        n
    }

    /// The ID of the first resource of the given type with the given name.
    pub fn id_of_name(&self, os_type: OsType, name: &[u8]) -> (r: Option<i16>)
        ensures
            r == spec_id_of_name(self.resources_view(), os_type, name@),
    {
        let mut i: usize = 0;
        assert(self.resources_view().subrange(0, self.resources@.len() as int) =~= self.resources_view());
        while i < self.resources.len()
            invariant
                i <= self.resources@.len(),
                spec_id_of_name(self.resources_view(), os_type, name@)
                    == spec_id_of_name(self.resources_view().subrange(i as int, self.resources@.len() as int), os_type, name@),
            decreases self.resources@.len() - i,
        {
            let ghost rest = self.resources_view().subrange(i as int, self.resources@.len() as int);
            assert(rest[0] == self.resources@[i as int]@);
            let matches = match &self.resources[i].name {
                Some(n) => bytes_eq(n.as_slice(), name),
                None => false,
            };
            if self.resources[i].id.os_type == os_type && matches {
                return Some(self.resources[i].id.id);
            }
            assert(rest.drop_first() =~= self.resources_view().subrange(i + 1, self.resources@.len() as int));
            i = i + 1;
        }
        None
    }
}

/// Counting the resources of a type, taking the last one off.
pub proof fn lemma_count_last(resources: Seq<ResourceView>, os_type: OsType)
    requires
        resources.len() > 0,
    ensures
        spec_count(resources, os_type) == spec_count(resources.drop_last(), os_type)
            + (if resources.last().id.os_type == os_type { 1nat } else { 0nat }),
    decreases resources.len(),
{
    reveal_with_fuel(spec_count, 2);
    if resources.len() > 1 {
        lemma_count_last(resources.drop_first(), os_type);
        assert(resources.drop_first().drop_last() =~= resources.drop_last().drop_first());
        assert(resources.drop_last()[0] == resources[0]);
        assert(resources.drop_first().last() == resources.last());
    } else {
        assert(resources.drop_last().len() == 0);
        assert(resources.drop_first().len() == 0);
        assert(resources.last() == resources[0]);
    }
}

/// The strings of a string list resource (`STR#`): a count, then that many
/// Pascal strings.
pub open spec fn spec_string_list(data: Seq<u8>) -> Option<Seq<Seq<u8>>> {
    if data.len() < 2 {
        None
    } else {
        spec_pstrings(data, 2, be_u16_at(data, 0), Seq::empty())
    }
}

/// Reads `n` Pascal strings from `p`, after `acc`.
pub open spec fn spec_pstrings(data: Seq<u8>, p: int, n: int, acc: Seq<Seq<u8>>) -> Option<Seq<Seq<u8>>>
    decreases (if n > 0 { n } else { 0 }),
{
    if n <= 0 {
        Some(acc)
    } else if p + 1 > data.len() || p + 1 + data[p] > data.len() {
        None
    } else {
        spec_pstrings(data, p + 1 + data[p], n - 1, acc.push(data.subrange(p + 1, p + 1 + data[p])))
    }
}

/// The views of a list of byte strings.
pub open spec fn byte_strings_view(strings: Seq<Vec<u8>>) -> Seq<Seq<u8>> {
    Seq::new(strings.len(), |i: int| strings[i]@)
}

/// Reads a string list resource.
pub fn read_string_list(data: &[u8]) -> (r: Option<Vec<Vec<u8>>>)
    ensures
        match (r, spec_string_list(data@)) {
            (Some(strings), Some(v)) => byte_strings_view(strings@) == v,
            (None, None) => true,
            _ => false,
        },
{
    if data.len() < 2 {
        return None;
    }
    let n = read_be_u16(data, 0);
    let mut strings: Vec<Vec<u8>> = Vec::new();
    let mut p: usize = 2;
    let mut k: u16 = 0;
    let ghost goal = spec_string_list(data@);
    assert(byte_strings_view(strings@) =~= Seq::<Seq<u8>>::empty());
    while k < n
        invariant
            p <= data.len(),
            k <= n,
            goal == spec_string_list(data@),
            goal == spec_pstrings(data@, p as int, n - k, byte_strings_view(strings@)),
        decreases n - k,
    {
        if data.len() - p < 1 {
            return None;
        }
        let len = data[p] as usize;
        if data.len() - (p + 1) < len {
            return None;
        }
        let s = vstd::slice::slice_to_vec(vstd::slice::slice_subrange(data, p + 1, p + 1 + len));
        let ghost old_view = byte_strings_view(strings@);
        let ghost s_view = s@;
        strings.push(s);
        assert(byte_strings_view(strings@) =~= old_view.push(s_view));
        p = p + 1 + len;
        k = k + 1;
    }
    Some(strings)
}

} // verus!
