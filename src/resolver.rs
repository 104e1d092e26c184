use vstd::prelude::*;

use crate::error::{GenetlinkError, RequiredAttr};
use crate::message::{
    add_attrs, collect_attr_groups, find_family_id, first_family_id, CtrlRequest, CtrlResponse,
};
use crate::name_map::NameMap;

verus! {

/// Multicast group ids by group name.
pub type GroupMap = NameMap<u32>;

/// What one reply item decides for a family-id query; `None` reads on.
pub open spec fn id_step(item: CtrlResponse) -> Option<Result<u16, GenetlinkError>> {
    match item {
        CtrlResponse::Payload(attrs) => Some(
            match first_family_id(attrs@) {
                Some(id) => Ok(id),
                None => Err(GenetlinkError::AttributeNotFound(RequiredAttr::FamilyId)),
            },
        ),
        CtrlResponse::Error(code) => Some(Err(GenetlinkError::NetlinkError(code))),
        CtrlResponse::Other => None,
    }
}

/// The answer that a reply stream gives to a family-id query: the first
/// item that decides, or no message at all.
pub open spec fn id_outcome(items: Seq<CtrlResponse>) -> Result<u16, GenetlinkError>
    decreases items.len(),
{
    if items.len() == 0 {
        Err(GenetlinkError::NoMessageReceived)
    } else {
        match id_step(items[0]) {
            Some(r) => r,
            None => id_outcome(items.drop_first()),
        }
    }
}

/// The result of a family-id query and the id cache after it.
pub open spec fn id_query(ids: Map<Seq<char>, u16>, name: Seq<char>, items: Seq<CtrlResponse>) -> (
    Result<u16, GenetlinkError>,
    Map<Seq<char>, u16>,
) {
    if ids.contains_key(name) {
        (Ok(ids[name]), ids)
    } else {
        match id_outcome(items) {
            Ok(id) => (Ok(id), ids.insert(name, id)),
            Err(e) => (Err(e), ids),
        }
    }
}

/// The groups that a reply stream lists after those in `acc`, or the first
/// error message in it.
pub open spec fn groups_outcome(acc: Map<Seq<char>, u32>, items: Seq<CtrlResponse>) -> Result<
    Map<Seq<char>, u32>,
    GenetlinkError,
>
    decreases items.len(),
{
    if items.len() == 0 {
        Ok(acc)
    } else {
        match items[0] {
            CtrlResponse::Error(code) => Err(GenetlinkError::NetlinkError(code)),
            CtrlResponse::Payload(attrs) => groups_outcome(add_attrs(acc, attrs@), items.drop_first()),
            CtrlResponse::Other => groups_outcome(acc, items.drop_first()),
        }
    }
}

/// The result of a multicast-group query and both caches after it: the id
/// is resolved first from `id_items`, then the groups are read from
/// `group_items`.
pub open spec fn groups_query(
    ids: Map<Seq<char>, u16>,
    groups: Map<Seq<char>, Map<Seq<char>, u32>>,
    name: Seq<char>,
    id_items: Seq<CtrlResponse>,
    group_items: Seq<CtrlResponse>,
) -> (Result<Map<Seq<char>, u32>, GenetlinkError>, Map<Seq<char>, u16>, Map<Seq<char>, Map<Seq<char>, u32>>) {
    let (r, ids_after) = id_query(ids, name, id_items);
    match r {
        Err(e) => (Err(e), ids_after, groups),
        Ok(_) => match groups_outcome(Map::empty(), group_items) {
            Ok(m) => (Ok(m), ids_after, groups.insert(name, m)),
            Err(e) => (Err(e), ids_after, groups),
        },
    }
}

/// The request that asks the control family for a family by name.
pub fn family_id_request(family_name: &str) -> (r: CtrlRequest)
    ensures
        match r {
            CtrlRequest::FamilyByName(n) => n@ == family_name@,
            _ => false,
        },
{
    CtrlRequest::FamilyByName(family_name.to_owned())
}

/// The request that asks the control family for a family's details by id.
pub fn family_groups_request(family_id: u16) -> (r: CtrlRequest)
    ensures
        r == CtrlRequest::FamilyById(family_id),
{
    CtrlRequest::FamilyById(family_id)
}

/// Reads one reply item of a multicast-group query into `out`; returns the
/// error that ends the query, if the item is one.
pub fn groups_step(out: &mut GroupMap, item: &CtrlResponse) -> (r: Option<GenetlinkError>)
    requires
        old(out).wf(),
    ensures
        final(out).wf(),
        match *item {
            CtrlResponse::Error(code) => r == Some(GenetlinkError::NetlinkError(code))
                && final(out)@ == old(out)@,
            CtrlResponse::Payload(attrs) => r is None && final(out)@ == add_attrs(old(out)@, attrs@),
            CtrlResponse::Other => r is None && final(out)@ == old(out)@,
        },
{
    match item {
        CtrlResponse::Error(code) => Some(GenetlinkError::NetlinkError(*code)),
        CtrlResponse::Payload(attrs) => {
            collect_attr_groups(attrs, out);
            None
        },
        CtrlResponse::Other => None,
    }
}

/// Resolves generic-netlink family names to ids and multicast groups, and
/// remembers what it learned.
pub struct Resolver {
    cache: NameMap<u16>,
    groups_cache: NameMap<GroupMap>,
}

impl Resolver {
    /// Both caches are well formed, and so is every cached group map.
    pub closed spec fn wf(&self) -> bool {
        &&& self.cache.wf()
        &&& self.groups_cache.wf()
        &&& forall|k: Seq<char>| #[trigger]
            self.groups_cache@.contains_key(k) ==> self.groups_cache@[k].wf()
    }

    /// The cached family ids.
    pub closed spec fn ids(&self) -> Map<Seq<char>, u16> {
        self.cache@
    }

    /// The cached multicast groups of each family.
    pub closed spec fn groups(&self) -> Map<Seq<char>, Map<Seq<char>, u32>> {
        self.groups_cache@.map_values(|g: GroupMap| g@)
    }

    /// A resolver with nothing cached.
    pub fn new() -> (r: Self)
        ensures
            r.wf(),
            r.ids() == Map::<Seq<char>, u16>::empty(),
            r.groups() == Map::<Seq<char>, Map<Seq<char>, u32>>::empty(),
    {
        let r = Resolver { cache: NameMap::new(), groups_cache: NameMap::new() };
        assert(r.groups() =~= Map::<Seq<char>, Map<Seq<char>, u32>>::empty());
        r
    }

    /// The cached id of a family.
    pub fn get_cache_by_name(&self, family_name: &str) -> (r: Option<u16>)
        requires
            self.wf(),
        ensures
            r == (if self.ids().contains_key(family_name@) {
                Some(self.ids()[family_name@])
            } else {
                None
            }),
    {
        match self.cache.get(family_name) {
            Some(id) => Some(*id),
            None => None,
        }
    }

    /// A copy of the cached multicast groups of a family.
    pub fn get_groups_cache_by_name(&self, family_name: &str) -> (r: Option<GroupMap>)
        requires
            self.wf(),
        ensures
            match r {
                Some(g) => g.wf() && self.groups().contains_key(family_name@) && g@ == self.groups()[family_name@],
                None => !self.groups().contains_key(family_name@),
            },
    {
        match self.groups_cache.get(family_name) {
            Some(g) => Some(g.duplicate()),
            None => None,
        }
    }

    /// Empties both caches.
    pub fn clear_cache(&mut self)
        requires
            old(self).wf(),
        ensures
            final(self).wf(),
            final(self).ids() == Map::<Seq<char>, u16>::empty(),
            final(self).groups() == Map::<Seq<char>, Map<Seq<char>, u32>>::empty(),
    {
        self.cache.clear();
        self.groups_cache.clear();
        assert(self.groups() =~= Map::<Seq<char>, Map<Seq<char>, u32>>::empty());
    }

    /// Reads one reply item of a family-id query for `family_name`; returns
    /// the query's result once an item decides it, and caches a found id.
    pub fn family_id_step(&mut self, family_name: &str, item: &CtrlResponse) -> (r: Option<
        Result<u16, GenetlinkError>,
    >)
        requires
            old(self).wf(),
        ensures
            final(self).wf(),
            r == id_step(*item),
            final(self).groups() == old(self).groups(),
            final(self).ids() == match r {
                Some(Ok(id)) => old(self).ids().insert(family_name@, id),
                _ => old(self).ids(),
            },
    {
        match item {
            CtrlResponse::Payload(attrs) => match find_family_id(attrs) {
                Some(id) => {
                    self.cache.insert(family_name.to_owned(), id);
                    Some(Ok(id))
                },
                None => Some(Err(GenetlinkError::AttributeNotFound(RequiredAttr::FamilyId))),
            },
            CtrlResponse::Error(code) => Some(Err(GenetlinkError::NetlinkError(*code))),
            CtrlResponse::Other => None,
        }
    }

    /// Caches `groups` as the multicast groups of `family_name`.
    pub fn record_groups(&mut self, family_name: &str, groups: &GroupMap)
        requires
            old(self).wf(),
            groups.wf(),
        ensures
            final(self).wf(),
            final(self).ids() == old(self).ids(),
            final(self).groups() == old(self).groups().insert(family_name@, groups@),
    {
        let copy = groups.duplicate();
        self.groups_cache.insert(family_name.to_owned(), copy);
        assert(self.groups() =~= old(self).groups().insert(family_name@, groups@));
    }

    /// Resolves a family's id: from the cache when it is there, else from
    /// `responses`, the reply stream to `family_id_request(family_name)`,
    /// read up to the first item that decides.
    pub fn query_family_id(&mut self, family_name: &str, responses: &Vec<CtrlResponse>) -> (r: Result<
        u16,
        GenetlinkError,
    >)
        requires
            old(self).wf(),
        ensures
            final(self).wf(),
            (r, final(self).ids()) == id_query(old(self).ids(), family_name@, responses@),
            final(self).groups() == old(self).groups(),
    {
        if let Some(id) = self.get_cache_by_name(family_name) {
            return Ok(id);
        }
        let mut i: usize = 0;
        assert(responses@.subrange(0, responses@.len() as int) =~= responses@);
        while i < responses.len()
            invariant
                self.wf(),
                i <= responses@.len(),
                !old(self).ids().contains_key(family_name@),
                self.ids() == old(self).ids(),
                self.groups() == old(self).groups(),
                id_outcome(responses@) == id_outcome(
                    responses@.subrange(i as int, responses@.len() as int),
                ),
            decreases responses@.len() - i,
        {
            assert(responses@.subrange(i as int, responses@.len() as int).drop_first()
                =~= responses@.subrange(i + 1, responses@.len() as int));
            if let Some(r) = self.family_id_step(family_name, &responses[i]) {
                return r;
            }
            i = i + 1;
        }
        Err(GenetlinkError::NoMessageReceived)
    }

    /// Resolves a family's multicast groups: first its id, as
    /// `query_family_id` does with `id_responses`, then the groups from
    /// `group_responses`, the reply stream to `family_groups_request(id)`,
    /// read to its end. The groups are cached only on success.
    pub fn query_family_multicast_groups(
        &mut self,
        family_name: &str,
        id_responses: &Vec<CtrlResponse>,
        group_responses: &Vec<CtrlResponse>,
    ) -> (r: Result<GroupMap, GenetlinkError>)
        requires
            old(self).wf(),
        ensures
            final(self).wf(),
            ({
                let q = groups_query(
                    old(self).ids(),
                    old(self).groups(),
                    family_name@,
                    id_responses@,
                    group_responses@,
                );
                &&& match r {
                    Ok(g) => g.wf() && q.0 == Ok::<Map<Seq<char>, u32>, GenetlinkError>(g@),
                    Err(e) => q.0 == Err::<Map<Seq<char>, u32>, GenetlinkError>(e),
                }
                &&& final(self).ids() == q.1
                &&& final(self).groups() == q.2
            }),
    {
        let _family_id = match self.query_family_id(family_name, id_responses) {
            Ok(id) => id,
            Err(e) => return Err(e),
        };
        let mut groups = GroupMap::new();
        let mut i: usize = 0;
        assert(group_responses@.subrange(0, group_responses@.len() as int) =~= group_responses@);
        while i < group_responses.len()
            invariant
                self.wf(),
                groups.wf(),
                i <= group_responses@.len(),
                self.ids() == id_query(old(self).ids(), family_name@, id_responses@).1,
                id_query(old(self).ids(), family_name@, id_responses@).0 is Ok,
                self.groups() == old(self).groups(),
                groups_outcome(Map::empty(), group_responses@) == groups_outcome(
                    groups@,
                    group_responses@.subrange(i as int, group_responses@.len() as int),
                ),
            decreases group_responses@.len() - i,
        {
            assert(group_responses@.subrange(i as int, group_responses@.len() as int).drop_first()
                =~= group_responses@.subrange(i + 1, group_responses@.len() as int));
            if let Some(e) = groups_step(&mut groups, &group_responses[i]) {
                return Err(e);
            }
            i = i + 1;
        }
        self.record_groups(family_name, &groups);
        Ok(groups)
    }
}

impl Default for Resolver {
    fn default() -> (r: Self)
        ensures
            r.wf(),
            r.ids() == Map::<Seq<char>, u16>::empty(),
            r.groups() == Map::<Seq<char>, Map<Seq<char>, u32>>::empty(),
    {
        Resolver::new()
    }
}

/// Once a family-id query has succeeded, a second query for the same name
/// returns the same id and leaves the cache as it is, whatever its reply
/// stream holds: the stream is not read.
pub proof fn lemma_cached_id_reused(
    ids: Map<Seq<char>, u16>,
    name: Seq<char>,
    first: Seq<CtrlResponse>,
    second: Seq<CtrlResponse>,
)
    requires
        id_query(ids, name, first).0 is Ok,
    ensures
        id_query(id_query(ids, name, first).1, name, second) == id_query(ids, name, first),
{
}

/// A multicast-group query whose id step fails returns that same error and
/// leaves both caches as they were.
pub proof fn lemma_group_query_needs_id(
    ids: Map<Seq<char>, u16>,
    groups: Map<Seq<char>, Map<Seq<char>, u32>>,
    name: Seq<char>,
    id_items: Seq<CtrlResponse>,
    group_items: Seq<CtrlResponse>,
)
    requires
        id_query(ids, name, id_items).0 is Err,
    ensures
        groups_query(ids, groups, name, id_items, group_items) == (
            Err::<Map<Seq<char>, u32>, GenetlinkError>(id_query(ids, name, id_items).0->Err_0),
            ids,
            groups,
        ),
{
}

/// After the caches are cleared, no family has a cached id or cached groups.
pub proof fn lemma_cleared_cache_is_empty(r: Resolver, name: Seq<char>)
    requires
        r.ids() == Map::<Seq<char>, u16>::empty(),
        r.groups() == Map::<Seq<char>, Map<Seq<char>, u32>>::empty(),
    ensures
        !r.ids().contains_key(name),
        !r.groups().contains_key(name),
{
}

/// A reply stream whose first item is an error message yields that error,
/// whatever follows it, for both kinds of query.
pub proof fn lemma_error_first_decides(
    code: i32,
    rest: Seq<CtrlResponse>,
    acc: Map<Seq<char>, u32>,
)
    ensures
        id_outcome(seq![CtrlResponse::Error(code)] + rest) == Err::<u16, GenetlinkError>(
            GenetlinkError::NetlinkError(code),
        ),
        groups_outcome(acc, seq![CtrlResponse::Error(code)] + rest) == Err::<
            Map<Seq<char>, u32>,
            GenetlinkError,
        >(GenetlinkError::NetlinkError(code)),
{
    assert((seq![CtrlResponse::Error(code)] + rest)[0] == CtrlResponse::Error(code));
}

} // verus!
