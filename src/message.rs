use vstd::prelude::*;

use crate::name_map::NameMap;

verus! {

/// One attribute of a multicast group entry.
#[derive(Clone, Debug)]
pub enum McastGroupAttr {
    Name(String),
    Id(u32),
}

/// One attribute of a control-family reply.
#[derive(Clone, Debug)]
pub enum CtrlAttr {
    FamilyId(u16),
    FamilyName(String),
    /// The nested list of multicast groups, each a list of attributes.
    McastGroups(Vec<Vec<McastGroupAttr>>),
    /// Any attribute the resolver does not read.
    Other,
}

/// One item of the reply stream to a control request.
#[derive(Clone, Debug)]
pub enum CtrlResponse {
    /// A control message with its decoded attributes.
    Payload(Vec<CtrlAttr>),
    /// A netlink error message with its raw code.
    Error(i32),
    /// Any other item (end of dump, no-op, overrun).
    Other,
}

/// A `GetFamily` request to the control family.
#[derive(Clone, Debug)]
pub enum CtrlRequest {
    /// Ask by family name.
    FamilyByName(String),
    /// Ask by family id.
    FamilyById(u16),
}

/// The value of the first family-id attribute in `attrs`.
pub open spec fn first_family_id(attrs: Seq<CtrlAttr>) -> Option<u16>
    decreases attrs.len(),
{
    if attrs.len() == 0 {
        None
    } else {
        match attrs[0] {
            CtrlAttr::FamilyId(id) => Some(id),
            _ => first_family_id(attrs.drop_first()),
        }
    }
}

/// The last name attribute of a group entry.
pub open spec fn last_name(g: Seq<McastGroupAttr>) -> Option<Seq<char>>
    decreases g.len(),
{
    if g.len() == 0 {
        None
    } else {
        match g.last() {
            McastGroupAttr::Name(n) => Some(n@),
            _ => last_name(g.drop_last()),
        }
    }
}

/// The last id attribute of a group entry.
pub open spec fn last_id(g: Seq<McastGroupAttr>) -> Option<u32>
    decreases g.len(),
{
    if g.len() == 0 {
        None
    } else {
        match g.last() {
            McastGroupAttr::Id(id) => Some(id),
            _ => last_id(g.drop_last()),
        }
    }
}

/// `m` with the group `g` added, if `g` names both a name and an id.
pub open spec fn add_group(m: Map<Seq<char>, u32>, g: Seq<McastGroupAttr>) -> Map<Seq<char>, u32> {
    match (last_name(g), last_id(g)) {
        (Some(n), Some(id)) => m.insert(n, id),
        _ => m,
    }
}

/// `m` with the complete groups of `gs` added in order.
pub open spec fn add_groups(m: Map<Seq<char>, u32>, gs: Seq<Vec<McastGroupAttr>>) -> Map<
    Seq<char>,
    u32,
>
    decreases gs.len(),
{
    if gs.len() == 0 {
        m
    } else {
        add_group(add_groups(m, gs.drop_last()), gs.last()@)
    }
}

/// `m` with the groups of every multicast-group attribute of `attrs` added.
pub open spec fn add_attrs(m: Map<Seq<char>, u32>, attrs: Seq<CtrlAttr>) -> Map<Seq<char>, u32>
    decreases attrs.len(),
{
    if attrs.len() == 0 {
        m
    } else {
        let before = add_attrs(m, attrs.drop_last());
        match attrs.last() {
            CtrlAttr::McastGroups(gs) => add_groups(before, gs@),
            _ => before,
        }
    }
}

/// The family id carried by a reply's attributes: the first one present.
pub fn find_family_id(attrs: &Vec<CtrlAttr>) -> (r: Option<u16>)
    ensures
        r == first_family_id(attrs@),
{
    let mut i: usize = 0;
    assert(attrs@.subrange(0, attrs@.len() as int) =~= attrs@);
    while i < attrs.len()
        invariant
            i <= attrs@.len(),
            first_family_id(attrs@) == first_family_id(attrs@.subrange(i as int, attrs@.len() as int)),
        decreases attrs@.len() - i,
    {
        assert(attrs@.subrange(i as int, attrs@.len() as int).drop_first() =~= attrs@.subrange(
            i + 1,
            attrs@.len() as int,
        ));
        if let CtrlAttr::FamilyId(id) = &attrs[i] {
            return Some(*id);
        }
        i = i + 1;
    }
    None
}

/// The name and id of a group entry: the last of each, when both are present.
pub fn decode_group(group: &Vec<McastGroupAttr>) -> (r: Option<(String, u32)>)
    ensures
        match r {
            Some((n, id)) => last_name(group@) == Some(n@) && last_id(group@) == Some(id),
            None => last_name(group@) is None || last_id(group@) is None,
        },
{
    let mut name: Option<String> = None;
    let mut id: Option<u32> = None;
    let mut i: usize = 0;
    while i < group.len()
        invariant
            i <= group@.len(),
            match name {
                Some(n) => last_name(group@.subrange(0, i as int)) == Some(n@),
                None => last_name(group@.subrange(0, i as int)) is None,
            },
            id == last_id(group@.subrange(0, i as int)),
        decreases group@.len() - i,
    {
        assert(group@.subrange(0, i + 1).drop_last() =~= group@.subrange(0, i as int));
        match &group[i] {
            McastGroupAttr::Name(n) => {
                name = Some(n.clone());
            },
            McastGroupAttr::Id(v) => {
                id = Some(*v);
            },
        }
        i = i + 1;
    }
    assert(group@.subrange(0, group@.len() as int) =~= group@);
    match (name, id) {
        (Some(n), Some(v)) => Some((n, v)),
        _ => None,
    }
}

/// Adds every complete group of `groups` to `out`, later names replacing
/// earlier ones.
pub fn collect_groups(groups: &Vec<Vec<McastGroupAttr>>, out: &mut NameMap<u32>)
    requires
        old(out).wf(),
    ensures
        final(out).wf(),
        final(out)@ == add_groups(old(out)@, groups@),
{
    let ghost start = out@;
    let mut i: usize = 0;
    while i < groups.len()
        invariant
            i <= groups@.len(),
            out.wf(),
            out@ == add_groups(start, groups@.subrange(0, i as int)),
        decreases groups@.len() - i,
    {
        assert(groups@.subrange(0, i + 1).drop_last() =~= groups@.subrange(0, i as int));
        if let Some((n, v)) = decode_group(&groups[i]) {
            out.insert(n, v);
        }
        i = i + 1;
    }
    assert(groups@.subrange(0, groups@.len() as int) =~= groups@);
}

/// Adds the groups of every multicast-group attribute of `attrs` to `out`.
pub fn collect_attr_groups(attrs: &Vec<CtrlAttr>, out: &mut NameMap<u32>)
    requires
        old(out).wf(),
    ensures
        final(out).wf(),
        final(out)@ == add_attrs(old(out)@, attrs@),
{
    let ghost start = out@;
    let mut i: usize = 0;
    while i < attrs.len()
        invariant
            i <= attrs@.len(),
            out.wf(),
            out@ == add_attrs(start, attrs@.subrange(0, i as int)),
        decreases attrs@.len() - i,
    {
        assert(attrs@.subrange(0, i + 1).drop_last() =~= attrs@.subrange(0, i as int));
        if let CtrlAttr::McastGroups(gs) = &attrs[i] {
            collect_groups(gs, out);
        }
        i = i + 1;
    }
    assert(attrs@.subrange(0, attrs@.len() as int) =~= attrs@);
}

} // verus!
