use genetlink::{
    CtrlAttr, CtrlRequest, CtrlResponse, GenetlinkError, GroupMap, McastGroupAttr, RequiredAttr,
    Resolver,
};
use genetlink::resolver::{family_groups_request, family_id_request, groups_step};

const TEST_FAMILIES: &[&str] = &[
    "devlink",
    "ethtool",
    "acpi_event",
    "tcp_metrics",
    "TASKSTATS",
    "nl80211",
];

fn group(name: &str, id: u32) -> Vec<McastGroupAttr> {
    vec![McastGroupAttr::Name(name.to_string()), McastGroupAttr::Id(id)]
}

fn family_reply(name: &str, id: u16, groups: Vec<Vec<McastGroupAttr>>) -> CtrlResponse {
    CtrlResponse::Payload(vec![
        CtrlAttr::FamilyName(name.to_string()),
        CtrlAttr::FamilyId(id),
        CtrlAttr::Other,
        CtrlAttr::McastGroups(groups),
    ])
}

/// What a small kernel answers to a control request.
fn kernel(req: &CtrlRequest) -> Vec<CtrlResponse> {
    let known: Vec<(&str, u16, Vec<Vec<McastGroupAttr>>)> = vec![
        ("nlctrl", 0x10, vec![group("notify", 0x10)]),
        ("devlink", 26, vec![group("config", 1), group("notify", 2)]),
        ("ethtool", 20, vec![group("monitor", 5)]),
        ("tcp_metrics", 21, vec![]),
    ];
    for (name, id, groups) in known {
        let hit = match req {
            CtrlRequest::FamilyByName(n) => n == name,
            CtrlRequest::FamilyById(i) => *i == id,
        };
        if hit {
            return vec![family_reply(name, id, groups), CtrlResponse::Other];
        }
    }
    vec![CtrlResponse::Error(-2)]
}

fn resolve_id(resolver: &mut Resolver, name: &str) -> Result<u16, GenetlinkError> {
    let replies = kernel(&family_id_request(name));
    resolver.query_family_id(name, &replies)
}

fn resolve_groups(resolver: &mut Resolver, name: &str) -> Result<GroupMap, GenetlinkError> {
    let id_replies = kernel(&family_id_request(name));
    let id = kernel_id(name).unwrap_or(0);
    let group_replies = kernel(&family_groups_request(id));
    resolver.query_family_multicast_groups(name, &id_replies, &group_replies)
}

fn kernel_id(name: &str) -> Option<u16> {
    let mut scratch = Resolver::new();
    scratch.query_family_id(name, &kernel(&family_id_request(name))).ok()
}

fn same_groups(a: &GroupMap, b: &GroupMap) -> bool {
    if a.len() != b.len() {
        return false;
    }
    for i in 0..a.len() {
        let (name, id) = a.entry_at(i);
        if b.get(name) != Some(id) {
            return false;
        }
    }
    true
}

#[test]
fn test_resolver_nlctrl() {
    let mut resolver = Resolver::new();
    // nlctrl should always be 0x10
    let nlctrl_fid = resolve_id(&mut resolver, "nlctrl").unwrap();
    assert_eq!(nlctrl_fid, 0x10);
}

#[test]
fn test_resolver_cache() {
    let mut resolver = Resolver::new();

    // Test if family id cached
    for name in TEST_FAMILIES.iter().copied() {
        let id = resolve_id(&mut resolver, name)
            .or_else(|e| if e.is_not_found() { Ok(0) } else { Err(e) })
            .unwrap();
        if id == 0 {
            continue;
        }

        let cache = resolver.get_cache_by_name(name).unwrap();
        assert_eq!(id, cache);

        let mcast_groups = match resolve_groups(&mut resolver, name) {
            Ok(groups) => groups,
            Err(e) if e.is_not_found() => continue,
            Err(e) => panic!("{:?}", e),
        };
        if mcast_groups.len() == 0 {
            continue;
        }

        let cache = resolver.get_groups_cache_by_name(name).unwrap();
        assert!(same_groups(&mcast_groups, &cache));
    }
}

#[test]
fn cached_id_needs_no_replies() {
    let mut resolver = Resolver::new();
    assert_eq!(resolve_id(&mut resolver, "devlink"), Ok(26));
    // A second query reads nothing: these replies would fail it.
    let poisoned = vec![CtrlResponse::Error(-5), family_reply("devlink", 99, vec![])];
    assert_eq!(resolver.query_family_id("devlink", &poisoned), Ok(26));
    assert_eq!(resolver.get_cache_by_name("devlink"), Some(26));
}

#[test]
fn nlctrl_resolves_to_control_id_with_any_cache() {
    let mut resolver = Resolver::new();
    assert_eq!(resolve_id(&mut resolver, "devlink"), Ok(26));
    assert_eq!(resolve_id(&mut resolver, "nlctrl"), Ok(0x10));
    assert_eq!(resolve_id(&mut resolver, "nlctrl"), Ok(0x10));
    resolver.clear_cache();
    assert_eq!(resolve_id(&mut resolver, "nlctrl"), Ok(0x10));
}

#[test]
fn failed_id_step_fails_group_query_and_caches_nothing() {
    let mut resolver = Resolver::new();
    let id_replies = vec![CtrlResponse::Error(-2)];
    let group_replies = vec![family_reply("ghost", 7, vec![group("events", 3)])];
    let r = resolver.query_family_multicast_groups("ghost", &id_replies, &group_replies);
    assert!(matches!(r, Err(GenetlinkError::NetlinkError(-2))));
    assert_eq!(resolver.get_cache_by_name("ghost"), None);
    assert!(resolver.get_groups_cache_by_name("ghost").is_none());
}

#[test]
fn group_without_id_is_dropped() {
    let mut resolver = Resolver::new();
    let id_replies = vec![family_reply("devlink", 26, vec![])];
    let group_replies = vec![CtrlResponse::Payload(vec![CtrlAttr::McastGroups(vec![
        group("config", 1),
        vec![McastGroupAttr::Name("notify".to_string())],
    ])])];
    let groups = resolver
        .query_family_multicast_groups("devlink", &id_replies, &group_replies)
        .unwrap();
    assert_eq!(groups.len(), 1);
    assert_eq!(groups.get("config"), Some(&1));
    assert_eq!(groups.get("notify"), None);
}

#[test]
fn group_without_name_is_dropped() {
    let mut out = GroupMap::new();
    let item = CtrlResponse::Payload(vec![CtrlAttr::McastGroups(vec![
        vec![McastGroupAttr::Id(9)],
        group("mlme", 4),
    ])]);
    assert_eq!(groups_step(&mut out, &item), None);
    assert_eq!(out.len(), 1);
    assert_eq!(out.get("mlme"), Some(&4));
}

#[test]
fn clear_cache_forgets_everything() {
    let mut resolver = Resolver::new();
    assert_eq!(resolve_id(&mut resolver, "devlink"), Ok(26));
    assert!(resolve_groups(&mut resolver, "ethtool").is_ok());
    resolver.clear_cache();
    for name in ["devlink", "ethtool"] {
        assert_eq!(resolver.get_cache_by_name(name), None);
        assert!(resolver.get_groups_cache_by_name(name).is_none());
    }
}

#[test]
fn error_first_decides_the_answer() {
    let mut resolver = Resolver::new();
    let replies = vec![CtrlResponse::Error(-22), family_reply("devlink", 26, vec![])];
    assert_eq!(
        resolver.query_family_id("devlink", &replies),
        Err(GenetlinkError::NetlinkError(-22))
    );
    assert_eq!(resolver.get_cache_by_name("devlink"), None);

    let id_replies = vec![family_reply("devlink", 26, vec![])];
    let group_replies = vec![
        CtrlResponse::Error(-22),
        family_reply("devlink", 26, vec![group("config", 1)]),
    ];
    let r = resolver.query_family_multicast_groups("devlink", &id_replies, &group_replies);
    assert!(matches!(r, Err(GenetlinkError::NetlinkError(-22))));
    assert!(resolver.get_groups_cache_by_name("devlink").is_none());
}

#[test]
fn devlink_id_is_resolved_and_cached() {
    let req = family_id_request("devlink");
    assert!(matches!(&req, CtrlRequest::FamilyByName(n) if n == "devlink"));
    let replies = vec![CtrlResponse::Payload(vec![CtrlAttr::FamilyId(26)])];
    let mut resolver = Resolver::new();
    assert_eq!(resolver.query_family_id("devlink", &replies), Ok(26));
    assert_eq!(resolver.get_cache_by_name("devlink"), Some(26));
}

#[test]
fn devlink_groups_are_resolved_and_cached() {
    let req = family_groups_request(26);
    assert!(matches!(req, CtrlRequest::FamilyById(26)));
    let mut resolver = Resolver::new();
    let id_replies = vec![CtrlResponse::Payload(vec![CtrlAttr::FamilyId(26)])];
    let group_replies = vec![CtrlResponse::Payload(vec![CtrlAttr::McastGroups(vec![
        group("config", 1),
        group("notify", 2),
    ])])];
    let groups = resolver
        .query_family_multicast_groups("devlink", &id_replies, &group_replies)
        .unwrap();
    assert_eq!(groups.len(), 2);
    assert_eq!(groups.get("config"), Some(&1));
    assert_eq!(groups.get("notify"), Some(&2));
    let cached = resolver.get_groups_cache_by_name("devlink").unwrap();
    assert!(same_groups(&groups, &cached));
    assert_eq!(resolver.get_cache_by_name("devlink"), Some(26));
}

#[test]
fn unknown_family_is_not_found() {
    let mut resolver = Resolver::new();
    let r = resolve_id(&mut resolver, "nonexistent");
    assert_eq!(r, Err(GenetlinkError::NetlinkError(-2)));
    assert!(r.unwrap_err().is_not_found());
    assert_eq!(resolver.get_cache_by_name("nonexistent"), None);
}

#[test]
fn reply_without_family_id_is_an_attribute_error() {
    let mut resolver = Resolver::new();
    let replies = vec![
        CtrlResponse::Payload(vec![CtrlAttr::FamilyName("devlink".to_string())]),
        CtrlResponse::Payload(vec![CtrlAttr::FamilyId(26)]),
    ];
    let r = resolver.query_family_id("devlink", &replies);
    assert_eq!(r, Err(GenetlinkError::AttributeNotFound(RequiredAttr::FamilyId)));
    assert_eq!(RequiredAttr::FamilyId.name(), "CTRL_ATTR_FAMILY_ID");
    assert!(!r.unwrap_err().is_not_found());
    assert_eq!(resolver.get_cache_by_name("devlink"), None);
}

#[test]
fn stream_without_payload_is_no_message() {
    let mut resolver = Resolver::new();
    assert_eq!(
        resolver.query_family_id("devlink", &vec![]),
        Err(GenetlinkError::NoMessageReceived)
    );
    assert_eq!(
        resolver.query_family_id("devlink", &vec![CtrlResponse::Other, CtrlResponse::Other]),
        Err(GenetlinkError::NoMessageReceived)
    );
}

#[test]
fn first_family_id_attribute_wins() {
    let mut resolver = Resolver::new();
    let replies = vec![
        CtrlResponse::Other,
        CtrlResponse::Payload(vec![CtrlAttr::Other, CtrlAttr::FamilyId(30), CtrlAttr::FamilyId(31)]),
    ];
    assert_eq!(resolver.query_family_id("team", &replies), Ok(30));
}

#[test]
fn family_without_groups_is_an_empty_success() {
    let mut resolver = Resolver::new();
    let groups = resolve_groups(&mut resolver, "tcp_metrics").unwrap();
    assert_eq!(groups.len(), 0);
    assert_eq!(resolver.get_groups_cache_by_name("tcp_metrics").unwrap().len(), 0);
}

#[test]
fn groups_span_messages_and_later_names_win() {
    let mut resolver = Resolver::new();
    let id_replies = vec![CtrlResponse::Payload(vec![CtrlAttr::FamilyId(40)])];
    let group_replies = vec![
        CtrlResponse::Payload(vec![CtrlAttr::McastGroups(vec![group("a", 1), group("b", 2)])]),
        CtrlResponse::Other,
        CtrlResponse::Payload(vec![CtrlAttr::McastGroups(vec![group("a", 7)])]),
    ];
    let groups = resolver
        .query_family_multicast_groups("fam", &id_replies, &group_replies)
        .unwrap();
    assert_eq!(groups.len(), 2);
    assert_eq!(groups.get("a"), Some(&7));
    assert_eq!(groups.get("b"), Some(&2));
}

#[test]
fn later_group_query_replaces_cached_groups() {
    let mut resolver = Resolver::new();
    let id_replies = vec![CtrlResponse::Payload(vec![CtrlAttr::FamilyId(40)])];
    let first = vec![CtrlResponse::Payload(vec![CtrlAttr::McastGroups(vec![group("a", 1)])])];
    let second = vec![CtrlResponse::Payload(vec![CtrlAttr::McastGroups(vec![group("b", 2)])])];
    resolver.query_family_multicast_groups("fam", &id_replies, &first).unwrap();
    resolver.query_family_multicast_groups("fam", &id_replies, &second).unwrap();
    let cached = resolver.get_groups_cache_by_name("fam").unwrap();
    assert_eq!(cached.len(), 1);
    assert_eq!(cached.get("b"), Some(&2));
}

#[test]
fn id_step_reads_on_past_other_items() {
    let mut resolver = Resolver::default();
    assert_eq!(resolver.family_id_step("fam", &CtrlResponse::Other), None);
    assert_eq!(resolver.get_cache_by_name("fam"), None);
    let found = resolver.family_id_step("fam", &CtrlResponse::Payload(vec![CtrlAttr::FamilyId(12)]));
    assert_eq!(found, Some(Ok(12)));
    assert_eq!(resolver.get_cache_by_name("fam"), Some(12));
}

#[test]
fn recorded_groups_are_a_copy() {
    let mut resolver = Resolver::new();
    let mut groups = GroupMap::new();
    groups.insert("x".to_string(), 3);
    resolver.record_groups("fam", &groups);
    groups.insert("y".to_string(), 4);
    let cached = resolver.get_groups_cache_by_name("fam").unwrap();
    assert_eq!(cached.len(), 1);
    assert_eq!(cached.get("x"), Some(&3));
}
