use pacom::discovery::{DiscoveryEvent, DiscoveryState, PendingSubscription};
use pacom::engine::{
    check_rpc_consumed, cloud_authority_name, derive_topic_publish_ue_id, deliver_payload,
    discovery_wait_timeout_ms, is_cloud_topic, plan_publish, plan_register_rpc, plan_startup,
    plan_subscribe, plan_subscribe_from_authority, resolve_authority, resolve_ue_id,
    rpc_response, rpc_timeout_ms, rpc_wait_step, vsomeip_enabled, ProvidedCapabilities,
    PublishPlan, SubscribePlan,
};
use pacom::error::{PacomError, StatusCode};
use pacom::logical_registry::stable_id16;
use pacom::names::NameSet;
use pacom::router::{
    cloud_register_step, is_cloud_bound, listener_cloud_path, route_listener, route_receive,
    route_send, RetryStep, Route,
};
use pacom::text::{hex_u16, trim};
use pacom::uri::Uri;
use pacom::utils::{
    discovery_channel_count, env_flag_enabled, env_string_non_empty, parse_unsigned,
    rpc_diag_enabled, verbose_debug_enabled,
};
use pacom::vsomeip_config::{
    app_name, discovery_service_id_for, normalize_service_port_from_env, plan_vsomeip_config,
    topic_publish_service_id_for, vsomeip_verbose_debug_enabled, VsomeipSettings,
};
use pacom::vsomeip_topology::{
    is_mqtt_wildcard_ue_id, is_wildcard_resource_id, normalize_uri_for_vsomeip,
    VsomeipTopologyResolver,
};
use pacom::ManifestConfig;

fn fnv(bytes: &[u8]) -> u32 {
    let mut h: u32 = 0x811c9dc5;
    for b in bytes {
        h ^= *b as u32;
        h = h.wrapping_mul(0x01000193);
    }
    h
}

fn fold(h: u32) -> u16 {
    let f = (h ^ (h >> 16)) as u16;
    if f == 0 {
        1
    } else {
        f
    }
}

fn uri(a: &str, ue: u32, major: u8, res: u16) -> Uri {
    Uri::try_from_parts(a, ue, major, res).unwrap()
}

fn parts(u: &Uri) -> (String, u32, u32, u32) {
    (u.authority_name.clone(), u.ue_id, u.ue_version_major, u.resource_id)
}

#[test]
fn stable_id_is_fnv1a_of_namespace_and_name() {
    let expected = fold(fnv(b"rpc/rpc/echo"));
    assert_eq!(stable_id16("rpc", "/rpc/echo"), expected);
    assert_eq!(stable_id16("topic", "é"), fold(fnv("topicé".as_bytes())));
}

#[test]
fn unresolved_ids_come_from_the_hash() {
    let m = ManifestConfig::default();
    let h = stable_id16("rpc", "/rpc/echo") & 0x7FFF;
    assert_eq!(m.method_id_for("/rpc/echo"), if h == 0 { 1 } else { h });
    assert_eq!(m.resource_id_for("/t"), stable_id16("topic", "/t") | 0x8000);
}

#[test]
fn resolved_ids_are_distinct_and_in_their_spaces() {
    let mut m = ManifestConfig::default();
    for i in 0..300 {
        m.rpc.provide.insert(format!("/rpc/m{}", i));
        m.topics.publish.insert(format!("/topic/t{}", i));
    }
    m.resolve_and_store_ids();
    let mut rpc = std::collections::HashSet::new();
    let mut topics = std::collections::HashSet::new();
    for i in 0..300 {
        let a = m.method_id_for(&format!("/rpc/m{}", i));
        let b = m.resource_id_for(&format!("/topic/t{}", i));
        assert!((1..=0x7FFF).contains(&a));
        assert!(b >= 0x8000);
        assert!(rpc.insert(a));
        assert!(topics.insert(b));
    }
    assert_eq!(m.resolved_rpc_ids.len(), 300);
}

#[test]
fn resolution_probes_upwards_from_the_candidate() {
    let mut m = ManifestConfig::default();
    m.rpc.provide.insert("/rpc/a".to_string());
    m.resolve_and_store_ids();
    let h = stable_id16("rpc", "/rpc/a") & 0x7FFF;
    assert_eq!(m.method_id_for("/rpc/a"), if h == 0 { 1 } else { h });
}

#[test]
fn declarations_are_matched_after_trimming() {
    let mut m = ManifestConfig::default();
    m.rpc.consume.insert("/rpc/echo".to_string());
    m.topics.subscribe.insert("/t".to_string());
    assert!(m.is_rpc_consumed("  /rpc/echo\t"));
    assert!(m.is_topic_subscribed("\u{3000}/t\n"));
    assert!(!m.is_rpc_consumed("/rpc/ec ho"));
}

#[test]
fn name_set_keeps_one_copy() {
    let mut s = NameSet::new();
    assert!(s.insert("a".to_string()));
    assert!(!s.insert("a".to_string()));
    assert!(s.insert("b".to_string()));
    assert_eq!(s.len(), 2);
    assert_eq!(s.get(1), "b");
    assert!(s.contains("a"));
    assert!(!s.contains(" a"));
}

#[test]
fn text_helpers() {
    assert_eq!(trim("  x y \u{2003}"), "x y");
    assert_eq!(trim(" \t "), "");
    assert_eq!(hex_u16(0x00af), "0x00af");
}

#[test]
fn error_messages_and_codes() {
    let e = PacomError::DiscoveryTimeout { name: "/rpc/x".to_string(), timeout_ms: 1500 };
    assert_eq!(e.to_string(), "Discovery timeout: no provider for '/rpc/x' within 1500ms");
    assert_eq!(e.status_code(), Some(StatusCode::DeadlineExceeded));
    assert_eq!(PacomError::Config("bad".to_string()).to_string(), "Configuration error: bad");
    assert_eq!(PacomError::EmptyResponse.to_string(), "RPC returned empty response");
    assert_eq!(PacomError::EmptyResponse.status_code(), Some(StatusCode::NotFound));
    let v = PacomError::ManifestViolation { operation: "o".to_string(), name: "n".to_string() };
    assert_eq!(v.status_code(), Some(StatusCode::PermissionDenied));
    let c = PacomError::IdCollision { name_a: "a".into(), name_b: "b".into(), id: 7 };
    assert_eq!(c.status_code(), Some(StatusCode::AlreadyExists));
    assert_eq!(c.to_string(), "ID collision: 'a' and 'b' both resolve to ID 0x0007");
    let t: PacomError = up_rust::UStatus::fail("x").into();
    assert_eq!(t.status_code(), None);
    assert!(t.to_string().starts_with("Transport error: "));
}

#[test]
fn env_flags() {
    assert!(!env_flag_enabled(Some(" FALSE "), true));
    assert!(!env_flag_enabled(Some("off"), true));
    assert!(!env_flag_enabled(Some("0"), true));
    assert!(env_flag_enabled(Some("yes"), false));
    assert!(env_flag_enabled(Some(""), false));
    assert!(env_flag_enabled(None, true));
    assert!(!verbose_debug_enabled(None));
    assert!(rpc_diag_enabled(Some("true")));
    assert_eq!(env_string_non_empty(Some("  ab ")), Some("ab".to_string()));
    assert_eq!(env_string_non_empty(Some("   ")), None);
}

#[test]
fn numbers_and_channels() {
    assert_eq!(parse_unsigned("+42", 10, 100), Some(42));
    assert_eq!(parse_unsigned("101", 10, 100), None);
    assert_eq!(parse_unsigned("", 10, 100), None);
    assert_eq!(parse_unsigned("+", 10, 100), None);
    assert_eq!(parse_unsigned("Ff", 16, 0xFFFF), Some(255));
    assert_eq!(parse_unsigned("1 ", 10, 100), None);
    assert_eq!(parse_unsigned("18446744073709551615", 10, u64::MAX), Some(u64::MAX));
    assert_eq!(parse_unsigned("18446744073709551616", 10, u64::MAX), None);
    assert_eq!(discovery_channel_count(None), 16);
    assert_eq!(discovery_channel_count(Some("8")), 8);
    assert_eq!(discovery_channel_count(Some("0")), 1);
    assert_eq!(discovery_channel_count(Some("65")), 64);
    assert_eq!(discovery_channel_count(Some("65535")), 64);
    assert_eq!(discovery_channel_count(Some("65536")), 16);
    assert_eq!(discovery_channel_count(Some(" 8")), 16);
    assert_eq!(discovery_wait_timeout_ms(Some("1")), 1);
    assert_eq!(discovery_wait_timeout_ms(None), 180_000);
    assert_eq!(rpc_timeout_ms(Some("x")), 5_000);
}

#[test]
fn uri_construction_and_text() {
    let u = uri("vin.vehicles", 0x800A, 2, 0x1A50);
    assert_eq!(u.to_uri(true), "up://vin.vehicles/800A/2/1A50");
    assert_eq!(uri("", 1, 1, 0).to_uri(false), "/1/1/0");
    assert!(Uri::try_from_parts("not valid", 1, 1, 1).is_err());
    assert!(Uri::try_from_parts("host:8080", 1, 1, 1).is_err());
    assert_eq!(uri("*", 0xFFFF, 1, 2).authority_name, "*");
}

#[test]
fn vsomeip_topology() {
    assert!(is_mqtt_wildcard_ue_id(0xFFFF));
    assert!(is_mqtt_wildcard_ue_id(u32::MAX));
    assert!(!is_mqtt_wildcard_ue_id(0x1FFFF));
    assert!(is_wildcard_resource_id(0xFFFF));
    let n = normalize_uri_for_vsomeip(&uri("ecu-a", 0x1234, 1, 0x8001));
    assert_eq!(parts(&n), (String::new(), 0x1234, 1, 0x8001));

    let r = VsomeipTopologyResolver::new("ecu-a".to_string());
    // any source entity with a wildcard sink resource: nothing concrete
    let none = r.local_listener_candidates(&uri("*", 0xFFFF, 1, 1), Some(&uri("", 5, 1, 0xFFFF)));
    assert!(none.is_empty());
    // wildcard source: the sink's entity with the source's resource
    let one = r.local_listener_candidates(&uri("*", 0, 1, 0x8001), Some(&uri("", 5, 2, 0x9000)));
    assert_eq!(one.len(), 1);
    assert_eq!(parts(&one[0]), (String::new(), 5, 2, 0x8001));
    // a remote authority: local form, local authority form, the source itself
    let three = r.local_listener_candidates(&uri("ecu-b", 0x10, 1, 0x8001), None);
    let p: Vec<_> = three.iter().map(parts).collect();
    assert_eq!(
        p,
        vec![
            (String::new(), 0x10, 1, 0x8001),
            ("ecu-a".to_string(), 0x10, 1, 0x8001),
            ("ecu-b".to_string(), 0x10, 1, 0x8001)
        ]
    );
    // the local authority: the source and its local form
    let two = r.local_listener_candidates(&uri("ecu-a", 0x10, 1, 0x8001), None);
    assert_eq!(two.len(), 2);
    assert_eq!(parts(&two[0]), ("ecu-a".to_string(), 0x10, 1, 0x8001));
    // an empty authority: duplicates removed
    let dedup = r.local_listener_candidates(&uri("", 0x10, 1, 0x8001), None);
    assert_eq!(dedup.len(), 2);
    let r2 = VsomeipTopologyResolver::new(String::new());
    let single = r2.local_listener_candidates(&uri("", 0x10, 1, 0x8001), None);
    assert_eq!(single.len(), 1);
}

#[test]
fn cloud_routing() {
    let cloud = Some("cloud.bridge");
    assert!(is_cloud_bound(&uri("cloud.bridge", 0, 0, 0), cloud, true));
    assert!(is_cloud_bound(&uri("cloud.bridge", 0x10, 1, 5), cloud, true));
    assert!(!is_cloud_bound(&uri("ecu-b", 0, 0, 0), cloud, true));
    assert!(!is_cloud_bound(&uri("*", 0, 0, 0), cloud, true));
    assert!(!is_cloud_bound(&uri("", 0, 0, 0), cloud, true));
    assert!(!is_cloud_bound(&uri("cloud.bridge", 0, 0, 0), None, true));
    assert!(is_cloud_bound(&uri("*", 0, 0, 0), Some("*"), true));
    assert!(!is_cloud_bound(&uri("*", 1, 0, 0), Some("*"), true));

    // An MQTT wildcard entity id, or a node without vSomeIP, is cloud-bound.
    assert!(is_cloud_bound(&uri("ecu-b", 0xFFFF, 1, 0x8001), None, true));
    let any_entity = Uri {
        authority_name: "ecu-b".to_string(),
        ue_id: u32::MAX,
        ue_version_major: 1,
        resource_id: 1,
    };
    assert!(is_cloud_bound(&any_entity, None, true));
    assert!(is_cloud_bound(&uri("ecu-b", 0x1234, 1, 0x8001), None, false));
    assert!(!is_cloud_bound(&uri("ecu-b", 0xFFFE, 1, 0x8001), None, true));

    let local_sink = uri("ecu-a", 1, 1, 0);
    assert!(!listener_cloud_path(&uri("cloud.bridge", 1, 1, 1), Some(&local_sink), cloud, true));
    assert!(listener_cloud_path(&uri("cloud.bridge", 1, 1, 1), None, cloud, true));
    assert!(listener_cloud_path(&uri("ecu-b", 0xFFFF, 1, 1), None, None, true));
    assert!(listener_cloud_path(&uri("ecu-b", 5, 1, 1), Some(&local_sink), None, false));
    assert!(listener_cloud_path(&uri("*", 0xFFFF, 1, 1), Some(&uri("cloud.bridge", 0, 0, 0)), cloud, true));
}

fn fail_of(r: Route) -> Option<(StatusCode, String)> {
    match r {
        Route::Fail { code, message } => Some((code, message)),
        _ => None,
    }
}

#[test]
fn transport_choice() {
    let cloud = Some("cloud.bridge");
    assert!(matches!(route_send(None, cloud, true, true), Route::Vsomeip));
    assert_eq!(
        fail_of(route_send(None, cloud, false, true)),
        Some((StatusCode::Unavailable, "No transport available".to_string()))
    );
    let marker = uri("cloud.bridge", 0, 0, 0);
    assert!(matches!(route_send(Some(&marker), cloud, true, true), Route::Mqtt));
    assert_eq!(
        fail_of(route_send(Some(&marker), cloud, true, false)),
        Some((
            StatusCode::Unavailable,
            "Cloud-bound message cannot be sent: MQTT transport not configured".to_string()
        ))
    );
    let local = uri("ecu-b", 1, 1, 0);
    assert!(matches!(route_send(Some(&local), cloud, true, false), Route::Vsomeip));

    let src = uri("cloud.bridge", 1, 1, 1);
    assert_eq!(
        fail_of(route_listener(&src, None, cloud, true, true, true)),
        Some((
            StatusCode::InvalidArgument,
            "Cloud listener registration requires a sink filter".to_string()
        ))
    );
    assert_eq!(
        fail_of(route_listener(&src, None, cloud, true, true, false)),
        Some((
            StatusCode::InvalidArgument,
            "Cloud listener unregistration requires a sink filter".to_string()
        ))
    );
    assert_eq!(
        fail_of(route_listener(&src, None, cloud, true, false, true)),
        Some((StatusCode::Unavailable, "MQTT transport not configured".to_string()))
    );
    // Without vSomeIP every listener is on the cloud path.
    assert_eq!(
        fail_of(route_listener(&local, None, cloud, false, true, true)),
        Some((
            StatusCode::InvalidArgument,
            "Cloud listener registration requires a sink filter".to_string()
        ))
    );
    assert_eq!(
        fail_of(route_listener(&local, None, cloud, false, false, true)),
        Some((StatusCode::Unavailable, "MQTT transport not configured".to_string()))
    );
    assert!(matches!(route_listener(&local, None, cloud, true, true, true), Route::Vsomeip));
    assert!(matches!(route_receive(&src, None, cloud, false, true), Route::Mqtt));
    assert!(matches!(route_receive(&local, None, cloud, false, true), Route::Mqtt));
    assert_eq!(
        fail_of(route_receive(&local, None, cloud, false, false)),
        Some((StatusCode::Unavailable, "Cloud-bound receive requires MQTT transport".to_string()))
    );
    assert!(matches!(route_receive(&local, None, cloud, true, false), Route::Vsomeip));

    // Addressed traffic to an MQTT wildcard entity, or from a node without vSomeIP, goes to MQTT.
    let wildcard = uri("ecu-b", 0xFFFF, 1, 0x8001);
    assert!(matches!(route_send(Some(&wildcard), None, true, true), Route::Mqtt));
    assert!(matches!(route_send(Some(&local), cloud, false, true), Route::Mqtt));
    assert_eq!(
        fail_of(route_send(Some(&local), cloud, false, false)),
        Some((
            StatusCode::Unavailable,
            "Cloud-bound message cannot be sent: MQTT transport not configured".to_string()
        ))
    );
}

#[test]
fn cloud_registration_retries() {
    assert!(matches!(cloud_register_step(true, false, 50), RetryStep::Done));
    assert!(matches!(
        cloud_register_step(false, true, 50),
        RetryStep::Retry { delay_ms: 100, retries_left: 49 }
    ));
    assert!(matches!(cloud_register_step(false, true, 0), RetryStep::GiveUp));
    assert!(matches!(cloud_register_step(false, false, 10), RetryStep::GiveUp));
    let mut left = 50;
    let mut attempts = 1;
    while let RetryStep::Retry { retries_left, .. } = cloud_register_step(false, true, left) {
        left = retries_left;
        attempts += 1;
    }
    assert_eq!(attempts, 51);
}

fn event(kind: &str, name: &str, authority: &str) -> DiscoveryEvent {
    DiscoveryEvent {
        kind: kind.to_string(),
        name: name.to_string(),
        provider_ue_id: 0x5234,
        major_version: 1,
        provider_authority: authority.to_string(),
        protocol_version: 1,
        resource_id: 0x8123,
    }
}

#[test]
fn discovery_activates_waiting_subscriptions() {
    let mut s = DiscoveryState::new();
    s.enqueue_pending("/t", PendingSubscription { listener: 1, expects_resource: true, source_authority: None });
    s.enqueue_pending(
        "/t",
        PendingSubscription { listener: 2, expects_resource: false, source_authority: Some("ecu-x".to_string()) },
    );
    s.enqueue_pending("/u", PendingSubscription { listener: 3, expects_resource: true, source_authority: None });
    let acts = s.handle_event(event("topic_publish", "/t", ""), "ecu-a");
    assert_eq!(acts.len(), 1);
    assert_eq!(acts[0].listener, 1);
    assert_eq!(parts(&acts[0].uri), ("ecu-a".to_string(), 0x5234, 1, 0x8123));
    assert_eq!(acts[0].expected_resource_id, Some(0x8123));
    let p = s.lookup_topic_publisher("/t").unwrap();
    assert_eq!(p.authority, "ecu-a");
    // listener 2 wants ecu-x: it keeps waiting and is activated by ecu-x
    let acts = s.handle_event(event("topic_publish", "/t", "ecu-x"), "ecu-a");
    assert_eq!(acts.len(), 1);
    assert_eq!(acts[0].listener, 2);
    assert_eq!(acts[0].expected_resource_id, None);
    assert!(s.handle_event(event("topic_publish", "/t", "ecu-x"), "ecu-a").is_empty());
}

#[test]
fn discovery_records_providers() {
    let mut s = DiscoveryState::new();
    assert!(s.lookup_rpc_provider("/rpc/e").is_none());
    assert!(s.handle_event(event("rpc_provide", "/rpc/e", "ecu-b"), "ecu-a").is_empty());
    let p = s.lookup_rpc_provider("/rpc/e").unwrap();
    assert_eq!((p.authority.as_str(), p.ue_id, p.resource_id), ("ecu-b", 0x5234, 0x8123));
    assert!(s.handle_event(event("other", "/rpc/f", "ecu-b"), "ecu-a").is_empty());
    assert!(s.lookup_rpc_provider("/rpc/f").is_none());
    assert!(s.lookup_topic_publisher("/rpc/f").is_none());
}

#[test]
fn identity_resolution() {
    assert_eq!(derive_topic_publish_ue_id(0x1234), 0x5234);
    assert_eq!(derive_topic_publish_ue_id(0x4000), 0x2000);
    assert_eq!(derive_topic_publish_ue_id(0xBFFF), 0xDFFF);
    assert_eq!(topic_publish_service_id_for(0x4000), 0x2000);
    assert_eq!(resolve_authority(Some(" node "), Some("x"), None), "node");
    assert_eq!(resolve_authority(Some("  "), Some(" up "), Some("h")), " up ");
    assert_eq!(resolve_authority(None, Some(" "), Some("host")), "host");
    assert_eq!(resolve_authority(None, None, None), "local_ecu");
    assert_eq!(resolve_ue_id(Some("0x3456"), None), 0x3456);
    assert_eq!(resolve_ue_id(Some("123"), None), 123);
    let derived = resolve_ue_id(Some("0xZZ"), Some("rtt_server"));
    let h = fnv(b"rtt_server");
    let v = (h ^ (h >> 16)) as u16;
    assert_eq!(derived, if v < 0x1000 { v + 0x1000 } else { v });
    assert!(resolve_ue_id(None, None) >= 0x1000);
    assert!(vsomeip_enabled(None));
    assert!(!vsomeip_enabled(Some("true")));
    assert!(vsomeip_enabled(Some("TRUE")));
}

#[test]
fn startup_requires_vsomeip_for_rpc() {
    let mut m = ManifestConfig::default();
    m.rpc.provide.insert("/rpc/library/echo".to_string());
    match plan_startup(&m, false, 16) {
        Err(PacomError::Config(msg)) => {
            assert!(msg.contains("RPC capabilities require the vSomeIP transport"))
        }
        _ => panic!("expected a configuration error"),
    }
    let mut t = ManifestConfig::default();
    t.topics.publish.insert("/events/out".to_string());
    t.topics.publish.insert("/cloud/up".to_string());
    t.topics.subscribe.insert("/events/in".to_string());
    let p = plan_startup(&t, false, 16).unwrap();
    assert!(p.discovery_uris.is_empty());
    assert!(!p.create_rpc_components);
    let p = plan_startup(&t, true, 4).unwrap();
    assert_eq!(p.discovery_uris.len(), 4);
    assert_eq!(parts(&p.discovery_uris[3]), ("*".to_string(), 0x0F03, 1, 0x8F01));
    assert_eq!(p.capabilities.published_topics.len(), 1);
    assert_eq!(p.capabilities.published_topics.get(0), "/events/out");
}

#[test]
fn publish_and_subscribe_plans() {
    let mut m = ManifestConfig::default();
    m.topics.publish.insert("/events/out".to_string());
    m.topics.publish.insert("/cloud/up".to_string());
    m.topics.subscribe.insert("/events/in".to_string());
    m.topics.subscribe.insert("/cloud/down".to_string());
    m.resolve_and_store_ids();
    let mut caps = ProvidedCapabilities { rpc_services: NameSet::new(), published_topics: NameSet::new() };

    match plan_publish(&m, &mut caps, "/events/undeclared", None, "node", 0x3456, 16) {
        Err(PacomError::ManifestViolation { operation, name }) => {
            assert_eq!(operation, "topics.publish");
            assert_eq!(name, "/events/undeclared");
        }
        _ => panic!("expected a manifest violation"),
    }
    match plan_publish(&m, &mut caps, "/events/out", None, "node", 0x3456, 16).unwrap() {
        PublishPlan::Local { uri, announce_source, announcement } => {
            assert_eq!(parts(&uri), ("node".to_string(), 0x7456, 1, m.resource_id_for("/events/out") as u32));
            assert_eq!(parts(&announce_source), ("node".to_string(), 0x0F00 + (0x3456 % 16), 1, 0x8F01));
            assert_eq!(announcement.kind, "topic_publish");
            assert_eq!(announcement.provider_ue_id, 0x7456);
        }
        _ => panic!("expected a local publish"),
    }
    assert!(caps.published_topics.contains("/events/out"));
    assert!(matches!(
        plan_publish(&m, &mut caps, "/cloud/up", None, "node", 0x3456, 16),
        Err(PacomError::Config(_))
    ));
    match plan_publish(&m, &mut caps, "/cloud/up", Some(" cloud.bridge "), "node", 0x3456, 16).unwrap() {
        PublishPlan::ToAuthority { source, sink } => {
            assert_eq!(parts(&source).1, 0x3456);
            assert_eq!(parts(&sink), ("cloud.bridge".to_string(), 0, 0, 0));
        }
        _ => panic!("expected a cloud notification"),
    }
    assert!(!caps.published_topics.contains("/cloud/up"));

    let mut s = DiscoveryState::new();
    match plan_subscribe(&m, &mut s, "/events/undeclared", None, 7) {
        Err(PacomError::ManifestViolation { operation, .. }) => assert_eq!(operation, "topics.subscribe"),
        _ => panic!("expected a manifest violation"),
    }
    assert!(matches!(plan_subscribe(&m, &mut s, "/events/in", None, 7), Ok((SubscribePlan::Pending, 0))));
    let res = m.resource_id_for("/cloud/down");
    match plan_subscribe(&m, &mut s, "/cloud/down", Some("cloud.bridge"), 8).unwrap() {
        (SubscribePlan::Register { source, sink: Some(k) }, x) => {
            assert_eq!(x, res);
            assert_eq!(parts(&source), ("*".to_string(), 0xFFFF, 1, res as u32));
            assert_eq!(parts(&k), ("cloud.bridge".to_string(), 0, 0, 0));
        }
        _ => panic!("expected a cloud registration"),
    }
    let acts = s.handle_event(event("topic_publish", "/events/in", "ecu-b"), "x");
    assert_eq!(acts.len(), 1);
    assert_eq!(acts[0].listener, 7);
    match plan_subscribe(&m, &mut s, "/events/in", None, 9).unwrap() {
        (SubscribePlan::Register { source, sink: None }, 0) => {
            assert_eq!(parts(&source), ("ecu-b".to_string(), 0x5234, 1, 0x8123));
        }
        _ => panic!("expected an immediate registration"),
    }
    match plan_subscribe_from_authority(&m, &mut s, "/events/in", "cloud.bridge", Some("cloud.bridge"), 10)
        .unwrap()
    {
        (SubscribePlan::Register { source, sink: None }, x) => {
            assert_eq!(parts(&source), ("cloud.bridge".to_string(), 0xFFFF, 1, x as u32));
        }
        _ => panic!("expected a cloud registration"),
    }
    assert_eq!(cloud_authority_name(Some(" c ")).unwrap(), "c");
}

#[test]
fn rpc_rules() {
    let mut m = ManifestConfig::default();
    m.rpc.provide.insert("/rpc/echo".to_string());
    m.rpc.consume.insert("/rpc/remote".to_string());
    m.resolve_and_store_ids();
    assert!(check_rpc_consumed(&m, "/rpc/remote").is_ok());
    match check_rpc_consumed(&m, "/rpc/undeclared") {
        Err(PacomError::ManifestViolation { operation, name }) => {
            assert_eq!(operation, "rpc.consume");
            assert_eq!(name, "/rpc/undeclared");
        }
        _ => panic!("expected a manifest violation"),
    }
    assert_eq!(plan_register_rpc(&m, "/rpc/echo").unwrap(), m.method_id_for("/rpc/echo"));
    assert!(plan_register_rpc(&m, "/rpc/remote").is_err());
    assert!(matches!(rpc_wait_step(None, 1, 2, "/rpc/remote"), Ok(None)));
    match rpc_wait_step(None, 2, 2, "/rpc/remote") {
        Err(PacomError::DiscoveryTimeout { name, timeout_ms }) => {
            assert_eq!(name, "/rpc/remote");
            assert_eq!(timeout_ms, 2);
        }
        _ => panic!("expected a timeout"),
    }
    assert!(matches!(rpc_response(None), Err(PacomError::EmptyResponse)));
    assert_eq!(rpc_response(Some(vec![1, 2])).unwrap(), vec![1, 2]);
}

#[test]
fn listener_filter_and_topics() {
    assert!(deliver_payload(0, Some(5), true));
    assert!(!deliver_payload(7, Some(5), true));
    assert!(deliver_payload(7, Some(7), true));
    assert!(deliver_payload(7, None, true));
    assert!(!deliver_payload(0, None, false));
    assert!(is_cloud_topic(" /cloud/x"));
    assert!(!is_cloud_topic("/cloudx"));
}

#[test]
fn vsomeip_configuration_values() {
    assert_eq!(app_name(0x12ab), "app-0x12ab");
    assert_eq!(discovery_service_id_for(0x3456, 16), 0x0F06);
    assert_eq!(normalize_service_port_from_env(Some("40000"), 1), 40000);
    assert_eq!(normalize_service_port_from_env(Some("70000"), 1), 1);
    assert!(vsomeip_verbose_debug_enabled(Some(" ON ")));
    assert!(!vsomeip_verbose_debug_enabled(Some("maybe")));
    let settings = VsomeipSettings {
        log_level: None,
        rpc_port: None,
        topic_publish_port: Some("31000".to_string()),
        discovery_port: None,
        sd_port: None,
        multicast: None,
    };
    let p = plan_vsomeip_config(0x1234, "ecu-a", 16, &settings).unwrap();
    assert_eq!(p.config_path, "/tmp/vsomeip-app-0x1234.json");
    assert_eq!(p.topic_service, "0x5234");
    assert_eq!(p.discovery_service, "0x0f04");
    assert_eq!((p.rpc_port, p.topic_publish_port, p.discovery_port, p.sd_port), (30508, 31000, 30510, 30490));
    assert_eq!(p.log_level, "error");
    assert_eq!(p.multicast, "224.224.224.224");
    assert_eq!(p.instance, "0x0001");
    assert_eq!(p.discovery_event, "0x8f01");
    assert_eq!(p.sd_protocol, "udp");
    assert_eq!(
        (p.sd_initial_delay_min, p.sd_initial_delay_max, p.sd_repetitions_base_delay, p.sd_repetitions_max, p.sd_ttl),
        (10, 100, 200, 3, 3)
    );
    assert!(plan_vsomeip_config(0x1234, "bad authority", 16, &settings).is_err());
}
