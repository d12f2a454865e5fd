use pacom::engine::{announcement, reannouncements, ProvidedCapabilities};
use pacom::error::PacomError;
use pacom::names::NameSet;
use pacom::router::fallback_resource_uri;
use pacom::uri::Uri;
use pacom::ManifestConfig;

fn parts(u: &Uri) -> (String, u32, u32, u32) {
    (u.authority_name.clone(), u.ue_id, u.ue_version_major, u.resource_id)
}

fn manifest() -> ManifestConfig {
    let mut m = ManifestConfig::default();
    m.rpc.provide.insert("/rpc/echo".to_string());
    m.topics.publish.insert("/t/a".to_string());
    m.resolve_and_store_ids();
    m
}

#[test]
fn announcement_names_the_channel_and_the_identifier() {
    let m = manifest();
    let (src, ev) = announcement(&m, "rpc_provide", "/rpc/echo", 0x1234, 0x1234, "ecu", 16).unwrap();
    assert_eq!(parts(&src), ("ecu".to_string(), 0x0F04, 1, 0x8F01));
    assert_eq!(ev.kind, "rpc_provide");
    assert_eq!(ev.name, "/rpc/echo");
    assert_eq!(ev.provider_ue_id, 0x1234);
    assert_eq!(ev.major_version, 1);
    assert_eq!(ev.provider_authority, "ecu");
    assert_eq!(ev.protocol_version, 1);
    assert_eq!(ev.resource_id, m.method_id_for("/rpc/echo"));

    let (_, topic) = announcement(&m, "topic_publish", "/t/a", 0x5234, 0x1234, "ecu", 16).unwrap();
    assert_eq!(topic.resource_id, m.resource_id_for("/t/a"));
    assert!(topic.resource_id >= 0x8000);
}

#[test]
fn announcement_from_an_invalid_authority_is_a_configuration_error() {
    let m = manifest();
    match announcement(&m, "rpc_provide", "/rpc/echo", 1, 1, "bad authority", 16) {
        Err(PacomError::Config(msg)) => assert!(msg.starts_with("Invalid discovery URI: ")),
        _ => panic!("expected a configuration error"),
    }
}

#[test]
fn reannouncements_cover_methods_then_topics() {
    let m = manifest();
    let mut rpc_services = NameSet::new();
    rpc_services.insert("/rpc/echo".to_string());
    let mut published_topics = NameSet::new();
    published_topics.insert("/t/a".to_string());
    let caps = ProvidedCapabilities { rpc_services, published_topics };

    let all = reannouncements(&m, &caps, 0x1234, "ecu", 16);
    assert_eq!(all.len(), 2);
    assert_eq!(parts(&all[0].0), ("ecu".to_string(), 0x0F04, 1, 0x8F01));
    assert_eq!(all[0].1.kind, "rpc_provide");
    assert_eq!(all[0].1.provider_ue_id, 0x1234);
    assert_eq!(all[1].1.kind, "topic_publish");
    assert_eq!(all[1].1.name, "/t/a");
    assert_eq!(all[1].1.provider_ue_id, 0x5234);

    assert!(reannouncements(&m, &caps, 0x1234, "bad authority", 16).is_empty());
}

#[test]
fn fallback_resource_uri_is_on_entity_zero() {
    let u = fallback_resource_uri("ecu", 7).unwrap();
    assert_eq!(parts(&u), ("ecu".to_string(), 0, 0, 7));
    assert!(fallback_resource_uri("bad authority", 7).is_err());
}

#[test]
fn resolution_without_collisions_keeps_hash_ids() {
    let mut m = ManifestConfig::default();
    m.rpc.provide.insert("/rpc/a".to_string());
    m.rpc.provide.insert("/rpc/b".to_string());
    m.topics.publish.insert("/t/a".to_string());
    m.topics.publish.insert("/t/b".to_string());
    let before = (
        m.method_id_for("/rpc/a"),
        m.method_id_for("/rpc/b"),
        m.resource_id_for("/t/a"),
        m.resource_id_for("/t/b"),
    );
    assert_ne!(before.0, before.1);
    assert_ne!(before.2, before.3);
    m.resolve_and_store_ids();
    let after = (
        m.method_id_for("/rpc/a"),
        m.method_id_for("/rpc/b"),
        m.resource_id_for("/t/a"),
        m.resource_id_for("/t/b"),
    );
    assert_eq!(before, after);
}
