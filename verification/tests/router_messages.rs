use pacom::discovery::{provider_dbg, ProviderInfo};
use pacom::router::is_local_only_publish;
use pacom::uri::Uri;
use pacom::utils::{payload_preview, uri_dbg};
use up_rust::{UMessage, UMessageBuilder, UPayloadFormat, UUri};

fn sink_of(msg: &UMessage) -> Option<Uri> {
    msg.attributes.sink.as_ref().map(|u| Uri {
        authority_name: u.authority_name.clone(),
        ue_id: u.ue_id,
        ue_version_major: u.ue_version_major,
        resource_id: u.resource_id,
    })
}

#[test]
fn local_publish_without_sink_is_local_only() {
    let source = UUri::try_from_parts("ecu-a", 0x1234, 1, 0x9449).unwrap();
    let msg = UMessageBuilder::publish(source)
        .build_with_payload(vec![1, 2, 3], UPayloadFormat::UPAYLOAD_FORMAT_RAW)
        .unwrap();

    assert!(is_local_only_publish(sink_of(&msg).as_ref()));
}

#[test]
fn notification_with_sink_is_not_local_only_publish() {
    let source = UUri::try_from_parts("ecu-a", 0x1234, 1, 0x2222).unwrap();
    let sink = UUri::try_from_parts("cloud.bridge", 0, 0, 0).unwrap();
    let msg = UMessageBuilder::notification(source, sink)
        .build_with_payload(vec![1, 2, 3], UPayloadFormat::UPAYLOAD_FORMAT_RAW)
        .unwrap();

    assert!(!is_local_only_publish(sink_of(&msg).as_ref()));
}

#[test]
fn uri_debug_rendering_lists_every_field() {
    let uri = Uri::try_from_parts("vin", 0x800A, 2, 0x1A50).unwrap();
    assert_eq!(
        uri_dbg(&uri),
        "//vin/800A/2/1A50 [auth='vin', ue=0x0000800A, ver=2, res=0x00001A50]"
    );
}

#[test]
fn payload_preview_is_capped_hex() {
    assert_eq!(payload_preview(&[0x01, 0xAB, 0xff, 0x10], 3), "01 AB FF");
    assert_eq!(payload_preview(&[0x7f], 24), "7F");
    assert_eq!(payload_preview(&[], 24), "");
    assert_eq!(payload_preview(&[1, 2], 0), "");
}

#[test]
fn provider_rendering() {
    let p = ProviderInfo {
        authority: "ecu-b".to_string(),
        ue_id: 0x4a2,
        major_version: 1,
        resource_id: 0x8001,
    };
    assert_eq!(provider_dbg(&p), "authority='ecu-b' ue=0x04A2 major=1 resource=0x8001");
}
