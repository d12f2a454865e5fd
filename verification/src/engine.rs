//! Runtime configuration and the decisions of the runtime engine: identity, start-up,
//! publishing, subscribing, RPC and discovery announcements.

use vstd::prelude::*;
use vstd::string::*;
use crate::text::{spec_trim, trim, spec_starts_with, starts_with};
use crate::logical_registry::{fnv1a32, fnv_absorb};
use crate::utils::{spec_parse, parse_unsigned, spec_non_empty, env_string_non_empty};
use crate::error::PacomError;
use crate::uri::{Uri, UriView, spec_from_parts};
use crate::names::NameSet;
use crate::logical_registry::{ManifestConfig, spec_method_id, spec_resource_id};
use crate::discovery::{DiscoveryEvent, DiscoveryState, EventView, PendingSubscription, ProviderInfo, ProviderView, opt_view};

verus! {

/// Optional MQTT 5 broker configuration for cloud messaging.
pub struct MqttConfig {
    /// The URI of the MQTT broker (e.g. "mqtt://127.0.0.1:1883").
    pub broker_uri: String,
    /// The client ID to use for the MQTT connection.
    pub client_id: String,
}

/// Runtime configuration including optional cloud transport parameters.
pub struct RuntimeConfig {
    /// Optional MQTT 5 broker options for cloud-bound messaging.
    pub mqtt_config: Option<MqttConfig>,
    /// Optional path to the application manifest JSON file; if `None`, the path given by
    /// the environment, then the system-wide default path.
    pub manifest_path: Option<String>,
    /// Optional logical identity of this node; falls back to `UP_AUTHORITY`, then
    /// `HOSTNAME`, then `local_ecu`.
    pub authority: Option<String>,
}

impl Default for RuntimeConfig {
    fn default() -> (c: Self)
        ensures
            c.mqtt_config is None,
            c.manifest_path is None,
            c.authority is None,
    {
        RuntimeConfig { mqtt_config: None, manifest_path: None, authority: None }
    }
}

/// Configuration of the platform client: optional MQTT connection parameters.
pub struct SdkConfig {
    /// Optional MQTT 5 broker options for cloud-bound messaging.
    pub mqtt_config: Option<MqttConfig>,
}

/// The plain value of an optional string slice.
pub open spec fn sv(o: Option<&str>) -> Option<Seq<char>> {
    match o {
        Some(s) => Some(s@),
        None => None,
    }
}

/// Whether a topic name denotes a cloud topic: once trimmed, it starts with `/cloud/`.
pub open spec fn spec_is_cloud_topic(name: Seq<char>) -> bool {
    spec_starts_with(spec_trim(name), "/cloud/"@)
}

/// Returns whether `name` is a cloud topic.
pub fn is_cloud_topic(name: &str) -> (b: bool)
    ensures
        b == spec_is_cloud_topic(name@),
{
    let t = trim(name);
    starts_with(t.as_str(), "/cloud/")
}

/// The entity id the application publishes its topics under: its own id with bit 14
/// flipped, and bit 13 flipped too if that gave 0 or 0xFFFF.
pub open spec fn spec_topic_publish_ue_id(base: u16) -> u16 {
    let t = base ^ 0x4000u16;
    if t == 0 || t == 0xFFFF {
        t ^ 0x2000u16
    } else {
        t
    }
}

/// Derives the entity id of the topic publications of an application from its own id.
pub fn derive_topic_publish_ue_id(base_ue_id: u16) -> (t: u16)
    ensures
        t == spec_topic_publish_ue_id(base_ue_id),
        t != base_ue_id,
        t != 0,
        t != 0xFFFF,
{
    let mut topic_ue = base_ue_id ^ 0x4000;
    if topic_ue == 0 || topic_ue == 0xFFFF {
        topic_ue = topic_ue ^ 0x2000;
    }
    assert((base_ue_id ^ 0x4000u16) != base_ue_id) by (bit_vector);
    assert(((base_ue_id ^ 0x4000u16) == 0 || (base_ue_id ^ 0x4000u16) == 0xFFFF) ==> ((base_ue_id
        ^ 0x4000u16) ^ 0x2000u16) != base_ue_id && ((base_ue_id ^ 0x4000u16) ^ 0x2000u16) != 0
        && ((base_ue_id ^ 0x4000u16) ^ 0x2000u16) != 0xFFFF) by (bit_vector);
    topic_ue
}

/// The version of the discovery protocol announced by this runtime.
pub fn default_protocol_version() -> (v: u16)
    ensures
        v == 1,
{
    1
}

/// The authority of this node: the configured one (trimmed) if not blank, else the
/// `UP_AUTHORITY` setting if not blank, else `HOSTNAME` if not blank, else `local_ecu`.
pub open spec fn spec_authority(config: Option<Seq<char>>, up_authority: Option<Seq<char>>, hostname: Option<Seq<char>>) -> Seq<char> {
    match spec_non_empty(config) {
        Some(a) => a,
        None => match up_authority {
            Some(u) if spec_trim(u).len() > 0 => u,
            _ => match hostname {
                Some(h) if spec_trim(h).len() > 0 => h,
                _ => "local_ecu"@,
            },
        },
    }
}

/// Resolves the node's authority from the configuration and the `UP_AUTHORITY` and
/// `HOSTNAME` settings.
pub fn resolve_authority(config: Option<&str>, up_authority: Option<&str>, hostname: Option<&str>) -> (a: String)
    ensures
        a@ == spec_authority(sv(config), sv(up_authority), sv(hostname)),
{
    if let Some(a) = env_string_non_empty(config) {
        return a;
    }
    if let Some(u) = up_authority {
        if trim(u).as_str().unicode_len() > 0 {
            return u.to_owned();
        }
    }
    if let Some(h) = hostname {
        if trim(h).as_str().unicode_len() > 0 {
            return h.to_owned();
        }
    }
    String::from_str("local_ecu")
}

/// The entity id derived from an executable name: FNV-1a of its UTF-8 bytes folded to 16
/// bits, moved up by 0x1000 when below 0x1000.
pub open spec fn spec_ue_id_from_name(name: Seq<char>) -> u16 {
    let h = fnv1a32(vstd::utf8::encode_utf8(name));
    let v = (h ^ (h >> 16u32)) as u16;
    if v < 0x1000 {
        (v + 0x1000) as u16
    } else {
        v
    }
}

/// The entity id given by a `UP_UE_ID` setting: hexadecimal after a `0x` prefix, decimal
/// otherwise; `None` when it does not read as a `u16`.
pub open spec fn spec_ue_id_setting(v: Seq<char>) -> Option<u16> {
    let r = if spec_starts_with(v, "0x"@) {
        spec_parse(v.subrange(2, v.len() as int), 16, 0xFFFF)
    } else {
        spec_parse(v, 10, 0xFFFF)
    };
    match r {
        Some(n) => Some(n as u16),
        None => None,
    }
}

/// The entity id of the application: the `UP_UE_ID` setting when it reads as a `u16`,
/// otherwise derived from the executable's file name (`default_app` when unknown).
pub open spec fn spec_ue_id(setting: Option<Seq<char>>, exe_name: Option<Seq<char>>) -> u16 {
    match (match setting {
        Some(v) => spec_ue_id_setting(v),
        None => None,
    }) {
        Some(id) => id,
        None => spec_ue_id_from_name(
            match exe_name {
                Some(n) => n,
                None => "default_app"@,
            },
        ),
    }
}

/// Resolves the application's entity id from the `UP_UE_ID` setting, or derives a stable
/// one from the executable's file name.
pub fn resolve_ue_id(setting: Option<&str>, exe_name: Option<&str>) -> (id: u16)
    ensures
        id == spec_ue_id(sv(setting), sv(exe_name)),
        setting is None || spec_ue_id_setting(sv(setting).unwrap()) is None ==> id >= 0x1000,
{
    if let Some(v) = setting {
        let parsed = if starts_with(v, "0x") {
            proof {
                reveal_strlit("0x");
            }
            let rest = v.substring_char(2, v.unicode_len());
            parse_unsigned(rest, 16, 0xFFFF)
        } else {
            parse_unsigned(v, 10, 0xFFFF)
        };
        if let Some(n) = parsed {
            return n as u16;
        }
    }
    let name = match exe_name {
        Some(n) => n.to_owned(),
        None => String::from_str("default_app"),
    };
    let bytes = name.as_str().as_bytes();
    assert(Seq::<u8>::empty() + bytes@ =~= bytes@);
    let h = fnv_absorb(0x811c9dc5u32, bytes, Ghost(Seq::empty()));
    let val = (h ^ (h >> 16u32)) as u16;
    if val < 0x1000 {
        val + 0x1000
    } else {
        val
    }
}

// ── Errors ─────────────────────────────────────────────────────

/// `e` is a configuration error whose message starts with `prefix`.
pub open spec fn is_config_error(e: PacomError, prefix: Seq<char>) -> bool {
    e matches PacomError::Config(m) && spec_starts_with(m@, prefix)
}

/// `e` is the manifest violation of `operation` for `name`.
pub open spec fn is_violation(e: PacomError, operation: Seq<char>, name: Seq<char>) -> bool {
    e matches PacomError::ManifestViolation { operation: o, name: n } && o@ == operation && n@ == name
}

fn config_error(prefix: &str, detail: String) -> (e: PacomError)
    ensures
        is_config_error(e, prefix@),
{
    let mut m = prefix.to_owned();
    crate::text::push_str(&mut m, detail.as_str());
    assert(m@.take(prefix@.len() as int) =~= prefix@);
    PacomError::Config(m)
}

fn violation(operation: &str, name: &str) -> (e: PacomError)
    ensures
        is_violation(e, operation@, name@),
{
    PacomError::ManifestViolation { operation: operation.to_owned(), name: name.to_owned() }
}

/// The configured cloud authority (trimmed) for cloud operations; a configuration error
/// when the `PACOM_CLOUD_AUTHORITY` setting is unset or blank.
pub fn cloud_authority_name(setting: Option<&str>) -> (r: Result<String, PacomError>)
    ensures
        match r {
            Ok(a) => spec_non_empty(sv(setting)) == Some(a@),
            Err(e) => spec_non_empty(sv(setting)) is None && is_config_error(
                e,
                "PACOM_CLOUD_AUTHORITY environment variable must be set for cloud operations"@,
            ),
        },
{
    match env_string_non_empty(setting) {
        Some(a) => Ok(a),
        None => Err(
            config_error(
                "PACOM_CLOUD_AUTHORITY environment variable must be set for cloud operations",
                String::new(),
            ),
        ),
    }
}

/// The source filter of cloud subscriptions: any authority, entity 0xFFFF, major 1, the
/// topic's resource id.
pub fn cloud_wildcard_source_uri(resource_id: u16) -> (r: Result<Uri, PacomError>)
    ensures
        match r {
            Ok(u) => spec_from_parts("*"@, 0xFFFF, 1, resource_id) == Some(u@),
            Err(e) => spec_from_parts("*"@, 0xFFFF, 1, resource_id) is None && is_config_error(
                e,
                "Invalid cloud source URI: "@,
            ),
        },
{
    match Uri::try_from_parts("*", 0xFFFF, 1, resource_id) {
        Ok(u) => Ok(u),
        Err(d) => Err(config_error("Invalid cloud source URI: ", d)),
    }
}

/// The cross-domain marker sink `//authority/0/0/0`.
pub fn cloud_sink_marker_uri(authority: &str) -> (r: Result<Uri, PacomError>)
    ensures
        match r {
            Ok(u) => spec_from_parts(authority@, 0, 0, 0) == Some(u@),
            Err(e) => spec_from_parts(authority@, 0, 0, 0) is None && is_config_error(
                e,
                "Invalid cloud sink URI: "@,
            ),
        },
{
    match Uri::try_from_parts(authority, 0, 0, 0) {
        Ok(u) => Ok(u),
        Err(d) => Err(config_error("Invalid cloud sink URI: ", d)),
    }
}

fn uri_or_config(authority: &str, entity_id: u32, version: u8, resource_id: u16, prefix: &str) -> (r: Result<
    Uri,
    PacomError,
>)
    ensures
        match r {
            Ok(u) => spec_from_parts(authority@, entity_id, version, resource_id) == Some(u@),
            Err(e) => spec_from_parts(authority@, entity_id, version, resource_id) is None
                && is_config_error(e, prefix@),
        },
{
    match Uri::try_from_parts(authority, entity_id, version, resource_id) {
        Ok(u) => Ok(u),
        Err(d) => Err(config_error(prefix, d)),
    }
}

// ── Discovery channels and announcements ───────────────────────

/// Entity id of the first discovery channel.
pub const DISCOVERY_UE_ID: u16 = 0x0F00;

/// Resource id of discovery announcements.
pub const DISCOVERY_RESOURCE_ID: u16 = 0x8F01;

/// The discovery channel an application of entity id `ue_id` announces on.
pub open spec fn spec_channel(ue_id: u16, channels: u16) -> u16 {
    (ue_id % channels) as u16
}

/// The announcement of capability `name` of `kind` by a provider of entity id
/// `provider_ue_id`, sent by the application of entity id `local_ue_id` on node
/// `authority`, and the discovery URI it is sent from.
pub open spec fn spec_announcement(
    m: ManifestConfig,
    kind: Seq<char>,
    name: Seq<char>,
    provider_ue_id: u16,
    local_ue_id: u16,
    authority: Seq<char>,
    channels: u16,
) -> (Option<UriView>, EventView) {
    (
        spec_from_parts(
            authority,
            (0x0F00 + spec_channel(local_ue_id, channels)) as u32,
            1,
            0x8F01,
        ),
        (
            kind,
            name,
            provider_ue_id,
            1u8,
            authority,
            1u16,
            if kind == "rpc_provide"@ {
                spec_method_id(m.resolved_rpc_ids.map(), name)
            } else {
                spec_resource_id(m.resolved_topic_ids.map(), name)
            },
        ),
    )
}

/// Builds a discovery announcement and the URI it is sent from (a configuration error when
/// that URI cannot be built).
pub fn announcement(
    manifest: &ManifestConfig,
    kind: &str,
    name: &str,
    provider_ue_id: u16,
    local_ue_id: u16,
    authority: &str,
    channels: u16,
) -> (r: Result<(Uri, DiscoveryEvent), PacomError>)
    requires
        1 <= channels <= 64,
    ensures
        ({
            let s = spec_announcement(*manifest, kind@, name@, provider_ue_id, local_ue_id, authority@, channels);
            match r {
                Ok((u, e)) => s.0 == Some(u@) && e@ == s.1,
                Err(e) => s.0 is None && is_config_error(e, "Invalid discovery URI: "@),
            }
        }),
{
    let channel = local_ue_id % channels;
    let source = uri_or_config(
        authority,
        (DISCOVERY_UE_ID + channel) as u32,
        1,
        DISCOVERY_RESOURCE_ID,
        "Invalid discovery URI: ",
    )?;
    let k = kind.to_owned();
    let rpc = String::from_str("rpc_provide");
    let resource_id = if k == rpc {
        manifest.method_id_for(name)
    } else {
        manifest.resource_id_for(name)
    };
    let event = DiscoveryEvent {
        kind: k,
        name: name.to_owned(),
        provider_ue_id,
        major_version: 1,
        provider_authority: authority.to_owned(),
        protocol_version: default_protocol_version(),
        resource_id,
    };
    Ok((source, event))
}

/// The capabilities this application offers and announces.
pub struct ProvidedCapabilities {
    /// RPC methods served.
    pub rpc_services: NameSet,
    /// Local (non-cloud) topics published.
    pub published_topics: NameSet,
}

/// The announcements of a periodic re-announcement: one `rpc_provide` per served method
/// (provider: the application), then one `topic_publish` per published topic (provider:
/// the topic publishing entity); none when the discovery URI cannot be built.
pub open spec fn spec_reannouncements(
    m: ManifestConfig,
    services: Seq<Seq<char>>,
    topics: Seq<Seq<char>>,
    local_ue_id: u16,
    authority: Seq<char>,
    channels: u16,
) -> Seq<EventView> {
    let src = spec_from_parts(authority, (0x0F00 + spec_channel(local_ue_id, channels)) as u32, 1, 0x8F01);
    if src is None {
        Seq::empty()
    } else {
        services.map_values(
            |n: Seq<char>|
                spec_announcement(m, "rpc_provide"@, n, local_ue_id, local_ue_id, authority, channels).1,
        ) + topics.map_values(
            |n: Seq<char>|
                spec_announcement(
                    m,
                    "topic_publish"@,
                    n,
                    spec_topic_publish_ue_id(local_ue_id),
                    local_ue_id,
                    authority,
                    channels,
                ).1,
        )
    }
}

/// The announcements to re-send periodically so that late listeners learn this
/// application's capabilities, each with the URI it is sent from.
pub fn reannouncements(
    manifest: &ManifestConfig,
    caps: &ProvidedCapabilities,
    local_ue_id: u16,
    authority: &str,
    channels: u16,
) -> (v: Vec<(Uri, DiscoveryEvent)>)
    requires
        1 <= channels <= 64,
    ensures
        v@.map_values(|x: (Uri, DiscoveryEvent)| x.1@) == spec_reannouncements(
            *manifest,
            caps.rpc_services.elems(),
            caps.published_topics.elems(),
            local_ue_id,
            authority@,
            channels,
        ),
        forall|i: int| 0 <= i < v@.len() ==> spec_from_parts(
            authority@,
            (0x0F00 + spec_channel(local_ue_id, channels)) as u32,
            1,
            0x8F01,
        ) == Some(#[trigger] v@[i].0@),
{
    let ghost m = *manifest;
    let ghost svcs = caps.rpc_services.elems();
    let ghost tps = caps.published_topics.elems();
    let ghost src = spec_from_parts(authority@, (0x0F00 + spec_channel(local_ue_id, channels)) as u32, 1, 0x8F01);
    let topic_ue = derive_topic_publish_ue_id(local_ue_id);
    let mut out: Vec<(Uri, DiscoveryEvent)> = Vec::new();
    let ns = caps.rpc_services.len();
    let mut i: usize = 0;
    while i < ns
        invariant
            ns == svcs.len(),
            svcs == caps.rpc_services.elems(),
            1 <= channels <= 64,
            i <= ns,
            m == *manifest,
            src == spec_from_parts(authority@, (0x0F00 + spec_channel(local_ue_id, channels)) as u32, 1, 0x8F01),
            src is Some ==> out@.map_values(|x: (Uri, DiscoveryEvent)| x.1@) == svcs.take(i as int).map_values(
                |n: Seq<char>|
                    spec_announcement(m, "rpc_provide"@, n, local_ue_id, local_ue_id, authority@, channels).1,
            ),
            src is None ==> out@.len() == 0,
            forall|k: int| 0 <= k < out@.len() ==> src == Some(#[trigger] out@[k].0@),
        decreases ns - i,
    {
        let name = caps.rpc_services.get(i);
        let ghost prev = out@.map_values(|x: (Uri, DiscoveryEvent)| x.1@);
        match announcement(manifest, "rpc_provide", name.as_str(), local_ue_id, local_ue_id, authority, channels) {
            Ok(a) => {
                let ghost ev = a.1@;
                out.push(a);
                assert(out@.map_values(|x: (Uri, DiscoveryEvent)| x.1@) =~= prev.push(ev));
            },
            Err(_) => {},
        }
        assert(svcs.take(i + 1).map_values(
            |n: Seq<char>|
                spec_announcement(m, "rpc_provide"@, n, local_ue_id, local_ue_id, authority@, channels).1,
        ) =~= svcs.take(i as int).map_values(
            |n: Seq<char>|
                spec_announcement(m, "rpc_provide"@, n, local_ue_id, local_ue_id, authority@, channels).1,
        ).push(spec_announcement(m, "rpc_provide"@, svcs[i as int], local_ue_id, local_ue_id, authority@, channels).1));
        i = i + 1;
    }
    assert(svcs.take(ns as int) =~= svcs);
    let ghost first = out@.map_values(|x: (Uri, DiscoveryEvent)| x.1@);
    let nt = caps.published_topics.len();
    let mut j: usize = 0;
    while j < nt
        invariant
            nt == tps.len(),
            tps == caps.published_topics.elems(),
            1 <= channels <= 64,
            j <= nt,
            m == *manifest,
            topic_ue == spec_topic_publish_ue_id(local_ue_id),
            src == spec_from_parts(authority@, (0x0F00 + spec_channel(local_ue_id, channels)) as u32, 1, 0x8F01),
            src is None ==> first.len() == 0,
            src is Some ==> out@.map_values(|x: (Uri, DiscoveryEvent)| x.1@) == first + tps.take(j as int).map_values(
                |n: Seq<char>|
                    spec_announcement(
                        m,
                        "topic_publish"@,
                        n,
                        spec_topic_publish_ue_id(local_ue_id),
                        local_ue_id,
                        authority@,
                        channels,
                    ).1,
            ),
            src is None ==> out@.len() == 0,
            forall|k: int| 0 <= k < out@.len() ==> src == Some(#[trigger] out@[k].0@),
        decreases nt - j,
    {
        let name = caps.published_topics.get(j);
        let ghost prev = out@.map_values(|x: (Uri, DiscoveryEvent)| x.1@);
        match announcement(manifest, "topic_publish", name.as_str(), topic_ue, local_ue_id, authority, channels) {
            Ok(a) => {
                let ghost ev = a.1@;
                out.push(a);
                assert(out@.map_values(|x: (Uri, DiscoveryEvent)| x.1@) =~= prev.push(ev));
            },
            Err(_) => {},
        }
        assert(tps.take(j + 1).map_values(
            |n: Seq<char>|
                spec_announcement(
                    m,
                    "topic_publish"@,
                    n,
                    spec_topic_publish_ue_id(local_ue_id),
                    local_ue_id,
                    authority@,
                    channels,
                ).1,
        ) =~= tps.take(j as int).map_values(
            |n: Seq<char>|
                spec_announcement(
                    m,
                    "topic_publish"@,
                    n,
                    spec_topic_publish_ue_id(local_ue_id),
                    local_ue_id,
                    authority@,
                    channels,
                ).1,
        ).push(
            spec_announcement(
                m,
                "topic_publish"@,
                tps[j as int],
                spec_topic_publish_ue_id(local_ue_id),
                local_ue_id,
                authority@,
                channels,
            ).1,
        ));
        j = j + 1;
    }
    assert(tps.take(nt as int) =~= tps);
    proof {
        if src is None {
            assert(out@.map_values(|x: (Uri, DiscoveryEvent)| x.1@) =~= Seq::<EventView>::empty());
        }
    }
    out
}

/// Re-announcement re-sends, in order, one `rpc_provide` event per served method, carrying
/// the method's identifier and the application as provider, then one `topic_publish`
/// event per published topic, carrying the topic's resource identifier and the topic
/// publishing entity as provider; all from this node, major version 1, protocol 1.
pub proof fn law_reannouncements_carry_the_right_ids(
    m: ManifestConfig,
    services: Seq<Seq<char>>,
    topics: Seq<Seq<char>>,
    local_ue_id: u16,
    authority: Seq<char>,
    channels: u16,
)
    requires
        spec_from_parts(authority, (0x0F00 + spec_channel(local_ue_id, channels)) as u32, 1, 0x8F01) is Some,
    ensures
        ({
            let r = spec_reannouncements(m, services, topics, local_ue_id, authority, channels);
            &&& r.len() == services.len() + topics.len()
            &&& forall|i: int|
                0 <= i < services.len() ==> #[trigger] r[i] == (
                    "rpc_provide"@,
                    services[i],
                    local_ue_id,
                    1u8,
                    authority,
                    1u16,
                    spec_method_id(m.resolved_rpc_ids.map(), services[i]),
                )
            &&& forall|i: int|
                0 <= i < topics.len() ==> #[trigger] r[services.len() + i] == (
                    "topic_publish"@,
                    topics[i],
                    spec_topic_publish_ue_id(local_ue_id),
                    1u8,
                    authority,
                    1u16,
                    spec_resource_id(m.resolved_topic_ids.map(), topics[i]),
                )
        }),
{
    reveal_strlit("rpc_provide");
    reveal_strlit("topic_publish");
    assert("topic_publish"@ != "rpc_provide"@) by {
        assert("topic_publish"@.len() != "rpc_provide"@.len());
    }
    let r = spec_reannouncements(m, services, topics, local_ue_id, authority, channels);
    assert forall|i: int| 0 <= i < topics.len() implies #[trigger] r[services.len() + i] == (
        "topic_publish"@,
        topics[i],
        spec_topic_publish_ue_id(local_ue_id),
        1u8,
        authority,
        1u16,
        spec_resource_id(m.resolved_topic_ids.map(), topics[i]),
    ) by {
        assert(r[services.len() + i] == spec_announcement(
            m,
            "topic_publish"@,
            topics[i],
            spec_topic_publish_ue_id(local_ue_id),
            local_ue_id,
            authority,
            channels,
        ).1);
    }
}

// ── Start-up ───────────────────────────────────────────────────

/// Whether the vSomeIP transport is used, given the `PACOM_DISABLE_VSOMEIP` setting: it is,
/// unless the setting is exactly `true`.
pub fn vsomeip_enabled(setting: Option<&str>) -> (b: bool)
    ensures
        b == (sv(setting) != Some("true"@)),
{
    match setting {
        Some(v) => {
            let t = String::from_str("true");
            !(v.to_owned() == t)
        },
        None => true,
    }
}

/// The topics of `names` that are not cloud topics, in order.
pub open spec fn local_topics(names: Seq<Seq<char>>) -> Seq<Seq<char>>
    decreases names.len(),
{
    if names.len() == 0 {
        Seq::empty()
    } else if spec_is_cloud_topic(names.last()) {
        local_topics(names.drop_last())
    } else {
        local_topics(names.drop_last()).push(names.last())
    }
}

proof fn lemma_local_topics_subset(names: Seq<Seq<char>>, x: Seq<char>)
    ensures
        local_topics(names).contains(x) ==> names.contains(x),
    decreases names.len(),
{
    if names.len() > 0 {
        lemma_local_topics_subset(names.drop_last(), x);
        if local_topics(names).contains(x) && x != names.last() {
            assert(local_topics(names.drop_last()).contains(x));
            let i = choose|i: int| 0 <= i < names.drop_last().len() && names.drop_last()[i] == x;
            assert(names[i] == x);
        }
    }
}

/// What the engine sets up at start-up.
pub struct StartupPlan {
    /// Whether the RPC client and server are created (they need vSomeIP).
    pub create_rpc_components: bool,
    /// The discovery channels to listen on (empty when there is nothing to discover).
    pub discovery_uris: Vec<Uri>,
    /// The capabilities announced from the start.
    pub capabilities: ProvidedCapabilities,
    /// Whether the periodic re-announcement runs (it needs vSomeIP).
    pub spawn_reannounce: bool,
}

/// Plans the start-up of the engine for `manifest`: RPC capabilities require vSomeIP;
/// discovery listeners are registered on every channel when vSomeIP is used and the
/// application subscribes to topics or consumes methods; the announced capabilities are
/// the provided methods and the published local topics.
pub fn plan_startup(manifest: &ManifestConfig, vsomeip: bool, channels: u16) -> (r: Result<StartupPlan, PacomError>)
    requires
        1 <= channels <= 64,
    ensures
        ({
            let has_rpc = manifest.rpc.provide.elems().len() > 0 || manifest.rpc.consume.elems().len() > 0;
            let discover = vsomeip && (manifest.topics.subscribe.elems().len() > 0
                || manifest.rpc.consume.elems().len() > 0);
            match r {
                Ok(p) => {
                    &&& !(!vsomeip && has_rpc)
                    &&& p.create_rpc_components == vsomeip
                    &&& p.spawn_reannounce == vsomeip
                    &&& p.capabilities.rpc_services.elems() == manifest.rpc.provide.elems()
                    &&& p.capabilities.published_topics.elems() == local_topics(manifest.topics.publish.elems())
                    &&& p.discovery_uris@.len() == (if discover { channels as int } else { 0 })
                    &&& forall|i: int|
                        0 <= i < p.discovery_uris@.len() ==> spec_from_parts("*"@, (0x0F00 + i) as u32, 1, 0x8F01)
                            == Some(#[trigger] p.discovery_uris@[i]@)
                },
                Err(e) => (!vsomeip && has_rpc && is_config_error(e, "RPC capabilities require the vSomeIP transport"@))
                    || (discover && spec_from_parts("*"@, 0x0F00, 1, 0x8F01) is None && is_config_error(
                    e,
                    "Failed to build discovery URI: "@,
                )),
            }
        }),
{
    manifest.validate_no_collisions()?;
    let has_rpc = !manifest.rpc.provide.is_empty() || !manifest.rpc.consume.is_empty();
    if !vsomeip && has_rpc {
        return Err(config_error("RPC capabilities require the vSomeIP transport", String::new()));
    }
    let rpc_services = manifest.rpc.provide.duplicate();
    let mut published_topics = NameSet::new();
    let np = manifest.topics.publish.len();
    let ghost pubs = manifest.topics.publish.elems();
    proof {
        use_type_invariant(&manifest.topics.publish);
    }
    let mut i: usize = 0;
    while i < np
        invariant
            np == pubs.len(),
            pubs == manifest.topics.publish.elems(),
            pubs.no_duplicates(),
            i <= np,
            published_topics.elems() == local_topics(pubs.take(i as int)),
        decreases np - i,
    {
        let name = manifest.topics.publish.get(i);
        assert(pubs.take(i + 1).drop_last() =~= pubs.take(i as int));
        if !is_cloud_topic(name.as_str()) {
            proof {
                lemma_local_topics_subset(pubs.take(i as int), pubs[i as int]);
                if pubs.take(i as int).contains(pubs[i as int]) {
                    let k = choose|k: int| 0 <= k < i && pubs.take(i as int)[k] == pubs[i as int];
                    assert(pubs[k] == pubs[i as int]);
                }
            }
            published_topics.insert(name.clone());
        }
        i = i + 1;
    }
    assert(pubs.take(np as int) =~= pubs);
    let discover = vsomeip && (!manifest.topics.subscribe.is_empty() || !manifest.rpc.consume.is_empty());
    let mut discovery_uris: Vec<Uri> = Vec::new();
    if discover {
        let mut c: u16 = 0;
        while c < channels
            invariant
                c <= channels <= 64,
                vsomeip && (manifest.topics.subscribe.elems().len() > 0 || manifest.rpc.consume.elems().len() > 0),
                discovery_uris@.len() == c,
                forall|k: int|
                    0 <= k < c ==> spec_from_parts("*"@, (0x0F00 + k) as u32, 1, 0x8F01)
                        == Some(#[trigger] discovery_uris@[k]@),
            decreases channels - c,
        {
            let u = uri_or_config(
                "*",
                (DISCOVERY_UE_ID + c) as u32,
                1,
                DISCOVERY_RESOURCE_ID,
                "Failed to build discovery URI: ",
            )?;
            discovery_uris.push(u);
            c = c + 1;
        }
    }
    Ok(
        StartupPlan {
            create_rpc_components: vsomeip,
            discovery_uris,
            capabilities: ProvidedCapabilities { rpc_services, published_topics },
            spawn_reannounce: vsomeip,
        },
    )
}

// ── Publishing ─────────────────────────────────────────────────

/// How a published event leaves this node.
pub enum PublishPlan {
    /// A local publish on `uri`, after announcing the topic with `announcement` from
    /// `announce_source`.
    Local {
        /// The topic URI the event is published on.
        uri: Uri,
        /// The discovery URI the announcement is sent from.
        announce_source: Uri,
        /// The announcement of the topic.
        announcement: DiscoveryEvent,
    },
    /// A notification from `source` to the cloud authority `sink`.
    ToAuthority {
        /// The topic URI of this node.
        source: Uri,
        /// The cross-domain marker of the target authority.
        sink: Uri,
    },
}

/// Plans the notification of a declared topic to `authority`: from the application's own
/// URI of the topic to the marker `//authority/0/0/0`.
pub fn plan_publish_to_authority(
    manifest: &ManifestConfig,
    topic: &str,
    authority: &str,
    local_authority: &str,
    local_ue_id: u16,
) -> (r: Result<(Uri, Uri), PacomError>)
    ensures
        ({
            let declared = manifest.topics.publish.to_set().contains(spec_trim(topic@));
            let res = spec_resource_id(manifest.resolved_topic_ids.map(), topic@);
            let src = spec_from_parts(local_authority@, local_ue_id as u32, 1, res);
            let snk = spec_from_parts(authority@, 0, 0, 0);
            match r {
                Ok((s, k)) => declared && src == Some(s@) && snk == Some(k@),
                Err(e) => (!declared && is_violation(e, "topics.publish"@, topic@)) || (declared && src is None
                    && is_config_error(e, "Invalid topic URI: "@)) || (declared && src is Some && snk is None
                    && is_config_error(e, "Invalid sink URI: "@)),
            }
        }),
{
    if !manifest.is_topic_published(topic) {
        return Err(violation("topics.publish", topic));
    }
    let resource_id = manifest.resource_id_for(topic);
    let source = uri_or_config(local_authority, local_ue_id as u32, 1, resource_id, "Invalid topic URI: ")?;
    let sink = uri_or_config(authority, 0, 0, 0, "Invalid sink URI: ")?;
    Ok((source, sink))
}

/// Plans the publication of an event on a logical topic. The topic must be declared in
/// `topics.publish`; a local topic is recorded as published and goes out as a publish on the
/// application's topic URI (after announcing it); a cloud topic goes out as a notification
/// to the configured cloud authority.
pub fn plan_publish(
    manifest: &ManifestConfig,
    caps: &mut ProvidedCapabilities,
    topic: &str,
    cloud_setting: Option<&str>,
    local_authority: &str,
    local_ue_id: u16,
    channels: u16,
) -> (r: Result<PublishPlan, PacomError>)
    requires
        1 <= channels <= 64,
    ensures
        ({
            let declared = manifest.topics.publish.to_set().contains(spec_trim(topic@));
            let cloud = spec_is_cloud_topic(topic@);
            let topic_ue = spec_topic_publish_ue_id(local_ue_id);
            let res = spec_resource_id(manifest.resolved_topic_ids.map(), topic@);
            &&& final(caps).rpc_services.elems() == old(caps).rpc_services.elems()
            &&& final(caps).published_topics.to_set() == (if declared && !cloud {
                old(caps).published_topics.to_set().insert(topic@)
            } else {
                old(caps).published_topics.to_set()
            })
            &&& !declared ==> (r matches Err(e) && is_violation(e, "topics.publish"@, topic@))
            &&& declared && cloud && spec_non_empty(sv(cloud_setting)) is None ==> (r matches Err(e)
                && is_config_error(e, "PACOM_CLOUD_AUTHORITY environment variable must be set for cloud operations"@))
            &&& declared && !cloud ==> ({
                let t = spec_from_parts(local_authority@, topic_ue as u32, 1, res);
                let a = spec_announcement(*manifest, "topic_publish"@, topic@, topic_ue, local_ue_id, local_authority@, channels);
                match r {
                    Ok(PublishPlan::Local { uri, announce_source, announcement }) => t == Some(uri@) && a == (
                        Some(announce_source@),
                        announcement@,
                    ),
                    Err(e) => (t is None && is_config_error(e, "Invalid topic URI: "@)) || (t is Some && a.0 is None
                        && is_config_error(e, "Invalid discovery URI: "@)),
                    _ => false,
                }
            })
            &&& declared && cloud && spec_non_empty(sv(cloud_setting)) is Some ==> ({
                let src = spec_from_parts(local_authority@, local_ue_id as u32, 1, res);
                let snk = spec_from_parts(spec_non_empty(sv(cloud_setting)).unwrap(), 0, 0, 0);
                match r {
                    Ok(PublishPlan::ToAuthority { source, sink }) => src == Some(source@) && snk == Some(sink@),
                    Err(e) => (src is None && is_config_error(e, "Invalid topic URI: "@)) || (src is Some && snk is None
                        && is_config_error(e, "Invalid sink URI: "@)),
                    _ => false,
                }
            })
        }),
{
    if !manifest.is_topic_published(topic) {
        return Err(violation("topics.publish", topic));
    }
    let cloud = is_cloud_topic(topic);
    let ghost old_set = caps.published_topics.to_set();
    if !cloud {
        let ghost before = caps.published_topics.elems();
        let added = caps.published_topics.insert(topic.to_owned());
        proof {
            if added {
                assert(caps.published_topics.to_set() =~= old_set.insert(topic@)) by {
                    assert forall|x: Seq<char>| #[trigger] caps.published_topics.to_set().contains(x)
                        == old_set.insert(topic@).contains(x) by {
                        let after = caps.published_topics.elems();
                        assert(after == before.push(topic@));
                        if after.contains(x) {
                            let k = choose|k: int| 0 <= k < after.len() && after[k] == x;
                            if k < before.len() {
                                assert(before[k] == x);
                            }
                        }
                        if before.contains(x) {
                            let k = choose|k: int| 0 <= k < before.len() && before[k] == x;
                            assert(after[k] == x);
                        }
                        if x == topic@ {
                            assert(after[before.len() as int] == x);
                        }
                    }
                }
            } else {
                assert(old_set.insert(topic@) =~= old_set);
            }
        }
    }
    if cloud {
        let cloud_authority = cloud_authority_name(cloud_setting)?;
        let (source, sink) = plan_publish_to_authority(
            manifest,
            topic,
            cloud_authority.as_str(),
            local_authority,
            local_ue_id,
        )?;
        Ok(PublishPlan::ToAuthority { source, sink })
    } else {
        let resource_id = manifest.resource_id_for(topic);
        let topic_ue = derive_topic_publish_ue_id(local_ue_id);
        let uri = uri_or_config(local_authority, topic_ue as u32, 1, resource_id, "Invalid topic URI: ")?;
        let (announce_source, announcement) = announcement(
            manifest,
            "topic_publish",
            topic,
            topic_ue,
            local_ue_id,
            local_authority,
            channels,
        )?;
        Ok(PublishPlan::Local { uri, announce_source, announcement })
    }
}

// ── Subscribing ────────────────────────────────────────────────

/// How a subscription is put in place.
pub enum SubscribePlan {
    /// Register the listener now on `source` (and `sink`).
    Register {
        /// The source filter.
        source: Uri,
        /// The sink filter, for cross-domain listeners.
        sink: Option<Uri>,
    },
    /// The listener waits in the discovery state for the topic's publisher.
    Pending,
}

/// Whether `authority` is the configured cloud authority.
pub open spec fn spec_is_cloud_authority(authority: Seq<char>, cloud_setting: Option<Seq<char>>) -> bool {
    spec_non_empty(cloud_setting) == Some(authority)
}

/// Returns whether `authority` is the configured cloud authority.
pub fn is_cloud_authority(authority: &str, cloud_setting: Option<&str>) -> (b: bool)
    ensures
        b == spec_is_cloud_authority(authority@, sv(cloud_setting)),
{
    match env_string_non_empty(cloud_setting) {
        Some(c) => c == authority.to_owned(),
        None => false,
    }
}

/// Plans the subscription of listener `listener` to a logical topic declared in
/// `topics.subscribe`, and gives the resource id the listener filters on initially (0:
/// none). A cloud topic is listened to on MQTT from any authority through the cloud
/// marker sink; a local topic whose publisher is known is listened to on the publisher's
/// URI; otherwise the listener waits for the publisher's announcement.
pub fn plan_subscribe(
    manifest: &ManifestConfig,
    state: &mut DiscoveryState,
    topic: &str,
    cloud_setting: Option<&str>,
    listener: u64,
) -> (r: Result<(SubscribePlan, u16), PacomError>)
    ensures
        ({
            let declared = manifest.topics.subscribe.to_set().contains(spec_trim(topic@));
            let cloud = spec_is_cloud_topic(topic@);
            let res = spec_resource_id(manifest.resolved_topic_ids.map(), topic@);
            let known = old(state).topics_view().dom().contains(topic@);
            let p: ProviderView = old(state).topics_view()[topic@];
            &&& final(state).rpc_view() == old(state).rpc_view()
            &&& final(state).topics_view() == old(state).topics_view()
            &&& final(state).pending_view() == (if r matches Ok((SubscribePlan::Pending, _)) {
                old(state).pending_view().insert(
                    topic@,
                    (if old(state).pending_view().dom().contains(topic@) {
                        old(state).pending_view()[topic@]
                    } else {
                        Seq::empty()
                    }).push((listener, true, None)),
                )
            } else {
                old(state).pending_view()
            })
            &&& !declared ==> (r matches Err(e) && is_violation(e, "topics.subscribe"@, topic@))
            &&& declared && cloud && spec_non_empty(sv(cloud_setting)) is None ==> (r matches Err(e)
                && is_config_error(e, "PACOM_CLOUD_AUTHORITY environment variable must be set for cloud operations"@))
            &&& declared && cloud && spec_non_empty(sv(cloud_setting)) is Some ==> ({
                let src = spec_from_parts("*"@, 0xFFFF, 1, res);
                let snk = spec_from_parts(spec_non_empty(sv(cloud_setting)).unwrap(), 0, 0, 0);
                match r {
                    Ok((SubscribePlan::Register { source, sink: Some(k) }, x)) => x == res && src == Some(source@)
                        && snk == Some(k@),
                    Err(e) => (src is None && is_config_error(e, "Invalid cloud source URI: "@)) || (src is Some
                        && snk is None && is_config_error(e, "Invalid cloud sink URI: "@)),
                    _ => false,
                }
            })
            &&& declared && !cloud && known ==> (match r {
                Ok((SubscribePlan::Register { source, sink: None }, 0)) => spec_from_parts(p.0, p.1 as u32, p.2, p.3)
                    == Some(source@),
                Err(e) => spec_from_parts(p.0, p.1 as u32, p.2, p.3) is None && is_config_error(
                    e,
                    "Invalid subscribe topic URI: "@,
                ),
                _ => false,
            })
            &&& declared && !cloud && !known ==> (r matches Ok((SubscribePlan::Pending, 0)))
        }),
{
    if !manifest.is_topic_subscribed(topic) {
        return Err(violation("topics.subscribe", topic));
    }
    let resource_id = manifest.resource_id_for(topic);
    if is_cloud_topic(topic) {
        let cloud_authority = cloud_authority_name(cloud_setting)?;
        let source = cloud_wildcard_source_uri(resource_id)?;
        let sink = cloud_sink_marker_uri(cloud_authority.as_str())?;
        return Ok((SubscribePlan::Register { source, sink: Some(sink) }, resource_id));
    }
    match state.lookup_topic_publisher(topic) {
        Some(info) => {
            let uri = uri_or_config(
                info.authority.as_str(),
                info.ue_id as u32,
                info.major_version,
                info.resource_id,
                "Invalid subscribe topic URI: ",
            )?;
            Ok((SubscribePlan::Register { source: uri, sink: None }, 0))
        },
        None => {
            state.enqueue_pending(
                topic,
                PendingSubscription { listener, expects_resource: true, source_authority: None },
            );
            Ok((SubscribePlan::Pending, 0))
        },
    }
}

/// Plans the subscription of listener `listener` to a declared topic published by
/// `authority`. When that authority is the cloud one or the topic is a cloud topic, the
/// listener goes on `//authority/FFFF/1/resource` and filters on the resource; otherwise it
/// is registered on the known publisher's entity with this topic's resource id, or waits
/// for a publisher of that authority.
pub fn plan_subscribe_from_authority(
    manifest: &ManifestConfig,
    state: &mut DiscoveryState,
    topic: &str,
    authority: &str,
    cloud_setting: Option<&str>,
    listener: u64,
) -> (r: Result<(SubscribePlan, u16), PacomError>)
    ensures
        ({
            let declared = manifest.topics.subscribe.to_set().contains(spec_trim(topic@));
            let cloud = spec_is_cloud_authority(authority@, sv(cloud_setting)) || spec_is_cloud_topic(topic@);
            let res = spec_resource_id(manifest.resolved_topic_ids.map(), topic@);
            let known = old(state).topics_view().dom().contains(topic@);
            let p: ProviderView = old(state).topics_view()[topic@];
            &&& final(state).rpc_view() == old(state).rpc_view()
            &&& final(state).topics_view() == old(state).topics_view()
            &&& final(state).pending_view() == (if r matches Ok((SubscribePlan::Pending, _)) {
                old(state).pending_view().insert(
                    topic@,
                    (if old(state).pending_view().dom().contains(topic@) {
                        old(state).pending_view()[topic@]
                    } else {
                        Seq::empty()
                    }).push((listener, true, Some(authority@))),
                )
            } else {
                old(state).pending_view()
            })
            &&& !declared ==> (r matches Err(e) && is_violation(e, "topics.subscribe"@, topic@))
            &&& declared && cloud ==> (match r {
                Ok((SubscribePlan::Register { source, sink: None }, x)) => x == res && spec_from_parts(
                    authority@,
                    0xFFFF,
                    1,
                    res,
                ) == Some(source@),
                Err(e) => spec_from_parts(authority@, 0xFFFF, 1, res) is None && is_config_error(
                    e,
                    "Invalid subscribe URI: "@,
                ),
                _ => false,
            })
            &&& declared && !cloud && known ==> (match r {
                Ok((SubscribePlan::Register { source, sink: None }, 0)) => spec_from_parts(
                    p.0,
                    p.1 as u32,
                    p.2,
                    res,
                ) == Some(source@),
                Err(e) => spec_from_parts(p.0, p.1 as u32, p.2, res) is None && is_config_error(
                    e,
                    "Invalid subscribe URI: "@,
                ),
                _ => false,
            })
            &&& declared && !cloud && !known ==> r matches Ok((SubscribePlan::Pending, 0))
        }),
{
    if !manifest.is_topic_subscribed(topic) {
        return Err(violation("topics.subscribe", topic));
    }
    let resource_id = manifest.resource_id_for(topic);
    let is_cloud = is_cloud_authority(authority, cloud_setting) || is_cloud_topic(topic);
    if is_cloud {
        let uri = uri_or_config(authority, 0xFFFF, 1, resource_id, "Invalid subscribe URI: ")?;
        return Ok((SubscribePlan::Register { source: uri, sink: None }, resource_id));
    }
    match state.lookup_topic_publisher(topic) {
        Some(info) => {
            let uri = uri_or_config(
                info.authority.as_str(),
                info.ue_id as u32,
                info.major_version,
                resource_id,
                "Invalid subscribe URI: ",
            )?;
            Ok((SubscribePlan::Register { source: uri, sink: None }, 0))
        },
        None => {
            state.enqueue_pending(
                topic,
                PendingSubscription {
                    listener,
                    expects_resource: true,
                    source_authority: Some(authority.to_owned()),
                },
            );
            Ok((SubscribePlan::Pending, 0))
        },
    }
}

/// Whether a received message reaches a subscription's callback: it must carry a payload,
/// and when the listener filters on a resource id (non-zero `expected`), a message whose
/// source has another resource id is dropped.
pub open spec fn spec_deliver(expected: u16, source_resource: Option<u32>, has_payload: bool) -> bool {
    has_payload && !(expected != 0 && match source_resource {
        Some(r) => r != expected as u32,
        None => false,
    })
}

/// Decides whether a received message is handed to a subscription's callback.
pub fn deliver_payload(expected: u16, source_resource: Option<u32>, has_payload: bool) -> (b: bool)
    ensures
        b == spec_deliver(expected, source_resource, has_payload),
{
    if let Some(r) = source_resource {
        if expected != 0 && r != expected as u32 {
            return false;
        }
    }
    has_payload
}

// ── RPC ────────────────────────────────────────────────────────

/// Checks that a method may be invoked: it must be declared in `rpc.consume`.
pub fn check_rpc_consumed(manifest: &ManifestConfig, method: &str) -> (r: Result<(), PacomError>)
    ensures
        match r {
            Ok(_) => manifest.rpc.consume.to_set().contains(spec_trim(method@)),
            Err(e) => !manifest.rpc.consume.to_set().contains(spec_trim(method@)) && is_violation(
                e,
                "rpc.consume"@,
                method@,
            ),
        },
{
    if !manifest.is_rpc_consumed(method) {
        return Err(violation("rpc.consume", method));
    }
    Ok(())
}

/// Checks that a method may be served (declared in `rpc.provide`) and gives its method id.
pub fn plan_register_rpc(manifest: &ManifestConfig, method: &str) -> (r: Result<u16, PacomError>)
    ensures
        match r {
            Ok(id) => manifest.rpc.provide.to_set().contains(spec_trim(method@)) && id == spec_method_id(
                manifest.resolved_rpc_ids.map(),
                method@,
            ),
            Err(e) => !manifest.rpc.provide.to_set().contains(spec_trim(method@)) && is_violation(
                e,
                "rpc.provide"@,
                method@,
            ),
        },
{
    if !manifest.is_rpc_provided(method) {
        return Err(violation("rpc.provide", method));
    }
    Ok(manifest.method_id_for(method))
}

/// Records that this application now serves `method`.
pub fn record_rpc_service(caps: &mut ProvidedCapabilities, method: &str)
    ensures
        final(caps).rpc_services.elems() == (if old(caps).rpc_services.elems().contains(method@) {
            old(caps).rpc_services.elems()
        } else {
            old(caps).rpc_services.elems().push(method@)
        }),
        final(caps).published_topics.elems() == old(caps).published_topics.elems(),
{
    caps.rpc_services.insert(method.to_owned());
}

/// One step of waiting for a method's provider: done when the provider is known; keep
/// polling while `elapsed_ms < timeout_ms`; then a discovery timeout.
pub fn rpc_wait_step(found: Option<ProviderInfo>, elapsed_ms: u64, timeout_ms: u64, method: &str) -> (r: Result<
    Option<ProviderInfo>,
    PacomError,
>)
    ensures
        match found {
            Some(p) => r matches Ok(Some(q)) && q@ == p@,
            None => if elapsed_ms < timeout_ms {
                r matches Ok(None)
            } else {
                r matches Err(PacomError::DiscoveryTimeout { name, timeout_ms: t }) && name@ == method@ && t
                    == timeout_ms
            },
        },
{
    match found {
        Some(p) => Ok(Some(p)),
        None => if elapsed_ms < timeout_ms {
            Ok(None)
        } else {
            Err(PacomError::DiscoveryTimeout { name: method.to_owned(), timeout_ms })
        },
    }
}

/// The URI of the method served by a discovered provider.
pub fn rpc_method_uri(info: &ProviderInfo) -> (r: Result<Uri, PacomError>)
    ensures
        match r {
            Ok(u) => spec_from_parts(info@.0, info@.1 as u32, info@.2, info@.3) == Some(u@),
            Err(e) => spec_from_parts(info@.0, info@.1 as u32, info@.2, info@.3) is None
                && is_config_error(e, "Invalid method URI: "@),
        },
{
    uri_or_config(info.authority.as_str(), info.ue_id as u32, info.major_version, info.resource_id, "Invalid method URI: ")
}

/// The result of an invocation from its response payload: an empty response is an error.
pub fn rpc_response(response: Option<Vec<u8>>) -> (r: Result<Vec<u8>, PacomError>)
    ensures
        match response {
            Some(p) => r matches Ok(q) && q@ == p@,
            None => r matches Err(PacomError::EmptyResponse),
        },
{
    match response {
        Some(p) => Ok(p),
        None => Err(PacomError::EmptyResponse),
    }
}

// ── Timing settings ────────────────────────────────────────────

/// A setting read as an unsigned number up to `max`, or `default`.
pub open spec fn spec_number_setting(setting: Option<Seq<char>>, max: nat, default: nat) -> nat {
    match setting {
        Some(v) => match spec_parse(v, 10, max) {
            Some(n) => n,
            None => default,
        },
        None => default,
    }
}

fn number_setting(setting: Option<&str>, max: u64, default: u64) -> (n: u64)
    requires
        default <= max,
    ensures
        n as nat == spec_number_setting(sv(setting), max as nat, default as nat),
        n <= max,
{
    match setting {
        Some(v) => match parse_unsigned(v, 10, max) {
            Some(n) => n,
            None => default,
        },
        None => default,
    }
}

/// How long, in milliseconds, an invocation waits for its provider to be discovered
/// (`PACOM_DISCOVERY_MAX_WAIT_MS`, default 180000).
pub fn discovery_wait_timeout_ms(setting: Option<&str>) -> (n: u64)
    ensures
        n as nat == spec_number_setting(sv(setting), u64::MAX as nat, 180_000),
{
    number_setting(setting, u64::MAX, 180_000)
}

/// The timeout of an RPC invocation in milliseconds (`PACOM_RPC_TIMEOUT_MS`, default 5000).
pub fn rpc_timeout_ms(setting: Option<&str>) -> (n: u32)
    ensures
        n as nat == spec_number_setting(sv(setting), u32::MAX as nat, 5_000),
{
    number_setting(setting, u32::MAX as u64, 5_000) as u32
}

/// The pause between lookups while waiting for a provider, in milliseconds
/// (`PACOM_DISCOVERY_POLL_MS`, default 250).
pub fn discovery_poll_interval_ms(setting: Option<&str>) -> (n: u64)
    ensures
        n as nat == spec_number_setting(sv(setting), u64::MAX as nat, 250),
{
    number_setting(setting, u64::MAX, 250)
}

/// The period of the re-announcements, in seconds (`PACOM_DISCOVERY_REANNOUNCE_SECS`,
/// default 5).
pub fn discovery_reannounce_interval_secs(setting: Option<&str>) -> (n: u64)
    ensures
        n as nat == spec_number_setting(sv(setting), u64::MAX as nat, 5),
{
    number_setting(setting, u64::MAX, 5)
}

} // verus!
