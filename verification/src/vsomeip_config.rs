//! The values of the generated vSomeIP configuration of an application.

use vstd::prelude::*;
use vstd::string::*;
use crate::text::{hex_u16, hex_u16_text, push_str, spec_trim, trim, spec_starts_with};
use crate::utils::{spec_parse, parse_unsigned, spec_ascii_lower, ascii_lower};
use crate::engine::{sv, spec_topic_publish_ue_id, DISCOVERY_RESOURCE_ID};
use crate::uri::{Uri, spec_from_parts};

verus! {

/// Default reliable port of the RPC service.
pub const DEFAULT_RPC_RELIABLE_PORT: u16 = 30508;

/// Default unreliable port of the discovery service.
pub const DEFAULT_DISCOVERY_UNRELIABLE_PORT: u16 = 30510;

/// Default reliable port of the topic publishing service.
pub const DEFAULT_TOPIC_PUBLISH_RELIABLE_PORT: u16 = 30511;

/// Default port of SOME/IP service discovery.
pub const DEFAULT_SD_PORT: u16 = 30490;

/// The SOME/IP service of the discovery channel of an application.
pub open spec fn spec_discovery_service_id(ue_id: u16, channels: u16) -> u16 {
    (0x0F00 + ue_id % channels) as u16
}

/// The SOME/IP service an application offers its discovery channel on.
pub fn discovery_service_id_for(ue_id: u16, channels: u16) -> (s: u16)
    requires
        1 <= channels <= 64,
    ensures
        s == spec_discovery_service_id(ue_id, channels),
{
    0x0F00u16 + (ue_id % channels)
}

/// The SOME/IP service an application publishes its topics on.
pub fn topic_publish_service_id_for(ue_id: u16) -> (s: u16)
    ensures
        s == spec_topic_publish_ue_id(ue_id),
{
    let mut topic_ue = ue_id ^ 0x4000;
    if topic_ue == 0 || topic_ue == 0xFFFF {
        topic_ue = topic_ue ^ 0x2000;
    }
    topic_ue
}

/// A 16-bit value as `0x` and four lowercase hexadecimal digits.
pub fn normalize_hex_u16(value: u16) -> (t: String)
    ensures
        t@ == hex_u16_text(value),
{
    hex_u16(value)
}

/// A port setting: the value read as a `u16`, else `default`.
pub open spec fn spec_port(setting: Option<Seq<char>>, default: u16) -> u16 {
    match setting {
        Some(v) => match spec_parse(v, 10, 0xFFFF) {
            Some(n) => n as u16,
            None => default,
        },
        None => default,
    }
}

/// Reads a port setting, falling back to `default`.
pub fn normalize_service_port_from_env(setting: Option<&str>, default: u16) -> (p: u16)
    ensures
        p == spec_port(sv(setting), default),
{
    match setting {
        Some(v) => match parse_unsigned(v, 10, 0xFFFF) {
            Some(n) => n as u16,
            None => default,
        },
        None => default,
    }
}

/// Whether the vSomeIP setup logs verbosely: the `PACOM_DEBUG_VERBOSE` setting, trimmed and
/// lowercased, is `1`, `true`, `yes` or `on`.
pub open spec fn spec_vsomeip_verbose(setting: Option<Seq<char>>) -> bool {
    match setting {
        Some(v) => {
            let t = spec_ascii_lower(spec_trim(v));
            t == "1"@ || t == "true"@ || t == "yes"@ || t == "on"@
        },
        None => false,
    }
}

/// Decides whether the vSomeIP setup logs verbosely.
pub fn vsomeip_verbose_debug_enabled(setting: Option<&str>) -> (b: bool)
    ensures
        b == spec_vsomeip_verbose(sv(setting)),
{
    match setting {
        Some(v) => {
            let t = trim(v);
            let l = ascii_lower(t.as_str());
            l == String::from_str("1") || l == String::from_str("true") || l == String::from_str("yes")
                || l == String::from_str("on")
        },
        None => false,
    }
}

/// The vSomeIP application name of an entity: `app-0x` and its four hexadecimal digits.
pub open spec fn spec_app_name(ue_id: u16) -> Seq<char> {
    "app-"@ + hex_u16_text(ue_id)
}

/// The vSomeIP application name of the entity `ue_id`.
pub fn app_name(ue_id: u16) -> (n: String)
    ensures
        n@ == spec_app_name(ue_id),
{
    let mut n = String::from_str("app-");
    let h = hex_u16(ue_id);
    push_str(&mut n, h.as_str());
    n
}

/// The settings that shape the generated vSomeIP configuration, as read.
pub struct VsomeipSettings {
    /// `PACOM_VSOMEIP_LOG_LEVEL`.
    pub log_level: Option<String>,
    /// `PACOM_VSOMEIP_RPC_RELIABLE_PORT`.
    pub rpc_port: Option<String>,
    /// `PACOM_VSOMEIP_TOPIC_PUBLISH_PORT`.
    pub topic_publish_port: Option<String>,
    /// `PACOM_VSOMEIP_DISCOVERY_PORT`.
    pub discovery_port: Option<String>,
    /// `PACOM_VSOMEIP_SD_PORT`.
    pub sd_port: Option<String>,
    /// `PACOM_VSOMEIP_MULTICAST`.
    pub multicast: Option<String>,
}

/// The plain value of an optional string.
pub open spec fn ov(o: Option<String>) -> Option<Seq<char>> {
    match o {
        Some(s) => Some(s@),
        None => None,
    }
}

/// The values of the vSomeIP configuration generated for an application.
pub struct VsomeipConfigPlan {
    /// The application name.
    pub app_name: String,
    /// The routing manager the application is a client of.
    pub routing: String,
    /// The application id (`0x` and four hexadecimal digits).
    pub app_id: String,
    /// Where the configuration file is written.
    pub config_path: String,
    /// The logging level.
    pub log_level: String,
    /// The RPC service id (the entity id).
    pub rpc_service: String,
    /// The topic publishing service id.
    pub topic_service: String,
    /// The discovery channel service id.
    pub discovery_service: String,
    /// Reliable port of the RPC service.
    pub rpc_port: u16,
    /// Reliable port of the topic publishing service.
    pub topic_publish_port: u16,
    /// Unreliable port of the discovery service.
    pub discovery_port: u16,
    /// Port of service discovery.
    pub sd_port: u16,
    /// Multicast address of service discovery.
    pub multicast: String,
    /// The local URI of the application: `//authority/ue/1/0`.
    pub local_uri: Uri,
    /// The instance every service is offered as (`0x0001`).
    pub instance: String,
    /// The discovery event, and its event group: the discovery resource id.
    pub discovery_event: String,
    /// Service discovery protocol (`udp`).
    pub sd_protocol: String,
    /// Service discovery minimal initial delay, in milliseconds.
    pub sd_initial_delay_min: u32,
    /// Service discovery maximal initial delay, in milliseconds.
    pub sd_initial_delay_max: u32,
    /// Service discovery base delay between repetitions, in milliseconds.
    pub sd_repetitions_base_delay: u32,
    /// Service discovery number of repetitions.
    pub sd_repetitions_max: u32,
    /// Time to live of service discovery offers, in seconds.
    pub sd_ttl: u32,
}

fn string_or(o: &Option<String>, default: &str) -> (s: String)
    ensures
        s@ == (match ov(*o) {
            Some(v) => v,
            None => default@,
        }),
{
    match o {
        Some(v) => v.clone(),
        None => default.to_owned(),
    }
}

/// Plans the vSomeIP configuration of the application `ue_id` on node `authority`: the
/// three services it offers (RPC on its own id, topics on the topic publishing id,
/// discovery on its discovery channel) as instance `0x0001`, their ports, the discovery
/// event (the discovery resource id), the service discovery settings, and its local URI.
/// The error is the message of a local URI that cannot be built.
pub fn plan_vsomeip_config(ue_id: u16, authority: &str, channels: u16, settings: &VsomeipSettings) -> (r: Result<
    VsomeipConfigPlan,
    String,
>)
    requires
        1 <= channels <= 64,
    ensures
        match r {
            Ok(p) => {
                &&& p.app_name@ == spec_app_name(ue_id)
                &&& p.routing@ == "routingmanagerd"@
                &&& p.app_id@ == hex_u16_text(ue_id)
                &&& p.config_path@ == "/tmp/vsomeip-"@ + spec_app_name(ue_id) + ".json"@
                &&& p.log_level@ == (match ov(settings.log_level) {
                    Some(v) => v,
                    None => "error"@,
                })
                &&& p.rpc_service@ == hex_u16_text(ue_id)
                &&& p.topic_service@ == hex_u16_text(spec_topic_publish_ue_id(ue_id))
                &&& p.discovery_service@ == hex_u16_text(spec_discovery_service_id(ue_id, channels))
                &&& p.rpc_port == spec_port(ov(settings.rpc_port), 30508)
                &&& p.topic_publish_port == spec_port(ov(settings.topic_publish_port), 30511)
                &&& p.discovery_port == spec_port(ov(settings.discovery_port), 30510)
                &&& p.sd_port == spec_port(ov(settings.sd_port), 30490)
                &&& p.multicast@ == (match ov(settings.multicast) {
                    Some(v) => v,
                    None => "224.224.224.224"@,
                })
                &&& spec_from_parts(authority@, ue_id as u32, 1, 0) == Some(p.local_uri@)
                &&& p.instance@ == hex_u16_text(1)
                &&& p.discovery_event@ == hex_u16_text(DISCOVERY_RESOURCE_ID)
                &&& p.sd_protocol@ == "udp"@
                &&& p.sd_initial_delay_min == 10
                &&& p.sd_initial_delay_max == 100
                &&& p.sd_repetitions_base_delay == 200
                &&& p.sd_repetitions_max == 3
                &&& p.sd_ttl == 3
            },
            Err(m) => spec_from_parts(authority@, ue_id as u32, 1, 0) is None && spec_starts_with(
                m@,
                "Failed to build local UUri: "@,
            ),
        },
{
    let name = app_name(ue_id);
    let mut config_path = String::from_str("/tmp/vsomeip-");
    push_str(&mut config_path, name.as_str());
    push_str(&mut config_path, ".json");
    let local_uri = match Uri::try_from_parts(authority, ue_id as u32, 1, 0) {
        Ok(u) => u,
        Err(d) => {
            let mut m = String::from_str("Failed to build local UUri: ");
            let ghost pre = m@;
            push_str(&mut m, d.as_str());
            assert(m@.take(pre.len() as int) =~= pre);
            return Err(m);
        },
    };
    Ok(
        VsomeipConfigPlan {
            app_name: name,
            routing: String::from_str("routingmanagerd"),
            app_id: hex_u16(ue_id),
            config_path,
            log_level: string_or(&settings.log_level, "error"),
            rpc_service: normalize_hex_u16(ue_id),
            topic_service: normalize_hex_u16(topic_publish_service_id_for(ue_id)),
            discovery_service: normalize_hex_u16(discovery_service_id_for(ue_id, channels)),
            rpc_port: normalize_service_port_from_env(
                match &settings.rpc_port {
                    Some(v) => Some(v.as_str()),
                    None => None,
                },
                DEFAULT_RPC_RELIABLE_PORT,
            ),
            topic_publish_port: normalize_service_port_from_env(
                match &settings.topic_publish_port {
                    Some(v) => Some(v.as_str()),
                    None => None,
                },
                DEFAULT_TOPIC_PUBLISH_RELIABLE_PORT,
            ),
            discovery_port: normalize_service_port_from_env(
                match &settings.discovery_port {
                    Some(v) => Some(v.as_str()),
                    None => None,
                },
                DEFAULT_DISCOVERY_UNRELIABLE_PORT,
            ),
            sd_port: normalize_service_port_from_env(
                match &settings.sd_port {
                    Some(v) => Some(v.as_str()),
                    None => None,
                },
                DEFAULT_SD_PORT,
            ),
            multicast: string_or(&settings.multicast, "224.224.224.224"),
            local_uri,
            instance: hex_u16(1),
            discovery_event: hex_u16(DISCOVERY_RESOURCE_ID),
            sd_protocol: String::from_str("udp"),
            sd_initial_delay_min: 10,
            sd_initial_delay_max: 100,
            sd_repetitions_base_delay: 200,
            sd_repetitions_max: 3,
            sd_ttl: 3,
        },
    )
}

/// The application's topic publishing service in its vSomeIP configuration is the entity
/// its engine publishes topics under, and its discovery service is the channel the engine
/// announces on, which is one of the channels discovery listeners register.
pub proof fn law_config_matches_engine(ue_id: u16, channels: u16)
    requires
        1 <= channels <= 64,
    ensures
        spec_discovery_service_id(ue_id, channels) == 0x0F00 + crate::engine::spec_channel(ue_id, channels),
        0 <= crate::engine::spec_channel(ue_id, channels) < channels,
{
}

} // verus!
