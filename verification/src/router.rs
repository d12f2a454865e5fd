//! Routing rules between the intra-vehicle transport (vSomeIP) and the cross-domain
//! transport (MQTT 5).

use vstd::prelude::*;
use vstd::string::*;
use crate::error::StatusCode;
use crate::uri::{Uri, UriView, spec_from_parts};
use crate::vsomeip_topology::{is_mqtt_wildcard_ue_id, spec_is_mqtt_wildcard_ue_id};

verus! {

/// Whether traffic addressed to `u` goes to the cloud, given the configured cloud authority
/// (trimmed and non-empty when set) and whether this node has vSomeIP: always on a node
/// without vSomeIP; for an MQTT wildcard entity id (`0xFFFF`, `u32::MAX`); for the explicit
/// cross-domain marker `//cloud/0/0/0`; and for any URI whose authority is the configured
/// one, unless it is empty or `*`.
pub open spec fn spec_is_cloud_bound(u: UriView, cloud: Option<Seq<char>>, has_vsomeip: bool) -> bool {
    ||| !has_vsomeip
    ||| spec_is_mqtt_wildcard_ue_id(u.1)
    ||| (u.1 == 0 && u.2 == 0 && u.3 == 0 && cloud == Some(u.0))
    ||| (cloud == Some(u.0) && u.0.len() > 0 && u.0 != "*"@)
}

/// The plain value of an optional string slice.
pub open spec fn str_opt_view(o: Option<&str>) -> Option<Seq<char>> {
    match o {
        Some(s) => Some(s@),
        None => None,
    }
}

/// The plain value of an optional URI.
pub open spec fn uri_opt_view(o: Option<&Uri>) -> Option<UriView> {
    match o {
        Some(u) => Some(u@),
        None => None,
    }
}

/// Returns true if a message targeting `uri` must be routed via the cross-domain transport
/// (MQTT) rather than the local intra-vehicle transport (vSomeIP); `cloud_authority` is the
/// configured cloud authority, trimmed and non-empty, if any, and `has_vsomeip` whether
/// this node has the vSomeIP transport.
pub fn is_cloud_bound(uri: &Uri, cloud_authority: Option<&str>, has_vsomeip: bool) -> (b: bool)
    ensures
        b == spec_is_cloud_bound(uri@, str_opt_view(cloud_authority), has_vsomeip),
{
    if !has_vsomeip || is_mqtt_wildcard_ue_id(uri.ue_id) {
        return true;
    }
    let matches_cloud = match cloud_authority {
        Some(c) => {
            let cs = c.to_owned();
            uri.authority_name == cs
        },
        None => false,
    };
    if uri.ue_id == 0 && uri.ue_version_major == 0 && uri.resource_id == 0 && matches_cloud {
        return true;
    }
    let star = String::from_str("*");
    let empty = String::new();
    assert(uri@.0.len() == 0 <==> uri@.0 == empty@) by {
        if uri@.0.len() == 0 {
            assert(uri@.0 =~= empty@);
        }
    }
    matches_cloud && uri.authority_name != empty && uri.authority_name != star
}

/// Whether a listener for `source` (and `sink`) belongs on the cloud transport: never when
/// a sink that is not cloud-bound is given; otherwise when the source or the sink is.
pub open spec fn spec_listener_cloud_path(
    source: UriView,
    sink: Option<UriView>,
    cloud: Option<Seq<char>>,
    has_vsomeip: bool,
) -> bool {
    match sink {
        Some(k) => spec_is_cloud_bound(k, cloud, has_vsomeip),
        None => spec_is_cloud_bound(source, cloud, has_vsomeip),
    }
}

/// Decides whether a listener goes on the cloud transport.
pub fn listener_cloud_path(
    source_filter: &Uri,
    sink_filter: Option<&Uri>,
    cloud_authority: Option<&str>,
    has_vsomeip: bool,
) -> (b: bool)
    ensures
        b == spec_listener_cloud_path(
            source_filter@,
            uri_opt_view(sink_filter),
            str_opt_view(cloud_authority),
            has_vsomeip,
        ),
{
    if let Some(sink) = sink_filter {
        if !is_cloud_bound(sink, cloud_authority, has_vsomeip) {
            return false;
        }
    }
    is_cloud_bound(source_filter, cloud_authority, has_vsomeip) || match sink_filter {
        Some(s) => is_cloud_bound(s, cloud_authority, has_vsomeip),
        None => false,
    }
}

/// Where an operation of the router goes.
pub enum Route {
    /// To the vSomeIP transport.
    Vsomeip,
    /// To the MQTT 5 transport.
    Mqtt,
    /// Nowhere: the operation fails with this status.
    Fail {
        /// The status code.
        code: StatusCode,
        /// The status message.
        message: String,
    },
}

/// The plain values of a route: 0 for vSomeIP, 1 for MQTT, 2 for a failure, with the
/// failure's code and message.
pub open spec fn route_view(r: Route) -> (int, Option<(StatusCode, Seq<char>)>) {
    match r {
        Route::Vsomeip => (0, None),
        Route::Mqtt => (1, None),
        Route::Fail { code, message } => (2, Some((code, message@))),
    }
}

fn fail(code: StatusCode, message: &str) -> (r: Route)
    ensures
        route_view(r) == (2int, Some((code, message@))),
{
    Route::Fail { code, message: message.to_owned() }
}

/// Whether a message with this sink is a local-only publish: a publish without sink is a
/// local event, never mirrored to the cloud.
pub fn is_local_only_publish(sink: Option<&Uri>) -> (b: bool)
    ensures
        b == (sink is None),
{
    sink.is_none()
}

/// The route of a message sent through the router: a publish without sink stays local
/// (vSomeIP, never mirrored to MQTT); an addressed message goes to MQTT when its sink is
/// cloud-bound, else to vSomeIP; a missing transport makes the send fail as unavailable.
pub open spec fn spec_route_send(sink: Option<UriView>, cloud: Option<Seq<char>>, has_vsomeip: bool, has_mqtt: bool) -> (
    int,
    Option<(StatusCode, Seq<char>)>,
) {
    match sink {
        None => if has_vsomeip {
            (0, None)
        } else {
            (2, Some((StatusCode::Unavailable, "No transport available"@)))
        },
        Some(k) => if spec_is_cloud_bound(k, cloud, has_vsomeip) {
            if has_mqtt {
                (1, None)
            } else {
                (
                    2,
                    Some(
                        (
                            StatusCode::Unavailable,
                            "Cloud-bound message cannot be sent: MQTT transport not configured"@,
                        ),
                    ),
                )
            }
        } else if has_vsomeip {
            (0, None)
        } else {
            (2, Some((StatusCode::Unavailable, "No transport available"@)))
        },
    }
}

/// Chooses the transport for sending a message whose sink is `sink`.
pub fn route_send(sink: Option<&Uri>, cloud_authority: Option<&str>, has_vsomeip: bool, has_mqtt: bool) -> (r: Route)
    ensures
        route_view(r) == spec_route_send(uri_opt_view(sink), str_opt_view(cloud_authority), has_vsomeip, has_mqtt),
{
    if is_local_only_publish(sink) {
        if has_vsomeip {
            Route::Vsomeip
        } else {
            fail(StatusCode::Unavailable, "No transport available")
        }
    } else {
        let k = sink.unwrap();
        if is_cloud_bound(k, cloud_authority, has_vsomeip) {
            if has_mqtt {
                Route::Mqtt
            } else {
                fail(
                    StatusCode::Unavailable,
                    "Cloud-bound message cannot be sent: MQTT transport not configured",
                )
            }
        } else if has_vsomeip {
            Route::Vsomeip
        } else {
            fail(StatusCode::Unavailable, "No transport available")
        }
    }
}

/// The route of a listener (un)registration: on the cloud path it needs MQTT and a sink
/// filter; otherwise it needs vSomeIP.
pub open spec fn spec_route_listener(
    source: UriView,
    sink: Option<UriView>,
    cloud: Option<Seq<char>>,
    has_vsomeip: bool,
    has_mqtt: bool,
    register: bool,
) -> (int, Option<(StatusCode, Seq<char>)>) {
    if spec_listener_cloud_path(source, sink, cloud, has_vsomeip) {
        if !has_mqtt {
            (2, Some((StatusCode::Unavailable, "MQTT transport not configured"@)))
        } else if sink is None {
            (
                2,
                Some(
                    (
                        StatusCode::InvalidArgument,
                        if register {
                            "Cloud listener registration requires a sink filter"@
                        } else {
                            "Cloud listener unregistration requires a sink filter"@
                        },
                    ),
                ),
            )
        } else {
            (1, None)
        }
    } else if has_vsomeip {
        (0, None)
    } else {
        (2, Some((StatusCode::Unavailable, "No vSomeIP transport available"@)))
    }
}

/// Chooses the transport for registering (`register`) or unregistering a listener.
pub fn route_listener(
    source_filter: &Uri,
    sink_filter: Option<&Uri>,
    cloud_authority: Option<&str>,
    has_vsomeip: bool,
    has_mqtt: bool,
    register: bool,
) -> (r: Route)
    ensures
        route_view(r) == spec_route_listener(
            source_filter@,
            uri_opt_view(sink_filter),
            str_opt_view(cloud_authority),
            has_vsomeip,
            has_mqtt,
            register,
        ),
{
    if listener_cloud_path(source_filter, sink_filter, cloud_authority, has_vsomeip) {
        if !has_mqtt {
            fail(StatusCode::Unavailable, "MQTT transport not configured")
        } else if sink_filter.is_none() {
            if register {
                fail(StatusCode::InvalidArgument, "Cloud listener registration requires a sink filter")
            } else {
                fail(
                    StatusCode::InvalidArgument,
                    "Cloud listener unregistration requires a sink filter",
                )
            }
        } else {
            Route::Mqtt
        }
    } else if has_vsomeip {
        Route::Vsomeip
    } else {
        fail(StatusCode::Unavailable, "No vSomeIP transport available")
    }
}

/// The route of a blocking receive: MQTT on the cloud path, vSomeIP otherwise.
pub open spec fn spec_route_receive(
    source: UriView,
    sink: Option<UriView>,
    cloud: Option<Seq<char>>,
    has_vsomeip: bool,
    has_mqtt: bool,
) -> (int, Option<(StatusCode, Seq<char>)>) {
    if spec_listener_cloud_path(source, sink, cloud, has_vsomeip) {
        if has_mqtt {
            (1, None)
        } else {
            (2, Some((StatusCode::Unavailable, "Cloud-bound receive requires MQTT transport"@)))
        }
    } else if has_vsomeip {
        (0, None)
    } else {
        (2, Some((StatusCode::Unavailable, "Local receive requires vSomeIP transport"@)))
    }
}

/// Chooses the transport for a blocking receive.
pub fn route_receive(
    source_filter: &Uri,
    sink_filter: Option<&Uri>,
    cloud_authority: Option<&str>,
    has_vsomeip: bool,
    has_mqtt: bool,
) -> (r: Route)
    ensures
        route_view(r) == spec_route_receive(
            source_filter@,
            uri_opt_view(sink_filter),
            str_opt_view(cloud_authority),
            has_vsomeip,
            has_mqtt,
        ),
{
    if listener_cloud_path(source_filter, sink_filter, cloud_authority, has_vsomeip) {
        if has_mqtt {
            Route::Mqtt
        } else {
            fail(StatusCode::Unavailable, "Cloud-bound receive requires MQTT transport")
        }
    } else if has_vsomeip {
        Route::Vsomeip
    } else {
        fail(StatusCode::Unavailable, "Local receive requires vSomeIP transport")
    }
}

/// How many times a cloud listener registration is retried while MQTT is unavailable.
pub const CLOUD_REGISTER_RETRIES: u32 = 50;

/// Pause, in milliseconds, before retrying a cloud listener registration.
pub const CLOUD_REGISTER_RETRY_DELAY_MS: u64 = 100;

/// What to do after one attempt to register a cloud listener.
pub enum RetryStep {
    /// The registration succeeded.
    Done,
    /// MQTT was unavailable: wait, then try again with this many retries left.
    Retry {
        /// Pause before the next attempt, in milliseconds.
        delay_ms: u64,
        /// Retries left after the next attempt starts.
        retries_left: u32,
    },
    /// The registration failed for good: report the attempt's error.
    GiveUp,
}

/// Decides the next step of a cloud listener registration from the outcome of the last
/// attempt (`succeeded`, or failed with code UNAVAILABLE when `unavailable`) and the
/// retries left: retry only while MQTT is unavailable and retries remain.
pub fn cloud_register_step(succeeded: bool, unavailable: bool, retries_left: u32) -> (s: RetryStep)
    ensures
        succeeded ==> s is Done,
        !succeeded && unavailable && retries_left > 0 ==> s == (RetryStep::Retry {
            delay_ms: 100,
            retries_left: (retries_left - 1) as u32,
        }),
        !succeeded && !(unavailable && retries_left > 0) ==> s is GiveUp,
{
    if succeeded {
        RetryStep::Done
    } else if unavailable && retries_left > 0 {
        RetryStep::Retry { delay_ms: CLOUD_REGISTER_RETRY_DELAY_MS, retries_left: retries_left - 1 }
    } else {
        RetryStep::GiveUp
    }
}

/// The URI of a resource of this node when no vSomeIP transport provides one:
/// `//authority/0/0/resource`.
pub fn fallback_resource_uri(authority: &str, resource_id: u16) -> (r: Result<Uri, String>)
    ensures
        match r {
            Ok(u) => spec_from_parts(authority@, 0, 0, resource_id) == Some(u@),
            Err(_) => spec_from_parts(authority@, 0, 0, resource_id) is None,
        },
{
    Uri::try_from_parts(authority, 0, 0, resource_id)
}

/// A publish without sink is local traffic: it is never routed to MQTT, and without
/// vSomeIP it fails as unavailable rather than falling back to the cloud.
pub proof fn law_local_publish_stays_local(cloud: Option<Seq<char>>, has_vsomeip: bool, has_mqtt: bool)
    ensures
        spec_route_send(None, cloud, has_vsomeip, has_mqtt).0 != 1,
        !has_vsomeip ==> spec_route_send(None, cloud, has_vsomeip, has_mqtt).0 == 2,
{
}

/// On a node with vSomeIP, traffic with an empty authority is never cloud-bound unless its
/// entity id is an MQTT wildcard; traffic with the wildcard authority is cloud-bound
/// otherwise only as the cross-domain marker when `*` itself is the configured cloud
/// authority.
pub proof fn law_generic_authority_is_local(u: UriView, cloud: Option<Seq<char>>)
    requires
        cloud matches Some(c) ==> c.len() > 0,
        !spec_is_mqtt_wildcard_ue_id(u.1),
    ensures
        u.0.len() == 0 ==> !spec_is_cloud_bound(u, cloud, true),
        u.0 == "*"@ && cloud != Some("*"@) ==> !spec_is_cloud_bound(u, cloud, true),
{
}

/// Traffic addressed to the configured cloud authority (neither empty nor `*`) is
/// cloud-bound, whatever its other parts.
pub proof fn law_cloud_authority_is_cloud_bound(u: UriView, cloud: Seq<char>, has_vsomeip: bool)
    requires
        u.0 == cloud,
        cloud.len() > 0,
        cloud != "*"@,
    ensures
        spec_is_cloud_bound(u, Some(cloud), has_vsomeip),
{
}

/// An MQTT wildcard entity id, or a node without vSomeIP, makes addressed traffic go to
/// the cloud: such a message is sent through MQTT when it is configured, and otherwise
/// fails as a cloud-bound message without MQTT; it never goes to vSomeIP.
pub proof fn law_wildcard_or_no_vsomeip_is_cloud_bound(
    u: UriView,
    cloud: Option<Seq<char>>,
    has_vsomeip: bool,
    has_mqtt: bool,
)
    requires
        spec_is_mqtt_wildcard_ue_id(u.1) || !has_vsomeip,
    ensures
        spec_is_cloud_bound(u, cloud, has_vsomeip),
        spec_route_send(Some(u), cloud, has_vsomeip, has_mqtt) == (if has_mqtt {
            (1int, None)
        } else {
            (
                2int,
                Some(
                    (
                        StatusCode::Unavailable,
                        "Cloud-bound message cannot be sent: MQTT transport not configured"@,
                    ),
                ),
            )
        }),
{
}

/// An addressed message on a node with vSomeIP goes to MQTT only when its sink is
/// cloud-bound: a sink that is not cloud-bound keeps it on vSomeIP whatever the MQTT
/// configuration, in particular a sink of another authority than the configured cloud one
/// whose entity id is no MQTT wildcard; a cloud-bound sink never goes to vSomeIP.
pub proof fn law_addressed_traffic_follows_its_sink(u: UriView, cloud: Option<Seq<char>>, has_mqtt: bool)
    ensures
        !spec_is_cloud_bound(u, cloud, true) ==> spec_route_send(Some(u), cloud, true, has_mqtt) == (
            0int,
            Option::<(StatusCode, Seq<char>)>::None,
        ),
        cloud != Some(u.0) && !spec_is_mqtt_wildcard_ue_id(u.1) ==> spec_route_send(
            Some(u),
            cloud,
            true,
            has_mqtt,
        ) == (0int, Option::<(StatusCode, Seq<char>)>::None),
        spec_is_cloud_bound(u, cloud, true) ==> spec_route_send(Some(u), cloud, true, has_mqtt).0 != 0,
{
}

/// A listener with a sink filter goes where its sink goes: on the cloud path exactly when
/// the sink is cloud-bound, whatever the source (so the cross-domain marker of the
/// configured cloud authority always puts it there); without a sink filter, exactly when
/// the source is cloud-bound. On the cloud path with MQTT and a sink, its registration
/// goes to MQTT.
pub proof fn law_listener_follows_its_sink(
    source: UriView,
    k: UriView,
    cloud: Option<Seq<char>>,
    has_vsomeip: bool,
    has_mqtt: bool,
    register: bool,
)
    ensures
        spec_is_cloud_bound(k, cloud, has_vsomeip) ==> spec_listener_cloud_path(source, Some(k), cloud, has_vsomeip),
        !spec_is_cloud_bound(k, cloud, has_vsomeip) ==> !spec_listener_cloud_path(
            source,
            Some(k),
            cloud,
            has_vsomeip,
        ),
        spec_listener_cloud_path(source, None, cloud, has_vsomeip) == spec_is_cloud_bound(
            source,
            cloud,
            has_vsomeip,
        ),
        (k.1 == 0 && k.2 == 0 && k.3 == 0 && cloud == Some(k.0)) ==> spec_listener_cloud_path(
            source,
            Some(k),
            cloud,
            has_vsomeip,
        ),
        spec_is_cloud_bound(k, cloud, has_vsomeip) && has_mqtt ==> spec_route_listener(
            source,
            Some(k),
            cloud,
            has_vsomeip,
            has_mqtt,
            register,
        ) == (1int, Option::<(StatusCode, Seq<char>)>::None),
{
}

/// A blocking receive goes to MQTT whenever its filters are on the cloud path and MQTT is
/// configured, and to vSomeIP only when they are not on the cloud path (and vSomeIP is
/// there); a receive filtered on the configured cloud authority, with no sink filter,
/// therefore goes to MQTT.
pub proof fn law_receive_follows_listener_path(
    source: UriView,
    sink: Option<UriView>,
    cloud: Option<Seq<char>>,
    has_vsomeip: bool,
    has_mqtt: bool,
)
    ensures
        spec_listener_cloud_path(source, sink, cloud, has_vsomeip) && has_mqtt ==> spec_route_receive(
            source,
            sink,
            cloud,
            has_vsomeip,
            has_mqtt,
        ) == (1int, Option::<(StatusCode, Seq<char>)>::None),
        spec_route_receive(source, sink, cloud, has_vsomeip, has_mqtt).0 == 0 ==> has_vsomeip
            && !spec_listener_cloud_path(source, sink, cloud, has_vsomeip),
        spec_route_receive(source, sink, cloud, has_vsomeip, has_mqtt).0 == 1 ==> has_mqtt
            && spec_listener_cloud_path(source, sink, cloud, has_vsomeip),
        (sink is None && cloud == Some(source.0) && source.0.len() > 0 && source.0 != "*"@ && has_mqtt)
            ==> spec_route_receive(source, sink, cloud, has_vsomeip, has_mqtt) == (
            1int,
            Option::<(StatusCode, Seq<char>)>::None,
        ),
{
}

} // verus!
