//! Local discovery: the cache of announced providers and the subscriptions that wait for a
//! publisher to announce itself.

use vstd::prelude::*;
use vstd::string::*;
use crate::names::NameMap;
use crate::uri::{Uri, UriView, spec_from_parts};
use crate::text::{push_str, push_decimal, push_hex4_upper, hex4_upper_text, dec_text};

verus! {

/// A discovery announcement, as carried (serialised) on the discovery channels.
pub struct DiscoveryEvent {
    /// `rpc_provide` or `topic_publish`; other kinds are ignored.
    pub kind: String,
    /// The logical name of the method or topic.
    pub name: String,
    /// The entity id of the provider.
    pub provider_ue_id: u16,
    /// The major version of the provider.
    pub major_version: u8,
    /// The authority of the provider; empty when it is the sender's.
    pub provider_authority: String,
    /// The version of the discovery protocol.
    pub protocol_version: u16,
    /// The method or resource id of the capability.
    pub resource_id: u16,
}

/// The plain values of a discovery event.
pub type EventView = (Seq<char>, Seq<char>, u16, u8, Seq<char>, u16, u16);

impl View for DiscoveryEvent {
    type V = EventView;

    open spec fn view(&self) -> EventView {
        (
            self.kind@,
            self.name@,
            self.provider_ue_id,
            self.major_version,
            self.provider_authority@,
            self.protocol_version,
            self.resource_id,
        )
    }
}

/// Where a discovered capability is served.
pub struct ProviderInfo {
    /// Authority of the provider.
    pub authority: String,
    /// Entity id of the provider.
    pub ue_id: u16,
    /// Major version of the provider.
    pub major_version: u8,
    /// Method or resource id of the capability.
    pub resource_id: u16,
}

/// The plain values of a provider.
pub type ProviderView = (Seq<char>, u16, u8, u16);

impl View for ProviderInfo {
    type V = ProviderView;

    open spec fn view(&self) -> ProviderView {
        (self.authority@, self.ue_id, self.major_version, self.resource_id)
    }
}

impl ProviderInfo {
    /// A copy of this provider.
    pub fn duplicate(&self) -> (p: ProviderInfo)
        ensures
            p@ == self@,
    {
        ProviderInfo {
            authority: self.authority.clone(),
            ue_id: self.ue_id,
            major_version: self.major_version,
            resource_id: self.resource_id,
        }
    }
}

/// The diagnostic rendering of a provider.
pub open spec fn spec_provider_dbg(p: ProviderView) -> Seq<char> {
    "authority='"@ + p.0 + "' ue=0x"@ + hex4_upper_text(p.1) + " major="@ + dec_text(p.2 as nat)
        + " resource=0x"@ + hex4_upper_text(p.3)
}

/// Renders a provider for diagnostics: its authority, entity id, major version and
/// resource id.
pub fn provider_dbg(p: &ProviderInfo) -> (t: String)
    ensures
        t@ == spec_provider_dbg(p@),
{
    let mut t = String::from_str("authority='");
    push_str(&mut t, p.authority.as_str());
    push_str(&mut t, "' ue=0x");
    push_hex4_upper(&mut t, p.ue_id);
    push_str(&mut t, " major=");
    push_decimal(&mut t, p.major_version as u64);
    push_str(&mut t, " resource=0x");
    push_hex4_upper(&mut t, p.resource_id);
    assert(t@ =~= spec_provider_dbg(p@));
    t
}

/// A subscription waiting for its topic's publisher to be announced.
pub struct PendingSubscription {
    /// The handle of the listener to register once the publisher is known.
    pub listener: u64,
    /// Whether the listener filters on the resource id, which activation then sets.
    pub expects_resource: bool,
    /// The only publisher authority this subscription accepts, if restricted.
    pub source_authority: Option<String>,
}

/// The plain values of a pending subscription.
pub type PendingView = (u64, bool, Option<Seq<char>>);

/// The plain values of an optional string.
pub open spec fn opt_view(o: Option<String>) -> Option<Seq<char>> {
    match o {
        Some(s) => Some(s@),
        None => None,
    }
}

impl View for PendingSubscription {
    type V = PendingView;

    open spec fn view(&self) -> PendingView {
        (self.listener, self.expects_resource, opt_view(self.source_authority))
    }
}

/// A listener to register on a URI, now that its publisher is known.
pub struct Activation {
    /// The handle of the listener.
    pub listener: u64,
    /// The URI of the publisher's topic.
    pub uri: Uri,
    /// The resource id the listener must now expect, if it filters on one.
    pub expected_resource_id: Option<u16>,
}

/// The plain values of an activation.
pub type ActivationView = (u64, UriView, Option<u16>);

impl View for Activation {
    type V = ActivationView;

    open spec fn view(&self) -> ActivationView {
        (self.listener, self.uri@, self.expected_resource_id)
    }
}

/// The authority a provider is recorded under: the announced one, or the sender's when the
/// announcement leaves it empty.
pub open spec fn effective_authority(e: EventView, envelope: Seq<char>) -> Seq<char> {
    if e.4.len() == 0 {
        envelope
    } else {
        e.4
    }
}

/// Whether a pending subscription accepts a publisher of authority `a`.
pub open spec fn accepts(p: PendingView, a: Seq<char>) -> bool {
    match p.2 {
        Some(w) => w == a,
        None => true,
    }
}

/// The activations of the accepted subscriptions of `subs` once a publisher is announced
/// by `e` under authority `a` (those whose URI cannot be built are dropped).
pub open spec fn spec_activations(subs: Seq<PendingView>, e: EventView, a: Seq<char>) -> Seq<
    ActivationView,
>
    decreases subs.len(),
{
    if subs.len() == 0 {
        Seq::empty()
    } else {
        let prev = spec_activations(subs.drop_last(), e, a);
        let p = subs.last();
        if accepts(p, a) && spec_from_parts(a, e.2 as u32, e.3, e.6) is Some {
            prev.push(
                (
                    p.0,
                    spec_from_parts(a, e.2 as u32, e.3, e.6).unwrap(),
                    if p.1 {
                        Some(e.6)
                    } else {
                        None
                    },
                ),
            )
        } else {
            prev
        }
    }
}

/// The subscriptions of `subs` that keep waiting because they want another authority.
pub open spec fn spec_still_pending(subs: Seq<PendingView>, a: Seq<char>) -> Seq<PendingView>
    decreases subs.len(),
{
    if subs.len() == 0 {
        Seq::empty()
    } else {
        let prev = spec_still_pending(subs.drop_last(), a);
        if accepts(subs.last(), a) {
            prev
        } else {
            prev.push(subs.last())
        }
    }
}

/// The providers of a map, by their plain values.
pub open spec fn providers_view(m: Map<Seq<char>, ProviderInfo>) -> Map<Seq<char>, ProviderView> {
    m.map_values(|p: ProviderInfo| p@)
}

/// The waiting subscriptions of a map, by their plain values.
pub open spec fn pending_view(m: Map<Seq<char>, Vec<PendingSubscription>>) -> Map<
    Seq<char>,
    Seq<PendingView>,
> {
    m.map_values(|v: Vec<PendingSubscription>| v@.map_values(|p: PendingSubscription| p@))
}

/// The discovery cache and the subscriptions waiting for a publisher.
pub struct DiscoveryState {
    /// Announced RPC providers, by method name.
    pub rpc_providers: NameMap<ProviderInfo>,
    /// Announced topic publishers, by topic name.
    pub topic_publishers: NameMap<ProviderInfo>,
    /// Subscriptions waiting for a publisher, by topic name.
    pub pending: NameMap<Vec<PendingSubscription>>,
}

fn copy_pending(p: &PendingSubscription) -> (q: PendingSubscription)
    ensures
        q@ == p@,
{
    PendingSubscription {
        listener: p.listener,
        expects_resource: p.expects_resource,
        source_authority: match &p.source_authority {
            Some(s) => Some(s.clone()),
            None => None,
        },
    }
}

impl DiscoveryState {
    /// The announced RPC providers.
    pub open spec fn rpc_view(&self) -> Map<Seq<char>, ProviderView> {
        providers_view(self.rpc_providers.map())
    }

    /// The announced topic publishers.
    pub open spec fn topics_view(&self) -> Map<Seq<char>, ProviderView> {
        providers_view(self.topic_publishers.map())
    }

    /// The waiting subscriptions.
    pub open spec fn pending_view(&self) -> Map<Seq<char>, Seq<PendingView>> {
        pending_view(self.pending.map())
    }

    /// An empty cache with no waiting subscription.
    pub fn new() -> (s: Self)
        ensures
            s.rpc_view() == Map::<Seq<char>, ProviderView>::empty(),
            s.topics_view() == Map::<Seq<char>, ProviderView>::empty(),
            s.pending_view() == Map::<Seq<char>, Seq<PendingView>>::empty(),
    {
        let s = DiscoveryState {
            rpc_providers: NameMap::new(),
            topic_publishers: NameMap::new(),
            pending: NameMap::new(),
        };
        assert(s.rpc_view() =~= Map::<Seq<char>, ProviderView>::empty());
        assert(s.topics_view() =~= Map::<Seq<char>, ProviderView>::empty());
        assert(s.pending_view() =~= Map::<Seq<char>, Seq<PendingView>>::empty());
        s
    }

    /// The announced provider of the RPC method `name`, if any.
    pub fn lookup_rpc_provider(&self, name: &str) -> (r: Option<ProviderInfo>)
        ensures
            match r {
                Some(p) => self.rpc_view().dom().contains(name@) && p@ == self.rpc_view()[name@],
                None => !self.rpc_view().dom().contains(name@),
            },
    {
        match self.rpc_providers.get(name) {
            Some(p) => Some(p.duplicate()),
            None => None,
        }
    }

    /// The announced publisher of the topic `name`, if any.
    pub fn lookup_topic_publisher(&self, name: &str) -> (r: Option<ProviderInfo>)
        ensures
            match r {
                Some(p) => self.topics_view().dom().contains(name@) && p@ == self.topics_view()[name@],
                None => !self.topics_view().dom().contains(name@),
            },
    {
        match self.topic_publishers.get(name) {
            Some(p) => Some(p.duplicate()),
            None => None,
        }
    }

    /// Makes `sub` wait for the publisher of topic `name`, after those already waiting.
    pub fn enqueue_pending(&mut self, name: &str, sub: PendingSubscription)
        ensures
            final(self).rpc_view() == old(self).rpc_view(),
            final(self).topics_view() == old(self).topics_view(),
            final(self).pending_view() == old(self).pending_view().insert(
                name@,
                (if old(self).pending_view().dom().contains(name@) {
                    old(self).pending_view()[name@]
                } else {
                    Seq::empty()
                }).push(sub@),
            ),
    {
        let ghost old_pv = self.pending_view();
        let ghost old_map = self.pending.map();
        let ghost sv = sub@;
        let mut subs = match self.pending.remove(name) {
            Some(v) => v,
            None => Vec::new(),
        };
        let ghost before = subs@;
        assert(before.map_values(|p: PendingSubscription| p@) =~= (if old_pv.dom().contains(name@) {
            old_pv[name@]
        } else {
            Seq::empty()
        }));
        assert(self.pending.map() == old_map.remove(name@));
        subs.push(sub);
        assert(subs@.map_values(|p: PendingSubscription| p@) =~= before.map_values(
            |p: PendingSubscription| p@,
        ).push(sv));
        self.pending.insert(name.to_owned(), subs);
        assert(self.pending.map() == old_map.remove(name@).insert(name@, subs));
        assert(self.pending_view() =~= old_pv.insert(
            name@,
            (if old_pv.dom().contains(name@) {
                old_pv[name@]
            } else {
                Seq::empty()
            }).push(sv),
        ));
    }

    /// Records a discovery announcement received from a sender of authority
    /// `envelope_authority`, and returns the waiting subscriptions it activates.
    ///
    /// An `rpc_provide` announcement records the provider of the method. A `topic_publish`
    /// announcement records the publisher of the topic and activates, in order, the
    /// subscriptions waiting for that topic that accept the publisher's authority; those
    /// that want another authority keep waiting. Other kinds change nothing.
    pub fn handle_event(&mut self, event: DiscoveryEvent, envelope_authority: &str) -> (acts: Vec<
        Activation,
    >)
        ensures
            ({
                let e = event@;
                let a = effective_authority(e, envelope_authority@);
                let prov: ProviderView = (a, e.2, e.3, e.6);
                if e.0 == "rpc_provide"@ {
                    &&& final(self).rpc_view() == old(self).rpc_view().insert(e.1, prov)
                    &&& final(self).topics_view() == old(self).topics_view()
                    &&& final(self).pending_view() == old(self).pending_view()
                    &&& acts@.len() == 0
                } else if e.0 == "topic_publish"@ {
                    let waiting = if old(self).pending_view().dom().contains(e.1) {
                        old(self).pending_view()[e.1]
                    } else {
                        Seq::empty()
                    };
                    let still = spec_still_pending(waiting, a);
                    &&& final(self).rpc_view() == old(self).rpc_view()
                    &&& final(self).topics_view() == old(self).topics_view().insert(e.1, prov)
                    &&& final(self).pending_view() == (if still.len() > 0 {
                        old(self).pending_view().insert(e.1, still)
                    } else {
                        old(self).pending_view().remove(e.1)
                    })
                    &&& acts@.map_values(|x: Activation| x@) == spec_activations(waiting, e, a)
                } else {
                    &&& final(self).rpc_view() == old(self).rpc_view()
                    &&& final(self).topics_view() == old(self).topics_view()
                    &&& final(self).pending_view() == old(self).pending_view()
                    &&& acts@.len() == 0
                }
            }),
    {
        let ghost e = event@;
        let effective = if event.provider_authority.as_str().unicode_len() == 0 {
            envelope_authority.to_owned()
        } else {
            event.provider_authority.clone()
        };
        let ghost a = effective_authority(e, envelope_authority@);
        assert(effective@ == a);
        let ghost old_rpc = self.rpc_view();
        let ghost old_topics = self.topics_view();
        let ghost old_pending = self.pending_view();
        let provider = ProviderInfo {
            ue_id: event.provider_ue_id,
            authority: effective.clone(),
            major_version: event.major_version,
            resource_id: event.resource_id,
        };
        let ghost prov = provider@;
        let rpc_kind = String::from_str("rpc_provide");
        let topic_kind = String::from_str("topic_publish");
        let mut acts: Vec<Activation> = Vec::new();
        if event.kind == rpc_kind {
            self.rpc_providers.insert(event.name.clone(), provider);
            assert(self.rpc_view() =~= old_rpc.insert(e.1, prov));
        } else if event.kind == topic_kind {
            self.topic_publishers.insert(event.name.clone(), provider);
            assert(self.topics_view() =~= old_topics.insert(e.1, prov));
            let removed = self.pending.remove(event.name.as_str());
            let ghost after_remove = self.pending_view();
            assert(after_remove =~= old_pending.remove(e.1));
            let subs = match removed {
                Some(v) => v,
                None => Vec::new(),
            };
            let ghost waiting = subs@.map_values(|p: PendingSubscription| p@);
            assert(waiting =~= (if old_pending.dom().contains(e.1) {
                old_pending[e.1]
            } else {
                Seq::empty()
            }));
            let mut still: Vec<PendingSubscription> = Vec::new();
            let n = subs.len();
            let mut i: usize = 0;
            while i < n
                invariant
                    n == subs@.len(),
                    i <= n,
                    waiting == subs@.map_values(|p: PendingSubscription| p@),
                    effective@ == a,
                    e == event@,
                    acts@.map_values(|x: Activation| x@) == spec_activations(waiting.take(i as int), e, a),
                    still@.map_values(|p: PendingSubscription| p@) == spec_still_pending(
                        waiting.take(i as int),
                        a,
                    ),
                decreases n - i,
            {
                let sub = &subs[i];
                let ghost pv = sub@;
                let ghost prev_acts = acts@.map_values(|x: Activation| x@);
                let ghost prev_still = still@.map_values(|p: PendingSubscription| p@);
                assert(waiting.take(i + 1).drop_last() =~= waiting.take(i as int));
                assert(waiting.take(i + 1).last() == pv);
                let wanted_other = match &sub.source_authority {
                    Some(w) => *w != effective,
                    None => false,
                };
                assert(wanted_other == !accepts(pv, a));
                if wanted_other {
                    still.push(copy_pending(sub));
                    assert(still@.map_values(|p: PendingSubscription| p@) =~= prev_still.push(pv));
                } else {
                    match Uri::try_from_parts(
                        effective.as_str(),
                        event.provider_ue_id as u32,
                        event.major_version,
                        event.resource_id,
                    ) {
                        Ok(uri) => {
                            let act = Activation {
                                listener: sub.listener,
                                uri,
                                expected_resource_id: if sub.expects_resource {
                                    Some(event.resource_id)
                                } else {
                                    None
                                },
                            };
                            let ghost av = act@;
                            acts.push(act);
                            assert(acts@.map_values(|x: Activation| x@) =~= prev_acts.push(av));
                        },
                        Err(_) => {},
                    }
                }
                i = i + 1;
            }
            assert(waiting.take(n as int) =~= waiting);
            if still.len() > 0 {
                let ghost sv = still@.map_values(|p: PendingSubscription| p@);
                self.pending.insert(event.name.clone(), still);
                assert(self.pending_view() =~= old_pending.insert(e.1, sv));
            }
        }
        acts
    }
}

/// A subscription that waits for its topic's publisher is activated by that publisher's
/// announcement: appended after any earlier waiters, it becomes the last activation, on the
/// publisher's URI, and does not keep waiting — provided it accepts the publisher's
/// authority and the publisher's URI can be built.
pub proof fn law_waiting_subscription_is_activated(
    waiting: Seq<PendingView>,
    sub: PendingView,
    e: EventView,
    envelope: Seq<char>,
)
    requires
        accepts(sub, effective_authority(e, envelope)),
        spec_from_parts(effective_authority(e, envelope), e.2 as u32, e.3, e.6) is Some,
    ensures
        ({
            let a = effective_authority(e, envelope);
            let acts = spec_activations(waiting.push(sub), e, a);
            &&& acts.len() == spec_activations(waiting, e, a).len() + 1
            &&& acts.last() == (
                sub.0,
                spec_from_parts(a, e.2 as u32, e.3, e.6).unwrap(),
                if sub.1 {
                    Some(e.6)
                } else {
                    None
                },
            )
            &&& spec_still_pending(waiting.push(sub), a) == spec_still_pending(waiting, a)
        }),
{
    let a = effective_authority(e, envelope);
    assert(waiting.push(sub).drop_last() =~= waiting);
}

/// A subscription restricted to another authority is not activated by an announcement
/// from this one: it keeps waiting, after the others that keep waiting.
pub proof fn law_other_authority_keeps_waiting(
    waiting: Seq<PendingView>,
    sub: PendingView,
    e: EventView,
    envelope: Seq<char>,
)
    requires
        !accepts(sub, effective_authority(e, envelope)),
    ensures
        ({
            let a = effective_authority(e, envelope);
            &&& spec_activations(waiting.push(sub), e, a) == spec_activations(waiting, e, a)
            &&& spec_still_pending(waiting.push(sub), a) == spec_still_pending(waiting, a).push(sub)
        }),
{
    assert(waiting.push(sub).drop_last() =~= waiting);
}

} // verus!
