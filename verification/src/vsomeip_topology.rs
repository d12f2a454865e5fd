//! Expansion of uProtocol listener filters into the concrete filters that vSomeIP accepts.

use vstd::prelude::*;
use crate::uri::{Uri, UriView, spec_from_parts, uri_text};

verus! {

/// Whether an entity id is a wildcard for the MQTT transport.
pub open spec fn spec_is_mqtt_wildcard_ue_id(ue_id: u32) -> bool {
    ue_id == 0xFFFF || ue_id == 0xFFFF_FFFF
}

/// Whether a resource id is a wildcard.
pub open spec fn spec_is_wildcard_resource_id(resource_id: u32) -> bool {
    resource_id == 0xFFFF || resource_id == 0xFFFF_FFFF
}

/// Returns true when `ue_id` is one of the MQTT wildcard entity ids (`0xFFFF`, `u32::MAX`).
pub fn is_mqtt_wildcard_ue_id(ue_id: u32) -> (b: bool)
    ensures
        b == spec_is_mqtt_wildcard_ue_id(ue_id),
{
    ue_id == 0xFFFF || ue_id == u32::MAX
}

/// Returns true when `resource_id` is one of the wildcard resource ids (`0xFFFF`, `u32::MAX`).
pub fn is_wildcard_resource_id(resource_id: u32) -> (b: bool)
    ensures
        b == spec_is_wildcard_resource_id(resource_id),
{
    resource_id == 0xFFFF || resource_id == u32::MAX
}

/// The local (authority-less) form of a URI, its entity, major version and resource id
/// narrowed to 32, 8 and 16 bits; the URI itself if that form cannot be built.
pub open spec fn spec_normalize(u: UriView) -> UriView {
    match spec_from_parts(Seq::empty(), u.1, u.2 as u8, u.3 as u16) {
        Some(n) => n,
        None => u,
    }
}

/// Returns the URI without authority, as vSomeIP addresses it.
pub fn normalize_uri_for_vsomeip(uri: &Uri) -> (n: Uri)
    ensures
        n@ == spec_normalize(uri@),
{
    proof {
        reveal_strlit("");
        assert(""@ =~= Seq::<char>::empty());
        assert((uri.ue_version_major as u8) == (uri@.2 as u8));
    }
    match Uri::try_from_parts(
        "",
        uri.ue_id,
        uri.ue_version_major as u8,
        uri.resource_id as u16,
    ) {
        Ok(n) => n,
        Err(_) => uri.duplicate(),
    }
}

/// `s` with every element whose text equals that of an earlier element removed.
pub open spec fn dedup_by_text(s: Seq<UriView>) -> Seq<UriView>
    decreases s.len(),
{
    if s.len() == 0 {
        s
    } else {
        let d = dedup_by_text(s.drop_last());
        if exists|i: int| 0 <= i < d.len() && uri_text(d[i], false) == uri_text(s.last(), false) {
            d
        } else {
            d.push(s.last())
        }
    }
}

/// The listener filters, before removing duplicates, that the resolver of `authority`
/// proposes for `source` and `sink` (see `local_listener_candidates`).
pub open spec fn spec_raw_candidates(authority: Seq<char>, source: UriView, sink: Option<UriView>) -> Seq<
    UriView,
> {
    let any_auth = source.0.len() == 0 || source.0 == "*"@;
    let any_ue = spec_is_mqtt_wildcard_ue_id(source.1) || source.1 == 0;
    let normalized = spec_normalize(source);
    let local = match spec_from_parts(authority, source.1, source.2 as u8, source.3 as u16) {
        Some(l) => l,
        None => normalized,
    };
    if !any_auth && source.0 != authority {
        seq![normalized, local, source]
    } else if any_auth {
        seq![normalized, local]
    } else {
        seq![source, normalized]
    }
}

/// The listener filters that the resolver of `authority` gives for `source` and `sink`.
pub open spec fn spec_candidates(authority: Seq<char>, source: UriView, sink: Option<UriView>) -> Seq<
    UriView,
> {
    let any_auth = source.0.len() == 0 || source.0 == "*"@;
    let any_ue = spec_is_mqtt_wildcard_ue_id(source.1) || source.1 == 0;
    match sink {
        Some(k) if any_ue && spec_is_wildcard_resource_id(k.3) => Seq::empty(),
        Some(k) if any_auth && any_ue && spec_from_parts(
            Seq::empty(),
            k.1,
            k.2 as u8,
            (if spec_is_wildcard_resource_id(source.3) {
                k.3
            } else {
                source.3
            }) as u16,
        ) is Some => seq![
            spec_from_parts(
                Seq::empty(),
                k.1,
                k.2 as u8,
                (if spec_is_wildcard_resource_id(source.3) {
                    k.3
                } else {
                    source.3
                }) as u16,
            ).unwrap(),
        ],
        _ => dedup_by_text(spec_raw_candidates(authority, source, sink)),
    }
}

/// Resolves and expands uProtocol URI filters into discrete vSomeIP candidates.
pub struct VsomeipTopologyResolver {
    authority: String,
}

impl VsomeipTopologyResolver {
    /// The local authority of this resolver.
    pub closed spec fn authority(&self) -> Seq<char> {
        self.authority@
    }

    /// A resolver for the node whose authority is `authority`.
    pub fn new(authority: String) -> (r: Self)
        ensures
            r.authority() == authority@,
    {
        Self { authority }
    }

    /// Returns concrete local vSomeIP listener filters without using wildcard major
    /// matching.
    ///
    /// With a sink whose resource is a wildcard and a source with any entity, there is no
    /// concrete filter. With a source of any authority and any entity, the single filter is
    /// the sink's entity and major with the source's resource (the sink's when the source's
    /// is a wildcard). Otherwise the candidates are the local form of the source, the source
    /// under this node's authority and the source itself, as the source's authority calls
    /// for, without two of the same text.
    pub fn local_listener_candidates(&self, source_filter: &Uri, sink_filter: Option<&Uri>) -> (v: Vec<
        Uri,
    >)
        ensures
            v@.map_values(|u: Uri| u@) == spec_candidates(
                self.authority(),
                source_filter@,
                match sink_filter {
                    Some(k) => Some(k@),
                    None => None,
                },
            ),
    {
        proof {
            reveal_strlit("");
            assert(""@ =~= Seq::<char>::empty());
        }
        let ghost sink_v = match sink_filter {
            Some(k) => Some(k@),
            None => None,
        };
        let source_auth = &source_filter.authority_name;
        let star = String::from_str("*");
        let empty = String::new();
        let source_uses_any_authority = *source_auth == empty || *source_auth == star;
        assert(source_filter@.0.len() == 0 <==> source_filter@.0 == empty@) by {
            if source_filter@.0.len() == 0 {
                assert(source_filter@.0 =~= empty@);
            }
        }
        assert(source_uses_any_authority == (source_filter@.0.len() == 0 || source_filter@.0 == "*"@));
        let source_uses_any_ue = is_mqtt_wildcard_ue_id(source_filter.ue_id) || source_filter.ue_id
            == 0;

        if let Some(sink) = sink_filter {
            if source_uses_any_ue && is_wildcard_resource_id(sink.resource_id) {
                let v: Vec<Uri> = Vec::new();
                assert(v@.map_values(|u: Uri| u@) =~= Seq::<UriView>::empty());
                return v;
            }
            if source_uses_any_authority && source_uses_any_ue {
                let resource = if is_wildcard_resource_id(source_filter.resource_id) {
                    sink.resource_id as u16
                } else {
                    source_filter.resource_id as u16
                };
                if let Ok(uri) = Uri::try_from_parts(
                    "",
                    sink.ue_id,
                    sink.ue_version_major as u8,
                    resource,
                ) {
                    let mut v: Vec<Uri> = Vec::new();
                    let ghost u = uri@;
                    v.push(uri);
                    assert(v@.map_values(|u: Uri| u@) =~= seq![u]);
                    return v;
                }
            }
        }
        let entity_id = source_filter.ue_id;
        let version_major = source_filter.ue_version_major as u8;
        let resource_id = source_filter.resource_id as u16;

        let normalized_source = match Uri::try_from_parts("", entity_id, version_major, resource_id) {
            Ok(n) => n,
            Err(_) => source_filter.duplicate(),
        };
        let local_authority_source = match Uri::try_from_parts(
            self.authority.as_str(),
            entity_id,
            version_major,
            resource_id,
        ) {
            Ok(l) => l,
            Err(_) => normalized_source.duplicate(),
        };

        let mut candidates: Vec<Uri> = Vec::new();
        if !source_uses_any_authority && *source_auth != self.authority {
            candidates.push(normalized_source);
            candidates.push(local_authority_source);
            candidates.push(source_filter.duplicate());
        } else if source_uses_any_authority {
            candidates.push(normalized_source);
            candidates.push(local_authority_source);
        } else {
            candidates.push(source_filter.duplicate());
            candidates.push(normalized_source);
        }
        let ghost raw = spec_raw_candidates(self.authority(), source_filter@, sink_v);
        assert(candidates@.map_values(|u: Uri| u@) =~= raw);
        dedup_uris(candidates)
    }
}

/// Keeps the first URI of each text form, in order.
fn dedup_uris(candidates: Vec<Uri>) -> (v: Vec<Uri>)
    ensures
        v@.map_values(|u: Uri| u@) == dedup_by_text(candidates@.map_values(|u: Uri| u@)),
{
    let ghost input = candidates@.map_values(|u: Uri| u@);
    let mut out: Vec<Uri> = Vec::new();
    let mut texts: Vec<String> = Vec::new();
    let n = candidates.len();
    let mut i: usize = 0;
    while i < n
        invariant
            n == candidates@.len(),
            input == candidates@.map_values(|u: Uri| u@),
            i <= n,
            out@.map_values(|u: Uri| u@) == dedup_by_text(input.take(i as int)),
            texts@.len() == out@.len(),
            forall|k: int| 0 <= k < texts@.len() ==> #[trigger] texts@[k]@ == uri_text(out@[k]@, false),
        decreases n - i,
    {
        let c = &candidates[i];
        let t = c.to_uri(false);
        let mut seen = false;
        let mut j: usize = 0;
        while j < texts.len()
            invariant
                j <= texts@.len(),
                !seen ==> forall|k: int| 0 <= k < j ==> texts@[k]@ != t@,
                seen ==> exists|k: int| 0 <= k < texts@.len() && texts@[k]@ == t@,
            decreases texts@.len() - j,
        {
            if texts[j] == t {
                seen = true;
            }
            j = j + 1;
        }
        let ghost d = out@.map_values(|u: Uri| u@);
        assert(input.take(i + 1).drop_last() =~= input.take(i as int));
        assert(input.take(i + 1).last() == c@);
        if seen {
            assert(exists|k: int| 0 <= k < d.len() && uri_text(d[k], false) == uri_text(c@, false)) by {
                let k = choose|k: int| 0 <= k < texts@.len() && texts@[k]@ == t@;
                assert(d[k] == out@[k]@);
            }
        } else {
            assert(!exists|k: int| 0 <= k < d.len() && uri_text(d[k], false) == uri_text(c@, false)) by {
                assert forall|k: int| 0 <= k < d.len() implies uri_text(d[k], false) != uri_text(c@, false) by {
                    assert(d[k] == out@[k]@);
                    assert(texts@[k]@ == uri_text(out@[k]@, false));
                }
            }
            let ghost cv = c@;
            out.push(c.duplicate());
            texts.push(t);
            assert(out@.map_values(|u: Uri| u@) =~= d.push(cv));
        }
        i = i + 1;
    }
    assert(input.take(n as int) =~= input);
    out
}

proof fn lemma_dedup_distinct(s: Seq<UriView>)
    ensures
        dedup_by_text(s).len() <= s.len(),
        forall|i: int, j: int|
            0 <= i < j < dedup_by_text(s).len() ==> uri_text(#[trigger] dedup_by_text(s)[i], false)
                != uri_text(#[trigger] dedup_by_text(s)[j], false),
    decreases s.len(),
{
    if s.len() > 0 {
        lemma_dedup_distinct(s.drop_last());
    }
}

/// The vSomeIP listener filters proposed for one uProtocol filter never repeat a URI: no
/// two of them have the same text form, and there are at most three.
pub proof fn law_candidates_distinct(authority: Seq<char>, source: UriView, sink: Option<UriView>)
    ensures
        spec_candidates(authority, source, sink).len() <= 3,
        forall|i: int, j: int|
            0 <= i < j < spec_candidates(authority, source, sink).len() ==> uri_text(
                #[trigger] spec_candidates(authority, source, sink)[i],
                false,
            ) != uri_text(#[trigger] spec_candidates(authority, source, sink)[j], false),
{
    lemma_dedup_distinct(spec_raw_candidates(authority, source, sink));
}

/// A filter of any authority and any entity with a sink whose resource is no wildcard
/// gives one local candidate on the sink's entity and major version; its resource is the
/// sink's resource when the source resource is a wildcard (so it never carries the
/// wildcard), and the source's resource otherwise.
pub proof fn law_any_source_listens_on_the_sink(authority: Seq<char>, source: UriView, k: UriView)
    requires
        source.0.len() == 0 || source.0 == "*"@,
        spec_is_mqtt_wildcard_ue_id(source.1) || source.1 == 0,
        !spec_is_wildcard_resource_id(k.3),
        spec_from_parts(Seq::empty(), k.1, k.2 as u8, k.3 as u16) is Some,
    ensures
        spec_candidates(authority, source, Some(k)).len() == 1,
        spec_candidates(authority, source, Some(k))[0].1 == k.1,
        spec_candidates(authority, source, Some(k))[0].2 == (k.2 as u8) as u32,
        spec_is_wildcard_resource_id(source.3) ==> spec_candidates(authority, source, Some(k))[0].3 == (
        k.3 as u16) as u32,
        spec_is_wildcard_resource_id(source.3) ==> !spec_is_wildcard_resource_id(
            spec_candidates(authority, source, Some(k))[0].3,
        ) || k.3 > 0xFFFF,
        !spec_is_wildcard_resource_id(source.3) ==> spec_candidates(authority, source, Some(k))[0].3 == (
        source.3 as u16) as u32,
{
    assert(spec_from_parts(Seq::empty(), k.1, k.2 as u8, (source.3 as u16)) is Some);
}

} // verus!
