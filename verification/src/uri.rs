//! The uProtocol URI as plain values, its construction from parts and its text form.

use vstd::prelude::*;
use crate::text::{hex_upper_text, push_hex_upper, push_str};

verus! {

/// What `UUri::verify_authority` accepts an authority name as: the authority it stores,
/// or `None` when the name does not comply with the uProtocol URI rules.
pub uninterp spec fn checked_authority(authority: Seq<char>) -> Option<Seq<char>>;

/// Checks an authority name with `up_rust::UUri::verify_authority` (URI authority parsing,
/// no port or user info, registered names matching the uProtocol pattern or `*`). The
/// contract states that the outcome is the one the check gives for this name; on failure
/// the text is the `Debug` rendering of the `UUriError`, of which nothing is stated.
#[verifier::external_body]
fn verify_authority(authority: &str) -> (r: Result<String, String>)
    ensures
        match r {
            Ok(a) => checked_authority(authority@) == Some(a@),
            Err(_) => checked_authority(authority@) is None,
        },
{
    match up_rust::UUri::verify_authority(authority) {
        Ok(a) => Ok(a),
        Err(e) => Err(format!("{:?}", e)),
    }
}

/// A uProtocol URI: authority, entity id, major version and resource id.
#[derive(Debug)]
pub struct Uri {
    /// The authority (host) name; empty for a local URI, `*` for any authority.
    pub authority_name: String,
    /// The uEntity identifier (instance and type).
    pub ue_id: u32,
    /// The uEntity major version.
    pub ue_version_major: u32,
    /// The resource identifier.
    pub resource_id: u32,
}

/// The plain values of a URI.
pub type UriView = (Seq<char>, u32, u32, u32);

impl View for Uri {
    type V = UriView;

    open spec fn view(&self) -> UriView {
        (self.authority_name@, self.ue_id, self.ue_version_major, self.resource_id)
    }
}

/// The URI that `UUri::try_from_parts` builds from the given parts, if the authority is
/// accepted.
pub open spec fn spec_from_parts(authority: Seq<char>, entity_id: u32, version: u8, resource_id: u16) -> Option<
    UriView,
> {
    match checked_authority(authority) {
        Some(a) => Some((a, entity_id, version as u32, resource_id as u32)),
        None => None,
    }
}

/// The text form of a URI (`UUri::to_uri`): optional `up:` scheme, `//authority` when the
/// authority is not empty, then the entity id, major version and resource id in uppercase
/// hexadecimal, each after a `/`.
pub open spec fn uri_text(u: UriView, include_scheme: bool) -> Seq<char> {
    (if include_scheme {
        "up:"@
    } else {
        Seq::empty()
    }) + (if u.0.len() > 0 {
        "//"@ + u.0
    } else {
        Seq::empty()
    }) + "/"@ + hex_upper_text(u.1 as nat) + "/"@ + hex_upper_text(u.2 as nat) + "/"@
        + hex_upper_text(u.3 as nat)
}

impl Uri {
    /// Creates a URI from its parts; an error (the rendering of the validation error) when
    /// the authority does not comply with the uProtocol URI rules.
    pub fn try_from_parts(authority: &str, entity_id: u32, entity_version: u8, resource_id: u16) -> (r:
        Result<Uri, String>)
        ensures
            match r {
                Ok(u) => spec_from_parts(authority@, entity_id, entity_version, resource_id) == Some(
                    u@,
                ),
                Err(_) => spec_from_parts(authority@, entity_id, entity_version, resource_id) is None,
            },
    {
        match verify_authority(authority) {
            Ok(a) => Ok(
                Uri {
                    authority_name: a,
                    ue_id: entity_id,
                    ue_version_major: entity_version as u32,
                    resource_id: resource_id as u32,
                },
            ),
            Err(e) => Err(e),
        }
    }

    /// A copy of this URI.
    pub fn duplicate(&self) -> (u: Uri)
        ensures
            u@ == self@,
    {
        Uri {
            authority_name: self.authority_name.clone(),
            ue_id: self.ue_id,
            ue_version_major: self.ue_version_major,
            resource_id: self.resource_id,
        }
    }

    /// The text form of this URI.
    pub fn to_uri(&self, include_scheme: bool) -> (t: String)
        ensures
            t@ == uri_text(self@, include_scheme),
    {
        let mut t = String::new();
        if include_scheme {
            push_str(&mut t, "up:");
        }
        if self.authority_name.as_str().unicode_len() > 0 {
            push_str(&mut t, "//");
            push_str(&mut t, self.authority_name.as_str());
        }
        push_str(&mut t, "/");
        push_hex_upper(&mut t, self.ue_id);
        push_str(&mut t, "/");
        push_hex_upper(&mut t, self.ue_version_major);
        push_str(&mut t, "/");
        push_hex_upper(&mut t, self.resource_id);
        assert(t@ =~= uri_text(self@, include_scheme));
        t
    }
}

} // verus!
