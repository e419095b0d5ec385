//! Decision core of a RADIUS server that assigns VLANs: it checks the sending
//! server against a whitelist, authenticates the user against the configured
//! directory, picks Accept or Reject with a VLAN, and writes the tunnel
//! attributes of the response.
use vstd::prelude::*;
use vstd::string::StringExecFns;
use vstd::utf8::{encode_utf8, encode_utf8_decode_utf8};
use crate::packet::{
    ResponseCode, code_value, other_type, delete_attribute, lookup_user_name,
    lookup_user_password, make_response, packet_attrs, packet_code, pass_of, same_header, user_of,
    utf8_text,
};
use crate::rfc2868_std_size::{
    add_tunnel_medium_type, add_tunnel_private_group_id, add_tunnel_type, decimal,
    tagged_string_value, tagged_u16_value, TUNNEL_MEDIUM_TYPE_TYPE, TUNNEL_PRIVATE_GROUP_ID_TYPE,
    TUNNEL_TYPE_TYPE,
};
use crate::settings::{find_server, lemma_find_server_in, OxideSettings, ServerAddr, MAX_VLAN};

pub mod digest;
pub mod packet;
pub mod rfc2868_std_size;
pub mod settings;

verus! {

/// Tag that the tunnel attributes of a response carry.
pub const TUNNEL_TAG: u8 = 1;

/// Tunnel-Type value for a VLAN.
pub const TUNNEL_TYPE_VLAN: u32 = 13;

/// Tunnel-Medium-Type value for IEEE-802.
pub const TUNNEL_MEDIUM_IEEE_802: u32 = 6;

/// What to answer to a request from a whitelisted server.
#[derive(Clone, Copy, Debug, PartialEq, Eq, Structural)]
pub struct Decision {
    pub code: ResponseCode,
    pub vlan: Option<u16>,
}

/// Whether an attribute is one of the three tunnel attributes.
pub open spec fn is_tunnel_attr(a: (u8, Seq<u8>)) -> bool {
    a.0 == TUNNEL_TYPE_TYPE || a.0 == TUNNEL_MEDIUM_TYPE_TYPE || a.0 == TUNNEL_PRIVATE_GROUP_ID_TYPE
}

/// Keeps the attributes that are not tunnel attributes.
pub open spec fn not_tunnel() -> spec_fn((u8, Seq<u8>)) -> bool {
    |a: (u8, Seq<u8>)| !is_tunnel_attr(a)
}

/// The attributes with any tunnel type, medium type or private group id removed.
pub open spec fn strip_tunnel(attrs: Seq<(u8, Seq<u8>)>) -> Seq<(u8, Seq<u8>)> {
    attrs.filter(not_tunnel())
}

/// Filtering by one predicate and then another filters by both.
proof fn lemma_filter_twice(
    s: Seq<(u8, Seq<u8>)>,
    p: spec_fn((u8, Seq<u8>)) -> bool,
    q: spec_fn((u8, Seq<u8>)) -> bool,
    pq: spec_fn((u8, Seq<u8>)) -> bool,
)
    requires
        forall|a: (u8, Seq<u8>)| #[trigger] pq(a) == (p(a) && q(a)),
    ensures
        s.filter(p).filter(q) == s.filter(pq),
    decreases s.len(),
{
    reveal(Seq::filter);
    if s.len() > 0 {
        lemma_filter_twice(s.drop_last(), p, q, pq);
        let rest = s.drop_last().filter(p);
        if p(s.last()) {
            assert(rest.push(s.last()).drop_last() =~= rest);
        }
    }
}

/// Filtering keeps a sequence whose elements all pass.
proof fn lemma_filter_keeps_all(s: Seq<(u8, Seq<u8>)>, p: spec_fn((u8, Seq<u8>)) -> bool)
    requires
        forall|i: int| 0 <= i < s.len() ==> p(#[trigger] s[i]),
    ensures
        s.filter(p) == s,
    decreases s.len(),
{
    reveal(Seq::filter);
    if s.len() > 0 {
        lemma_filter_keeps_all(s.drop_last(), p);
        assert(s.drop_last().push(s.last()) =~= s);
    }
}

/// Filtering empties a sequence whose elements all fail.
proof fn lemma_filter_drops_all(s: Seq<(u8, Seq<u8>)>, p: spec_fn((u8, Seq<u8>)) -> bool)
    requires
        forall|i: int| 0 <= i < s.len() ==> !p(#[trigger] s[i]),
    ensures
        s.filter(p) == Seq::<(u8, Seq<u8>)>::empty(),
    decreases s.len(),
{
    reveal(Seq::filter);
    if s.len() > 0 {
        lemma_filter_drops_all(s.drop_last(), p);
    }
}

/// The tunnel attributes that assign a VLAN: type VLAN, medium IEEE-802 and the
/// VLAN id in decimal, each tagged with `TUNNEL_TAG`.
pub open spec fn vlan_attrs(vlan: u16) -> Seq<(u8, Seq<u8>)> {
    seq![
        (TUNNEL_TYPE_TYPE, tagged_u16_value(Some(TUNNEL_TAG), TUNNEL_TYPE_VLAN as u16)),
        (TUNNEL_MEDIUM_TYPE_TYPE, tagged_u16_value(Some(TUNNEL_TAG), TUNNEL_MEDIUM_IEEE_802 as u16)),
        (TUNNEL_PRIVATE_GROUP_ID_TYPE, tagged_string_value(Some(TUNNEL_TAG), decimal(vlan as nat))),
    ]
}

/// The attributes that a decision adds: the VLAN attributes on an Accept with a
/// VLAN, none otherwise.
pub open spec fn decision_attrs(d: Decision) -> Seq<(u8, Seq<u8>)> {
    match d.vlan {
        Some(v) => if d.code == ResponseCode::Accept {
            vlan_attrs(v)
        } else {
            Seq::empty()
        },
        None => Seq::empty(),
    }
}

/// Strips client-supplied tunnel attributes from a response and adds the
/// decision's own.
pub fn apply_decision(response: &mut radius::core::packet::Packet, decision: Decision)
    ensures
        packet_attrs(*final(response)) == strip_tunnel(packet_attrs(*old(response))) + decision_attrs(decision),
        packet_code(*final(response)) == packet_code(*old(response)),
        same_header(*final(response), *old(response)),
{
    let ghost original = packet_attrs(*response);
    delete_attribute(response, TUNNEL_TYPE_TYPE);
    delete_attribute(response, TUNNEL_MEDIUM_TYPE_TYPE);
    delete_attribute(response, TUNNEL_PRIVATE_GROUP_ID_TYPE);
    let ghost stripped = packet_attrs(*response);
    proof {
        let p1 = other_type(TUNNEL_TYPE_TYPE);
        let p2 = other_type(TUNNEL_MEDIUM_TYPE_TYPE);
        let p3 = other_type(TUNNEL_PRIVATE_GROUP_ID_TYPE);
        let p12 = |a: (u8, Seq<u8>)| a.0 != TUNNEL_TYPE_TYPE && a.0 != TUNNEL_MEDIUM_TYPE_TYPE;
        lemma_filter_twice(original, p1, p2, p12);
        lemma_filter_twice(original, p12, p3, not_tunnel());
    }
    assert(stripped == strip_tunnel(original));
    match decision.vlan {
        Some(vlan) => if decision.code == ResponseCode::Accept {
            add_tunnel_type(response, Some(TUNNEL_TAG), TUNNEL_TYPE_VLAN);
            add_tunnel_medium_type(response, Some(TUNNEL_TAG), TUNNEL_MEDIUM_IEEE_802);
            add_tunnel_private_group_id(response, Some(TUNNEL_TAG), vlan);
            assert(packet_attrs(*response) =~= stripped + vlan_attrs(vlan));
        } else {
            assert(stripped + decision_attrs(decision) =~= stripped);
        },
        None => {
            assert(stripped + decision_attrs(decision) =~= stripped);
        },
    }
}

/// Composing a response is idempotent: stripping the tunnel attributes from a
/// response that already carries a decision's attributes and adding them again
/// gives the same attributes; and every tunnel attribute that such a response
/// carries is one of the decision's own, never one supplied by the client.
pub proof fn lemma_compose_idempotent(attrs: Seq<(u8, Seq<u8>)>, d: Decision)
    ensures
        strip_tunnel(strip_tunnel(attrs) + decision_attrs(d)) + decision_attrs(d) == strip_tunnel(attrs)
            + decision_attrs(d),
        forall|i: int|
            0 <= i < (strip_tunnel(attrs) + decision_attrs(d)).len() && is_tunnel_attr(
                #[trigger] (strip_tunnel(attrs) + decision_attrs(d))[i],
            ) ==> decision_attrs(d).contains((strip_tunnel(attrs) + decision_attrs(d))[i]),
{
    broadcast use Seq::lemma_filter_pred;
    let s = strip_tunnel(attrs);
    let t = decision_attrs(d);
    assert(forall|i: int| 0 <= i < t.len() ==> is_tunnel_attr(#[trigger] t[i]));
    Seq::filter_distributes_over_add(s, t, not_tunnel());
    assert(forall|i: int| 0 <= i < s.len() ==> not_tunnel()(#[trigger] s[i]));
    lemma_filter_keeps_all(s, not_tunnel());
    lemma_filter_drops_all(t, not_tunnel());
    assert(s + Seq::<(u8, Seq<u8>)>::empty() =~= s);
    assert forall|i: int|
        0 <= i < (s + t).len() && is_tunnel_attr(#[trigger] (s + t)[i]) implies t.contains((s + t)[i]) by {
        if i < s.len() {
            assert(not_tunnel()(s[i]));
        } else {
            assert(t[i - s.len()] == (s + t)[i]);
        }
    }
}

/// On a server without a default VLAN, a failed authentication, or a request
/// without credentials, gives Reject with no VLAN attributes.
pub proof fn lemma_no_default_vlan_rejects(
    h: OxideRequestHandler,
    source: ServerAddr,
    user: Option<Seq<char>>,
    pass: Option<Seq<char>>,
)
    requires
        find_server(h.spec_settings().spec_servers(), source) matches Some(s) && !s.default_vlan_enabled,
        !(user matches Some(u) && pass matches Some(p) && h.spec_settings().spec_authenticate(u, p).0),
    ensures
        h.spec_decide(source, user, pass) == Some(Decision { code: ResponseCode::Reject, vlan: None }),
        decision_attrs(Decision { code: ResponseCode::Reject, vlan: None }) == Seq::<(u8, Seq<u8>)>::empty(),
{
}

/// On a server with a default VLAN, a failed authentication gives Accept with
/// the default VLAN's attributes.
pub proof fn lemma_default_vlan_accepts(h: OxideRequestHandler, source: ServerAddr, user: Seq<char>, pass: Seq<char>)
    requires
        h.spec_settings().wf(),
        find_server(h.spec_settings().spec_servers(), source) matches Some(s) && s.default_vlan_enabled,
        !h.spec_settings().spec_authenticate(user, pass).0,
    ensures
        h.spec_decide(source, Some(user), Some(pass)) matches Some(d) && {
            &&& d.code == ResponseCode::Accept
            &&& d.vlan == Some(find_server(h.spec_settings().spec_servers(), source)->Some_0.vlan)
            &&& 1 <= d.vlan->Some_0 <= MAX_VLAN
            &&& decision_attrs(d) == vlan_attrs(d.vlan->Some_0)
        },
{
    lemma_find_server_in(h.spec_settings().spec_servers(), source);
}

/// The per-request decision core, over read-only settings.
pub struct OxideRequestHandler {
    settings: OxideSettings,
}

impl OxideRequestHandler {
    pub closed spec fn spec_settings(&self) -> OxideSettings {
        self.settings
    }

    pub fn new(settings: OxideSettings) -> (r: Self)
        ensures
            r.spec_settings() == settings,
    {
        Self { settings }
    }

    /// The decision on a request from `source` with the given user name and
    /// password: `None` (drop) for a server off the whitelist; Reject where a
    /// credential is missing; Accept with the user's VLAN on success; otherwise
    /// Accept with the server's default VLAN where it has one, else Reject.
    pub open spec fn spec_decide(
        &self,
        source: ServerAddr,
        user: Option<Seq<char>>,
        pass: Option<Seq<char>>,
    ) -> Option<Decision> {
        let settings = self.spec_settings();
        if !settings.spec_valid_server(source) {
            None
        } else if user is None || pass is None {
            Some(Decision { code: ResponseCode::Reject, vlan: None })
        } else {
            let outcome = settings.spec_authenticate(user->Some_0, pass->Some_0);
            if outcome.0 {
                Some(Decision { code: ResponseCode::Accept, vlan: outcome.1 })
            } else {
                match settings.spec_default_vlan(source) {
                    Some(v) => Some(Decision { code: ResponseCode::Accept, vlan: Some(v) }),
                    None => Some(Decision { code: ResponseCode::Reject, vlan: None }),
                }
            }
        }
    }

    /// Decides on a request whose credentials have been read.
    pub fn decide(&self, source: ServerAddr, user_name: Option<&str>, password: Option<&str>) -> (r: Option<Decision>)
        ensures
            r == self.spec_decide(
                source,
                match user_name { Some(u) => Some(u@), None => None },
                match password { Some(p) => Some(p@), None => None },
            ),
    {
        if !self.settings.valid_server(source) {
            return None;
        }
        let (user_name, password) = match (user_name, password) {
            (Some(u), Some(p)) => (u, p),
            _ => return Some(Decision { code: ResponseCode::Reject, vlan: None }),
        };
        let (authenticated, vlan) = self.settings.authenticate(user_name, password);
        if authenticated {
            Some(Decision { code: ResponseCode::Accept, vlan })
        } else {
            match self.settings.get_server_default_vlan(source) {
                Some(default_vlan) => Some(Decision { code: ResponseCode::Accept, vlan: Some(default_vlan) }),
                None => Some(Decision { code: ResponseCode::Reject, vlan: None }),
            }
        }
    }

    /// Whether `response` answers a request from `source` that carried this user
    /// name and password.
    pub open spec fn answers(
        &self,
        source: ServerAddr,
        response: radius::core::packet::Packet,
        user: Option<Seq<char>>,
        pass: Option<Seq<char>>,
    ) -> bool {
        match self.spec_decide(source, user, pass) {
            Some(d) => {
                &&& packet_code(response) == code_value(d.code)
                &&& packet_attrs(response) == decision_attrs(d)
            },
            None => false,
        }
    }

    /// Handles one request from `source`: `None` where nothing is to be sent,
    /// else the response to send back.
    pub fn handle_radius_request(&self, source: ServerAddr, request: &radius::core::packet::Packet) -> (r: Option<radius::core::packet::Packet>)
        ensures
            r is None <==> !self.spec_settings().spec_valid_server(source),
            r matches Some(response) ==> {
                &&& self.answers(source, response, user_of(*request), pass_of(*request))
                &&& same_header(response, *request)
            },
    {
        if !self.settings.valid_server(source) {
            return None;
        }
        let user_name = lookup_user_name(request);
        let password = match lookup_user_password(request) {
            Some(bytes) => utf8_text(bytes),
            None => None,
        };
        let user_ref = match &user_name {
            Some(u) => Some(u.as_str()),
            None => None,
        };
        let password_ref = match &password {
            Some(p) => Some(p.as_str()),
            None => None,
        };
        let decision = match self.decide(source, user_ref, password_ref) {
            Some(d) => d,
            None => return None,
        };
        let mut response = make_response(request, decision.code);
        apply_decision(&mut response, decision);
        proof {
            broadcast use encode_utf8_decode_utf8;
            let user = match user_name { Some(u) => Some(u@), None => None };
            let pass = match password { Some(p) => Some(p@), None => None };
            assert(strip_tunnel(Seq::<(u8, Seq<u8>)>::empty()) =~= Seq::<(u8, Seq<u8>)>::empty());
            assert(packet_attrs(response) =~= decision_attrs(decision));
            assert(user == user_of(*request));
            assert(pass == pass_of(*request));
            assert(self.answers(source, response, user, pass));
        }
        Some(response)
    }
}

/// The source of the shared secret: one secret for every client address.
pub struct OxideSecretProvider {
    secret: String,
}

impl OxideSecretProvider {
    pub closed spec fn spec_secret(&self) -> Seq<char> {
        self.secret@
    }

    pub fn new(secret: &str) -> (r: Self)
        ensures
            r.spec_secret() == secret@,
    {
        Self { secret: String::from_str(secret) }
    }

    /// The secret's bytes, the same for every remote address.
    pub fn fetch_secret(&self, _remote: ServerAddr) -> (r: Vec<u8>)
        ensures
            r@ == encode_utf8(self.spec_secret()),
    {
        vstd::slice::slice_to_vec(self.secret.as_str().as_bytes())
    }
}

} // verus!
