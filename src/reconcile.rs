//! Reconciling pods into servers: a pod that got an address is adopted (a
//! server is registered for it and the pod is marked as owned), and an owned
//! pod that is being deleted is released.

use vstd::prelude::*;
use crate::autoscale::{ReducedPlayerInfo, Server, ServerState};
use crate::events::ServerEvent;
use crate::ident::{IpAddress, id_text, parse_id, uuid_parsed, uuid_text};
use crate::permissions::texts;
use crate::props::{Properties, prop, get_prop};
use crate::text::{is_prefix, starts_with, skip_chars, same_text};

verus! {

/// The address of a pod, as it reads it.
#[derive(Debug, Clone, Copy, PartialEq, Eq, Structural)]
pub enum PodIp {
    Absent,
    Invalid,
    Valid(IpAddress),
}

/// What the reconciler reads of a pod.
#[derive(Debug)]
pub struct PodView {
    pub name: String,
    pub labels: Properties,
    pub finalizers: Vec<String>,
    pub ip: PodIp,
    /// A deletion of the pod was requested.
    pub deleting: bool,
}

pub open spec fn finalizer_text() -> Seq<char> {
    "skynet/finalizer"@
}

pub open spec fn has_finalizer(pod: PodView) -> bool {
    texts(pod.finalizers@).contains(finalizer_text())
}

/// A pod is adopted when it is not owned yet and has an address.
pub open spec fn adopts(pod: PodView) -> bool {
    &&& !has_finalizer(pod)
    &&& prop(pod.labels@, "skynet_id"@) is None
    &&& !(pod.ip is Absent)
}

/// An owned pod is released when its deletion was requested.
pub open spec fn releases(pod: PodView) -> bool {
    pod.deleting && has_finalizer(pod)
}

/// The properties that labels carry: those under `skynet-prop/`, without it.
pub open spec fn label_props(labels: Seq<(String, String)>) -> Seq<(Seq<char>, Seq<char>)>
    decreases labels.len(),
{
    if labels.len() == 0 {
        Seq::empty()
    } else {
        label_props(labels.drop_last()) + if is_prefix("skynet-prop/"@, labels.last().0@) {
            seq![(labels.last().0@.skip(12), labels.last().1@)]
        } else {
            Seq::empty()
        }
    }
}

pub open spec fn pair_texts(ps: Seq<(String, String)>) -> Seq<(Seq<char>, Seq<char>)> {
    ps.map_values(|p: (String, String)| (p.0@, p.1@))
}

/// The label that names a pod's server: `sky-{id}-net`.
pub open spec fn id_label(id: u128) -> Seq<char> {
    "sky-"@ + uuid_text(id) + "-net"@
}

/// A list of finalizers without the system's.
pub open spec fn without_finalizer(fs: Seq<Seq<char>>) -> Seq<Seq<char>>
    decreases fs.len(),
{
    if fs.len() == 0 {
        fs
    } else if fs.last() == finalizer_text() {
        without_finalizer(fs.drop_last())
    } else {
        without_finalizer(fs.drop_last()).push(fs.last())
    }
}

/// What adopting a pod does.
#[derive(Debug)]
pub struct Adoption {
    /// The server to register; none when one is registered for the pod already.
    pub server: Option<Server>,
    /// The route to publish; none for a proxy, or when the server was
    /// registered already.
    pub route: Option<ServerEvent>,
    /// The pod's finalizers with the system's added.
    pub finalizers: Vec<String>,
    /// The value of the pod's `skynet_id` label.
    pub id_label: String,
}

/// What releasing a pod does.
#[derive(Debug)]
pub struct Release {
    /// The server to remove and the route to withdraw; none when the pod has
    /// no `skynet_id` label.
    pub server: Option<u128>,
    pub route: Option<ServerEvent>,
    /// The pod's finalizers without the system's.
    pub finalizers: Vec<String>,
}

/// What a pod observation calls for.
#[derive(Debug)]
pub enum PodAction {
    Adopt(Adoption),
    Release(Release),
    /// The pod's address cannot be read.
    InvalidAddress,
    /// The pod's `skynet_id` label does not hold an identifier.
    InvalidId,
    Nothing,
}

/// The identifier in a `skynet_id` label, if it reads `sky-...-net` around one.
pub open spec fn label_id(l: Seq<char>) -> Option<u128> {
    if is_prefix("sky-"@, l) && l.len() >= 8 && l.skip(l.len() - 4) == "-net"@ {
        uuid_parsed(l.subrange(4, l.len() - 4))
    } else {
        uuid_parsed(l)
    }
}

fn finalizers_contain(fs: &Vec<String>) -> (r: bool)
    ensures
        r == texts(fs@).contains(finalizer_text()),
{
    let mut i: usize = 0;
    while i < fs.len()
        invariant
            i <= fs@.len(),
            forall|j: int| 0 <= j < i ==> fs@[j]@ != finalizer_text(),
        decreases fs@.len() - i,
    {
        if same_text(fs[i].as_str(), "skynet/finalizer") {
            assert(texts(fs@)[i as int] == finalizer_text());
            return true;
        }
        i = i + 1;
    }
    assert(!texts(fs@).contains(finalizer_text())) by {
        if texts(fs@).contains(finalizer_text()) {
            let j = choose|j: int| 0 <= j < texts(fs@).len() && texts(fs@)[j] == finalizer_text();
            assert(fs@[j]@ == finalizer_text());
        }
    }
    false
}

/// The properties that a pod's labels carry.
pub fn properties_from_labels(labels: &Properties) -> (r: Properties)
    ensures
        pair_texts(r@) == label_props(labels@),
{
    let mut out: Properties = Vec::new();
    let mut i: usize = 0;
    proof {
        reveal_strlit("skynet-prop/");
    }
    while i < labels.len()
        invariant
            i <= labels@.len(),
            pair_texts(out@) == label_props(labels@.take(i as int)),
        decreases labels@.len() - i,
    {
        proof {
            reveal_strlit("skynet-prop/");
        }
        assert(labels@.take(i + 1).drop_last() =~= labels@.take(i as int));
        let ghost before = out@;
        if starts_with(labels[i].0.as_str(), "skynet-prop/") {
            let k = skip_chars(labels[i].0.as_str(), 12);
            let v = labels[i].1.clone();
            out.push((k, v));
            assert(pair_texts(out@) =~= pair_texts(before) + seq![(k@, v@)]);
        } else {
            assert(pair_texts(out@) =~= pair_texts(before) + Seq::<(Seq<char>, Seq<char>)>::empty());
        }
        i = i + 1;
    }
    assert(labels@.take(labels@.len() as int) =~= labels@);
    out
}

/// The identifier that a `skynet_id` label names.
pub fn read_id_label(l: &str) -> (r: Option<u128>)
    ensures
        r == label_id(l@),
{
    proof {
        reveal_strlit("sky-");
        reveal_strlit("-net");
    }
    let n = l.unicode_len();
    if starts_with(l, "sky-") && n >= 8 {
        let tail = l.substring_char(n - 4, n);
        assert(tail@ =~= l@.skip(n - 4));
        if same_text(tail, "-net") {
            let mid = l.substring_char(4, n - 4);
            return parse_id(mid);
        }
    }
    parse_id(l)
}

fn copy_texts(v: &Vec<String>) -> (r: Vec<String>)
    ensures
        r@ == v@,
{
    let mut out: Vec<String> = Vec::new();
    let mut i: usize = 0;
    while i < v.len()
        invariant
            i <= v@.len(),
            out@ == v@.take(i as int),
        decreases v@.len() - i,
    {
        out.push(v[i].clone());
        assert(v@.take(i + 1) =~= v@.take(i as int).push(v@[i as int]));
        i = i + 1;
    }
    assert(v@.take(v@.len() as int) =~= v@);
    out
}

/// Decides what a pod observation calls for. `registered` is the server
/// already registered under the pod's name, if any; `fresh` the identifier
/// minted for a server registered now.
pub fn plan_pod(pod: &PodView, registered: Option<u128>, fresh: u128) -> (r: PodAction)
    ensures
        adopts(*pod) && pod.ip is Invalid ==> r is InvalidAddress,
        adopts(*pod) && pod.ip is Valid ==> r is Adopt && {
            let a = r->Adopt_0;
            let id = match registered { Some(x) => x, None => fresh };
            let kind = prop(pod.labels@, "skynet/kind"@);
            &&& texts(a.finalizers@) == texts(pod.finalizers@).push(finalizer_text())
            &&& a.id_label@ == id_label(id)
            &&& registered is Some ==> a.server is None && a.route is None
            &&& registered is None ==> a.server is Some && {
                let s = a.server.unwrap();
                &&& s.id == fresh
                &&& s.description@.len() == 0
                &&& s.ip == pod.ip->Valid_0
                &&& s.key is None
                &&& Some(s.kind@) == kind || (kind is None && s.kind@.len() == 0)
                &&& s.label@ == pod.name@
                &&& s.properties is Some && pair_texts(s.properties.unwrap()@) == label_props(pod.labels@)
                &&& s.state == ServerState::Starting
                &&& (s.kind@ == "proxy"@ <==> a.route is None)
                &&& a.route is Some ==> match a.route.unwrap() {
                    ServerEvent::NewRoute { addr, id, description, name, kind, properties } => {
                        &&& addr == s.ip
                        &&& id == s.id
                        &&& description@ == s.description@
                        &&& name@ == s.label@
                        &&& kind@ == s.kind@
                        &&& properties@ == s.properties.unwrap()@
                    },
                    _ => false,
                }
            }
        },
        !adopts(*pod) && releases(*pod) ==> {
            let l = prop(pod.labels@, "skynet_id"@);
            &&& l is Some && label_id(l.unwrap()) is None ==> r is InvalidId
            &&& !(l is Some && label_id(l.unwrap()) is None) ==> r is Release && {
                let rel = r->Release_0;
                &&& texts(rel.finalizers@) == without_finalizer(texts(pod.finalizers@))
                &&& rel.server == match l { Some(t) => label_id(t), None => None }
                &&& match rel.server {
                    Some(id) => rel.route == Some(ServerEvent::DeleteRoute { id, name: pod.name }),
                    None => rel.route is None,
                }
            }
        },
        !adopts(*pod) && !releases(*pod) ==> r is Nothing,
{
    proof {
        reveal_strlit("skynet_id");
        reveal_strlit("skynet/kind");
        reveal_strlit("proxy");
    }
    let owned = finalizers_contain(&pod.finalizers);
    let labelled = get_prop(&pod.labels, "skynet_id");
    if !owned && labelled.is_none() {
        match pod.ip {
            PodIp::Absent => {},
            PodIp::Invalid => return PodAction::InvalidAddress,
            PodIp::Valid(addr) => {
                let id = match registered {
                    Some(x) => x,
                    None => fresh,
                };
                let mut finalizers = copy_texts(&pod.finalizers);
                finalizers.push(String::from_str("skynet/finalizer"));
                assert(texts(finalizers@) =~= texts(pod.finalizers@).push(finalizer_text()));
                let id_label = String::from_str("sky-").concat(id_text(id).as_str()).concat("-net");
                if registered.is_some() {
                    return PodAction::Adopt(Adoption { server: None, route: None, finalizers, id_label });
                }
                let kind = match get_prop(&pod.labels, "skynet/kind") {
                    Some(k) => k,
                    None => String::new(),
                };
                let properties = properties_from_labels(&pod.labels);
                let is_proxy = same_text(kind.as_str(), "proxy");
                let route = if is_proxy {
                    None
                } else {
                    Some(ServerEvent::NewRoute {
                        addr,
                        id,
                        description: String::new(),
                        name: pod.name.clone(),
                        kind: kind.clone(),
                        properties: crate::autoscale::copy_props(&properties),
                    })
                };
                let server = Server {
                    id,
                    description: String::new(),
                    ip: addr,
                    key: None,
                    kind,
                    label: pod.name.clone(),
                    properties: Some(properties),
                    state: ServerState::Starting,
                };
                return PodAction::Adopt(Adoption { server: Some(server), route, finalizers, id_label });
            },
        }
    }
    if pod.deleting && owned {
        let server = match &labelled {
            Some(l) => match read_id_label(l.as_str()) {
                Some(id) => Some(id),
                None => return PodAction::InvalidId,
            },
            None => None,
        };
        let mut finalizers: Vec<String> = Vec::new();
        let mut i: usize = 0;
        while i < pod.finalizers.len()
            invariant
                i <= pod.finalizers@.len(),
                texts(finalizers@) == without_finalizer(texts(pod.finalizers@.take(i as int))),
            decreases pod.finalizers@.len() - i,
        {
            let ghost before = finalizers@;
            let ghost prefix = texts(pod.finalizers@.take(i as int));
            assert(texts(pod.finalizers@.take(i + 1)) =~= prefix.push(pod.finalizers@[i as int]@));
            assert(prefix.push(pod.finalizers@[i as int]@).drop_last() =~= prefix);
            if !same_text(pod.finalizers[i].as_str(), "skynet/finalizer") {
                finalizers.push(pod.finalizers[i].clone());
                assert(texts(finalizers@) =~= texts(before).push(pod.finalizers@[i as int]@));
            }
            i = i + 1;
        }
        assert(pod.finalizers@.take(pod.finalizers@.len() as int) =~= pod.finalizers@);
        let route = match server {
            Some(id) => Some(ServerEvent::DeleteRoute { id, name: pod.name.clone() }),
            None => None,
        };
        return PodAction::Release(Release { server, route, finalizers });
    }
    PodAction::Nothing
}

/// A pod that carries the finalizer after its adoption is not adopted again,
/// whatever else changed: a second observation registers no second server
/// and publishes no second route.
pub proof fn lemma_adoption_is_idempotent(pod: PodView, after: PodView)
    requires
        texts(after.finalizers@) == texts(pod.finalizers@).push(finalizer_text()),
    ensures
        has_finalizer(after),
        !adopts(after),
        after.deleting ==> releases(after),
{
    let t = texts(after.finalizers@);
    assert(t[t.len() - 1] == finalizer_text());
}

/// The players whose session is closed when proxy `proxy` goes away: those
/// online through it, in order.
pub open spec fn closed_by(online: Seq<ReducedPlayerInfo>, proxy: u128) -> Seq<u128>
    decreases online.len(),
{
    if online.len() == 0 {
        Seq::empty()
    } else {
        closed_by(online.drop_last(), proxy) + if online.last().proxy == proxy {
            seq![online.last().uuid]
        } else {
            Seq::empty()
        }
    }
}

/// Picks, among the online players, those whose sessions go with a released
/// server: when it is a proxy, the players online through it; else none.
pub fn sessions_to_close(server: &Server, online: &Vec<ReducedPlayerInfo>) -> (r: Vec<u128>)
    ensures
        r@ == if server.kind@ == "proxy"@ { closed_by(online@, server.id) } else { Seq::empty() },
{
    let mut out: Vec<u128> = Vec::new();
    if !same_text(server.kind.as_str(), "proxy") {
        return out;
    }
    let proxy = server.id;
    let mut i: usize = 0;
    while i < online.len()
        invariant
            i <= online@.len(),
            out@ == closed_by(online@.take(i as int), proxy),
        decreases online@.len() - i,
    {
        assert(online@.take(i + 1).drop_last() =~= online@.take(i as int));
        if online[i].proxy == proxy {
            out.push(online[i].uuid);
        } else {
            assert(out@ =~= out@ + Seq::<u128>::empty());
        }
        i = i + 1;
    }
    assert(online@.take(online@.len() as int) =~= online@);
    out
}

/// Every player online through a released proxy, and only those, has its
/// session closed.
pub proof fn lemma_release_closes_exactly(online: Seq<ReducedPlayerInfo>, proxy: u128)
    ensures
        forall|i: int| 0 <= i < online.len() && online[i].proxy == proxy ==> closed_by(online, proxy).contains(online[i].uuid),
        forall|u: u128| closed_by(online, proxy).contains(u) ==> exists|i: int| 0 <= i < online.len() && online[i].proxy == proxy && online[i].uuid == u,
    decreases online.len(),
{
    if online.len() > 0 {
        let rest = online.drop_last();
        lemma_release_closes_exactly(rest, proxy);
        let c = closed_by(online, proxy);
        let cr = closed_by(rest, proxy);
        assert forall|i: int| 0 <= i < online.len() && online[i].proxy == proxy implies c.contains(online[i].uuid) by {
            if i < online.len() - 1 {
                assert(rest[i] == online[i]);
                let k = choose|k: int| 0 <= k < cr.len() && cr[k] == online[i].uuid;
                assert(c[k] == cr[k]);
            } else {
                assert(c[c.len() - 1] == online[i].uuid);
            }
        }
        assert forall|u: u128| c.contains(u) implies exists|i: int| 0 <= i < online.len() && online[i].proxy == proxy && online[i].uuid == u by {
            let k = choose|k: int| 0 <= k < c.len() && c[k] == u;
            if k < cr.len() {
                assert(cr[k] == u);
                assert(cr.contains(u));
                let i = choose|i: int| 0 <= i < rest.len() && rest[i].proxy == proxy && rest[i].uuid == u;
                assert(online[i] == rest[i]);
            } else {
                assert(online[online.len() - 1].uuid == u);
            }
        }
    }
}

/// The labels of a pod created for a kind: owned by the system, of the kind,
/// and one `skynet-prop/{key}` label per property.
pub open spec fn labels_for(kind: Seq<char>, props: Seq<(String, String)>) -> Seq<(Seq<char>, Seq<char>)> {
    seq![("managed_by"@, "skynet"@), ("skynet/kind"@, kind)]
        + props.map_values(|p: (String, String)| ("skynet-prop/"@ + p.0@, p.1@))
}

/// The labels of a pod created for a kind with the given properties.
pub fn pod_labels(kind: &str, props: &Properties) -> (r: Properties)
    ensures
        pair_texts(r@) == labels_for(kind@, props@),
{
    let mut out: Properties = Vec::new();
    out.push((String::from_str("managed_by"), String::from_str("skynet")));
    out.push((String::from_str("skynet/kind"), kind.to_owned()));
    let mut i: usize = 0;
    while i < props.len()
        invariant
            i <= props@.len(),
            pair_texts(out@) == labels_for(kind@, props@.take(i as int)),
        decreases props@.len() - i,
    {
        let k = String::from_str("skynet-prop/").concat(props[i].0.as_str());
        let v = props[i].1.clone();
        let ghost before = out@;
        out.push((k, v));
        assert(pair_texts(out@) =~= pair_texts(before).push((k@, v@)));
        assert(labels_for(kind@, props@.take(i + 1)) =~= labels_for(kind@, props@.take(i as int)).push((k@, v@)));
        i = i + 1;
    }
    assert(props@.take(props@.len() as int) =~= props@);
    out
}

/// The properties read from labels of text pairs.
pub open spec fn props_in(labels: Seq<(Seq<char>, Seq<char>)>) -> Seq<(Seq<char>, Seq<char>)>
    decreases labels.len(),
{
    if labels.len() == 0 {
        Seq::empty()
    } else {
        props_in(labels.drop_last()) + if is_prefix("skynet-prop/"@, labels.last().0) {
            seq![(labels.last().0.skip(12), labels.last().1)]
        } else {
            Seq::empty()
        }
    }
}

proof fn lemma_props_in_texts(labels: Seq<(String, String)>)
    ensures
        props_in(pair_texts(labels)) == label_props(labels),
    decreases labels.len(),
{
    if labels.len() > 0 {
        lemma_props_in_texts(labels.drop_last());
        assert(pair_texts(labels).drop_last() =~= pair_texts(labels.drop_last()));
    }
}

proof fn lemma_props_in_tagged(props: Seq<(String, String)>)
    ensures
        props_in(props.map_values(|p: (String, String)| ("skynet-prop/"@ + p.0@, p.1@))) == pair_texts(props),
    decreases props.len(),
{
    reveal_strlit("skynet-prop/");
    let tagged = props.map_values(|p: (String, String)| ("skynet-prop/"@ + p.0@, p.1@));
    if props.len() > 0 {
        lemma_props_in_tagged(props.drop_last());
        assert(tagged.drop_last() =~= props.drop_last().map_values(|p: (String, String)| ("skynet-prop/"@ + p.0@, p.1@)));
        let last = tagged.last();
        assert(last.0.take(12) =~= "skynet-prop/"@);
        assert(last.0.skip(12) =~= props.last().0@);
        assert(pair_texts(props).drop_last() =~= pair_texts(props.drop_last()));
    } else {
        assert(tagged =~= Seq::<(Seq<char>, Seq<char>)>::empty());
        assert(pair_texts(props) =~= Seq::<(Seq<char>, Seq<char>)>::empty());
    }
}

proof fn lemma_props_in_append(a: Seq<(Seq<char>, Seq<char>)>, b: Seq<(Seq<char>, Seq<char>)>)
    ensures
        props_in(a + b) == props_in(a) + props_in(b),
    decreases b.len(),
{
    if b.len() == 0 {
        assert(a + b =~= a);
        assert(props_in(a) + props_in(b) =~= props_in(a));
    } else {
        lemma_props_in_append(a, b.drop_last());
        assert((a + b).drop_last() =~= a + b.drop_last());
        assert((a + b).last() == b.last());
    }
}

/// A pod created with some properties carries them back to the server that
/// adopts it: the properties read from its labels are those it was given.
pub proof fn lemma_labels_round_trip(kind: Seq<char>, props: Seq<(String, String)>, labels: Seq<(String, String)>)
    requires
        pair_texts(labels) == labels_for(kind, props),
    ensures
        label_props(labels) == pair_texts(props),
{
    reveal_strlit("skynet-prop/");
    reveal_strlit("managed_by");
    reveal_strlit("skynet/kind");
    lemma_props_in_texts(labels);
    let head = seq![("managed_by"@, "skynet"@), ("skynet/kind"@, kind)];
    let tagged = props.map_values(|p: (String, String)| ("skynet-prop/"@ + p.0@, p.1@));
    lemma_props_in_append(head, tagged);
    lemma_props_in_tagged(props);
    assert("managed_by"@[0] == 'm');
    assert("skynet/kind"@[6] == '/' && "skynet-prop/"@[6] == '-');
    assert(!is_prefix("skynet-prop/"@, "managed_by"@));
    assert(!is_prefix("skynet-prop/"@, "skynet/kind"@));
    let h1 = seq![("managed_by"@, "skynet"@)];
    assert(head.drop_last() =~= h1);
    assert(h1.drop_last() =~= Seq::<(Seq<char>, Seq<char>)>::empty());
    assert(props_in(h1.drop_last()) =~= Seq::<(Seq<char>, Seq<char>)>::empty());
    assert(props_in(h1) =~= Seq::<(Seq<char>, Seq<char>)>::empty());
    assert(props_in(head) =~= Seq::<(Seq<char>, Seq<char>)>::empty());
}

/// The environment of a pod created for a kind: where the control plane and
/// the bus are, then the kind's own variables.
pub fn pod_env(control_plane: &str, bus: &str, env: &Properties) -> (r: Properties)
    ensures
        pair_texts(r@) == seq![("SKYNET_URL"@, control_plane@), ("AMQP_ADDRESS"@, bus@)] + pair_texts(env@),
{
    let mut out: Properties = Vec::new();
    out.push((String::from_str("SKYNET_URL"), control_plane.to_owned()));
    out.push((String::from_str("AMQP_ADDRESS"), bus.to_owned()));
    let mut i: usize = 0;
    while i < env.len()
        invariant
            i <= env@.len(),
            pair_texts(out@) == seq![("SKYNET_URL"@, control_plane@), ("AMQP_ADDRESS"@, bus@)] + pair_texts(env@.take(i as int)),
        decreases env@.len() - i,
    {
        let ghost before = out@;
        out.push((env[i].0.clone(), env[i].1.clone()));
        assert(pair_texts(out@) =~= pair_texts(before).push((env@[i as int].0@, env@[i as int].1@)));
        assert(pair_texts(env@.take(i + 1)) =~= pair_texts(env@.take(i as int)).push((env@[i as int].0@, env@[i as int].1@)));
        i = i + 1;
    }
    assert(env@.take(env@.len() as int) =~= env@);
    out
}

} // verus!
