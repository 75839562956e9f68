use skynet::autoscale::{
    autoscale_pod_name, autoscale_properties, choose_server, effective_slots, generate_server_name, plan_kind_move,
    plan_waiting, should_delete_idle, Autoscale, KindMove, ReducedPlayerInfo, ScalingError, Server, ServerState,
};
use skynet::events::ServerEvent;
use skynet::ident::{id_text, IpAddress};
use skynet::online_count::OnlineCounts;
use skynet::props::{get_prop, Properties};
use skynet::leadership::{lease_transition, LeaseAction};
use skynet::reconcile::{
    plan_pod, pod_env, pod_labels, properties_from_labels, read_id_label, sessions_to_close, PodAction, PodIp, PodView,
};

fn s(x: &str) -> String {
    x.to_string()
}

fn props(entries: &[(&str, &str)]) -> Properties {
    entries.iter().map(|(k, v)| (s(k), s(v))).collect()
}

fn server(id: u128, kind: &str, state: ServerState, p: Option<Properties>) -> Server {
    Server {
        id,
        description: s(""),
        ip: IpAddress::V4(0x0a00_0001),
        key: None,
        kind: s(kind),
        label: format!("{}-{}", kind, id),
        properties: p,
        state,
    }
}

fn policy(slots: i64, min: i32) -> Option<Autoscale> {
    Some(Autoscale::Simple { slots, properties: Vec::new(), env: Vec::new(), min })
}

fn player(uuid: u128, proxy: u128) -> ReducedPlayerInfo {
    ReducedPlayerInfo { uuid, username: format!("p{}", uuid), session: uuid + 1000, proxy, server: None }
}

#[test]
fn idle_server_deleted_when_headroom_reached() {
    let me = server(1, "mini", ServerState::Idle, None);
    let peers = vec![
        server(1, "mini", ServerState::Idle, None),
        server(2, "mini", ServerState::Waiting, None),
        server(3, "mini", ServerState::Idle, None),
        server(4, "mini", ServerState::Playing, None),
    ];
    assert!(should_delete_idle(&me, &policy(10, 2), &peers));
}

#[test]
fn idle_server_kept_below_headroom() {
    let me = server(1, "mini", ServerState::Idle, None);
    let peers = vec![
        server(1, "mini", ServerState::Idle, None),
        server(2, "mini", ServerState::Waiting, None),
        server(4, "mini", ServerState::Playing, None),
        server(5, "other", ServerState::Idle, None),
    ];
    assert!(!should_delete_idle(&me, &policy(10, 2), &peers));
}

#[test]
fn idle_server_of_three_deleted_with_min_one() {
    let me = server(2, "mini", ServerState::Idle, None);
    let peers = vec![
        server(1, "mini", ServerState::Waiting, None),
        server(2, "mini", ServerState::Idle, None),
        server(3, "mini", ServerState::Playing, None),
    ];
    assert!(should_delete_idle(&me, &policy(2, 1), &peers));
}

#[test]
fn idle_server_rules_without_headroom() {
    let me = server(1, "mini", ServerState::Idle, None);
    assert!(!should_delete_idle(&me, &None, &vec![]));
    assert!(should_delete_idle(&me, &policy(10, 0), &vec![]));
    let pinned = server(1, "mini", ServerState::Idle, Some(props(&[("canidle", "false")])));
    assert!(should_delete_idle(&pinned, &None, &vec![]));
    let free = server(1, "mini", ServerState::Idle, Some(props(&[("canidle", "true")])));
    assert!(!should_delete_idle(&free, &None, &vec![]));
}

#[test]
fn slots_come_from_property_policy_or_default() {
    assert_eq!(effective_slots(&Some(props(&[("slots", "3")])), &policy(8, 1)), Ok(3));
    assert_eq!(effective_slots(&Some(props(&[("slots", "x3")])), &policy(8, 1)), Err(ScalingError::ParseInt));
    assert_eq!(effective_slots(&None, &policy(8, 1)), Ok(8));
    assert_eq!(effective_slots(&None, &None), Ok(100));
}

#[test]
fn queued_players_drained_with_one_provision() {
    let queued: Vec<ReducedPlayerInfo> = (0..10).map(|i| player(100 + i, 7)).collect();
    let plan = plan_waiting(55, 8, &queued, true);
    assert!(plan.provision);
    assert_eq!(plan.moves.len(), 8);
    for (i, e) in plan.moves.iter().enumerate() {
        match e {
            ServerEvent::MovePlayer { proxy, server, player } => {
                assert_eq!(*proxy, 7);
                assert_eq!(*server, 55);
                assert_eq!(*player, 100 + i as u128);
            }
            _ => panic!("not a move"),
        }
    }
}

#[test]
fn queued_players_never_exceed_slots() {
    let queued: Vec<ReducedPlayerInfo> = (0..9).map(|i| player(100 + i, 7)).collect();
    let plan = plan_waiting(55, 8, &queued, false);
    assert!(!plan.provision);
    assert_eq!(plan.moves.len(), 8);
    let few: Vec<ReducedPlayerInfo> = (0..3).map(|i| player(100 + i, 7)).collect();
    let plan = plan_waiting(55, 8, &few, true);
    assert!(!plan.provision);
    assert_eq!(plan.moves.len(), 3);
}

#[test]
fn move_by_kind_picks_first_server_with_room() {
    let servers = vec![
        server(1, "mini", ServerState::Playing, None),
        server(2, "mini", ServerState::Waiting, Some(props(&[("host", "x")]))),
        server(3, "mini", ServerState::Waiting, None),
        server(4, "mini", ServerState::Idle, None),
    ];
    assert_eq!(choose_server(&servers, &vec![0, 0, 2, 0], &policy(2, 1)), Ok(Some(3)));
    assert_eq!(choose_server(&servers, &vec![0, 0, 1, 0], &policy(2, 1)), Ok(Some(2)));
    let odd = vec![server(5, "mini", ServerState::Idle, Some(props(&[("slots", "many")])))];
    assert_eq!(choose_server(&odd, &vec![0], &policy(2, 1)), Err(ScalingError::ParseInt));
}

#[test]
fn move_by_kind_fallbacks() {
    let full = vec![server(1, "mini", ServerState::Waiting, None), server(2, "mini", ServerState::Idle, None)];
    let chosen = choose_server(&full, &vec![2, 2], &policy(2, 1)).unwrap();
    assert_eq!(chosen, None);
    assert_eq!(plan_kind_move(chosen, true, false), KindMove::ProvisionAndWait);
    assert_eq!(plan_kind_move(chosen, true, true), KindMove::JoinWaiting);
    assert_eq!(plan_kind_move(chosen, false, false), KindMove::Failed);
    assert_eq!(plan_kind_move(Some(4), true, true), KindMove::Commit(4));
    // once a server of the kind is waiting, the queued player is moved to it
    let plan = plan_waiting(9, 2, &vec![player(42, 7)], true);
    assert!(!plan.provision);
    assert!(matches!(plan.moves[0], ServerEvent::MovePlayer { proxy: 7, server: 9, player: 42 }));
}

fn has_five_digit_tail(name: &str, head: &str) -> bool {
    let rest = match name.strip_prefix(head) {
        Some(r) => r,
        None => return false,
    };
    rest.len() == 5 && rest.chars().all(|c| c.is_ascii_digit()) && rest.parse::<u32>().map_or(false, |n| (10000..99999).contains(&n))
}

#[test]
fn pod_names_carry_five_random_digits() {
    assert!(has_five_digit_tail(&autoscale_pod_name("mini"), "mini-"));
    assert!(has_five_digit_tail(&generate_server_name("mini", "x"), "mini-x-"));
}

#[test]
fn autoscaled_servers_are_marked() {
    let p = Autoscale::Simple { slots: 2, properties: props(&[("map", "a"), ("autoscale", "no")]), env: vec![], min: 1 };
    let out = autoscale_properties(&p);
    assert_eq!(get_prop(&out, "autoscale"), Some(s("true")));
    assert_eq!(get_prop(&out, "map"), Some(s("a")));
}

fn pod(name: &str, labels: Properties, finalizers: Vec<String>, ip: PodIp, deleting: bool) -> PodView {
    PodView { name: s(name), labels, finalizers, ip, deleting }
}

#[test]
fn new_pod_is_adopted_once() {
    let labels = props(&[("managed_by", "skynet"), ("skynet/kind", "mini"), ("skynet-prop/map", "castle")]);
    let p = pod("mini-x-12345", labels.clone(), vec![s("other")], PodIp::Valid(IpAddress::V4(0x0a00_0002)), false);
    let adoption = match plan_pod(&p, None, 77) {
        PodAction::Adopt(a) => a,
        other => panic!("{:?}", other),
    };
    let srv = adoption.server.unwrap();
    assert_eq!(srv.id, 77);
    assert_eq!(srv.state, ServerState::Starting);
    assert_eq!(srv.kind, "mini");
    assert_eq!(srv.label, "mini-x-12345");
    assert_eq!(srv.properties.clone().unwrap(), props(&[("map", "castle")]));
    match adoption.route.unwrap() {
        ServerEvent::NewRoute { id, kind, name, .. } => {
            assert_eq!(id, 77);
            assert_eq!(kind, "mini");
            assert_eq!(name, "mini-x-12345");
        }
        e => panic!("{:?}", e),
    }
    assert_eq!(adoption.finalizers, vec![s("other"), s("skynet/finalizer")]);
    assert_eq!(adoption.id_label, format!("sky-{}-net", id_text(77)));
    // the patched pod is not adopted again
    let mut patched_labels = labels;
    patched_labels.push((s("skynet_id"), adoption.id_label.clone()));
    let again = pod("mini-x-12345", patched_labels, adoption.finalizers.clone(), PodIp::Valid(IpAddress::V4(0x0a00_0002)), false);
    assert!(matches!(plan_pod(&again, None, 78), PodAction::Nothing));
}

#[test]
fn orphan_server_is_not_registered_twice() {
    let labels = props(&[("skynet/kind", "mini")]);
    let p = pod("mini-1", labels, vec![], PodIp::Valid(IpAddress::V4(1)), false);
    match plan_pod(&p, Some(5), 6) {
        PodAction::Adopt(a) => {
            assert!(a.server.is_none());
            assert!(a.route.is_none());
            assert_eq!(a.id_label, format!("sky-{}-net", id_text(5)));
        }
        other => panic!("{:?}", other),
    }
}

#[test]
fn proxy_pod_gets_no_route() {
    let p = pod("proxy-1", props(&[("skynet/kind", "proxy")]), vec![], PodIp::Valid(IpAddress::V4(1)), false);
    match plan_pod(&p, None, 6) {
        PodAction::Adopt(a) => {
            assert!(a.route.is_none());
            assert_eq!(a.server.unwrap().kind, "proxy");
        }
        other => panic!("{:?}", other),
    }
}

#[test]
fn pods_without_address_wait() {
    let p = pod("mini-1", props(&[("skynet/kind", "mini")]), vec![], PodIp::Absent, false);
    assert!(matches!(plan_pod(&p, None, 6), PodAction::Nothing));
    let bad = pod("mini-1", props(&[("skynet/kind", "mini")]), vec![], PodIp::Invalid, false);
    assert!(matches!(plan_pod(&bad, None, 6), PodAction::InvalidAddress));
}

#[test]
fn deleted_pod_is_released() {
    let id: u128 = 0x1234_5678_9abc_def0_1234_5678_9abc_def0;
    let labels = props(&[("skynet/kind", "mini"), ("skynet_id", &format!("sky-{}-net", id_text(id)))]);
    let p = pod("mini-1", labels, vec![s("a"), s("skynet/finalizer")], PodIp::Valid(IpAddress::V4(1)), true);
    match plan_pod(&p, None, 6) {
        PodAction::Release(r) => {
            assert_eq!(r.server, Some(id));
            assert_eq!(r.finalizers, vec![s("a")]);
            assert!(matches!(r.route, Some(ServerEvent::DeleteRoute { id: x, .. }) if x == id));
        }
        other => panic!("{:?}", other),
    }
    let bad = pod("mini-1", props(&[("skynet_id", "sky-nope-net")]), vec![s("skynet/finalizer")], PodIp::Absent, true);
    assert!(matches!(plan_pod(&bad, None, 6), PodAction::InvalidId));
    let bare = pod("mini-1", vec![], vec![s("skynet/finalizer")], PodIp::Absent, true);
    match plan_pod(&bare, None, 6) {
        PodAction::Release(r) => {
            assert_eq!(r.server, None);
            assert!(r.route.is_none());
            assert!(r.finalizers.is_empty());
        }
        other => panic!("{:?}", other),
    }
}

#[test]
fn id_labels_are_read_back() {
    let id: u128 = 0xfeed;
    assert_eq!(read_id_label(&format!("sky-{}-net", id_text(id))), Some(id));
    assert_eq!(read_id_label("sky-zzz-net"), None);
}

#[test]
fn proxy_release_closes_its_sessions() {
    let online = vec![player(1, 10), player(2, 11), player(3, 10)];
    assert_eq!(sessions_to_close(&server(10, "proxy", ServerState::Started, None), &online), vec![1, 3]);
    assert_eq!(sessions_to_close(&server(12, "proxy", ServerState::Started, None), &online), Vec::<u128>::new());
    assert_eq!(sessions_to_close(&server(10, "mini", ServerState::Idle, None), &online), Vec::<u128>::new());
}

#[test]
fn pod_labels_round_trip() {
    let p = props(&[("map", "castle"), ("slots", "4")]);
    let labels = pod_labels("mini", &p);
    assert_eq!(labels[0], (s("managed_by"), s("skynet")));
    assert_eq!(labels[1], (s("skynet/kind"), s("mini")));
    assert_eq!(labels[2], (s("skynet-prop/map"), s("castle")));
    assert_eq!(properties_from_labels(&labels), p);
}

#[test]
fn online_count_aggregates_on_leader() {
    let mut c = OnlineCounts::new();
    assert_eq!(c.record(true, 0xA, 3), Some(3));
    assert_eq!(c.record(true, 0xB, 5), Some(8));
    assert_eq!(c.record(true, 0xA, 4), Some(9));
    c.remove(0xB);
    assert_eq!(c.total(), 4);
    c.remove(0xC);
    assert_eq!(c.total(), 4);
}

#[test]
fn online_count_not_kept_off_leader() {
    let mut c = OnlineCounts::new();
    assert_eq!(c.record(false, 0xA, 3), None);
    assert_eq!(c.total(), 0);
    assert!(c.update(0xA, 2));
    assert!(!c.update(0xA, 6));
    assert_eq!(c.total(), 6);
}

#[test]
fn lease_changes_start_and_stop_the_reconciler() {
    assert_eq!(lease_transition(false, true), LeaseAction::StartReconciler);
    assert_eq!(lease_transition(true, false), LeaseAction::StopReconciler);
    assert_eq!(lease_transition(true, true), LeaseAction::Keep);
    assert_eq!(lease_transition(false, false), LeaseAction::Keep);
}

#[test]
fn pod_environment_names_control_plane_and_bus() {
    let env = pod_env("http://cp", "amqp://bus", &props(&[("MODE", "fast")]));
    assert_eq!(env, props(&[("SKYNET_URL", "http://cp"), ("AMQP_ADDRESS", "amqp://bus"), ("MODE", "fast")]));
}
