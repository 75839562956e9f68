use skynet::associations::{Associations, Lookup};
use skynet::bans::{banned_notice, ip_ban_reason, BanWalk, WalkStep};
use skynet::ident::{id_text, IpAddress};
use skynet::login::{
    already_connected_message, ban_expiration_text, banned_message, ends_wait, ip_denied_message, is_host, login_groups,
    maintenance_message, prelogin_step, proxy_login_step, reputation_bans, IpBan, PreLoginStep, ProxyLoginStep,
};
use skynet::permissions::{resolve_permissions, Group};
use skynet::players::{member_groups, DbPlayerInfo, DbProxyPlayerInfo, DbServerPlayerInfo};
use skynet::proxycheck::{resolve_answer, ProxyCheckError, ProxyCheckIpResponse, ProxyCheckStatus};
use skynet::sanctions::{parse_sanction, plan_sanction, Sanction, SanctionError, SanctionOutcome};
use skynet::transactions::{inventory_updates, parse_group_update, GroupUpdate, GroupUpdateError, PlayerTransaction};
use std::collections::HashMap;

fn s(x: &str) -> String {
    x.to_string()
}

fn strings(v: &[&str]) -> Vec<String> {
    v.iter().map(|x| s(x)).collect()
}

fn group(name: &str, power: i32, perms: &[&str], prefix: Option<&str>) -> Group {
    Group { name: s(name), power, prefix: prefix.map(s), suffix: None, permissions: Some(strings(perms)) }
}

fn proxy_row(groups: Option<Vec<String>>) -> DbProxyPlayerInfo {
    DbProxyPlayerInfo {
        locale: None,
        groups,
        permissions: None,
        properties: None,
        session: None,
        ban: None,
        ban_reason: None,
        ban_ttl: None,
    }
}

#[test]
fn proxy_permissions_are_composed_and_scoped() {
    let groups = vec![group("G1", 5, &["a", "proxy:b"], None), group("G2", 3, &["c:d"], None)];
    let overrides = Some(vec![(s("G1"), strings(&["e"])), (s("G3"), strings(&["f"]))]);
    let info = proxy_row(Some(strings(&["G1", "G2"]))).build_proxy_login_player_info(&groups, &overrides);
    assert_eq!(info.power, 5);
    assert_eq!(info.permissions, strings(&["a", "b", "power.5", "e"]));
    assert_eq!(info.locale, "fr");
    assert!(info.properties.is_empty());
}

#[test]
fn own_permissions_follow_power() {
    let groups = vec![group("Default", 0, &["chat"], None)];
    let (power, perms) = resolve_permissions(&groups, &strings(&["Default"]), &Some(strings(&["fly", "server:x"])), &None, true);
    assert_eq!(power, 0);
    assert_eq!(perms, strings(&["chat", "power.0", "fly"]));
    assert_eq!(member_groups(&None), strings(&["Default"]));
}

#[test]
fn first_login_registers_and_admits() {
    assert_eq!(proxy_login_step(&None), ProxyLoginStep::Register);
    let default_groups = vec![group("Default", 0, &[], None)];
    let info = proxy_row(None).build_proxy_login_player_info(&default_groups, &None);
    assert_eq!(info.power, 0);
    assert_eq!(info.locale, "fr");
    assert_eq!(info.permissions, strings(&["power.0"]));
}

#[test]
fn second_login_is_denied_with_session() {
    let session: u128 = 0x11112222333344445555666677778888;
    let mut row = proxy_row(None);
    row.session = Some(session);
    assert_eq!(proxy_login_step(&Some(row)), ProxyLoginStep::AlreadyConnected(session));
    let msg = already_connected_message(session);
    assert_eq!(msg.len(), 11);
    assert_eq!(msg[10].text, format!("En précisant l'identifiant de session suivant : {}", id_text(session)));
    assert!(msg[10].text.contains("11112222-3333-4444-5555-666677778888"));
    let mut banned = proxy_row(None);
    banned.ban = Some(9);
    assert_eq!(proxy_login_step(&Some(banned)), ProxyLoginStep::Banned);
    assert_eq!(proxy_login_step(&Some(proxy_row(None))), ProxyLoginStep::Admit);
}

#[test]
fn ban_message_names_reason_end_and_id() {
    let msg = banned_message(&None, &s("Jamais"), 3);
    assert_eq!(msg.len(), 15);
    assert_eq!(msg[5].text, "non spécifié");
    assert_eq!(msg[9].text, "Jamais");
    assert_eq!(msg[13].text, format!("Identifiant : {}", id_text(3)));
    assert_eq!(ban_expiration_text(None), "Jamais");
    let end = ban_expiration_text(Some(3600));
    assert!(end.starts_with("1h ("), "{}", end);
    assert!(end.ends_with(')'));
    assert!(ban_expiration_text(Some(-5)).starts_with("? ("));
}

#[test]
fn server_login_info_picks_prefix_of_highest_group() {
    let groups = vec![
        group("A", 2, &["x"], Some("[A]")),
        group("B", 7, &["server:y"], Some("[B]")),
        group("C", 7, &[], Some("[C]")),
        group("D", 9, &[], None),
    ];
    let row = DbServerPlayerInfo {
        prefix: None,
        suffix: Some(s("!")),
        proxy: 1,
        session: 2,
        discord_id: None,
        locale: Some(s("en")),
        groups: Some(strings(&["A", "B", "C", "D"])),
        permissions: None,
        currency: 10,
        premium_currency: 1,
        mute: None,
        blocked: None,
        inventory: None,
        properties: None,
    };
    let info = row.build_server_login_player_info(&s("lobby"), &groups, &None, None);
    assert_eq!(info.prefix, Some(s("[C]")));
    assert_eq!(info.suffix, Some(s("!")));
    assert_eq!(info.power, 9);
    assert_eq!(info.locale, "en");
    assert_eq!(info.permissions, strings(&["x", "power.9"]));
    assert_eq!(info.session, 2);
}

#[test]
fn host_joins_host_group_and_wait_ends() {
    let host: u128 = 0xabc;
    let props = Some(vec![(s("host"), id_text(host))]);
    assert!(is_host(&props, host));
    assert!(!is_host(&props, 0xabd));
    assert!(!is_host(&None, host));
    assert_eq!(login_groups(None, true), Some(strings(&["Default", "Host"])));
    assert_eq!(login_groups(Some(strings(&["Vip"])), true), Some(strings(&["Vip", "Host"])));
    assert_eq!(login_groups(Some(strings(&["Vip"])), false), Some(strings(&["Vip"])));
    assert!(ends_wait(&Some(s("mini")), &s("mini")));
    assert!(!ends_wait(&Some(s("mini")), &s("lobby")));
    assert!(!ends_wait(&None, &s("mini")));
}

fn ban(id: Option<u128>) -> IpBan {
    IpBan { ip: IpAddress::V4(0x0102_0304), reason: None, date: 0, end: None, ban: id, automated: true }
}

#[test]
fn prelogin_from_loopback_is_allowed() {
    assert_eq!(prelogin_step(&None, &vec![], &None, IpAddress::V4(0x7f00_0001)), PreLoginStep::Allow);
    assert_eq!(prelogin_step(&None, &vec![], &None, IpAddress::V6(1)), PreLoginStep::Allow);
    assert_eq!(prelogin_step(&None, &vec![], &None, IpAddress::V4(0x0102_0304)), PreLoginStep::CheckReputation);
}

#[test]
fn prelogin_denial_repeats_the_reference() {
    let ip = IpAddress::V4(0x0102_0304);
    let first = prelogin_step(&Some(s("false")), &vec![], &Some(ban(Some(44))), ip);
    let second = prelogin_step(&None, &vec![], &Some(ban(Some(44))), ip);
    assert_eq!(first, PreLoginStep::DenyBanned(Some(44)));
    assert_eq!(first, second);
    let msg = ip_denied_message(Some(44));
    assert_eq!(msg[6].text, format!("Référence : {}", id_text(44)));
    assert_eq!(ip_denied_message(None)[6].text, "Référence : Aucune");
}

#[test]
fn maintenance_lets_through_listed_addresses() {
    let ip = IpAddress::V4(0x0102_0304);
    let lo = IpAddress::V4(0x7f00_0001);
    assert_eq!(prelogin_step(&Some(s("true")), &vec![lo], &None, lo), PreLoginStep::Allow);
    assert_eq!(prelogin_step(&Some(s("true")), &vec![], &Some(ban(None)), ip), PreLoginStep::DenyMaintenance);
    assert_eq!(prelogin_step(&Some(s("true")), &vec![ip], &Some(ban(Some(8))), ip), PreLoginStep::DenyBanned(Some(8)));
    assert_eq!(prelogin_step(&Some(s("true")), &vec![ip], &None, ip), PreLoginStep::CheckReputation);
    assert_eq!(maintenance_message()[4].text, "Le serveur est en maintenance, merci de réessayer plus tard");
}

fn reputation(proxy: &str, ty: Option<&str>, risk: i32) -> ProxyCheckIpResponse {
    ProxyCheckIpResponse { proxy: s(proxy), ip_type: ty.map(s), provider: None, risk }
}

#[test]
fn risky_addresses() {
    assert!(reputation("yes", None, 0).is_risk());
    assert!(!reputation("yes", Some("VPN"), 20).is_risk());
    assert!(reputation("yes", Some("VPN"), 34).is_risk());
    assert!(reputation("no", None, 67).is_risk());
    assert!(!reputation("no", None, 66).is_risk());
    assert_eq!(reputation("yes", Some("VPN"), 12).describe(), "Proxy : true, VPN : true, Risk : 12");
    assert!(reputation_bans(&Ok(reputation("yes", None, 0))));
    assert!(!reputation_bans(&Err(ProxyCheckError::Transport(s("timeout")))));
}

#[test]
fn reputation_answers_are_read() {
    let found = resolve_answer(ProxyCheckStatus::Success, None, Some(reputation("no", None, 1))).unwrap();
    assert_eq!(found.risk, 1);
    match resolve_answer(ProxyCheckStatus::Success, None, None) {
        Err(ProxyCheckError::ProxyCheck(m)) => assert_eq!(m, "Provided ip was not found in result"),
        _ => panic!(),
    }
    match resolve_answer(ProxyCheckStatus::Warning, Some(s("slow")), None) {
        Err(ProxyCheckError::ProxyCheck(m)) => assert_eq!(m, "slow"),
        _ => panic!(),
    }
    match resolve_answer(ProxyCheckStatus::Denied, None, Some(reputation("no", None, 1))) {
        Err(ProxyCheckError::ProxyCheck(m)) => assert_eq!(m, "No message"),
        _ => panic!(),
    }
}

fn board() -> Vec<String> {
    strings(&["K", "B3600", "B86400", "B"])
}

#[test]
fn sanctions_advance_along_the_board() {
    let b = board();
    let p0 = plan_sanction(&b, 0, false, false, false).unwrap();
    assert_eq!(p0.outcome, SanctionOutcome::Kicked);
    assert_eq!(p0.cursor, Some(1));
    let p1 = plan_sanction(&b, 1, false, false, false).unwrap();
    assert_eq!(p1.outcome, SanctionOutcome::Banned(Some(3600)));
    assert_eq!(p1.cursor, Some(2));
    let p2 = plan_sanction(&b, 2, false, false, false).unwrap();
    assert_eq!(p2.outcome, SanctionOutcome::Banned(Some(86400)));
    assert_eq!(p2.cursor, Some(3));
    let p3 = plan_sanction(&b, 3, false, false, false).unwrap();
    assert_eq!(p3.outcome, SanctionOutcome::Banned(None));
    assert_eq!(p3.cursor, Some(4));
    let p4 = plan_sanction(&b, 4, false, false, false).unwrap();
    assert_eq!(p4.sanction, Sanction::Ban(None));
}

#[test]
fn lifting_steps_back() {
    let b = board();
    let l = plan_sanction(&b, 2, true, true, false).unwrap();
    assert_eq!(l.sanction, Sanction::Ban(Some(3600)));
    assert_eq!(l.outcome, SanctionOutcome::LiftBan);
    assert_eq!(l.cursor, Some(1));
    let z = plan_sanction(&b, 0, true, false, false).unwrap();
    assert_eq!(z.outcome, SanctionOutcome::Unchanged);
    assert_eq!(z.cursor, Some(0));
    let c = plan_sanction(&b, 1, false, true, false).unwrap();
    assert_eq!(c.outcome, SanctionOutcome::Conflict);
    assert_eq!(c.cursor, None);
    let m = plan_sanction(&strings(&["M60"]), 0, false, false, false).unwrap();
    assert_eq!(m.outcome, SanctionOutcome::Muted(Some(60)));
}

#[test]
fn malformed_sanctions() {
    assert_eq!(plan_sanction(&vec![], 0, false, false, false), Err(SanctionError::EmptyBoard));
    assert_eq!(parse_sanction(""), Err(SanctionError::Empty));
    assert_eq!(parse_sanction("Bxx"), Err(SanctionError::InvalidDuration));
    assert_eq!(parse_sanction("X"), Err(SanctionError::UnknownKind));
    assert_eq!(parse_sanction("M-5"), Ok(Sanction::Mute(Some(-5))));
}

#[test]
fn ip_ban_walk_gathers_linked_players() {
    let (p, z, w) = (1u128, 2u128, 3u128);
    let (x, y, v) = (IpAddress::V4(10), IpAddress::V4(11), IpAddress::V4(12));
    let mut addresses: HashMap<u128, Vec<IpAddress>> = HashMap::new();
    addresses.insert(p, vec![x, y]);
    addresses.insert(z, vec![y]);
    addresses.insert(w, vec![v]);
    let mut players: HashMap<IpAddress, Vec<u128>> = HashMap::new();
    players.insert(x, vec![p]);
    players.insert(y, vec![p, z]);
    players.insert(v, vec![w]);
    let mut walk = BanWalk::new(p);
    loop {
        match walk.step() {
            WalkStep::AddressesOf(u) => walk.addresses_found(&addresses[&u]),
            WalkStep::PlayersOn(a) => walk.players_found_on(&players[&a]),
            WalkStep::Done => break,
        }
    }
    let (found_players, found_ips) = walk.into_found();
    assert_eq!(found_players, vec![p, z]);
    assert_eq!(found_ips, vec![x, y]);
    assert_eq!(ip_ban_reason(&Some(s("cheat"))), "IPBan : cheat");
    assert_eq!(ip_ban_reason(&None), "IPBan");
    assert_eq!(banned_notice(), "Vous avez été bannis");
}

#[test]
fn currency_cannot_go_negative() {
    let t = PlayerTransaction { currency: -5, premium_currency: 2 };
    assert_eq!(t.apply(10, 0), Some((5, 2)));
    assert_eq!(t.apply(4, 0), None);
    let big = PlayerTransaction { currency: 1, premium_currency: 0 };
    assert_eq!(big.apply(i32::MAX, 0), None);
}

#[test]
fn inventory_changes_all_or_nothing() {
    let inv = vec![(s("gem"), 3), (s("key"), 1)];
    let ok = inventory_updates(&inv, &vec![(s("gem"), -2), (s("coin"), 5)]).unwrap();
    assert_eq!(ok, vec![(s("gem"), 1), (s("coin"), 5)]);
    assert_eq!(inventory_updates(&inv, &vec![(s("gem"), 1), (s("key"), -2)]), None);
}

#[test]
fn group_updates_are_read() {
    assert!(matches!(parse_group_update("-vip"), Ok(GroupUpdate::Remove(n)) if n == "vip"));
    assert!(matches!(parse_group_update("vip"), Ok(GroupUpdate::Add(n)) if n == "vip"));
    assert!(matches!(parse_group_update("vip/3600"), Ok(GroupUpdate::AddFor(n, 3600)) if n == "vip"));
    assert!(matches!(parse_group_update("vip/0"), Ok(GroupUpdate::Add(n)) if n == "vip"));
    assert!(matches!(parse_group_update("vip/10/x"), Ok(GroupUpdate::AddFor(n, 10)) if n == "vip"));
    assert!(matches!(parse_group_update("vip/soon"), Err(GroupUpdateError::InvalidDuration)));
    assert!(matches!(parse_group_update("vip/99999999999"), Err(GroupUpdateError::InvalidDuration)));
}

#[test]
fn associations_walk_records_each_item_once() {
    let mut walk = Associations::new(Lookup::Name(s("alice")));
    let mut lookups = 0;
    while let Some(l) = walk.next() {
        lookups += 1;
        match l {
            Lookup::Name(n) => {
                if n == "alice" {
                    walk.accounts_found(&vec![1]);
                }
            }
            Lookup::Uuid(u) => {
                walk.name_found(if u == 1 { s("alice") } else { s("bob") });
                walk.addresses_found(&vec![IpAddress::V4(5)]);
                if u == 1 {
                    walk.discord_found(s("d1"));
                }
            }
            Lookup::Ip(_) => walk.accounts_found(&vec![1, 2]),
            Lookup::Discord(_) => walk.accounts_found(&vec![1]),
        }
    }
    let st = walk.into_state();
    assert_eq!(st.uuids, vec![1, 2]);
    assert_eq!(st.names, strings(&["alice", "bob"]));
    assert_eq!(st.ips, vec![IpAddress::V4(5)]);
    assert_eq!(st.discords, strings(&["d1"]));
    assert_eq!(st.i, lookups);
}

#[test]
fn player_info_defaults() {
    let row = DbPlayerInfo {
        uuid: 5,
        username: s("alice"),
        groups: None,
        locale: None,
        prefix: None,
        suffix: None,
        currency: 3,
        premium_currency: 4,
        proxy: Some(1),
        server: None,
        blocked: None,
        inventory: None,
        properties: None,
        ban: None,
        discord_id: None,
        mute: None,
    };
    let info = row.build_player_info(&vec![group("Default", 0, &[], None), group("Vip", 4, &[], None)], None, None);
    assert_eq!(info.power, 4);
    assert_eq!(info.locale, "fr");
    assert_eq!(info.username, "alice");
    assert!(info.blocked.is_empty() && info.inventory.is_empty() && info.properties.is_empty());
    assert_eq!(info.proxy, Some(1));
}

fn server_row(groups: Vec<String>) -> DbServerPlayerInfo {
    DbServerPlayerInfo {
        prefix: None,
        suffix: None,
        proxy: 1,
        session: 2,
        discord_id: Some(s("d")),
        locale: None,
        groups: Some(groups),
        permissions: None,
        currency: 0,
        premium_currency: 0,
        mute: None,
        blocked: None,
        inventory: Some(vec![(s("gem"), 2)]),
        properties: None,
    }
}

#[test]
fn game_server_logins_drop_scoped_permissions() {
    let groups = vec![group("G1", 5, &["a", "proxy:b"], None), group("G2", 3, &["c:d"], None)];
    let overrides = Some(vec![(s("G1"), strings(&["e", "lobby:f"]))]);
    let info = server_row(strings(&["G1", "G2"])).build_server_login_player_info(&s("lobby"), &groups, &overrides, None);
    assert_eq!(info.permissions, strings(&["a", "power.5", "e"]));
    assert_eq!(info.inventory, vec![(s("gem"), 2)]);
    assert_eq!(info.discord_id, Some(s("d")));
    let on_proxy = server_row(strings(&["G1", "G2"])).build_server_login_player_info(&s("proxy"), &groups, &None, None);
    assert_eq!(on_proxy.permissions, strings(&["a", "b", "power.5"]));
}
