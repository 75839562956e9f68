use skynet::events::ServerEvent;
use skynet::ident::{id_text, parse_id, IpAddress};
use skynet::leaderboard::{leaderboard_entry, rank, totals_by_player, LeaderboardPeriod};
use skynet::message::{Color, MessageBuilder, Modifiers};
use skynet::props::{get_prop, set_prop};
use skynet::requests::{
    api_key_allowed, credential_of, is_protected, move_event, move_precheck, parse_state, server_key_allowed,
    setting_count, startup_properties, ApiGroup, Credential, PlayerMoveResponse, ServerStartup,
};
use skynet::autoscale::ServerState;
use skynet::text::{contains_char, i64_text, parse_i64, same_text, skip_chars, starts_with};

fn s(x: &str) -> String {
    x.to_string()
}

#[test]
fn message_builder_keeps_order_and_style() {
    let m = MessageBuilder::new()
        .component(s("a")).with_color(Some(Color::Red)).with_font(Some(s("mono"))).close()
        .line_break()
        .component(s("b")).with_modifiers(Some(Modifiers { bold: true, italic: false, underlined: false, strikethrough: false, obfuscated: false })).close()
        .close();
    assert_eq!(m.len(), 3);
    assert_eq!(m[0].text, "a");
    assert!(matches!(m[0].color, Some(Color::Red)));
    assert_eq!(m[0].font, Some(s("mono")));
    assert_eq!(m[1].text, "\n");
    assert!(m[1].color.is_none());
    assert!(m[2].modifiers.unwrap().bold);
    assert!(MessageBuilder::new().close().is_empty());
}

#[test]
fn colors_are_written_by_name() {
    assert_eq!(Color::DarkAqua.text(), "DarkAqua");
    assert_eq!(Color::LighPurple.text(), "LighPurple");
    assert_eq!(Color::Custom(s("#ff0000")).text(), "#ff0000");
}

#[test]
fn events_are_routed() {
    let proxy: u128 = 0x42;
    assert_eq!(ServerEvent::MovePlayer { proxy, server: 1, player: 2 }.route(), id_text(proxy));
    assert!(ServerEvent::MovePlayer { proxy, server: 1, player: 2 }.direct());
    assert_eq!(ServerEvent::InvalidatePlayer { server: 7, uuid: 2 }.route(), id_text(7));
    assert_eq!(ServerEvent::PlayerCount { count: 9 }.route(), "server.playercount");
    assert!(!ServerEvent::PlayerCount { count: 9 }.direct());
    let lb = ServerEvent::InvalidateLeaderBoard { name: s("kills"), label: s("Kills"), leaderboard: vec![] };
    assert_eq!(lb.route(), "leaderboard.invalidate.kills");
    let b = ServerEvent::Broadcast { message: s("hi"), permission: None, server_kind: Some(s("mini")) };
    assert_eq!(b.route(), "server.mini.broadcast");
    let p = ServerEvent::Broadcast { message: s("hi"), permission: None, server_kind: None };
    assert_eq!(p.route(), "proxy.broadcast");
    assert_eq!(ServerEvent::DeleteRoute { id: 1, name: s("x") }.route(), "proxy.servers.routes.delete");
}

#[test]
fn identifiers_print_and_parse() {
    let id: u128 = 0x936da01f9abd4d9d80c702af85c822a8;
    assert_eq!(id_text(id), "936da01f-9abd-4d9d-80c7-02af85c822a8");
    assert_eq!(parse_id("936da01f-9abd-4d9d-80c7-02af85c822a8"), Some(id));
    assert_eq!(parse_id("nope"), None);
    assert!(IpAddress::V4(0x7f12_3456).is_loopback());
    assert!(!IpAddress::V4(0x0a00_0001).is_loopback());
    assert!(!IpAddress::V6(2).is_loopback());
}

#[test]
fn text_helpers() {
    assert_eq!(parse_i64("+12"), Some(12));
    assert_eq!(parse_i64("-7"), Some(-7));
    assert_eq!(parse_i64("1x"), None);
    assert_eq!(parse_i64(""), None);
    assert_eq!(parse_i64("9223372036854775808"), None);
    assert_eq!(i64_text(-305), "-305");
    assert!(contains_char("a:b", ':'));
    assert!(!contains_char("ab", ':'));
    assert!(starts_with("proxy:fly", "proxy:"));
    assert!(!starts_with("prox", "proxy:"));
    assert_eq!(skip_chars("proxy:fly", 6), "fly");
    assert!(same_text("é", "é"));
    assert!(!same_text("a", "ab"));
}

#[test]
fn properties_are_set_and_read() {
    let mut p = vec![(s("a"), s("1")), (s("b"), s("2"))];
    set_prop(&mut p, s("b"), s("3"));
    set_prop(&mut p, s("c"), s("4"));
    assert_eq!(get_prop(&p, "a"), Some(s("1")));
    assert_eq!(get_prop(&p, "b"), Some(s("3")));
    assert_eq!(get_prop(&p, "c"), Some(s("4")));
    assert_eq!(get_prop(&p, "d"), None);
    assert_eq!(p.len(), 3);
}

#[test]
fn leaderboards_rank_totals() {
    let rows = vec![(1u128, 5), (2, 7), (1, 4), (3, -1)];
    let totals = totals_by_player(&rows);
    assert_eq!(totals, vec![(1, 9), (2, 7), (3, -1)]);
    assert_eq!(rank(totals.clone(), 2), vec![(1, 9), (2, 7)]);
    assert_eq!(rank(totals.clone(), -1), vec![(1, 9), (2, 7), (3, -1)]);
    assert_eq!(rank(vec![(4, 1), (5, 8)], 10), vec![(5, 8), (4, 1)]);
    assert_eq!(leaderboard_entry(&Some(s("alice")), 9), "alice:9");
    assert_eq!(leaderboard_entry(&None, -3), "?:-3");
    assert_eq!(LeaderboardPeriod::AllTime.timestamp(), Some(0));
    let month = LeaderboardPeriod::Monthly.timestamp().unwrap();
    assert!(month > 0);
}

#[test]
fn credentials_are_read() {
    assert!(matches!(credential_of("Server abc"), Credential::Server(k) if k == "abc"));
    assert!(matches!(credential_of("Proxy abc"), Credential::Proxy(k) if k == "abc"));
    assert!(matches!(credential_of("abc"), Credential::Key(k) if k == "abc"));
}

#[test]
fn route_permissions() {
    let g = Some(ApiGroup { name: s("server"), permissions: Some(vec![s("set-server-state")]) });
    let want = s("set-server-state");
    assert!(server_key_allowed(&g, &want, &Some(s("mini")), false));
    assert!(!server_key_allowed(&g, &want, &Some(s("proxy")), false));
    assert!(server_key_allowed(&g, &want, &Some(s("proxy")), true));
    assert!(!server_key_allowed(&g, &s("ban-player"), &Some(s("mini")), false));
    assert!(!server_key_allowed(&g, &want, &None, false));
    assert!(api_key_allowed(&Some(None), &None, &want));
    assert!(!api_key_allowed(&None, &g, &want));
    assert!(api_key_allowed(&Some(Some(s("server"))), &g, &want));
    assert!(!api_key_allowed(&Some(Some(s("server"))), &None, &want));
}

#[test]
fn server_requests() {
    let startup = ServerStartup { properties: vec![(s("map"), s("a")), (s("slots"), s("4"))], env: vec![] };
    let out = startup_properties(&startup, &Some(vec![(s("map"), s("b")), (s("host"), s("h"))]));
    assert_eq!(get_prop(&out, "map"), Some(s("b")));
    assert_eq!(get_prop(&out, "slots"), Some(s("4")));
    assert_eq!(get_prop(&out, "host"), Some(s("h")));
    assert!(is_protected(&Some(vec![(s("protected"), s("true"))])));
    assert!(!is_protected(&None));
    assert_eq!(parse_state("Idle"), Some(ServerState::Idle));
    assert_eq!(parse_state("Started"), Some(ServerState::Started));
    assert_eq!(parse_state("idle"), None);
    assert_eq!(setting_count(&None), Some(0));
    assert_eq!(setting_count(&Some(s("12"))), Some(12));
    assert_eq!(setting_count(&Some(s("x"))), None);
}

#[test]
fn moves_need_an_online_linked_player() {
    assert_eq!(move_precheck(None, &Some(s("d"))), Err(PlayerMoveResponse::PlayerOffline));
    assert_eq!(move_precheck(Some(3), &None), Err(PlayerMoveResponse::UnlinkedPlayer));
    assert_eq!(move_precheck(Some(3), &Some(s("d"))), Ok(3));
    assert!(matches!(move_event(1, 2, 3, true), ServerEvent::AdminMovePlayer { server: 3, player: 2 }));
    assert!(matches!(move_event(1, 2, 3, false), ServerEvent::MovePlayer { proxy: 1, server: 3, player: 2 }));
}
