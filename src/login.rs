//! Admission of players: the checks before a connection (pre-login), the
//! login on a proxy, and the login on a server; with the messages shown to a
//! player who is turned away.

use vstd::prelude::*;
use crate::ident::{IpAddress, id_text, uuid_text, uuid_parsed, parse_id};
use crate::message::{Color, MessageBuilder, MessageComponent, Modifiers};
use crate::players::{DbProxyPlayerInfo, ProxyLoginPlayerInfo, member_of, member_groups};
use crate::props::{Properties, opt_prop, get_opt_prop};
use crate::proxycheck::{ProxyCheckError, ProxyCheckIpResponse, risky};
use crate::permissions::texts;

verus! {

/// An address ban.
#[derive(Debug)]
pub struct IpBan {
    pub ip: IpAddress,
    pub reason: Option<String>,
    /// Start, in milliseconds since the epoch.
    pub date: i64,
    /// End, in milliseconds since the epoch; none for a ban for good.
    pub end: Option<i64>,
    /// The ban this address ban belongs to.
    pub ban: Option<u128>,
    /// Set by the reputation check rather than by a moderator.
    pub automated: bool,
}

/// The answer to a pre-login.
#[derive(Debug)]
pub enum ProxyPreLoginResponse {
    Allowed,
    Denied(Vec<MessageComponent>),
}

/// The answer to a proxy login.
#[derive(Debug)]
pub enum ProxyLoginResponse {
    Allowed { session: u128, player_info: ProxyLoginPlayerInfo },
    Denied { message: Vec<MessageComponent> },
}

/// What comes after the checks of a pre-login that need no outside call.
#[derive(Debug, Clone, Copy, PartialEq, Eq, Structural)]
pub enum PreLoginStep {
    Allow,
    /// Maintenance, and the address is not among those let through.
    DenyMaintenance,
    /// The address is banned; the ban it belongs to.
    DenyBanned(Option<u128>),
    /// The address's reputation decides.
    CheckReputation,
}

/// The pre-login checks in order: maintenance (which an address let through
/// passes), an active address ban, loopback, then reputation.
pub open spec fn prelogin_of(maintenance: Option<Seq<char>>, let_through: bool, ban: Option<IpBan>, ip: IpAddress) -> PreLoginStep {
    if maintenance == Some("true"@) && !let_through {
        PreLoginStep::DenyMaintenance
    } else if ban is Some {
        PreLoginStep::DenyBanned(ban.unwrap().ban)
    } else if ip.spec_is_loopback() {
        PreLoginStep::Allow
    } else {
        PreLoginStep::CheckReputation
    }
}

fn lets_through(overrides: &Vec<IpAddress>, ip: IpAddress) -> (r: bool)
    ensures
        r == overrides@.contains(ip),
{
    let mut i: usize = 0;
    while i < overrides.len()
        invariant
            i <= overrides@.len(),
            forall|j: int| 0 <= j < i ==> overrides@[j] != ip,
        decreases overrides@.len() - i,
    {
        if overrides[i] == ip {
            assert(overrides@[i as int] == ip);
            return true;
        }
        i = i + 1;
    }
    false
}

/// Decides a pre-login from the `maintenance` setting, the addresses let
/// through during maintenance, and the address's active ban.
pub fn prelogin_step(maintenance: &Option<String>, overrides: &Vec<IpAddress>, ban: &Option<IpBan>, ip: IpAddress) -> (r: PreLoginStep)
    ensures
        r == prelogin_of(crate::props::text_of(*maintenance), overrides@.contains(ip), *ban, ip),
{
    let on = match maintenance {
        Some(m) => crate::text::same_text(m.as_str(), "true"),
        None => false,
    };
    if on && !lets_through(overrides, ip) {
        return PreLoginStep::DenyMaintenance;
    }
    match ban {
        Some(b) => PreLoginStep::DenyBanned(b.ban),
        None => if ip.is_loopback() {
            PreLoginStep::Allow
        } else {
            PreLoginStep::CheckReputation
        },
    }
}

/// An address whose pre-login was denied by a ban is denied with the same
/// reference by every later pre-login while the ban stays, whatever the
/// address, outside maintenance or for addresses let through it.
pub proof fn lemma_prelogin_denial_is_stable(ban: IpBan, ip1: IpAddress, ip2: IpAddress, through1: bool, through2: bool, m: Option<Seq<char>>)
    requires
        m != Some("true"@) || (through1 && through2),
    ensures
        prelogin_of(m, through1, Some(ban), ip1) == prelogin_of(m, through2, Some(ban), ip2),
        prelogin_of(m, through1, Some(ban), ip1) == PreLoginStep::DenyBanned(ban.ban),
{
}

/// Whether a reputation answer bans the address: only a risky answer does;
/// a failed check lets it through.
pub fn reputation_bans(check: &Result<ProxyCheckIpResponse, ProxyCheckError>) -> (r: bool)
    ensures
        r == match *check {
            Ok(resp) => risky(resp),
            Err(_) => false,
        },
{
    match check {
        Ok(resp) => resp.is_risk(),
        Err(_) => false,
    }
}

/// The duration of the address ban that a risky answer sets: seven days,
/// in seconds.
pub const AUTO_BAN_SECONDS: i64 = 604800;

fn header() -> (r: MessageBuilder)
    ensures
        r@.len() == 4,
{
    MessageBuilder::new()
        .component(String::from_str("SkyNet ")).with_color(Some(Color::DarkPurple)).close()
        .component(String::from_str("> ")).with_color(Some(Color::DarkGray)).close()
        .component(String::from_str("Connection impossible...")).with_color(Some(Color::Red)).close()
        .line_break()
}

/// The message of a pre-login denied for maintenance.
pub fn maintenance_message() -> (r: Vec<MessageComponent>)
    ensures
        r@.len() == 5,
        r@[4].text@ == "Le serveur est en maintenance, merci de réessayer plus tard"@,
{
    header().component(String::from_str("Le serveur est en maintenance, merci de réessayer plus tard")).close().close()
}

/// The reference shown for an address ban: the ban's identifier, or `Aucune`.
pub open spec fn reference_text(ban: Option<u128>) -> Seq<char> {
    match ban {
        Some(id) => uuid_text(id),
        None => "Aucune"@,
    }
}

/// The message of a pre-login denied for an address ban.
pub fn ip_denied_message(ban: Option<u128>) -> (r: Vec<MessageComponent>)
    ensures
        r@.len() == 7,
        r@[4].text@ == "Votre adresse ip n'est pas autorisée a se connecter"@,
        r@[6].text@ == "Référence : "@ + reference_text(ban),
{
    let reference = match ban {
        Some(id) => id_text(id),
        None => String::from_str("Aucune"),
    };
    header()
        .component(String::from_str("Votre adresse ip n'est pas autorisée a se connecter")).close()
        .line_break()
        .component(String::from_str("Référence : ").concat(reference.as_str())).close()
        .close()
}

/// What a proxy login does with the player's record.
#[derive(Debug, Clone, Copy, PartialEq, Eq, Structural)]
pub enum ProxyLoginStep {
    /// No record: one is created, and the player is admitted.
    Register,
    /// The player has a session already: denied, naming it.
    AlreadyConnected(u128),
    /// The player is banned: denied.
    Banned,
    /// Admitted.
    Admit,
}

/// Decides a proxy login from the player's record.
pub fn proxy_login_step(row: &Option<DbProxyPlayerInfo>) -> (r: ProxyLoginStep)
    ensures
        r == match *row {
            None => ProxyLoginStep::Register,
            Some(info) => match info.session {
                Some(s) => ProxyLoginStep::AlreadyConnected(s),
                None => if info.ban is Some { ProxyLoginStep::Banned } else { ProxyLoginStep::Admit },
            },
        },
{
    match row {
        None => ProxyLoginStep::Register,
        Some(info) => match info.session {
            Some(s) => ProxyLoginStep::AlreadyConnected(s),
            None => if info.ban.is_some() {
                ProxyLoginStep::Banned
            } else {
                ProxyLoginStep::Admit
            },
        },
    }
}

/// The message of a proxy login denied because the player is connected.
pub fn already_connected_message(session: u128) -> (r: Vec<MessageComponent>)
    ensures
        r@.len() == 11,
        r@[6].text@ == "Vous êtes déjà connecté(e) à notre infrastructure"@,
        r@[10].text@ == "En précisant l'identifiant de session suivant : "@ + uuid_text(session),
{
    let id = id_text(session);
    MessageBuilder::new()
        .component(String::from_str("Menestis ")).with_color(Some(Color::DarkAqua)).with_modifiers(Some(Modifiers {
            bold: true,
            italic: false,
            underlined: false,
            strikethrough: false,
            obfuscated: false,
        })).close()
        .component(String::from_str("» ")).with_color(Some(Color::White)).close()
        .line_break()
        .component(String::from_str("Connection impossible...")).with_color(Some(Color::Red)).close()
        .line_break()
        .line_break()
        .component(String::from_str("Vous êtes déjà connecté(e) à notre infrastructure")).with_color(Some(Color::Red)).close()
        .line_break()
        .component(String::from_str("Si le problème persiste merci de contacter le support.")).with_color(Some(Color::Red)).close()
        .line_break()
        .component(String::from_str("En précisant l'identifiant de session suivant : ").concat(id.as_str())).close()
        .close()
}

/// The text of a duration of whole seconds as the duration formatter writes it.
pub uninterp spec fn duration_words(secs: u64) -> Seq<char>;

/// Relies on `humantime::format_duration`: the duration in words.
#[verifier::external_body]
fn human_duration(secs: u64) -> (r: String)
    ensures
        r@ == duration_words(secs),
{
    humantime::format_duration(std::time::Duration::from_secs(secs)).to_string()
}

/// Relies on `chrono::Local::now`, `TimeDelta::seconds` and `format("%c")`:
/// the local date and time `secs` seconds from now; it depends on the clock
/// and the machine's time zone.
#[verifier::external_body]
fn local_time_in(secs: i64) -> (r: String)
    requires
        -0x1_0000_0000 <= secs <= 0x1_0000_0000,
{
    (chrono::Local::now() + chrono::TimeDelta::seconds(secs)).format("%c").to_string()
}

/// How the end of a ban is shown: `Jamais` for a ban for good; else the
/// remaining time in words (`?` when negative), then the local time of the
/// end, two minutes late, in parentheses.
pub fn ban_expiration_text(ttl: Option<i32>) -> (r: String)
    ensures
        ttl is None ==> r@ == "Jamais"@,
        ttl is Some && ttl.unwrap() >= 0 ==> crate::text::is_prefix(duration_words(ttl.unwrap() as u64) + " ("@, r@),
        ttl is Some && ttl.unwrap() < 0 ==> crate::text::is_prefix("? ("@, r@),
        ttl is Some ==> r@.len() > 0 && r@.last() == ')',
{
    match ttl {
        None => String::from_str("Jamais"),
        Some(t) => {
            let words = if t >= 0 {
                human_duration(t as u64)
            } else {
                String::from_str("?")
            };
            let when = local_time_in(t as i64 + 120);
            let head = words.concat(" (");
            let r = head.concat(when.as_str()).concat(")");
            proof {
                reveal_strlit(")");
                reveal_strlit("? (");
                reveal_strlit("?");
                reveal_strlit(" (");
                assert(r@.take(head@.len() as int) =~= head@);
                assert("? ("@ =~= "?"@ + " ("@);
            }
            r
        },
    }
}

/// The message of a proxy login denied because the player is banned.
pub fn banned_message(reason: &Option<String>, expiration: &String, ban: u128) -> (r: Vec<MessageComponent>)
    ensures
        r@.len() == 15,
        r@[5].text@ == match *reason {
            Some(x) => x@,
            None => "non spécifié"@,
        },
        r@[9].text@ == expiration@,
        r@[13].text@ == "Identifiant : "@ + uuid_text(ban),
{
    let why = match reason {
        Some(x) => x.clone(),
        None => String::from_str("non spécifié"),
    };
    let id = id_text(ban);
    MessageBuilder::new()
        .component(String::from_str("» ")).with_color(Some(Color::White)).close()
        .component(String::from_str("§cVous avez été banni(e) de notre infrastructure.")).with_color(Some(Color::Red)).close()
        .line_break()
        .component(String::from_str("» ")).with_color(Some(Color::DarkGray)).close()
        .component(String::from_str("Raison : ")).with_color(Some(Color::Gray)).close()
        .component(why).close()
        .line_break()
        .component(String::from_str("» ")).with_color(Some(Color::DarkGray)).close()
        .component(String::from_str("Expiration : ")).with_color(Some(Color::Gray)).close()
        .component(expiration.clone()).close()
        .line_break()
        .component(String::from_str("Si vous pensez que c'est une erreur, contactez le support.")).with_color(Some(Color::Red)).close()
        .line_break()
        .component(String::from_str("Identifiant : ").concat(id.as_str())).close()
        .line_break()
        .close()
}

/// Whether a server's `host` property names this player.
pub open spec fn hosts(props: Option<Properties>, player: u128) -> bool {
    match opt_prop(props, "host"@) {
        Some(t) => uuid_parsed(t) == Some(player),
        None => false,
    }
}

/// Whether the server is hosted by the player that logs in on it.
pub fn is_host(props: &Option<Properties>, player: u128) -> (r: bool)
    ensures
        r == hosts(*props, player),
{
    proof {
        reveal_strlit("host");
    }
    match get_opt_prop(props, "host") {
        Some(t) => match parse_id(t.as_str()) {
            Some(id) => id == player,
            None => false,
        },
        None => false,
    }
}

/// The groups of a player for one login: its groups (`Default` when none
/// are stored), with `Host` added when it hosts the server.
pub fn login_groups(groups: Option<Vec<String>>, host: bool) -> (r: Option<Vec<String>>)
    ensures
        !host ==> r == groups,
        host ==> r is Some && texts(r.unwrap()@) == member_of(groups).push("Host"@),
{
    if !host {
        return groups;
    }
    let mut g = member_groups(&groups);
    let ghost before = g@;
    g.push(String::from_str("Host"));
    assert(texts(g@) =~= texts(before).push("Host"@));
    Some(g)
}

/// Whether a server login ends the player's wait for a kind: it waits for the
/// kind of the server it joins.
pub fn ends_wait(waiting: &Option<String>, kind: &String) -> (r: bool)
    ensures
        r == (crate::props::text_of(*waiting) == Some(kind@)),
{
    match waiting {
        Some(w) => *w == *kind,
        None => false,
    }
}

} // verus!
