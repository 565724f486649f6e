//! The media-server webhook: its event payload, the hook tokens that guard
//! it, and the decision which chat message — if any — a play event earns.
//!
//! Receiving the multipart upload and sending the chat message are I/O and
//! live outside; this module owns the payload model and the decision.

use vstd::prelude::*;
use vstd::string::StringExecFns;
use crate::session::{gen_token, is_hash_id_char};
use crate::strutil::{str_eq, i64_to_dec_string, int_dec_str};

verus! {

/// The request body asking for a fresh hook token.
pub struct NewPlexTokenPayload {
    pub timestamp: i64,
    pub signature: String,
}

/// A stored webhook token.
pub struct PlexHookToken {
    pub id: Option<i32>,
    pub token: String,
    pub created: String,
}

impl PlexHookToken {
    /// A fresh token of `len` random characters, not yet stored (no row id),
    /// created at the time the caller names.
    pub fn new_token(len: usize, created: String) -> (r: PlexHookToken)
        ensures
            r.id is None,
            r.token@.len() == len,
            forall|i: int| 0 <= i < r.token@.len() ==> is_hash_id_char(#[trigger] r.token@[i]),
            r.created@ == created@,
    {
        PlexHookToken { id: None, token: gen_token(len), created }
    }
}

/// Why inserting a hook token failed.
#[derive(Clone, Copy, Debug, PartialEq, Eq, Structural)]
pub enum PlexRepoInsertError {
    DbError,
}

/// Why looking a hook token up failed.
#[derive(Clone, Copy, Debug, PartialEq, Eq, Structural)]
pub enum PlexRepoSelectError {
    NotFound,
}

/// One webhook event as the media server posts it.
pub struct PlexWebhookEvent {
    pub event: Option<String>,
    pub user: Option<bool>,
    pub owner: Option<bool>,
    pub account: Option<Account>,
    pub server: Option<Server>,
    pub player: Option<Player>,
    pub metadata: Option<Metadata>,
}

/// The account the event belongs to.
pub struct Account {
    pub id: Option<i64>,
    pub thumb: Option<String>,
    pub title: Option<String>,
}

/// What is being played.
pub struct Metadata {
    pub library_section_type: Option<String>,
    pub rating_key: Option<String>,
    pub key: Option<String>,
    pub parent_rating_key: Option<String>,
    pub grandparent_rating_key: Option<String>,
    pub guid: Option<String>,
    pub library_section_id: Option<i64>,
    pub metadata_type: Option<String>,
    pub title: Option<String>,
    pub grandparent_key: Option<String>,
    pub parent_key: Option<String>,
    pub grandparent_title: Option<String>,
    pub parent_title: Option<String>,
    pub summary: Option<String>,
    pub year: Option<i64>,
    pub index: Option<i64>,
    pub parent_index: Option<i64>,
    pub rating_count: Option<i64>,
    pub thumb: Option<String>,
    pub art: Option<String>,
    pub parent_thumb: Option<String>,
    pub grandparent_thumb: Option<String>,
    pub grandparent_art: Option<String>,
    pub added_at: Option<i64>,
    pub updated_at: Option<i64>,
}

/// The device the event came from.
pub struct Player {
    pub local: Option<bool>,
    pub public_address: Option<String>,
    pub title: Option<String>,
    pub uuid: Option<String>,
}

/// The media server that sent the event.
pub struct Server {
    pub title: Option<String>,
    pub uuid: Option<String>,
}

/// Is `addr` one of the configured addresses whose plays are not relayed?
pub fn address_is_ignored(ignore_addresses: &Vec<String>, addr: &str) -> (r: bool)
    ensures
        r == exists|i: int|
            0 <= i < ignore_addresses@.len() && (#[trigger] ignore_addresses@[i])@ == addr@,
{
    let n = ignore_addresses.len();
    let mut i: usize = 0;
    while i < n
        invariant
            n == ignore_addresses@.len(),
            i <= n,
            forall|j: int| 0 <= j < i ==> (#[trigger] ignore_addresses@[j])@ != addr@,
        decreases n - i,
    {
        if str_eq(ignore_addresses[i].as_str(), addr) {
            return true;
        }
        i = i + 1;
    }
    false
}

/// A field's text, `<unknown>` when it is missing.
pub open spec fn text_or_unknown(o: Option<String>) -> Seq<char> {
    match o {
        Some(s) => s@,
        None => "<unknown>"@,
    }
}

/// The year in parentheses, `<unknown>` when it is missing.
pub open spec fn year_text(y: Option<i64>) -> Seq<char> {
    match y {
        Some(n) => "("@ + int_dec_str(n as int) + ")"@,
        None => "<unknown>"@,
    }
}

/// The player's public address; empty when it is missing.
pub open spec fn address_text(a: Option<String>) -> Seq<char> {
    match a {
        Some(s) => s@,
        None => Seq::empty(),
    }
}

/// The chat message one play event earns.
pub open spec fn play_message_text(meta: Metadata, player: Player) -> Seq<char> {
    "Playing "@ + text_or_unknown(meta.metadata_type) + ": "@ + text_or_unknown(meta.title) + " "@
        + year_text(meta.year) + "\n"@ + text_or_unknown(meta.summary) + "\nPlayer "@
        + text_or_unknown(player.title) + " - Address "@ + address_text(player.public_address)
}

fn append_text_or_unknown(s: &mut String, o: &Option<String>)
    ensures
        final(s)@ == old(s)@ + text_or_unknown(*o),
{
    match o {
        Some(t) => s.append(t.as_str()),
        None => s.append("<unknown>"),
    }
}

/// The decision the webhook endpoint makes once a payload has been read and
/// its token checked: a play event from a player that is not ignored earns
/// exactly one chat message, in the fixed wording; any other event, and any
/// play from an ignored address, earns none.
pub fn plex_play_message(event: &PlexWebhookEvent, ignore_addresses: &Vec<String>) -> (r: Option<
    String,
>)
    requires
        (event.event matches Some(e) && e@ == "media.play"@) ==> event.metadata is Some
            && event.player is Some,
    ensures
        !(event.event matches Some(e) && e@ == "media.play"@) ==> r is None,
        (event.event matches Some(e) && e@ == "media.play"@) ==> {
            let meta = event.metadata->Some_0;
            let player = event.player->Some_0;
            if exists|i: int|
                0 <= i < ignore_addresses@.len() && (#[trigger] ignore_addresses@[i])@
                    == address_text(player.public_address) {
                r is None
            } else {
                r matches Some(m) && m@ == play_message_text(meta, player)
            }
        },
{
    let is_play = match &event.event {
        Some(e) => str_eq(e.as_str(), "media.play"),
        None => false,
    };
    if !is_play {
        return None;
    }
    let meta = match &event.metadata {
        Some(m) => m,
        None => {
            return None;
        },
    };
    let player = match &event.player {
        Some(p) => p,
        None => {
            return None;
        },
    };
    let mut addr = String::new();
    match &player.public_address {
        Some(a) => addr.append(a.as_str()),
        None => {},
    }
    if address_is_ignored(ignore_addresses, addr.as_str()) {
        return None;
    }
    let mut msg = String::new();
    msg.append("Playing ");
    append_text_or_unknown(&mut msg, &meta.metadata_type);
    msg.append(": ");
    append_text_or_unknown(&mut msg, &meta.title);
    msg.append(" ");
    match meta.year {
        Some(y) => {
            msg.append("(");
            let ys = i64_to_dec_string(y);
            msg.append(ys.as_str());
            msg.append(")");
        },
        None => msg.append("<unknown>"),
    }
    msg.append("\n");
    append_text_or_unknown(&mut msg, &meta.summary);
    msg.append("\nPlayer ");
    append_text_or_unknown(&mut msg, &player.title);
    msg.append(" - Address ");
    msg.append(addr.as_str());
    proof {
        assert(msg@ =~= play_message_text(event.metadata->Some_0, event.player->Some_0));
    }
    Some(msg)
}

} // verus!
