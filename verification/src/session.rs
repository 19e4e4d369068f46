//! Session-state resolution: which mode is active for an incoming message,
//! whether the conversation restarts, and which expiring-store writes the
//! caller must perform to carry the session into the next turn.

use vstd::prelude::*;
use crate::catalog::spec_prompt_for;
use crate::catalog::prompt_for_key;
use crate::text::str_eq;

verus! {

/// Time-to-live, in seconds, of the `current_prompt_key` marker: long enough
/// to cover the latency until the user's next message, short enough that an
/// abandoned mode selection does not leak into later conversation.
pub const CURRENT_KEY_TTL_SECS: u64 = 60;

/// Time-to-live, in seconds, of the `previous_prompt_key` marker: the
/// sliding session window, refreshed on every resolved turn.
pub const PREVIOUS_KEY_TTL_SECS: u64 = 300;

/// A pending write to the expiring key-value store: set `key` to `value`
/// with a time-to-live of `ttl_secs` seconds.
pub struct KeyWrite {
    pub key: String,
    pub value: String,
    pub ttl_secs: u64,
}

/// The store write that records `key` as the previous prompt key, refreshing
/// the session window.
pub fn set_previous_prompt_key(key: &str) -> (w: KeyWrite)
    ensures
        w.key@ == "previous_prompt_key"@,
        w.value@ == key@,
        w.ttl_secs == PREVIOUS_KEY_TTL_SECS,
{
    KeyWrite {
        key: String::from_str("previous_prompt_key"),
        value: key.to_owned(),
        ttl_secs: PREVIOUS_KEY_TTL_SECS,
    }
}

/// The store write that arms `key` as the current prompt key for the next
/// free-text message.
pub fn set_current_prompt_key(key: &str) -> (w: KeyWrite)
    ensures
        w.key@ == "current_prompt_key"@,
        w.value@ == key@,
        w.ttl_secs == CURRENT_KEY_TTL_SECS,
{
    KeyWrite {
        key: String::from_str("current_prompt_key"),
        value: key.to_owned(),
        ttl_secs: CURRENT_KEY_TTL_SECS,
    }
}

/// The outcome of resolving one turn, at the specification level.
pub ghost struct SpecTurn {
    /// The mode that is active for this turn.
    pub prompt_key: Seq<char>,
    /// The catalog text of the active mode; empty for a key outside the
    /// catalog.
    pub system_prompt: Seq<char>,
    /// Whether this turn starts a fresh conversation.
    pub restart: bool,
    /// The value that `previous_prompt_key` must hold for the next turn.
    pub new_previous: Seq<char>,
}

/// The four-case resolution policy, on a snapshot of the two expiring keys.
///
/// 1. Both absent: no session, the caller skips the turn entirely.
/// 2. Both present: the mode is `current`; the conversation continues
///    (`restart == false`) exactly when `current == previous`.
/// 3. Only `current` present: first turn of a new mode, `restart == true`.
/// 4. Only `previous` present: the short-lived `current` marker expired;
///    the previous mode continues, `restart == false`.
///
/// Every resolved turn re-arms `previous_prompt_key` with the active mode.
pub open spec fn spec_resolve(cur: Option<Seq<char>>, prv: Option<Seq<char>>) -> Option<SpecTurn> {
    match cur {
        Some(c) => Some(
            SpecTurn {
                prompt_key: c,
                system_prompt: spec_prompt_for(c),
                restart: !(prv is Some && prv->0 == c),
                new_previous: c,
            },
        ),
        None => match prv {
            Some(p) => Some(
                SpecTurn {
                    prompt_key: p,
                    system_prompt: spec_prompt_for(p),
                    restart: false,
                    new_previous: p,
                },
            ),
            None => None,
        },
    }
}

/// The outcome of resolving one turn: the active mode, its system prompt,
/// whether the conversation restarts, and the store write that carries the
/// session window forward.
pub struct SessionTurn {
    pub prompt_key: String,
    pub system_prompt: String,
    pub restart: bool,
    pub store_write: KeyWrite,
}

impl View for SessionTurn {
    type V = SpecTurn;

    open spec fn view(&self) -> SpecTurn {
        SpecTurn {
            prompt_key: self.prompt_key@,
            system_prompt: self.system_prompt@,
            restart: self.restart,
            new_previous: self.store_write.value@,
        }
    }
}

/// Resolves one turn from a snapshot of the two expiring keys, following
/// [`spec_resolve`]'s four-case table exactly. `None` means no session is
/// active and the caller must skip the language-model call entirely. The
/// returned store write re-arms `previous_prompt_key` for the session
/// window; the resolver itself performs no store access.
pub fn prompt_checking(current_prompt_key: &Option<String>, previous_prompt_key: &Option<String>)
    -> (r: Option<SessionTurn>)
    ensures
        r is Some == spec_resolve(
            current_prompt_key.deep_view(),
            previous_prompt_key.deep_view(),
        ) is Some,
        r matches Some(t) ==> t@ == spec_resolve(
            current_prompt_key.deep_view(),
            previous_prompt_key.deep_view(),
        )->0,
        r matches Some(t) ==> t.store_write.key@ == "previous_prompt_key"@
            && t.store_write.ttl_secs == PREVIOUS_KEY_TTL_SECS,
{
    match current_prompt_key {
        Some(cur) => {
            let restart = match previous_prompt_key {
                Some(prv) => !str_eq(cur.as_str(), prv.as_str()),
                None => true,
            };
            let system_prompt = prompt_for_key(cur.as_str());
            let store_write = set_previous_prompt_key(cur.as_str());
            Some(SessionTurn { prompt_key: cur.clone(), system_prompt, restart, store_write })
        },
        None => match previous_prompt_key {
            Some(prv) => {
                let system_prompt = prompt_for_key(prv.as_str());
                let store_write = set_previous_prompt_key(prv.as_str());
                Some(
                    SessionTurn {
                        prompt_key: prv.clone(),
                        system_prompt,
                        restart: false,
                        store_write,
                    },
                )
            },
            None => None,
        },
    }
}

/// Resolving twice in immediate succession continues the conversation: if a
/// turn resolves at all and its store write is applied, the next resolution
/// under the same `current_prompt_key` snapshot yields `restart == false`.
pub proof fn lemma_second_resolution_continues(cur: Option<Seq<char>>, prv: Option<Seq<char>>)
    requires
        spec_resolve(cur, prv) is Some,
    ensures
        spec_resolve(cur, Some(spec_resolve(cur, prv)->0.new_previous)) matches Some(t2)
            && !t2.restart,
{
}

} // verus!
