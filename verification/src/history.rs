//! Chat-history buffer: the rolling window of the last eight user
//! utterances of a session, rebuilt on every turn before the
//! language-model call.

use vstd::prelude::*;
use vstd::math::min;
use vstd::math::max;

verus! {

/// Capacity of the chat-history buffer, in turns.
pub const CHAT_HISTORY_CAPACITY: usize = 8;

/// Time-to-live, in seconds, that callers give the stored buffer: the
/// session window of the history.
pub const CHAT_HISTORY_TTL_SECS: u64 = 300;

/// The buffer after one turn: a restarting turn begins a fresh buffer with
/// only the newest utterance; a continuing turn appends it and, past eight
/// entries, drops the oldest.
pub open spec fn spec_next_history(
    prior: Seq<Seq<char>>,
    q: Seq<char>,
    restart: bool,
) -> Seq<Seq<char>> {
    if restart {
        seq![q]
    } else if prior.len() + 1 > CHAT_HISTORY_CAPACITY {
        prior.push(q).drop_first()
    } else {
        prior.push(q)
    }
}

/// Computes the chat-history buffer for the turn that asks `current_q`,
/// from the buffer of the previous turn. The caller persists the result
/// under the history key with [`CHAT_HISTORY_TTL_SECS`].
pub fn chat_history(prior: &Vec<String>, current_q: &str, restart: bool) -> (h: Vec<String>)
    ensures
        h.deep_view() == spec_next_history(prior.deep_view(), current_q@, restart),
        prior.deep_view().len() <= CHAT_HISTORY_CAPACITY ==> h.deep_view().len()
            <= CHAT_HISTORY_CAPACITY,
{
    if restart {
        let mut h: Vec<String> = Vec::new();
        h.push(current_q.to_owned());
        proof {
            assert(h.deep_view() =~= seq![current_q@]);
        }
        h
    } else {
        let mut h: Vec<String> = Vec::new();
        let mut i: usize = 0;
        while i < prior.len()
            invariant
                0 <= i <= prior.len(),
                h@ =~= prior@.take(i as int),
            decreases prior.len() - i,
        {
            h.push(prior[i].clone());
            proof {
                assert(h@ =~= prior@.take(i + 1));
            }
            i = i + 1;
        }
        proof {
            assert(h@ =~= prior@);
        }
        h.push(current_q.to_owned());
        let ghost appended = prior@.push(h@.last());
        proof {
            assert(h@ =~= appended);
            assert forall|j: int| 0 <= j < h@.len() implies h.deep_view()[j]
                == prior.deep_view().push(current_q@)[j] by {
                assert(h@[j] == appended[j]);
            }
            assert(h.deep_view() =~= prior.deep_view().push(current_q@));
        }
        if h.len() > CHAT_HISTORY_CAPACITY {
            let ghost before = h.deep_view();
            let _oldest = h.remove(0);
            proof {
                assert forall|j: int| 0 <= j < h@.len() implies h.deep_view()[j]
                    == before.drop_first()[j] by {}
                assert(h.deep_view() =~= prior.deep_view().push(current_q@).drop_first());
            }
        }
        h
    }
}

/// The buffer that a run of continuing turns leaves behind, starting from
/// an empty session: each turn of `turns` applied in order with
/// `restart == false`.
pub open spec fn spec_history_after_turns(turns: Seq<Seq<char>>) -> Seq<Seq<char>>
    decreases turns.len(),
{
    if turns.len() == 0 {
        Seq::empty()
    } else {
        spec_next_history(spec_history_after_turns(turns.drop_last()), turns.last(), false)
    }
}

/// The buffer never exceeds eight entries, and after any run of continuing
/// turns it holds exactly the most recent eight (or all of them, if fewer),
/// in arrival order.
pub proof fn lemma_history_keeps_recent_turns(turns: Seq<Seq<char>>)
    ensures
        spec_history_after_turns(turns).len() == min(turns.len() as int, CHAT_HISTORY_CAPACITY as int),
        spec_history_after_turns(turns) =~= turns.skip(
            max(turns.len() - CHAT_HISTORY_CAPACITY, 0),
        ),
    decreases turns.len(),
{
    if turns.len() > 0 {
        lemma_history_keeps_recent_turns(turns.drop_last());
        let rest = spec_history_after_turns(turns.drop_last());
        assert(turns.drop_last().skip(max(turns.drop_last().len() - CHAT_HISTORY_CAPACITY, 0))
            =~= turns.skip(max(turns.drop_last().len() - CHAT_HISTORY_CAPACITY, 0)).drop_last());
    }
}

} // verus!
