//! Kill-reward ownership: the session that last hit a monster owns its
//! reward for a five-second window, which a different session can only take
//! over once the window has passed.
use vstd::prelude::*;
use crate::types::{opt_session_view, SessionId};

verus! {

/// How long a hit keeps its session's reward claim, in milliseconds.
pub open spec fn reward_window_ms() -> int {
    5000
}

/// The reward owner after `tagger` hits at `now`: the tagger takes over when
/// there is no owner or the owner's window has passed.
pub open spec fn spec_tag_owner(
    owner: Option<Seq<char>>,
    until: u64,
    tagger: Seq<char>,
    now: u64,
) -> Option<Seq<char>> {
    if owner is None || now > until {
        Some(tagger)
    } else {
        owner
    }
}

/// The end of the reward window after `tagger` hits at `now`: the owner's
/// window restarts whenever the owner itself hit (saturating when
/// `saturate`, else exact).
pub open spec fn spec_tag_until(
    owner: Option<Seq<char>>,
    until: u64,
    tagger: Seq<char>,
    now: u64,
) -> int {
    if spec_tag_owner(owner, until, tagger, now) == Some(tagger) {
        if now + reward_window_ms() > u64::MAX {
            u64::MAX as int
        } else {
            now + reward_window_ms()
        }
    } else {
        until as int
    }
}

/// Records a hit by `tagger` at `now` on a reward claim, saturating the new
/// window at the end of time.
pub fn tag_reward_owner(owner: &mut Option<SessionId>, until: &mut u64, tagger: &SessionId, now: u64)
    ensures
        opt_session_view(*final(owner)) == spec_tag_owner(
            opt_session_view(*old(owner)),
            *old(until),
            tagger@,
            now,
        ),
        *final(until) == spec_tag_until(opt_session_view(*old(owner)), *old(until), tagger@, now),
{
    let take_over = match owner {
        None => true,
        Some(_) => now > *until,
    };
    if take_over {
        *owner = Some(tagger.duplicate());
    }
    let owns = match owner {
        Some(o) => o.same(tagger),
        None => false,
    };
    if owns {
        *until = now.saturating_add(5000);
    }
}

/// Law: a claim taken at `t1` holds against every other session until its
/// window ends; a second tag by another session within the window changes
/// neither the owner nor the window.
pub proof fn lemma_reward_window_holds_against_others(
    owner: Option<Seq<char>>,
    until: u64,
    first: Seq<char>,
    t1: u64,
    second: Seq<char>,
    t2: u64,
)
    requires
        second != first,
        t2 <= spec_tag_until(owner, until, first, t1),
        spec_tag_owner(owner, until, first, t1) == Some(first),
    ensures
        ({
            let o1 = spec_tag_owner(owner, until, first, t1);
            let u1 = spec_tag_until(owner, until, first, t1) as u64;
            &&& spec_tag_owner(o1, u1, second, t2) == Some(first)
            &&& spec_tag_until(o1, u1, second, t2) == u1
        }),
{
}

/// Law: the session that hits always ends up owning the claim unless a
/// different owner's window is still running.
pub proof fn lemma_tagger_owns_unless_window_open(
    owner: Option<Seq<char>>,
    until: u64,
    tagger: Seq<char>,
    now: u64,
)
    ensures
        spec_tag_owner(owner, until, tagger, now) == Some(tagger) || (owner is Some && now
            <= until && spec_tag_owner(owner, until, tagger, now) == owner),
        spec_tag_owner(owner, until, tagger, now) is Some,
{
}

} // verus!
