//! Sessions that a Tautulli server reports.
use vstd::prelude::*;

verus! {

/// A playback session on a Tautulli server.
#[derive(Debug, Clone, PartialEq, Eq)]
pub struct TautulliSession {
    pub user: String,
    pub full_title: String,
    pub progress_percent: u8,
    pub state: String,
    pub media_type: String,
}

/// The positions of the sessions of `user`, in order.
pub open spec fn user_session_indices(sessions: Seq<TautulliSession>, user: Seq<char>) -> Seq<int>
    decreases sessions.len(),
{
    if sessions.len() == 0 {
        seq![]
    } else {
        let rest = user_session_indices(sessions.drop_last(), user);
        if sessions.last().user@ == user {
            rest.push(sessions.len() - 1)
        } else {
            rest
        }
    }
}

/// The positions in `sessions` of the sessions that belong to `user`, in order.
pub fn user_sessions(sessions: &Vec<TautulliSession>, user: &String) -> (found: Vec<usize>)
    ensures
        found@.map_values(|i: usize| i as int) == user_session_indices(sessions@, user@),
        forall|k: int|
            0 <= k < found.len() ==> #[trigger] found[k] < sessions.len() && sessions[found[k] as int].user@
                == user@,
        forall|k: int, l: int| 0 <= k < l < found.len() ==> found[k] < found[l],
        forall|i: int|
            0 <= i < sessions.len() && #[trigger] sessions[i].user@ == user@ ==> found@.contains(
                i as usize,
            ),
{
    let mut found: Vec<usize> = Vec::new();
    let n = sessions.len();
    let mut i: usize = 0;
    while i < n
        invariant
            n == sessions.len(),
            i <= n,
            found@.map_values(|k: usize| k as int) == user_session_indices(sessions@.take(i as int), user@),
            forall|k: int|
                0 <= k < found.len() ==> #[trigger] found[k] < i && sessions[found[k] as int].user@
                    == user@,
            forall|k: int, l: int| 0 <= k < l < found.len() ==> found[k] < found[l],
            forall|j: int|
                0 <= j < i && #[trigger] sessions[j].user@ == user@ ==> found@.contains(j as usize),
        decreases n - i,
    {
        let ghost before = found@;
        assert(sessions@.take(i + 1).drop_last() =~= sessions@.take(i as int));
        if sessions[i].user == *user {
            found.push(i);
            assert(found@.map_values(|k: usize| k as int) =~= user_session_indices(sessions@.take(i as int), user@).push(i as int));
            assert(found@[found.len() - 1] == i);
            assert forall|j: int| 0 <= j < i + 1 && #[trigger] sessions[j].user@ == user@ implies found@.contains(j as usize) by {
                if j < i {
                    let k = choose|k: int| 0 <= k < before.len() && before[k] == j as usize;
                    assert(found@[k] == j as usize);
                } else {
                    assert(found@[found.len() - 1] == j as usize);
                }
            }
        }
        i = i + 1;
    }
    assert(sessions@.take(n as int) =~= sessions@);
    found
}

} // verus!

verus! {

/// The positions of a user's sessions are exactly the positions whose session belongs to
/// that user, compared as whole texts, each once and in increasing order.
pub proof fn lemma_user_session_indices(sessions: Seq<TautulliSession>, user: Seq<char>)
    ensures
        forall|k: int|
            0 <= k < user_session_indices(sessions, user).len() ==> {
                let i = #[trigger] user_session_indices(sessions, user)[k];
                0 <= i < sessions.len() && sessions[i].user@ == user
            },
        forall|k: int, l: int|
            0 <= k < l < user_session_indices(sessions, user).len() ==> user_session_indices(
                sessions,
                user,
            )[k] < user_session_indices(sessions, user)[l],
        forall|i: int|
            0 <= i < sessions.len() && #[trigger] sessions[i].user@ == user
                ==> user_session_indices(sessions, user).contains(i),
    decreases sessions.len(),
{
    if sessions.len() > 0 {
        let rest = sessions.drop_last();
        lemma_user_session_indices(rest, user);
        let r = user_session_indices(rest, user);
        let all = user_session_indices(sessions, user);
        assert forall|k: int| 0 <= k < r.len() implies #[trigger] r[k] < sessions.len() - 1 by {
        }
        assert forall|k: int| 0 <= k < all.len() implies {
            let i = #[trigger] all[k];
            0 <= i < sessions.len() && sessions[i].user@ == user
        } by {
            if k < r.len() {
                assert(all[k] == r[k]);
                assert(sessions[r[k]] == rest[r[k]]);
            }
        }
        assert forall|i: int| 0 <= i < sessions.len() && #[trigger] sessions[i].user@ == user
            implies all.contains(i) by {
            if i < sessions.len() - 1 {
                assert(rest[i] == sessions[i]);
                assert(r.contains(i));
                let k = choose|k: int| 0 <= k < r.len() && r[k] == i;
                assert(all[k] == i);
            } else {
                assert(all[all.len() - 1] == i);
            }
        }
    }
}

} // verus!
