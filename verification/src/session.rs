//! Subscriber sessions of a stream on one node, and the duplicate-
//! subscription cleanup plan: once a relay is verified, the ordinary direct
//! subscriptions on the origin are redundant and are to be deleted, while
//! sessions that are themselves relay links are preserved.

use vstd::prelude::*;

verus! {

/// One subscriber's (or relay's) consumption of a stream on a node.
#[derive(Debug, Clone)]
pub struct SubscribeSession {
    /// The session's identifier on its node.
    pub id: String,
    /// Present exactly when this session is itself a cascade relay link
    /// rather than an ordinary client subscription.
    pub cascade: Option<String>,
}

/// A stream on one node together with its subscriber sessions, in the
/// node's order.
#[derive(Debug, Clone)]
pub struct StreamInfo {
    pub id: String,
    pub sessions: Vec<SubscribeSession>,
}

/// Whether a session is itself a cascade relay link and must be preserved
/// by cleanup.
pub open spec fn is_relay_link(s: SubscribeSession) -> bool {
    s.cascade is Some
}

/// The session ids cleanup must delete out of one session list: exactly the
/// sessions without a cascade tag, in order.
pub open spec fn session_deletes(ss: Seq<SubscribeSession>) -> Seq<Seq<char>> {
    ss.filter(|s: SubscribeSession| !is_relay_link(s)).map_values(|s: SubscribeSession| s.id@)
}

/// The session ids cleanup must delete for the stream `stream` across a
/// node's stream list: the deletions of every entry whose id matches, in
/// the list's order.
pub open spec fn delete_plan(infos: Seq<StreamInfo>, stream: Seq<char>) -> Seq<Seq<char>>
    decreases infos.len(),
{
    if infos.len() == 0 {
        Seq::empty()
    } else {
        delete_plan(infos.drop_last(), stream) + (if infos.last().id@ == stream {
            session_deletes(infos.last().sessions@)
        } else {
            Seq::empty()
        })
    }
}

/// The character sequences behind a vector of strings, in order.
pub open spec fn ids_of(v: Seq<String>) -> Seq<Seq<char>> {
    v.map_values(|s: String| s@)
}

proof fn lemma_session_deletes_push(t: Seq<SubscribeSession>, x: SubscribeSession)
    ensures
        session_deletes(t.push(x)) == if !is_relay_link(x) {
            session_deletes(t).push(x.id@)
        } else {
            session_deletes(t)
        },
{
    reveal(Seq::filter);
    assert(t.push(x).drop_last() =~= t);
    assert(t.push(x).last() == x);
    if !is_relay_link(x) {
        assert(t.push(x).filter(|s: SubscribeSession| !is_relay_link(s)) == t.filter(
            |s: SubscribeSession| !is_relay_link(s),
        ).push(x));
        assert(t.filter(|s: SubscribeSession| !is_relay_link(s)).push(x).map_values(
            |s: SubscribeSession| s.id@,
        ) =~= t.filter(|s: SubscribeSession| !is_relay_link(s)).map_values(
            |s: SubscribeSession| s.id@,
        ).push(x.id@));
    }
}

/// Computes the cleanup plan for `stream` out of a node's stream list:
/// exactly the untagged sessions' ids, in order.
pub fn sessions_to_delete(infos: &Vec<StreamInfo>, stream: &String) -> (r: Vec<String>)
    ensures
        ids_of(r@) == delete_plan(infos@, stream@),
{
    let mut out: Vec<String> = Vec::new();
    for k in 0..infos.len()
        invariant
            ids_of(out@) == delete_plan(infos@.take(k as int), stream@),
    {
        let ghost out_before = out@;
        if infos[k].id == *stream {
            let sess = &infos[k].sessions;
            for m in 0..sess.len()
                invariant
                    sess == &infos@[k as int].sessions,
                    k < infos@.len(),
                    ids_of(out@) == ids_of(out_before) + session_deletes(sess@.take(m as int)),
            {
                let ghost deletes_before = session_deletes(sess@.take(m as int));
                match &sess[m].cascade {
                    Option::Some(_) => {
                        proof {
                            assert(sess@.take(m as int).push(sess@[m as int]) =~= sess@.take(
                                m + 1,
                            ));
                            lemma_session_deletes_push(sess@.take(m as int), sess@[m as int]);
                        }
                    },
                    Option::None => {
                        let ghost pre = out@;
                        out.push(sess[m].id.clone());
                        proof {
                            assert(sess@.take(m as int).push(sess@[m as int]) =~= sess@.take(
                                m + 1,
                            ));
                            lemma_session_deletes_push(sess@.take(m as int), sess@[m as int]);
                            assert(out@ == pre.push(sess@[m as int].id));
                            assert(ids_of(pre.push(sess@[m as int].id)) =~= ids_of(pre).push(
                                sess@[m as int].id@,
                            ));
                            assert((ids_of(out_before) + deletes_before).push(sess@[m as int].id@)
                                =~= ids_of(out_before) + deletes_before.push(sess@[m as int].id@));
                        }
                    },
                }
            }
            proof {
                assert(sess@.take(sess@.len() as int) =~= sess@);
                assert(infos@.take(k + 1).drop_last() =~= infos@.take(k as int));
                assert(infos@.take(k + 1).last() == infos@[k as int]);
            }
        } else {
            proof {
                assert(infos@.take(k + 1).drop_last() =~= infos@.take(k as int));
                assert(infos@.take(k + 1).last() == infos@[k as int]);
                assert(delete_plan(infos@.take(k + 1), stream@) =~= delete_plan(
                    infos@.take(k as int),
                    stream@,
                ));
            }
        }
    }
    proof {
        assert(infos@.take(infos@.len() as int) =~= infos@);
    }
    out
}

} // verus!
