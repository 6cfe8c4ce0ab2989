//! The messages that await a reply.
use std::collections::HashMap;
use vstd::prelude::*;

verus! {

broadcast use vstd::std_specs::hash::group_hash_axioms;

/// Who waits for a reply, and until when. `D` is the drop box into which the reply goes.
#[derive(Debug)]
pub struct PendingReply<D> {
    /// Where the reply goes.
    pub drop_box: D,
    /// When its receiver stops waiting.
    pub deadline: u128,
}

/// A reply that is awaited under an identifier.
#[derive(Debug)]
pub struct PendingReplyEntry<D> {
    /// The identifier of the message that was sent, and that the reply will carry.
    pub uuid: u128,
    /// Who waits for the reply.
    pub reply: PendingReply<D>,
}

/// The drop boxes of all messages that await a reply, by the identifier of the message.
pub struct PendingReplies<D> {
    entries: HashMap<u128, PendingReply<D>>,
}

impl<D> View for PendingReplies<D> {
    type V = Map<u128, PendingReply<D>>;

    closed spec fn view(&self) -> Map<u128, PendingReply<D>> {
        self.entries@
    }
}

/// Whether a reply is overdue at `time`: its deadline has passed.
pub open spec fn overdue<D>(reply: PendingReply<D>, time: u128) -> bool {
    reply.deadline < time
}

/// What is still awaited once everything overdue at `time` is given up.
pub open spec fn still_pending<D>(
    pending: Map<u128, PendingReply<D>>,
    time: u128,
) -> Map<u128, PendingReply<D>> {
    pending.restrict(Set::new(|uuid: u128| pending.contains_key(uuid) && !overdue(pending[uuid], time)))
}

/// Whether `expired` lists the replies of `pending` that are overdue at `time`, each once, in
/// any order.
pub open spec fn lists_overdue<D>(
    expired: Seq<PendingReplyEntry<D>>,
    pending: Map<u128, PendingReply<D>>,
    time: u128,
) -> bool {
    &&& forall|i: int|
        0 <= i < expired.len() ==> pending.contains_key((#[trigger] expired[i]).uuid)
            && pending[expired[i].uuid] == expired[i].reply && overdue(expired[i].reply, time)
    &&& forall|i: int, j: int|
        0 <= i < j < expired.len() ==> (#[trigger] expired[i]).uuid != (#[trigger] expired[j]).uuid
    &&& forall|uuid: u128| #[trigger]
        pending.contains_key(uuid) && overdue(pending[uuid], time) ==> exists|i: int|
            0 <= i < expired.len() && (#[trigger] expired[i]).uuid == uuid
}

/// A reply is given up at a time exactly where its deadline is before that time, and it is kept
/// exactly where it is not: each awaited reply is either listed, once and as it was, or still
/// awaited as it was, and nothing else is.
pub proof fn law_a_reply_is_listed_or_kept<D>(
    expired: Seq<PendingReplyEntry<D>>,
    pending: Map<u128, PendingReply<D>>,
    time: u128,
    uuid: u128,
)
    requires
        lists_overdue(expired, pending, time),
    ensures
        (exists|i: int| 0 <= i < expired.len() && (#[trigger] expired[i]).uuid == uuid)
            <==> pending.contains_key(uuid) && pending[uuid].deadline < time,
        still_pending(pending, time).contains_key(uuid) <==> pending.contains_key(uuid)
            && pending[uuid].deadline >= time,
        still_pending(pending, time).contains_key(uuid) ==> still_pending(pending, time)[uuid]
            == pending[uuid],
        forall|i: int|
            0 <= i < expired.len() && (#[trigger] expired[i]).uuid == uuid ==> expired[i].reply
                == pending[uuid],
        forall|i: int, j: int|
            0 <= i < expired.len() && 0 <= j < expired.len() && (#[trigger] expired[i]).uuid == uuid
                && (#[trigger] expired[j]).uuid == uuid ==> i == j,
{
    if pending.contains_key(uuid) && pending[uuid].deadline < time {
        assert(overdue(pending[uuid], time));
    }
}

impl<D> PendingReplies<D> {
    /// Nothing is awaited.
    pub fn new() -> (r: Self)
        ensures
            r@ == Map::<u128, PendingReply<D>>::empty(),
    {
        PendingReplies { entries: HashMap::new() }
    }

    /// Puts up a drop box. One that was there for the same identifier is discarded.
    pub fn register(&mut self, entry: PendingReplyEntry<D>)
        ensures
            final(self)@ == old(self)@.insert(entry.uuid, entry.reply),
    {
        self.entries.insert(entry.uuid, entry.reply);
    }

    /// Takes down the drop box for the message `uuid`, if there is one.
    pub fn take(&mut self, uuid: u128) -> (r: Option<D>)
        ensures
            final(self)@ == old(self)@.remove(uuid),
            r == (if old(self)@.contains_key(uuid) {
                Some(old(self)@[uuid].drop_box)
            } else {
                None
            }),
    {
        match self.entries.remove(&uuid) {
            Some(reply) => Some(reply.drop_box),
            None => None,
        }
    }

    /// The identifiers of the replies that are overdue at `time`, each once.
    fn overdue_uuids(&self, time: u128) -> (r: Vec<u128>)
        ensures
            r@.no_duplicates(),
            forall|uuid: u128| #[trigger]
                r@.contains(uuid) <==> self@.contains_key(uuid) && overdue(self@[uuid], time),
    {
        let mut found: Vec<u128> = Vec::new();
        // where in the walk over the table each of them was met
        let ghost mut met: Seq<int> = Seq::empty();
        for uuid in it: self.entries.keys()
            invariant
                it.seq().no_duplicates(),
                it.seq().unref().to_set() == self.entries@.dom(),
                met.len() == found@.len(),
                forall|k: int|
                    0 <= k < met.len() ==> 0 <= #[trigger] met[k] < it.index() && *it.seq()[met[k]]
                        == found@[k] && overdue(self.entries@[found@[k]], time),
                forall|i: int|
                    0 <= i < it.index() && overdue(
                        self.entries@[*(#[trigger] it.seq()[i])],
                        time,
                    ) ==> found@.contains(*it.seq()[i]),
                found@.no_duplicates(),
                forall|k: int|
                    0 <= k < found@.len() ==> self.entries@.contains_key(#[trigger] found@[k])
                        && overdue(self.entries@[found@[k]], time),
                it.index() == it.seq().len() ==> forall|x: u128| #[trigger]
                    self.entries@.contains_key(x) && overdue(self.entries@[x], time)
                        ==> found@.contains(x),
        {
            assert(it.seq().unref()[it.index() as int] == *uuid);
            assert(self.entries@.contains_key(*uuid));
            if let Some(reply) = self.entries.get(uuid) {
                if reply.deadline < time {
                    let ghost before = found@;
                    assert(!before.contains(*uuid)) by {
                        if before.contains(*uuid) {
                            let k = choose|k: int| 0 <= k < before.len() && before[k] == *uuid;
                            assert(it.seq()[met[k]] == it.seq()[it.index() as int]);
                        }
                    }
                    found.push(*uuid);
                    proof {
                        met = met.push(it.index() as int);
                        assert(found@.last() == *uuid);
                        assert forall|x: u128| before.contains(x) implies found@.contains(x) by {
                            let k = choose|k: int| 0 <= k < before.len() && before[k] == x;
                            assert(found@[k] == x);
                        }
                    }
                }
            }
            assert forall|x: u128| #[trigger]
                self.entries@.contains_key(x) && overdue(self.entries@[x], time) && it.index() + 1
                    == it.seq().len() implies found@.contains(x) by {
                assert(it.seq().unref().to_set().contains(x));
                let i = choose|i: int|
                    0 <= i < it.seq().unref().len() && it.seq().unref()[i] == x;
                assert(*it.seq()[i] == x);
            }
        }
        found
    }

    /// Takes down the drop boxes of all replies that are overdue at `time`.
    pub fn expire(&mut self, time: u128) -> (r: Vec<PendingReplyEntry<D>>)
        ensures
            lists_overdue(r@, old(self)@, time),
            final(self)@ == still_pending(old(self)@, time),
    {
        let uuids = self.overdue_uuids(time);
        let mut expired: Vec<PendingReplyEntry<D>> = Vec::new();
        let ghost mut removed: Set<u128> = Set::empty();
        let mut next: usize = 0;
        while next < uuids.len()
            invariant
                next <= uuids@.len(),
                expired@.len() == next,
                uuids@.no_duplicates(),
                forall|uuid: u128| #[trigger]
                    uuids@.contains(uuid) <==> old(self)@.contains_key(uuid) && overdue(
                        old(self)@[uuid],
                        time,
                    ),
                forall|i: int|
                    0 <= i < next ==> (#[trigger] expired@[i]).uuid == uuids@[i]
                        && expired@[i].reply == old(self)@[uuids@[i]],
                forall|i: int|
                    0 <= i < uuids@.len() ==> (removed.contains(#[trigger] uuids@[i]) <==> i < next),
                forall|uuid: u128| #[trigger] removed.contains(uuid) ==> uuids@.contains(uuid),
                self@ == old(self)@.remove_keys(removed),
            decreases uuids@.len() - next,
        {
            let uuid: u128 = uuids[next];
            assert(uuids@.contains(uuid));
            match self.entries.remove(&uuid) {
                Some(reply) => {
                    expired.push(PendingReplyEntry { uuid, reply });
                },
                None => {
                    vstd::pervasive::unreached::<()>();
                },
            }
            proof {
                assert(old(self)@.remove_keys(removed).remove(uuid) =~= old(self)@.remove_keys(
                    removed.insert(uuid),
                ));
                removed = removed.insert(uuid);
            }
            next = next + 1;
        }
        proof {
            assert forall|i: int| 0 <= i < expired@.len() implies old(self)@.contains_key(
                (#[trigger] expired@[i]).uuid,
            ) && overdue(expired@[i].reply, time) by {
                assert(uuids@.contains(uuids@[i]));
            }
            assert forall|uuid: u128| #[trigger]
                old(self)@.contains_key(uuid) && overdue(old(self)@[uuid], time) implies exists|i: int|

                0 <= i < expired@.len() && (#[trigger] expired@[i]).uuid == uuid by {
                assert(uuids@.contains(uuid));
                let i = choose|i: int| 0 <= i < uuids@.len() && uuids@[i] == uuid;
                assert(expired@[i].uuid == uuid);
            }
            assert forall|uuid: u128| removed.contains(uuid) <==> uuids@.contains(uuid) by {
                if uuids@.contains(uuid) {
                    let i = choose|i: int| 0 <= i < uuids@.len() && uuids@[i] == uuid;
                    assert(removed.contains(uuids@[i]));
                }
            }
            assert(self@ =~= still_pending(old(self)@, time));
        }
        expired
    }
}

} // verus!
