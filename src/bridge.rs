use vstd::prelude::*;

verus! {

/// A single-shot notification for one outstanding request. Callback deliveries whose subject
/// is the request's key fulfil it; it is fulfilled at most once and never reset.
pub struct PendingNotification {
    key: u64,
    fulfilled: bool,
}

/// Where, in a run of deliveries, the notification is fulfilled: the first delivery whose
/// subject is the key.
pub open spec fn is_first_match(subjects: Seq<u64>, key: u64, i: int) -> bool {
    &&& 0 <= i < subjects.len()
    &&& subjects[i] == key
    &&& forall|j: int| 0 <= j < i ==> subjects[j] != key
}

impl PendingNotification {
    /// The correlation key: the subject that fulfils the notification.
    pub closed spec fn key_spec(&self) -> u64 {
        self.key
    }

    /// Whether a matching delivery has arrived.
    pub closed spec fn fulfilled_spec(&self) -> bool {
        self.fulfilled
    }

    /// A notification waiting for a delivery about `key`.
    pub fn new(key: u64) -> (r: Self)
        ensures
            r.key_spec() == key,
            !r.fulfilled_spec(),
    {
        PendingNotification { key, fulfilled: false }
    }

    /// The correlation key.
    pub fn key(&self) -> (r: u64)
        ensures
            r == self.key_spec(),
    {
        self.key
    }

    /// Whether a matching delivery has arrived; awaiting it then returns at once.
    pub fn is_fulfilled(&self) -> (r: bool)
        ensures
            r == self.fulfilled_spec(),
    {
        self.fulfilled
    }

    /// Hands the notification one callback delivery about `subject`. Returns whether this
    /// delivery is the one that fulfilled it, which happens once at most.
    pub fn deliver(&mut self, subject: u64) -> (fired: bool)
        ensures
            final(self).key_spec() == old(self).key_spec(),
            fired == (!old(self).fulfilled_spec() && subject == old(self).key_spec()),
            final(self).fulfilled_spec() == (old(self).fulfilled_spec() || subject
                == old(self).key_spec()),
    {
        if self.fulfilled || subject != self.key {
            false
        } else {
            self.fulfilled = true;
            true
        }
    }

    /// Hands the notification a run of deliveries, in order. Returns the position of the one
    /// that fulfilled it, if one did.
    pub fn deliver_all(&mut self, subjects: &[u64]) -> (r: Option<usize>)
        ensures
            final(self).key_spec() == old(self).key_spec(),
            final(self).fulfilled_spec() == (old(self).fulfilled_spec() || subjects@.contains(
                old(self).key_spec(),
            )),
            old(self).fulfilled_spec() ==> r is None,
            !old(self).fulfilled_spec() ==> match r {
                Some(i) => is_first_match(subjects@, old(self).key_spec(), i as int),
                None => !subjects@.contains(old(self).key_spec()),
            },
    {
        let mut found: Option<usize> = None;
        let mut i: usize = 0;
        while i < subjects.len()
            invariant
                0 <= i <= subjects@.len(),
                self.key_spec() == old(self).key_spec(),
                self.fulfilled_spec() == (old(self).fulfilled_spec() || subjects@.take(
                    i as int,
                ).contains(self.key_spec())),
                old(self).fulfilled_spec() ==> found is None,
                !old(self).fulfilled_spec() ==> match found {
                    Some(k) => k < i && is_first_match(subjects@, self.key_spec(), k as int),
                    None => !subjects@.take(i as int).contains(self.key_spec()),
                },
            decreases subjects@.len() - i,
        {
            let fired = self.deliver(subjects[i]);
            proof {
                let pre = subjects@.take(i as int);
                let post = subjects@.take(i as int + 1);
                let key = self.key_spec();
                assert(post == pre.push(subjects@[i as int]));
                if pre.contains(key) {
                    let j = choose|j: int| 0 <= j < pre.len() && pre[j] == key;
                    assert(post[j] == key);
                }
                if subjects@[i as int] == key {
                    assert(post[i as int] == key);
                }
                if post.contains(key) {
                    let j = choose|j: int| 0 <= j < post.len() && post[j] == key;
                    if j < i {
                        assert(pre[j] == key);
                    }
                }
                assert(post.contains(key) == (pre.contains(key) || subjects@[i as int] == key));
                if let Some(k) = found {
                    assert(pre[k as int] == key);
                }
                if !old(self).fulfilled_spec() && found is None {
                    assert forall|j: int| 0 <= j < i implies subjects@[j] != self.key_spec() by {
                        assert(subjects@.take(i as int)[j] == subjects@[j]);
                    }
                }
            }
            if fired {
                found = Some(i);
            }
            i = i + 1;
        }
        proof {
            assert(subjects@.take(subjects@.len() as int) == subjects@);
        }
        found
    }
}

/// For a run of deliveries in which exactly one matches the key, wherever it stands, a fresh
/// notification is fulfilled by that delivery and by no other: it is still waiting after every
/// shorter prefix of the run, and fulfilled after every longer one.
pub proof fn lemma_fulfilled_by_unique_match(subjects: Seq<u64>, key: u64, p: int)
    requires
        0 <= p < subjects.len(),
        subjects[p] == key,
        forall|j: int| 0 <= j < subjects.len() && j != p ==> subjects[j] != key,
    ensures
        is_first_match(subjects, key, p),
        forall|i: int| #[trigger] is_first_match(subjects, key, i) ==> i == p,
        forall|k: int| 0 <= k <= subjects.len() ==> (#[trigger] subjects.take(k).contains(key) <==> k > p),
{
    assert forall|k: int| 0 <= k <= subjects.len() implies (#[trigger] subjects.take(k).contains(key)
        <==> k > p) by {
        if k > p {
            assert(subjects.take(k)[p] == key);
        }
        if subjects.take(k).contains(key) {
            let j = choose|j: int| 0 <= j < subjects.take(k).len() && subjects.take(k)[j] == key;
            assert(subjects[j] == key);
        }
    }
}

} // verus!
