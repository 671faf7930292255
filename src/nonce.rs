//! Single-use anti-replay tokens.
use vstd::prelude::*;
use crate::types::AcmeServerError;

verus! {

/// How long a nonce stays usable after it is issued: five minutes, in
/// nanoseconds.
pub const NONCE_LIFETIME_NANOS: u64 = 300000000000;

/// A nonce that was issued, with its expiry and whether it was used.
#[derive(Debug, Clone)]
pub struct NonceRecord {
    pub token: String,
    pub expires_at: u64,
    pub consumed: bool,
}

/// The set of nonces issued so far. A token is recorded once and never
/// forgotten, so a used token stays used.
pub struct NonceService {
    records: Vec<NonceRecord>,
}

/// The expiry of a nonce issued at `now`.
pub open spec fn expiry_of(now: u64) -> u64 {
    if now as int + NONCE_LIFETIME_NANOS as int <= u64::MAX as int {
        (now + NONCE_LIFETIME_NANOS) as u64
    } else {
        u64::MAX
    }
}

/// `after` and `r` are what `consume(t, now)` makes of `before`: success
/// exactly where `t` is outstanding at `now`, and then `t` is spent;
/// otherwise `BadNonce` and nothing changes.
pub open spec fn consume_outcome(
    before: NonceService,
    after: NonceService,
    t: Seq<char>,
    now: u64,
    r: Result<(), AcmeServerError>,
) -> bool {
    &&& after.wf()
    &&& (r is Ok <==> before.outstanding(t, now))
    &&& r is Ok ==> after.spent(t) && after.known() == before.known()
    &&& r is Err ==> r == Err::<(), AcmeServerError>(AcmeServerError::BadNonce) && after == before
    &&& forall|u: Seq<char>| #[trigger] before.spent(u) ==> after.spent(u)
    &&& forall|u: Seq<char>| u != t ==> (#[trigger] after.outstanding(u, now) <==> before.outstanding(u, now))
}

/// A nonce is used at most once: after `consume` succeeded on a token, a
/// later `consume` of the same token fails with `BadNonce`, whatever
/// happened in between, provided the steps in between kept used tokens used
/// (every operation of `NonceService` does).
pub proof fn lemma_consume_at_most_once(
    s0: NonceService,
    s1: NonceService,
    t: Seq<char>,
    now1: u64,
    r1: Result<(), AcmeServerError>,
    s2: NonceService,
    s3: NonceService,
    now2: u64,
    r2: Result<(), AcmeServerError>,
)
    requires
        consume_outcome(s0, s1, t, now1, r1),
        r1 is Ok,
        s2.wf(),
        forall|u: Seq<char>| #[trigger] s1.spent(u) ==> s2.spent(u),
        consume_outcome(s2, s3, t, now2, r2),
    ensures
        r2 == Err::<(), AcmeServerError>(AcmeServerError::BadNonce),
{
    assert(s2.spent(t));
    s2.lemma_spent_not_outstanding(t, now2);
}

impl NonceService {
    /// A used token is never outstanding again.
    pub proof fn lemma_spent_not_outstanding(self, t: Seq<char>, now: u64)
        requires
            self.wf(),
            self.spent(t),
        ensures
            !self.outstanding(t, now),
    {
        let i = choose|i: int| 0 <= i < self.records@.len() && #[trigger] self.records@[i].token@ == t
            && self.records@[i].consumed;
        if self.outstanding(t, now) {
            let j = choose|j: int| 0 <= j < self.records@.len() && #[trigger] self.records@[j].token@ == t
                && !self.records@[j].consumed && now < self.records@[j].expires_at;
            if i < j {
                assert(self.records@[i].token@ != self.records@[j].token@);
            } else if j < i {
                assert(self.records@[j].token@ != self.records@[i].token@);
            }
        }
    }

    pub closed spec fn wf(self) -> bool {
        forall|i: int, j: int|
            0 <= i < j < self.records@.len() ==> #[trigger] self.records@[i].token@
                != #[trigger] self.records@[j].token@
    }

    /// The tokens issued so far.
    pub closed spec fn known(self) -> Set<Seq<char>> {
        Set::new(|t: Seq<char>| exists|i: int| 0 <= i < self.records@.len() && #[trigger] self.records@[i].token@ == t)
    }

    /// `t` was issued and has been used.
    pub closed spec fn spent(self, t: Seq<char>) -> bool {
        exists|i: int|
            0 <= i < self.records@.len() && #[trigger] self.records@[i].token@ == t
                && self.records@[i].consumed
    }

    /// `t` was issued, has not been used and has not expired at `now`.
    pub closed spec fn outstanding(self, t: Seq<char>, now: u64) -> bool {
        exists|i: int|
            0 <= i < self.records@.len() && #[trigger] self.records@[i].token@ == t
                && !self.records@[i].consumed && now < self.records@[i].expires_at
    }

    pub fn new() -> (r: NonceService)
        ensures
            r.wf(),
            r.known() == Set::<Seq<char>>::empty(),
    {
        let r = NonceService { records: Vec::new() };
        assert(r.known() =~= Set::<Seq<char>>::empty());
        r
    }

    fn find(&self, token: &String) -> (r: Option<usize>)
        requires
            self.wf(),
        ensures
            r is None ==> forall|i: int| 0 <= i < self.records@.len() ==> #[trigger] self.records@[i].token@ != token@,
            r matches Some(i) ==> i < self.records@.len() && self.records@[i as int].token@ == token@,
    {
        let mut i: usize = 0;
        while i < self.records.len()
            invariant
                i <= self.records@.len(),
                forall|j: int| 0 <= j < i ==> #[trigger] self.records@[j].token@ != token@,
            decreases self.records@.len() - i,
        {
            if self.records[i].token == *token {
                return Some(i);
            }
            i = i + 1;
        }
        None
    }

    /// Records a freshly drawn token at time `now`. A token that was ever
    /// issued before is refused (`false`) and nothing changes.
    pub fn issue(&mut self, token: String, now: u64) -> (r: bool)
        requires
            old(self).wf(),
        ensures
            final(self).wf(),
            r == !old(self).known().contains(token@),
            r ==> final(self).known() == old(self).known().insert(token@),
            r ==> (final(self).outstanding(token@, now) <==> now < expiry_of(now)),
            !r ==> *final(self) == *old(self),
            forall|u: Seq<char>| #[trigger] old(self).spent(u) ==> final(self).spent(u),
            forall|u: Seq<char>| u != token@ ==> (#[trigger] final(self).outstanding(u, now) <==> old(self).outstanding(u, now)),
    {
        match self.find(&token) {
            Some(i) => {
                assert(old(self).known().contains(token@));
                return false;
            },
            None => {},
        }
        let expires_at = if now <= u64::MAX - NONCE_LIFETIME_NANOS {
            now + NONCE_LIFETIME_NANOS
        } else {
            u64::MAX
        };
        let ghost t = token@;
        let ghost old_records = self.records@;
        self.records.push(NonceRecord { token, expires_at, consumed: false });
        assert(self.records@[old_records.len() as int].token@ == t);
        assert forall|u: Seq<char>| #[trigger] old(self).spent(u) implies self.spent(u) by {
            let i = choose|i: int| 0 <= i < old_records.len() && #[trigger] old_records[i].token@ == u && old_records[i].consumed;
            assert(self.records@[i] == old_records[i]);
        }
        assert forall|u: Seq<char>| u != t implies (#[trigger] self.outstanding(u, now) <==> old(self).outstanding(u, now)) by {
            if self.outstanding(u, now) {
                let i = choose|i: int| 0 <= i < self.records@.len() && #[trigger] self.records@[i].token@ == u
                    && !self.records@[i].consumed && now < self.records@[i].expires_at;
                assert(i < old_records.len());
                assert(old_records[i] == self.records@[i]);
            }
            if old(self).outstanding(u, now) {
                let i = choose|i: int| 0 <= i < old_records.len() && #[trigger] old_records[i].token@ == u
                    && !old_records[i].consumed && now < old_records[i].expires_at;
                assert(self.records@[i] == old_records[i]);
            }
        }
        assert(self.known() =~= old(self).known().insert(t)) by {
            assert forall|u: Seq<char>| #[trigger] self.known().contains(u) implies old(self).known().insert(t).contains(u) by {
                let i = choose|i: int| 0 <= i < self.records@.len() && #[trigger] self.records@[i].token@ == u;
                if i < old_records.len() {
                    assert(old_records[i] == self.records@[i]);
                }
            }
            assert forall|u: Seq<char>| #[trigger] old(self).known().contains(u) implies self.known().contains(u) by {
                let i = choose|i: int| 0 <= i < old_records.len() && #[trigger] old_records[i].token@ == u;
                assert(self.records@[i] == old_records[i]);
            }
        }
        true
    }

    /// Uses a nonce: succeeds exactly where `token` was issued, is unused
    /// and has not expired at `now`, and marks it used; else `BadNonce`.
    pub fn consume(&mut self, token: &str, now: u64) -> (r: Result<(), AcmeServerError>)
        requires
            old(self).wf(),
        ensures
            consume_outcome(*old(self), *final(self), token@, now, r),
    {
        let t = token.to_owned();
        let i = match self.find(&t) {
            Some(i) => i,
            None => {
                assert(!old(self).outstanding(token@, now));
                return Err(AcmeServerError::BadNonce);
            },
        };
        if self.records[i].consumed || now >= self.records[i].expires_at {
            assert(!old(self).outstanding(token@, now)) by {
                if old(self).outstanding(token@, now) {
                    let j = choose|j: int| 0 <= j < self.records@.len() && #[trigger] self.records@[j].token@ == token@
                        && !self.records@[j].consumed && now < self.records@[j].expires_at;
                    assert(j == i);
                }
            }
            return Err(AcmeServerError::BadNonce);
        }
        let ghost old_records = self.records@;
        let rec = NonceRecord {
            token: self.records[i].token.clone(),
            expires_at: self.records[i].expires_at,
            consumed: true,
        };
        self.records.set(i, rec);
        assert(self.records@[i as int].token@ == token@);
        assert forall|u: Seq<char>| #[trigger] old(self).spent(u) implies self.spent(u) by {
            let j = choose|j: int| 0 <= j < old_records.len() && #[trigger] old_records[j].token@ == u && old_records[j].consumed;
            if j != i {
                assert(self.records@[j] == old_records[j]);
            }
        }
        assert forall|u: Seq<char>| u != token@ implies (#[trigger] self.outstanding(u, now) <==> old(self).outstanding(u, now)) by {
            if self.outstanding(u, now) {
                let j = choose|j: int| 0 <= j < self.records@.len() && #[trigger] self.records@[j].token@ == u
                    && !self.records@[j].consumed && now < self.records@[j].expires_at;
                assert(old_records[j] == self.records@[j]);
            }
            if old(self).outstanding(u, now) {
                let j = choose|j: int| 0 <= j < old_records.len() && #[trigger] old_records[j].token@ == u
                    && !old_records[j].consumed && now < old_records[j].expires_at;
                assert(self.records@[j] == old_records[j]);
            }
        }
        assert(self.known() =~= old(self).known()) by {
            assert forall|u: Seq<char>| #[trigger] self.known().contains(u) implies old(self).known().contains(u) by {
                let j = choose|j: int| 0 <= j < self.records@.len() && #[trigger] self.records@[j].token@ == u;
                if j != i {
                    assert(old_records[j] == self.records@[j]);
                }
            }
            assert forall|u: Seq<char>| #[trigger] old(self).known().contains(u) implies self.known().contains(u) by {
                let j = choose|j: int| 0 <= j < old_records.len() && #[trigger] old_records[j].token@ == u;
                if j != i {
                    assert(self.records@[j] == old_records[j]);
                }
            }
        }
        Ok(())
    }
}

} // verus!
