//! The issuance state machine: orders, their authorizations and the
//! challenges under those, held in arenas and referenced by index.
use vstd::prelude::*;
use vstd::string::StringExecFns;
use crate::types::{
    AcmeServerError, Authorization, AuthorizationStatus, Challenge, ChallengeStatus,
    HttpChallengePath, Identifier, KeyAuthorizationComputed, Order, OrderStatus,
};

verus! {

/// The key authorization that an `http-01` resource must hold:
/// `token || "." || thumbprint`.
pub open spec fn key_authorization_spec(token: Seq<char>, thumbprint: Seq<char>) -> Seq<char> {
    token + "."@ + thumbprint
}

/// Computes `token || "." || thumbprint`, where `thumbprint` is the
/// base64url SHA-256 thumbprint of the account key.
pub fn key_authorization(token: &str, thumbprint: &str) -> (r: String)
    ensures
        r@ == key_authorization_spec(token@, thumbprint@),
{
    let mut s = token.to_owned();
    s.append(".");
    s.append(thumbprint);
    s
}

/// The path under which an `http-01` challenge resource is served.
pub open spec fn challenge_path_spec(token: Seq<char>) -> Seq<char> {
    "/.well-known/acme-challenge/"@ + token
}

impl KeyAuthorizationComputed {
    /// The key authorization of `token` for the account key with
    /// `thumbprint`.
    pub fn new(token: &str, thumbprint: &str) -> (r: KeyAuthorizationComputed)
        ensures
            r.token@ == token@,
            r.thumbprint@ == thumbprint@,
            r.key_authorization@ == key_authorization_spec(token@, thumbprint@),
    {
        KeyAuthorizationComputed {
            token: token.to_owned(),
            thumbprint: thumbprint.to_owned(),
            key_authorization: key_authorization(token, thumbprint),
        }
    }
}

impl HttpChallengePath {
    /// Where the `http-01` resource for `token` on `domain` is fetched from,
    /// and what it must hold.
    pub fn new(domain: &str, token: &str, thumbprint: &str) -> (r: HttpChallengePath)
        ensures
            r.domain@ == domain@,
            r.token@ == token@,
            r.key_authorization@ == key_authorization_spec(token@, thumbprint@),
            r.file_path@ == challenge_path_spec(token@),
            r.validation_url@ == "http://"@ + domain@ + challenge_path_spec(token@),
    {
        let mut file_path = "/.well-known/acme-challenge/".to_owned();
        file_path.append(token);
        let mut validation_url = "http://".to_owned();
        validation_url.append(domain);
        validation_url.append(file_path.as_str());
        HttpChallengePath {
            domain: domain.to_owned(),
            token: token.to_owned(),
            key_authorization: key_authorization(token, thumbprint),
            file_path,
            validation_url,
        }
    }
}

/// An order status from which the order has passed `ready`.
pub open spec fn reached_ready(st: OrderStatus) -> bool {
    st is Ready || st is Processing || st is Valid
}

/// Every authorization of order `o` is valid.
pub open spec fn all_authz_valid(orders: Seq<Order>, authzs: Seq<Authorization>, o: int) -> bool {
    forall|k: int|
        0 <= k < orders[o].authorizations@.len() ==> (#[trigger] authzs[orders[o].authorizations@[k] as int]).status
            == AuthorizationStatus::Valid
}

/// An order that has not failed has reached `ready` (or gone on to
/// `processing` or `valid`) exactly when every one of its authorizations is
/// valid.
pub proof fn lemma_ready_iff_all_valid(s: IssuanceState, o: int)
    requires
        s.wf(),
        0 <= o < s.orders().len(),
        !(s.orders()[o].status is Invalid),
    ensures
        reached_ready(s.orders()[o].status) <==> all_authz_valid(s.orders(), s.authzs(), o),
{
}

/// What `complete_validation(c, thumbprint, fetched, now)` does: from
/// `before` to `after`, answering `r`.
pub open spec fn validation_outcome(
    before: IssuanceState,
    after: IssuanceState,
    c: usize,
    thumbprint: Seq<char>,
    fetched: Option<String>,
    now: u64,
    r: Result<ChallengeStatus, AcmeServerError>,
) -> bool {
    &&& !(c < before.challenges().len() && before.challenges()[c as int].status is Processing)
        ==> r == Err::<ChallengeStatus, AcmeServerError>(AcmeServerError::InvalidChallenge)
        && after == before
    &&& c < before.challenges().len() && before.challenges()[c as int].status is Processing
        ==> {
        let ch = before.challenges()[c as int];
        let a = ch.authorization as int;
        let o = before.authzs()[a].order as int;
        let matched = (fetched matches Some(f) && f@ == key_authorization_spec(
            ch.token@,
            thumbprint,
        ));
        let new_authz_status = if before.authzs()[a].status is Pending {
            if matched {
                AuthorizationStatus::Valid
            } else {
                AuthorizationStatus::Invalid
            }
        } else {
            before.authzs()[a].status
        };
        let new_ch = after.challenges()[c as int];
        &&& r == Ok::<ChallengeStatus, AcmeServerError>(
            if matched {
                ChallengeStatus::Valid
            } else {
                ChallengeStatus::Invalid
            },
        )
        &&& new_ch.status == r->Ok_0
        &&& new_ch.token == ch.token && new_ch.kind == ch.kind && new_ch.authorization
            == ch.authorization
        &&& matched ==> new_ch.validated == Some(now) && new_ch.error is None
        &&& !matched ==> (new_ch.error matches Some(e) && e.kind@
            == crate::handler::problem_type_spec(AcmeServerError::InvalidChallenge)
            && e.detail@.len() > 0)
        &&& after.challenges().len() == before.challenges().len()
        &&& forall|i: int|
            0 <= i < before.challenges().len() && i != c ==> #[trigger] after.challenges()[i]
                == before.challenges()[i]
        &&& after.authzs() == before.authzs().update(
            a,
            Authorization { status: new_authz_status, ..before.authzs()[a] },
        )
        &&& after.orders() == before.orders().update(
            o,
            Order {
                status: if before.orders()[o].status is Pending {
                    if matched {
                        if all_authz_valid(after.orders(), after.authzs(), o) {
                            OrderStatus::Ready
                        } else {
                            OrderStatus::Pending
                        }
                    } else if before.authzs()[a].status is Pending {
                        OrderStatus::Invalid
                    } else {
                        OrderStatus::Pending
                    }
                } else {
                    before.orders()[o].status
                },
                ..before.orders()[o]
            },
        )
    }
}

/// What `start_validation(account, c)` does: from `before` to `after`,
/// answering `r`.
pub open spec fn start_outcome(
    before: IssuanceState,
    after: IssuanceState,
    account: usize,
    c: usize,
    r: Result<(), AcmeServerError>,
) -> bool {
    &&& c >= before.challenges().len() ==> r == Err::<(), AcmeServerError>(
        AcmeServerError::InvalidChallenge,
    )
    &&& c < before.challenges().len() ==> {
        let ch = before.challenges()[c as int];
        let authz = before.authzs()[ch.authorization as int];
        &&& before.challenge_owner(c as int) != account ==> r == Err::<(), AcmeServerError>(
            AcmeServerError::UnauthorizedForOrder,
        )
        &&& before.challenge_owner(c as int) == account && !(ch.status is Pending
            && authz.status is Pending) ==> r == Err::<(), AcmeServerError>(
            AcmeServerError::InvalidChallenge,
        )
        &&& before.challenge_owner(c as int) == account && ch.status is Pending
            && authz.status is Pending ==> r is Ok
    }
    &&& r is Err ==> after == before
    &&& r is Ok ==> after.orders() == before.orders() && after.authzs() == before.authzs()
        && after.challenges() == before.challenges().update(
        c as int,
        Challenge { status: ChallengeStatus::Processing, ..before.challenges()[c as int] },
    )
}

/// A challenge becomes `valid` only where the fetched text is exactly its
/// key authorization; on any mismatch, or a failed fetch, it becomes
/// `invalid` and carries an error.
pub proof fn lemma_valid_only_on_match(
    before: IssuanceState,
    after: IssuanceState,
    c: usize,
    thumbprint: Seq<char>,
    fetched: Option<String>,
    now: u64,
    r: Result<ChallengeStatus, AcmeServerError>,
)
    requires
        validation_outcome(before, after, c, thumbprint, fetched, now, r),
        c < before.challenges().len(),
        before.challenges()[c as int].status is Processing,
    ensures
        ({
            let matched = (fetched matches Some(f) && f@ == key_authorization_spec(
                before.challenges()[c as int].token@,
                thumbprint,
            ));
            &&& after.challenges()[c as int].status is Valid <==> matched
            &&& after.challenges()[c as int].status is Invalid <==> !matched
            &&& !matched ==> after.challenges()[c as int].error is Some
        }),
{
}

/// The orders, authorizations and challenges of all accounts.
pub struct IssuanceState {
    orders: Vec<Order>,
    authorizations: Vec<Authorization>,
    challenges: Vec<Challenge>,
}

impl IssuanceState {
    pub closed spec fn orders(self) -> Seq<Order> {
        self.orders@
    }

    pub closed spec fn authzs(self) -> Seq<Authorization> {
        self.authorizations@
    }

    pub closed spec fn challenges(self) -> Seq<Challenge> {
        self.challenges@
    }

    /// The references between entities point where they should, and each
    /// order's status agrees with its authorizations: an order is pending
    /// only while some authorization is not valid, and has passed `ready`
    /// only where all are.
    pub open spec fn wf(self) -> bool {
        &&& self.linked()
        &&& forall|o: int|
            0 <= o < self.orders().len() && reached_ready(#[trigger] self.orders()[o].status)
                ==> all_authz_valid(self.orders(), self.authzs(), o)
        &&& forall|o: int|
            0 <= o < self.orders().len() && (#[trigger] self.orders()[o]).status is Pending
                ==> !all_authz_valid(self.orders(), self.authzs(), o)
    }

    /// The references between entities point where they should.
    pub open spec fn linked(self) -> bool {
        &&& forall|o: int|
            0 <= o < self.orders().len() ==> (#[trigger] self.orders()[o]).authorizations@.len() > 0
        &&& forall|o: int, k: int|
            0 <= o < self.orders().len() && 0 <= k < self.orders()[o].authorizations@.len()
                ==> #[trigger] self.orders()[o].authorizations@[k] < self.authzs().len()
                && self.authzs()[self.orders()[o].authorizations@[k] as int].order == o
        &&& forall|a: int|
            0 <= a < self.authzs().len() ==> (#[trigger] self.authzs()[a]).order < self.orders().len()
        &&& forall|a: int, k: int|
            0 <= a < self.authzs().len() && 0 <= k < self.authzs()[a].challenges@.len()
                ==> #[trigger] self.authzs()[a].challenges@[k] < self.challenges().len()
                && self.challenges()[self.authzs()[a].challenges@[k] as int].authorization == a
        &&& forall|c: int|
            0 <= c < self.challenges().len() ==> (#[trigger] self.challenges()[c]).authorization
                < self.authzs().len()
    }

    pub fn new() -> (r: IssuanceState)
        ensures
            r.wf(),
            r.orders().len() == 0,
            r.authzs().len() == 0,
            r.challenges().len() == 0,
    {
        IssuanceState { orders: Vec::new(), authorizations: Vec::new(), challenges: Vec::new() }
    }

    pub fn order(&self, id: usize) -> (r: Option<&Order>)
        ensures
            id < self.orders().len() ==> r == Some(&self.orders()[id as int]),
            id >= self.orders().len() ==> r is None,
    {
        if id < self.orders.len() {
            Some(&self.orders[id])
        } else {
            None
        }
    }

    pub fn authorization(&self, id: usize) -> (r: Option<&Authorization>)
        ensures
            id < self.authzs().len() ==> r == Some(&self.authzs()[id as int]),
            id >= self.authzs().len() ==> r is None,
    {
        if id < self.authorizations.len() {
            Some(&self.authorizations[id])
        } else {
            None
        }
    }

    pub fn challenge(&self, id: usize) -> (r: Option<&Challenge>)
        ensures
            id < self.challenges().len() ==> r == Some(&self.challenges()[id as int]),
            id >= self.challenges().len() ==> r is None,
    {
        if id < self.challenges.len() {
            Some(&self.challenges[id])
        } else {
            None
        }
    }

    /// The account that owns the order above challenge `c`.
    pub open spec fn challenge_owner(self, c: int) -> usize {
        self.orders()[self.authzs()[self.challenges()[c].authorization as int].order as int].account
    }

    /// The client asks for challenge `c` to be checked: a pending challenge
    /// of a pending authorization, owned by `account`, goes to
    /// `processing`. An unknown challenge, or one in another state, gives
    /// `InvalidChallenge`; another account's gives `UnauthorizedForOrder`.
    /// Nothing changes on error.
    pub fn start_validation(&mut self, account: usize, c: usize) -> (r: Result<(), AcmeServerError>)
        requires
            old(self).wf(),
        ensures
            final(self).wf(),
            start_outcome(*old(self), *final(self), account, c, r),
    {
        if c >= self.challenges.len() {
            return Err(AcmeServerError::InvalidChallenge);
        }
        let a = self.challenges[c].authorization;
        let o = self.authorizations[a].order;
        if self.orders[o].account != account {
            return Err(AcmeServerError::UnauthorizedForOrder);
        }
        if self.challenges[c].status != ChallengeStatus::Pending
            || self.authorizations[a].status != AuthorizationStatus::Pending {
            return Err(AcmeServerError::InvalidChallenge);
        }
        self.challenges[c].status = ChallengeStatus::Processing;
        assert(self.challenges@ =~= old(self).challenges@.update(
            c as int,
            Challenge { status: ChallengeStatus::Processing, ..old(self).challenges@[c as int] },
        ));
        Ok(())
    }

    /// Whether every authorization of order `o` is valid.
    fn order_all_valid(&self, o: usize) -> (r: bool)
        requires
            self.linked(),
            o < self.orders().len(),
        ensures
            r == all_authz_valid(self.orders(), self.authzs(), o as int),
    {
        let ids = &self.orders[o].authorizations;
        let mut k: usize = 0;
        while k < ids.len()
            invariant
                self.linked(),
                o < self.orders().len(),
                ids == &self.orders()[o as int].authorizations,
                k <= ids@.len(),
                forall|j: int| 0 <= j < k ==> (#[trigger] self.authzs()[ids@[j] as int]).status
                    == AuthorizationStatus::Valid,
            decreases ids@.len() - k,
        {
            let a = ids[k];
            assert(self.orders()[o as int].authorizations@[k as int] < self.authzs().len());
            if self.authorizations[a].status != AuthorizationStatus::Valid {
                return false;
            }
            k = k + 1;
        }
        true
    }

    /// Changing authorization `a` leaves whether another order's
    /// authorizations are all valid as it was.
    proof fn lemma_other_orders_unaffected(old_s: IssuanceState, new_s: IssuanceState, a: int)
        requires
            old_s.wf(),
            0 <= a < old_s.authzs().len(),
            new_s.orders().len() == old_s.orders().len(),
            new_s.authzs().len() == old_s.authzs().len(),
            forall|o: int| 0 <= o < old_s.orders().len() ==> (#[trigger] new_s.orders()[o]).authorizations
                == old_s.orders()[o].authorizations,
            forall|b: int| 0 <= b < old_s.authzs().len() && b != a ==> #[trigger] new_s.authzs()[b]
                == old_s.authzs()[b],
        ensures
            forall|o: int|
                0 <= o < old_s.orders().len() && o != old_s.authzs()[a].order ==> (all_authz_valid(
                    new_s.orders(),
                    new_s.authzs(),
                    o,
                ) <==> #[trigger] all_authz_valid(old_s.orders(), old_s.authzs(), o)),
    {
        assert forall|o: int|
            0 <= o < old_s.orders().len() && o != old_s.authzs()[a].order implies (all_authz_valid(
                new_s.orders(),
                new_s.authzs(),
                o,
            ) <==> #[trigger] all_authz_valid(old_s.orders(), old_s.authzs(), o)) by {
            let ids = old_s.orders()[o].authorizations@;
            assert(new_s.orders()[o].authorizations@ == ids);
            assert forall|k: int| 0 <= k < ids.len() implies #[trigger] new_s.authzs()[ids[k] as int]
                == old_s.authzs()[ids[k] as int] by {
                assert(old_s.orders()[o].authorizations@[k] < old_s.authzs().len());
                assert(old_s.authzs()[old_s.orders()[o].authorizations@[k] as int].order == o);
            }
            if all_authz_valid(old_s.orders(), old_s.authzs(), o) {
                assert forall|k: int| 0 <= k < ids.len() implies (#[trigger] new_s.authzs()[ids[k] as int]).status
                    == AuthorizationStatus::Valid by {
                    assert(old_s.authzs()[ids[k] as int].status == AuthorizationStatus::Valid);
                }
            }
            if all_authz_valid(new_s.orders(), new_s.authzs(), o) {
                assert forall|k: int| 0 <= k < ids.len() implies (#[trigger] old_s.authzs()[ids[k] as int]).status
                    == AuthorizationStatus::Valid by {
                    assert(new_s.authzs()[ids[k] as int].status == AuthorizationStatus::Valid);
                }
            }
        }
    }

    /// Checks challenge `c`, which is `processing`, against what was fetched
    /// from the identifier's well-known resource (`None` where fetching
    /// failed or timed out). The challenge becomes `valid` exactly where the
    /// fetched text equals `token || "." || thumbprint`, and else `invalid`
    /// with an error recorded. A pending authorization follows its
    /// challenge; a pending order becomes `ready` once all its
    /// authorizations are valid, and `invalid` once one of them failed. A
    /// challenge that is unknown or not `processing` gives
    /// `InvalidChallenge` and nothing changes.
    pub fn complete_validation(
        &mut self,
        c: usize,
        thumbprint: &str,
        fetched: Option<String>,
        now: u64,
    ) -> (r: Result<ChallengeStatus, AcmeServerError>)
        requires
            old(self).wf(),
        ensures
            final(self).wf(),
            validation_outcome(*old(self), *final(self), c, thumbprint@, fetched, now, r),
    {
        if c >= self.challenges.len() || self.challenges[c].status != ChallengeStatus::Processing {
            return Err(AcmeServerError::InvalidChallenge);
        }
        let ghost old_s = *self;
        let a = self.challenges[c].authorization;
        let o = self.authorizations[a].order;
        let expected = key_authorization(self.challenges[c].token.as_str(), thumbprint);
        let matched = match fetched {
            Some(f) => f == expected,
            None => false,
        };
        let authz_was_pending = self.authorizations[a].status == AuthorizationStatus::Pending;
        if matched {
            self.challenges[c].status = ChallengeStatus::Valid;
            self.challenges[c].validated = Some(now);
            self.challenges[c].error = None;
            if authz_was_pending {
                self.authorizations[a].status = AuthorizationStatus::Valid;
            }
        } else {
            let problem = AcmeServerError::InvalidChallenge.problem(
                "the fetched resource does not hold the key authorization",
            );
            proof {
                reveal_strlit("the fetched resource does not hold the key authorization");
            }
            self.challenges[c].status = ChallengeStatus::Invalid;
            self.challenges[c].error = Some(problem);
            if authz_was_pending {
                self.authorizations[a].status = AuthorizationStatus::Invalid;
            }
        }
        proof {
            Self::lemma_other_orders_unaffected(old_s, *self, a as int);
        }
        let ghost mid = *self;
        assert(mid.linked()) by {
            assert forall|aa: int, k: int|
                0 <= aa < mid.authzs().len() && 0 <= k < mid.authzs()[aa].challenges@.len()
                    implies #[trigger] mid.authzs()[aa].challenges@[k] < mid.challenges().len()
                    && mid.challenges()[mid.authzs()[aa].challenges@[k] as int].authorization == aa by {
                assert(old_s.authzs()[aa].challenges@[k] < old_s.challenges().len());
            }
        }
        if self.orders[o].status == OrderStatus::Pending {
            if matched {
                if self.order_all_valid(o) {
                    self.orders[o].status = OrderStatus::Ready;
                }
            } else if authz_was_pending {
                self.orders[o].status = OrderStatus::Invalid;
            }
        }
        assert(self.authzs() == mid.authzs());
        assert(forall|i: int| 0 <= i < self.orders().len() ==> #[trigger] self.orders()[i].authorizations == mid.orders()[i].authorizations);
        assert(all_authz_valid(self.orders(), self.authzs(), o as int) == all_authz_valid(mid.orders(), mid.authzs(), o as int));
        assert(self.orders() =~= old_s.orders().update(o as int, Order { status: self.orders()[o as int].status, ..old_s.orders()[o as int] }));
        assert(self.authzs() =~= old_s.authzs().update(a as int, Authorization { status: self.authzs()[a as int].status, ..old_s.authzs()[a as int] }));
        if matched {
            Ok(ChallengeStatus::Valid)
        } else {
            Ok(ChallengeStatus::Invalid)
        }
    }

    /// Moves order `o` from `from` to `to`, touching nothing else, where
    /// the move keeps the state well formed.
    fn set_order_status(&mut self, o: usize, to: OrderStatus)
        requires
            old(self).wf(),
            o < old(self).orders().len(),
            reached_ready(to) ==> all_authz_valid(old(self).orders(), old(self).authzs(), o as int),
            to is Pending ==> !all_authz_valid(old(self).orders(), old(self).authzs(), o as int),
        ensures
            final(self).wf(),
            final(self).authzs() == old(self).authzs(),
            final(self).challenges() == old(self).challenges(),
            final(self).orders() == old(self).orders().update(
                o as int,
                Order { status: to, ..old(self).orders()[o as int] },
            ),
    {
        let ghost old_s = *self;
        self.orders[o].status = to;
        assert(self.orders() =~= old_s.orders().update(
            o as int,
            Order { status: to, ..old_s.orders()[o as int] },
        ));
        assert forall|oo: int| 0 <= oo < self.orders().len() implies all_authz_valid(
            self.orders(),
            self.authzs(),
            oo,
        ) == #[trigger] all_authz_valid(old_s.orders(), old_s.authzs(), oo) by {
            assert(self.orders()[oo].authorizations == old_s.orders()[oo].authorizations);
        }
    }

    /// Finalizes order `o` of `account` with the names that its CSR asks
    /// for: a `ready` order whose identifiers cover every name goes to
    /// `processing`. An unknown order gives `OrderNotFound`, another
    /// account's `UnauthorizedForOrder`, an order that is not `ready`
    /// `ValidationError`, and an empty list of names or one outside the
    /// order's identifiers `BadCsr`; nothing changes on error.
    pub fn finalize(&mut self, account: usize, o: usize, csr_names: &Vec<String>) -> (r: Result<(), AcmeServerError>)
        requires
            old(self).wf(),
        ensures
            final(self).wf(),
            r == finalize_outcome(*old(self), account, o, texts(csr_names@)),
            r is Err ==> *final(self) == *old(self),
            r is Ok ==> final(self).authzs() == old(self).authzs() && final(self).challenges()
                == old(self).challenges() && final(self).orders() == old(self).orders().update(
                o as int,
                Order { status: OrderStatus::Processing, ..old(self).orders()[o as int] },
            ),
    {
        if o >= self.orders.len() {
            return Err(AcmeServerError::OrderNotFound);
        }
        if self.orders[o].account != account {
            return Err(AcmeServerError::UnauthorizedForOrder);
        }
        if self.orders[o].status != OrderStatus::Ready {
            return Err(AcmeServerError::ValidationError);
        }
        if !names_covered(csr_names, &self.orders[o].identifiers) {
            return Err(AcmeServerError::BadCsr);
        }
        self.set_order_status(o, OrderStatus::Processing);
        Ok(())
    }

    /// Records that the certificate with serial number `serial` was built
    /// for order `o`, which is `processing`: the order becomes `valid` and
    /// refers to the certificate. Else `ValidationError` (`OrderNotFound`
    /// for an unknown order) and nothing changes.
    pub fn complete_issuance(&mut self, o: usize, serial: u64) -> (r: Result<(), AcmeServerError>)
        requires
            old(self).wf(),
        ensures
            final(self).wf(),
            o >= old(self).orders().len() ==> r == Err::<(), AcmeServerError>(AcmeServerError::OrderNotFound),
            o < old(self).orders().len() ==> (r is Ok <==> old(self).orders()[o as int].status is Processing),
            r is Err ==> *final(self) == *old(self),
            r is Err && o < old(self).orders().len() ==> r == Err::<(), AcmeServerError>(AcmeServerError::ValidationError),
            r is Ok ==> final(self).authzs() == old(self).authzs() && final(self).challenges()
                == old(self).challenges() && final(self).orders() == old(self).orders().update(
                o as int,
                Order { status: OrderStatus::Valid, certificate: Some(serial), ..old(self).orders()[o as int] },
            ),
    {
        if o >= self.orders.len() {
            return Err(AcmeServerError::OrderNotFound);
        }
        if self.orders[o].status != OrderStatus::Processing {
            return Err(AcmeServerError::ValidationError);
        }
        self.set_order_status(o, OrderStatus::Valid);
        let ghost mid = *self;
        self.orders[o].certificate = Some(serial);
        assert(self.orders() =~= mid.orders().update(
            o as int,
            Order { certificate: Some(serial), ..mid.orders()[o as int] },
        ));
        assert forall|oo: int| 0 <= oo < self.orders().len() implies all_authz_valid(
            self.orders(),
            self.authzs(),
            oo,
        ) == #[trigger] all_authz_valid(mid.orders(), mid.authzs(), oo) by {
            assert(self.orders()[oo].authorizations == mid.orders()[oo].authorizations);
        }
        Ok(())
    }

    /// Expiry, checked when an order is next touched: an order past its
    /// expiry at `now` that is neither `valid` nor `invalid` becomes
    /// `invalid` (`true`); otherwise nothing changes (`false`).
    pub fn expire_order(&mut self, o: usize, now: u64) -> (r: bool)
        requires
            old(self).wf(),
        ensures
            final(self).wf(),
            r == (o < old(self).orders().len() && (old(self).orders()[o as int].expires matches Some(e)
                && now >= e) && !(old(self).orders()[o as int].status is Valid)
                && !(old(self).orders()[o as int].status is Invalid)),
            !r ==> *final(self) == *old(self),
            r ==> final(self).authzs() == old(self).authzs() && final(self).challenges()
                == old(self).challenges() && final(self).orders() == old(self).orders().update(
                o as int,
                Order { status: OrderStatus::Invalid, ..old(self).orders()[o as int] },
            ),
    {
        if o >= self.orders.len() {
            return false;
        }
        let due = match self.orders[o].expires {
            Some(e) => now >= e,
            None => false,
        };
        if !due || self.orders[o].status == OrderStatus::Valid || self.orders[o].status == OrderStatus::Invalid {
            return false;
        }
        self.set_order_status(o, OrderStatus::Invalid);
        true
    }

    /// The signing authority failed while order `o` was `processing`: the
    /// order becomes `invalid`. Else `ValidationError` (`OrderNotFound` for
    /// an unknown order) and nothing changes.
    pub fn fail_issuance(&mut self, o: usize) -> (r: Result<(), AcmeServerError>)
        requires
            old(self).wf(),
        ensures
            final(self).wf(),
            o >= old(self).orders().len() ==> r == Err::<(), AcmeServerError>(AcmeServerError::OrderNotFound),
            o < old(self).orders().len() ==> (r is Ok <==> old(self).orders()[o as int].status is Processing),
            r is Err ==> *final(self) == *old(self),
            r is Err && o < old(self).orders().len() ==> r == Err::<(), AcmeServerError>(AcmeServerError::ValidationError),
            r is Ok ==> final(self).authzs() == old(self).authzs() && final(self).challenges()
                == old(self).challenges() && final(self).orders() == old(self).orders().update(
                o as int,
                Order { status: OrderStatus::Invalid, ..old(self).orders()[o as int] },
            ),
    {
        if o >= self.orders.len() {
            return Err(AcmeServerError::OrderNotFound);
        }
        if self.orders[o].status != OrderStatus::Processing {
            return Err(AcmeServerError::ValidationError);
        }
        self.set_order_status(o, OrderStatus::Invalid);
        Ok(())
    }
}

/// Every name is the value of one of the identifiers, and there is at
/// least one name.
pub open spec fn names_covered_spec(names: Seq<Seq<char>>, ids: Seq<Identifier>) -> bool {
    &&& names.len() > 0
    &&& forall|i: int| 0 <= i < names.len() ==> #[trigger] name_in(ids, names[i])
}

/// The text of each string.
pub open spec fn texts(v: Seq<String>) -> Seq<Seq<char>> {
    v.map_values(|s: String| s@)
}

/// `name` is the value of one of the identifiers.
pub open spec fn name_in(ids: Seq<Identifier>, name: Seq<char>) -> bool {
    exists|j: int| 0 <= j < ids.len() && #[trigger] ids[j].value@ == name
}

/// What `finalize(account, o, names)` answers on state `s`.
pub open spec fn finalize_outcome(s: IssuanceState, account: usize, o: usize, names: Seq<Seq<char>>) -> Result<(), AcmeServerError> {
    if o >= s.orders().len() {
        Err(AcmeServerError::OrderNotFound)
    } else if s.orders()[o as int].account != account {
        Err(AcmeServerError::UnauthorizedForOrder)
    } else if !(s.orders()[o as int].status is Ready) {
        Err(AcmeServerError::ValidationError)
    } else if !names_covered_spec(names, s.orders()[o as int].identifiers@) {
        Err(AcmeServerError::BadCsr)
    } else {
        Ok(())
    }
}

/// Whether every name is among the identifiers' values (and there is one).
pub fn names_covered(names: &Vec<String>, ids: &Vec<Identifier>) -> (r: bool)
    ensures
        r == names_covered_spec(texts(names@), ids@),
{
    if names.len() == 0 {
        return false;
    }
    let mut i: usize = 0;
    while i < names.len()
        invariant
            i <= names@.len(),
            forall|k: int| 0 <= k < i ==> #[trigger] name_in(ids@, texts(names@)[k]),
        decreases names@.len() - i,
    {
        let mut j: usize = 0;
        let mut found = false;
        while j < ids.len()
            invariant
                j <= ids@.len(),
                i < names@.len(),
                !found ==> forall|m: int| 0 <= m < j ==> (#[trigger] ids@[m]).value@ != names@[i as int]@,
                found ==> name_in(ids@, names@[i as int]@),
            decreases ids@.len() - j,
        {
            if ids[j].value == names[i] {
                found = true;
                assert(ids@[j as int].value@ == names@[i as int]@);
            }
            j = j + 1;
        }
        if !found {
            assert(!names_covered_spec(texts(names@), ids@)) by {
                if names_covered_spec(texts(names@), ids@) {
                    assert(name_in(ids@, texts(names@)[i as int]));
                    let m = choose|m: int| 0 <= m < ids@.len() && #[trigger] ids@[m].value@ == names@[i as int]@;
                    assert(ids@[m].value@ != names@[i as int]@);
                }
            }
            return false;
        }
        assert(name_in(ids@, texts(names@)[i as int]));
        i = i + 1;
    }
    assert(forall|k: int| 0 <= k < names@.len() ==> #[trigger] name_in(ids@, texts(names@)[k]));
    true
}

/// A new order may ask for these identifiers: at least one, each of type
/// `dns` with a non-empty value.
pub open spec fn identifiers_acceptable(ids: Seq<Identifier>) -> bool {
    &&& ids.len() > 0
    &&& forall|j: int| 0 <= j < ids.len() ==> (#[trigger] ids[j]).kind@ == "dns"@ && ids[j].value@.len() > 0
}

pub fn identifiers_ok(ids: &Vec<Identifier>) -> (r: bool)
    ensures
        r == identifiers_acceptable(ids@),
{
    if ids.len() == 0 {
        return false;
    }
    let mut j: usize = 0;
    while j < ids.len()
        invariant
            j <= ids@.len(),
            forall|k: int| 0 <= k < j ==> (#[trigger] ids@[k]).kind@ == "dns"@ && ids@[k].value@.len() > 0,
        decreases ids@.len() - j,
    {
        if !crate::handler::str_eq(ids[j].kind.as_str(), "dns") || ids[j].value.as_str().is_empty() {
            return false;
        }
        j = j + 1;
    }
    true
}

/// The authorization created for identifier `j` of a new order `o`, whose
/// challenge has index `c`.
pub open spec fn fresh_authz(a: Authorization, o: int, id: Identifier, c: int) -> bool {
    &&& a.order == o
    &&& a.status is Pending
    &&& a.identifier == id
    &&& a.challenges@ == seq![c as usize]
    &&& a.wildcard is None
}

/// The `http-01` challenge created for authorization `a` with `token`.
pub open spec fn fresh_challenge(ch: Challenge, a: int, token: Seq<char>) -> bool {
    &&& ch.authorization == a
    &&& ch.kind@ == "http-01"@
    &&& ch.token@ == token
    &&& ch.status is Pending
    &&& ch.validated is None
    &&& ch.error is None
}

/// What `new_order(account, ids, tokens, expires)` does: from `before` to
/// `after`, answering `r`.
pub open spec fn order_creation_outcome(
    before: IssuanceState,
    after: IssuanceState,
    account: usize,
    ids: Seq<Identifier>,
    tokens: Seq<String>,
    expires: Option<u64>,
    r: Result<usize, AcmeServerError>,
) -> bool {
    &&& !identifiers_acceptable(ids) ==> r == Err::<usize, AcmeServerError>(
        AcmeServerError::MalformedRequest,
    ) && after == before
    &&& identifiers_acceptable(ids) ==> {
        let o = before.orders().len() as int;
        let a0 = before.authzs().len() as int;
        let c0 = before.challenges().len() as int;
        let n = ids.len() as int;
        &&& r == Ok::<usize, AcmeServerError>(o as usize)
        &&& after.orders().len() == o + 1
        &&& after.orders().drop_last() == before.orders()
        &&& after.orders()[o].account == account
        &&& after.orders()[o].status is Pending
        &&& after.orders()[o].expires == expires
        &&& after.orders()[o].identifiers@ == ids
        &&& after.orders()[o].authorizations@ == Seq::new(n as nat, |j: int| (a0 + j) as usize)
        &&& after.orders()[o].certificate is None
        &&& after.authzs().len() == a0 + n
        &&& after.authzs().subrange(0, a0) == before.authzs()
        &&& forall|j: int| 0 <= j < n ==> fresh_authz(#[trigger] after.authzs()[a0 + j], o, ids[j], c0 + j)
        &&& after.challenges().len() == c0 + n
        &&& after.challenges().subrange(0, c0) == before.challenges()
        &&& forall|j: int| 0 <= j < n ==> fresh_challenge(#[trigger] after.challenges()[c0 + j], a0 + j, tokens[j]@)
    }
}

impl IssuanceState {
    /// Creates an order of `account` for `identifiers`, with one pending
    /// authorization per identifier, each holding one pending `http-01`
    /// challenge whose token is the matching entry of `tokens` (drawn at
    /// random by the caller). Identifiers that a new order may not ask for
    /// give `MalformedRequest` and nothing changes. Returns the new order's
    /// index.
    pub fn new_order(
        &mut self,
        account: usize,
        identifiers: Vec<Identifier>,
        tokens: &Vec<String>,
        expires: Option<u64>,
    ) -> (r: Result<usize, AcmeServerError>)
        requires
            old(self).wf(),
            tokens@.len() == identifiers@.len(),
            forall|j: int| 0 <= j < tokens@.len() ==> (#[trigger] tokens@[j])@.len() > 0,
        ensures
            final(self).wf(),
            order_creation_outcome(*old(self), *final(self), account, identifiers@, tokens@, expires, r),
    {
        if !identifiers_ok(&identifiers) {
            return Err(AcmeServerError::MalformedRequest);
        }
        let ghost old_s = *self;
        let o = self.orders.len();
        let a0 = self.authorizations.len();
        let c0 = self.challenges.len();
        let mut authz_ids: Vec<usize> = Vec::new();
        let mut i: usize = 0;
        while i < identifiers.len()
            invariant
                old_s.wf(),
                o == old_s.orders().len(),
                a0 == old_s.authzs().len(),
                c0 == old_s.challenges().len(),
                i <= identifiers@.len(),
                tokens@.len() == identifiers@.len(),
                self.orders() == old_s.orders(),
                self.authzs().len() == a0 + i,
                self.challenges().len() == c0 + i,
                self.authzs().subrange(0, a0 as int) == old_s.authzs(),
                self.challenges().subrange(0, c0 as int) == old_s.challenges(),
                forall|j: int| 0 <= j < i ==> fresh_authz(#[trigger] self.authzs()[a0 + j], o as int, identifiers@[j], c0 + j),
                forall|j: int| 0 <= j < i ==> fresh_challenge(#[trigger] self.challenges()[c0 + j], a0 + j, tokens@[j]@),
                authz_ids@ == Seq::new(i as nat, |j: int| (a0 + j) as usize),
            decreases identifiers@.len() - i,
        {
            let a = self.authorizations.len();
            let ch = self.challenges.len();
            let ghost before_a = self.authzs();
            let ghost before_c = self.challenges();
            self.challenges.push(Challenge {
                authorization: a,
                kind: "http-01".to_owned(),
                token: tokens[i].clone(),
                status: ChallengeStatus::Pending,
                validated: None,
                error: None,
            });
            self.authorizations.push(Authorization {
                order: o,
                status: AuthorizationStatus::Pending,
                identifier: identifiers[i].duplicate(),
                challenges: vec![ch],
                wildcard: None,
            });
            authz_ids.push(a);
            assert(self.authzs()[a0 + i as int].challenges@ =~= seq![ch]);
            assert(self.authzs().subrange(0, a0 as int) =~= before_a.subrange(0, a0 as int));
            assert(self.challenges().subrange(0, c0 as int) =~= before_c.subrange(0, c0 as int));
            assert(authz_ids@ =~= Seq::new((i + 1) as nat, |j: int| (a0 + j) as usize));
            assert forall|j: int| 0 <= j < i + 1 implies fresh_authz(#[trigger] self.authzs()[a0 + j], o as int, identifiers@[j], c0 + j) by {
                if j < i {
                    assert(self.authzs()[a0 + j] == before_a[a0 + j]);
                }
            }
            assert forall|j: int| 0 <= j < i + 1 implies fresh_challenge(#[trigger] self.challenges()[c0 + j], a0 + j, tokens@[j]@) by {
                if j < i {
                    assert(self.challenges()[c0 + j] == before_c[c0 + j]);
                }
            }
            i = i + 1;
        }
        let ghost ids_view = identifiers@;
        let na = self.authorizations.len();
        let nc = self.challenges.len();
        self.orders.push(Order {
            account,
            status: OrderStatus::Pending,
            expires,
            identifiers,
            authorizations: authz_ids,
            certificate: None,
        });
        proof {
            assert(na == a0 + ids_view.len() && nc == c0 + ids_view.len());
            self.lemma_new_order_wf(old_s, o as int, a0 as int, c0 as int, ids_view.len() as int);
        }
        assert(self.orders().drop_last() =~= old_s.orders());
        Ok(o)
    }

    proof fn lemma_new_order_wf(self, old_s: IssuanceState, o: int, a0: int, c0: int, n: int)
        requires
            old_s.wf(),
            n > 0,
            a0 + n <= usize::MAX,
            c0 + n <= usize::MAX,
            o == old_s.orders().len(),
            a0 == old_s.authzs().len(),
            c0 == old_s.challenges().len(),
            self.orders().len() == o + 1,
            forall|x: int| 0 <= x < o ==> #[trigger] self.orders()[x] == old_s.orders()[x],
            self.orders()[o].status is Pending,
            self.orders()[o].authorizations@ == Seq::new(n as nat, |j: int| (a0 + j) as usize),
            self.authzs().len() == a0 + n,
            self.challenges().len() == c0 + n,
            self.authzs().subrange(0, a0) == old_s.authzs(),
            self.challenges().subrange(0, c0) == old_s.challenges(),
            forall|j: int| 0 <= j < n ==> (#[trigger] self.authzs()[a0 + j]).order == o && self.authzs()[a0 + j].status is Pending
                && self.authzs()[a0 + j].challenges@ == seq![(c0 + j) as usize],
            forall|j: int| 0 <= j < n ==> (#[trigger] self.challenges()[c0 + j]).authorization == a0 + j,
        ensures
            self.wf(),
    {
        assert forall|x: int| 0 <= x < a0 implies #[trigger] self.authzs()[x] == old_s.authzs()[x] by {
            assert(self.authzs().subrange(0, a0)[x] == self.authzs()[x]);
        }
        assert forall|x: int| 0 <= x < c0 implies #[trigger] self.challenges()[x] == old_s.challenges()[x] by {
            assert(self.challenges().subrange(0, c0)[x] == self.challenges()[x]);
        }
        assert forall|oo: int, k: int|
            0 <= oo < self.orders().len() && 0 <= k < self.orders()[oo].authorizations@.len()
                implies #[trigger] self.orders()[oo].authorizations@[k] < self.authzs().len()
                && self.authzs()[self.orders()[oo].authorizations@[k] as int].order == oo by {
            if oo < o {
                assert(old_s.orders()[oo].authorizations@[k] < old_s.authzs().len());
            } else {
                assert(self.orders()[oo].authorizations@[k] == a0 + k);
                assert(self.authzs()[a0 + k].order == o);
            }
        }
        assert forall|a: int| 0 <= a < self.authzs().len() implies (#[trigger] self.authzs()[a]).order < self.orders().len() by {
            if a < a0 {
                assert(old_s.authzs()[a].order < old_s.orders().len());
            } else {
                assert(self.authzs()[a0 + (a - a0)].order == o);
            }
        }
        assert forall|a: int, k: int|
            0 <= a < self.authzs().len() && 0 <= k < self.authzs()[a].challenges@.len()
                implies #[trigger] self.authzs()[a].challenges@[k] < self.challenges().len()
                && self.challenges()[self.authzs()[a].challenges@[k] as int].authorization == a by {
            if a < a0 {
                assert(old_s.authzs()[a].challenges@[k] < old_s.challenges().len());
            } else {
                let j = a - a0;
                assert(self.authzs()[a0 + j].challenges@ == seq![(c0 + j) as usize]);
                assert(self.challenges()[c0 + j].authorization == a0 + j);
            }
        }
        assert forall|c: int| 0 <= c < self.challenges().len() implies (#[trigger] self.challenges()[c]).authorization
                < self.authzs().len() by {
            if c < c0 {
                assert(old_s.challenges()[c].authorization < old_s.authzs().len());
            } else {
                assert(self.challenges()[c0 + (c - c0)].authorization == a0 + (c - c0));
            }
        }
        assert forall|oo: int| 0 <= oo < o implies all_authz_valid(self.orders(), self.authzs(), oo)
            == #[trigger] all_authz_valid(old_s.orders(), old_s.authzs(), oo) by {
            let ids = old_s.orders()[oo].authorizations@;
            assert forall|k: int| 0 <= k < ids.len() implies #[trigger] self.authzs()[ids[k] as int]
                == old_s.authzs()[ids[k] as int] by {
                assert(old_s.orders()[oo].authorizations@[k] < old_s.authzs().len());
            }
            if all_authz_valid(old_s.orders(), old_s.authzs(), oo) {
                assert forall|k: int| 0 <= k < ids.len() implies (#[trigger] self.authzs()[ids[k] as int]).status
                    == AuthorizationStatus::Valid by {
                    assert(old_s.authzs()[ids[k] as int].status == AuthorizationStatus::Valid);
                }
            }
            if all_authz_valid(self.orders(), self.authzs(), oo) {
                assert forall|k: int| 0 <= k < ids.len() implies (#[trigger] old_s.authzs()[ids[k] as int]).status
                    == AuthorizationStatus::Valid by {
                    assert(self.authzs()[ids[k] as int].status == AuthorizationStatus::Valid);
                }
            }
        }
        assert(self.orders()[o].authorizations@[0] == a0);
        assert(self.authzs()[a0 + 0].status is Pending);
        assert(!all_authz_valid(self.orders(), self.authzs(), o));
        assert forall|oo: int| 0 <= oo < self.orders().len() && reached_ready(#[trigger] self.orders()[oo].status)
            implies all_authz_valid(self.orders(), self.authzs(), oo) by {
            assert(oo < o);
            assert(old_s.orders()[oo] == self.orders()[oo]);
        }
        assert forall|oo: int| 0 <= oo < self.orders().len() && (#[trigger] self.orders()[oo]).status is Pending
            implies !all_authz_valid(self.orders(), self.authzs(), oo) by {
            if oo < o {
                assert(old_s.orders()[oo] == self.orders()[oo]);
            }
        }
    }
}

} // verus!
