//! The account registry: accounts keyed by the thumbprint of their key.
use vstd::prelude::*;
use vstd::string::StrSliceExecFns;
use crate::es256k::{jwk_thumbprint, jwk_thumbprint_spec};
use crate::types::{Account, AccountStatus, AcmeServerError, JwkPublicKey, NewAccountRequest};

verus! {

/// A contact that an account may give: a `mailto:` URL with an address.
pub open spec fn contact_ok_spec(c: Seq<char>) -> bool {
    c.len() > 7 && c.subrange(0, 7) == "mailto:"@
}

pub open spec fn contacts_ok_spec(cs: Option<Vec<String>>) -> bool {
    cs is Some ==> all_contacts_ok(cs->Some_0@)
}

pub open spec fn all_contacts_ok(cs: Seq<String>) -> bool {
    forall|i: int| 0 <= i < cs.len() ==> #[trigger] contact_ok_spec(cs[i]@)
}

/// Whether `c` is a `mailto:` URL with an address.
pub fn contact_ok(c: &str) -> (r: bool)
    ensures
        r == contact_ok_spec(c@),
{
    proof {
        reveal_strlit("mailto:");
    }
    let n = c.unicode_len();
    if n <= 7 {
        return false;
    }
    let prefix = c.substring_char(0, 7);
    crate::handler::str_eq(prefix, "mailto:")
}

fn contacts_ok(v: &Vec<String>) -> (r: bool)
    ensures
        r == all_contacts_ok(v@),
{
    let mut i: usize = 0;
    while i < v.len()
        invariant
            i <= v@.len(),
            forall|k: int| 0 <= k < i ==> #[trigger] contact_ok_spec(v@[k]@),
        decreases v@.len() - i,
    {
        if !contact_ok(v[i].as_str()) {
            assert(!contact_ok_spec(v@[i as int]@));
            return false;
        }
        i = i + 1;
    }
    true
}

/// What `new_account(jwk, req, now, ip)` does: from `before` to `after`,
/// answering `r`.
pub open spec fn registration_outcome(
    before: AccountRegistry,
    after: AccountRegistry,
    jwk: JwkPublicKey,
    req: NewAccountRequest,
    now: u64,
    ip: Option<String>,
    r: Result<(usize, bool), AcmeServerError>,
) -> bool {
    &&& r is Err ==> after == before
    &&& r matches Ok((i, _)) ==> i < after.accounts().len() && !(after.accounts()[i as int].status is Deactivated)
    &&& jwk_thumbprint_spec(jwk) is None ==> r == Err::<(usize, bool), AcmeServerError>(AcmeServerError::MalformedRequest)
    &&& jwk_thumbprint_spec(jwk) matches Some(t) ==> (if before.registered(t) {
        &&& after == before
        &&& r matches Ok((i, created)) ==> !created && i < before.accounts().len()
            && before.accounts()[i as int].thumbprint@ == t
            && !(before.accounts()[i as int].status is Deactivated)
        &&& r is Err ==> r == Err::<(usize, bool), AcmeServerError>(AcmeServerError::Unauthorized)
            && exists|i: int| 0 <= i < before.accounts().len() && #[trigger] before.accounts()[i].thumbprint@ == t
            && before.accounts()[i].status is Deactivated
    } else if !req.terms_of_service_agreed {
        r == Err::<(usize, bool), AcmeServerError>(AcmeServerError::MalformedRequest)
    } else if !contacts_ok_spec(req.contact) {
        r == Err::<(usize, bool), AcmeServerError>(AcmeServerError::InvalidContact)
    } else {
        &&& r == Ok::<(usize, bool), AcmeServerError>((before.accounts().len() as usize, true))
        &&& after.accounts() == before.accounts().push(Account {
            thumbprint: after.accounts().last().thumbprint,
            key: jwk,
            status: AccountStatus::Valid,
            contact: req.contact,
            terms_of_service_agreed: true,
            created_at: now,
            initial_ip: ip,
        })
        &&& after.accounts().last().thumbprint@ == t
    })
}

/// The accounts, each under a distinct key thumbprint.
pub struct AccountRegistry {
    accounts: Vec<Account>,
}

impl AccountRegistry {
    pub closed spec fn accounts(self) -> Seq<Account> {
        self.accounts@
    }

    pub open spec fn wf(self) -> bool {
        forall|i: int, j: int|
            0 <= i < j < self.accounts().len() ==> (#[trigger] self.accounts()[i]).thumbprint@
                != (#[trigger] self.accounts()[j]).thumbprint@
    }

    /// Some account is registered under thumbprint `t`.
    pub open spec fn registered(self, t: Seq<char>) -> bool {
        exists|i: int| 0 <= i < self.accounts().len() && #[trigger] self.accounts()[i].thumbprint@ == t
    }

    pub fn new() -> (r: AccountRegistry)
        ensures
            r.wf(),
            r.accounts().len() == 0,
    {
        AccountRegistry { accounts: Vec::new() }
    }

    pub fn account(&self, id: usize) -> (r: Option<&Account>)
        ensures
            id < self.accounts().len() ==> r == Some(&self.accounts()[id as int]),
            id >= self.accounts().len() ==> r is None,
    {
        if id < self.accounts.len() {
            Some(&self.accounts[id])
        } else {
            None
        }
    }

    /// Looks an account up by the thumbprint of its key.
    pub fn find(&self, thumbprint: &str) -> (r: Option<usize>)
        requires
            self.wf(),
        ensures
            r is Some <==> self.registered(thumbprint@),
            r matches Some(i) ==> i < self.accounts().len() && self.accounts()[i as int].thumbprint@
                == thumbprint@,
    {
        let t = thumbprint.to_owned();
        let mut i: usize = 0;
        while i < self.accounts.len()
            invariant
                self.wf(),
                i <= self.accounts().len(),
                t@ == thumbprint@,
                forall|k: int| 0 <= k < i ==> #[trigger] self.accounts()[k].thumbprint@ != thumbprint@,
            decreases self.accounts().len() - i,
        {
            if self.accounts[i].thumbprint == t {
                return Some(i);
            }
            i = i + 1;
        }
        None
    }

    /// Registers the key `jwk` (already authenticated) with the terms and
    /// contacts of `req`, at time `now` from address `ip`. Returns the
    /// account's index and whether it was created now. A key that already
    /// has an account gets that account back (`Unauthorized` where it was
    /// deactivated). A new account needs the terms of service agreed
    /// (`MalformedRequest` otherwise) and `mailto:` contacts
    /// (`InvalidContact` otherwise); it starts out `valid`, as no further
    /// verification is asked for. A key without a thumbprint gives
    /// `MalformedRequest`. Nothing changes on error.
    pub fn new_account(
        &mut self,
        jwk: &JwkPublicKey,
        req: NewAccountRequest,
        now: u64,
        ip: Option<String>,
    ) -> (r: Result<(usize, bool), AcmeServerError>)
        requires
            old(self).wf(),
        ensures
            final(self).wf(),
            registration_outcome(*old(self), *final(self), *jwk, req, now, ip, r),
    {
        let thumbprint = match jwk_thumbprint(jwk) {
            Some(t) => t,
            None => return Err(AcmeServerError::MalformedRequest),
        };
        match self.find(thumbprint.as_str()) {
            Some(i) => {
                if self.accounts[i].status == AccountStatus::Deactivated {
                    return Err(AcmeServerError::Unauthorized);
                }
                return Ok((i, false));
            },
            None => {},
        }
        if !req.terms_of_service_agreed {
            return Err(AcmeServerError::MalformedRequest);
        }
        let contacts_fine = match &req.contact {
            Some(v) => contacts_ok(v),
            None => true,
        };
        if !contacts_fine {
            return Err(AcmeServerError::InvalidContact);
        }
        let id = self.accounts.len();
        let ghost old_accounts = self.accounts@;
        self.accounts.push(Account {
            thumbprint,
            key: jwk.duplicate(),
            status: AccountStatus::Valid,
            contact: req.contact,
            terms_of_service_agreed: true,
            created_at: now,
            initial_ip: ip,
        });
        assert forall|i: int, j: int|
            0 <= i < j < self.accounts().len() implies (#[trigger] self.accounts()[i]).thumbprint@
                != (#[trigger] self.accounts()[j]).thumbprint@ by {
            if j == id {
                assert(self.accounts()[i] == old_accounts[i]);
            } else {
                assert(self.accounts()[i] == old_accounts[i]);
                assert(self.accounts()[j] == old_accounts[j]);
            }
        }
        Ok((id, true))
    }

    /// Replaces the contacts of account `id`: `AccountDoesNotExist` for an
    /// unknown index, `Unauthorized` for a deactivated account,
    /// `InvalidContact` for a contact that is no `mailto:` URL; nothing
    /// changes on error.
    pub fn update_contact(&mut self, id: usize, contact: Option<Vec<String>>) -> (r: Result<(), AcmeServerError>)
        requires
            old(self).wf(),
        ensures
            final(self).wf(),
            r is Err ==> *final(self) == *old(self),
            id >= old(self).accounts().len() ==> r == Err::<(), AcmeServerError>(AcmeServerError::AccountDoesNotExist),
            id < old(self).accounts().len() ==> {
                &&& old(self).accounts()[id as int].status is Deactivated ==> r == Err::<(), AcmeServerError>(
                    AcmeServerError::Unauthorized,
                )
                &&& !(old(self).accounts()[id as int].status is Deactivated) && !contacts_ok_spec(contact)
                    ==> r == Err::<(), AcmeServerError>(AcmeServerError::InvalidContact)
                &&& !(old(self).accounts()[id as int].status is Deactivated) && contacts_ok_spec(contact)
                    ==> r is Ok && final(self).accounts() == old(self).accounts().update(
                    id as int,
                    Account { contact: contact, ..old(self).accounts()[id as int] },
                )
            },
    {
        if id >= self.accounts.len() {
            return Err(AcmeServerError::AccountDoesNotExist);
        }
        if self.accounts[id].status == AccountStatus::Deactivated {
            return Err(AcmeServerError::Unauthorized);
        }
        let fine = match &contact {
            Some(v) => contacts_ok(v),
            None => true,
        };
        if !fine {
            return Err(AcmeServerError::InvalidContact);
        }
        let ghost old_accounts = self.accounts@;
        let ghost c = contact;
        self.accounts[id].contact = contact;
        assert(self.accounts@ =~= old_accounts.update(
            id as int,
            Account { contact: c, ..old_accounts[id as int] },
        ));
        assert forall|i: int, j: int|
            0 <= i < j < self.accounts().len() implies (#[trigger] self.accounts()[i]).thumbprint@
                != (#[trigger] self.accounts()[j]).thumbprint@ by {
            assert(old_accounts[i].thumbprint == self.accounts()[i].thumbprint);
            assert(old_accounts[j].thumbprint == self.accounts()[j].thumbprint);
        }
        Ok(())
    }

    /// Deactivates account `id`; `AccountDoesNotExist` for an unknown index.
    pub fn deactivate(&mut self, id: usize) -> (r: Result<(), AcmeServerError>)
        requires
            old(self).wf(),
        ensures
            final(self).wf(),
            id >= old(self).accounts().len() ==> r == Err::<(), AcmeServerError>(AcmeServerError::AccountDoesNotExist)
                && *final(self) == *old(self),
            id < old(self).accounts().len() ==> r is Ok && final(self).accounts() == old(self).accounts().update(
                id as int,
                Account { status: AccountStatus::Deactivated, ..old(self).accounts()[id as int] },
            ),
    {
        if id >= self.accounts.len() {
            return Err(AcmeServerError::AccountDoesNotExist);
        }
        let ghost old_accounts = self.accounts@;
        self.accounts[id].status = AccountStatus::Deactivated;
        assert(self.accounts@ =~= old_accounts.update(
            id as int,
            Account { status: AccountStatus::Deactivated, ..old_accounts[id as int] },
        ));
        assert forall|i: int, j: int|
            0 <= i < j < self.accounts().len() implies (#[trigger] self.accounts()[i]).thumbprint@
                != (#[trigger] self.accounts()[j]).thumbprint@ by {
            assert(old_accounts[i].thumbprint == self.accounts()[i].thumbprint);
            assert(old_accounts[j].thumbprint == self.accounts()[j].thumbprint);
        }
        Ok(())
    }
}

} // verus!
