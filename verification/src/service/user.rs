//! Users' email addresses, and the responses of the user email API.

use vstd::prelude::*;
use crate::keyed::KeyedStore;
use crate::service::api::ApiResponse;

verus! {

/// Request to set a user's email address.
#[derive(Clone)]
pub struct SetUserEmailRequest {
    pub email: String,
}

/// Response for user email operations.
pub struct UserEmailResponse {
    pub message: String,
}

/// Response containing user email details.
pub struct UserEmailDetailsResponse {
    pub user_id: String,
    pub email: String,
}

/// The email address of each user.
pub struct UserEmailService {
    user_emails: KeyedStore<String>,
}

impl UserEmailService {
    /// Each user's address.
    pub closed spec fn emails(&self) -> Map<Seq<char>, Seq<char>> {
        self.user_emails.map().map_values(|e: String| e@)
    }

    /// Users in the order in which their addresses were first set.
    pub closed spec fn user_order(&self) -> Seq<Seq<char>> {
        self.user_emails.key_order()
    }

    /// The service's invariant.
    pub closed spec fn wf(&self) -> bool {
        self.user_emails.wf()
    }

    /// A service with no addresses.
    pub fn new() -> (s: Self)
        ensures
            s.wf(),
            s.emails() == Map::<Seq<char>, Seq<char>>::empty(),
            s.user_order() == Seq::<Seq<char>>::empty(),
    {
        let s = UserEmailService { user_emails: KeyedStore::new() };
        assert(s.emails() =~= Map::<Seq<char>, Seq<char>>::empty());
        s
    }

    /// Sets the address of `user_id`; always succeeds.
    pub fn set_user_email(&mut self, user_id: String, email: String) -> (r: Result<(), String>)
        requires
            old(self).wf(),
        ensures
            final(self).wf(),
            r is Ok,
            final(self).emails() == old(self).emails().insert(user_id@, email@),
    {
        self.user_emails.insert(user_id, email);
        assert(self.emails() =~= old(self).emails().insert(user_id@, email@));
        Ok(())
    }

    /// The address of `user_id`, if one was set; always succeeds.
    pub fn get_user_email(&self, user_id: &str) -> (r: Result<Option<String>, String>)
        requires
            self.wf(),
        ensures
            r matches Ok(found) && found.is_some() == self.emails().contains_key(user_id@) && (
            found matches Some(e) ==> e@ == self.emails()[user_id@]),
    {
        let user = String::from_str(user_id);
        match self.user_emails.get(&user) {
            Some(e) => Ok(Some(e.clone())),
            None => Ok(None),
        }
    }

    /// Removes the address of `user_id` and returns it; always succeeds.
    pub fn remove_user_email(&mut self, user_id: &str) -> (r: Result<Option<String>, String>)
        requires
            old(self).wf(),
        ensures
            final(self).wf(),
            final(self).emails() == old(self).emails().remove(user_id@),
            r matches Ok(found) && found.is_some() == old(self).emails().contains_key(user_id@) && (
            found matches Some(e) ==> e@ == old(self).emails()[user_id@]),
    {
        let user = String::from_str(user_id);
        let removed = self.user_emails.remove(&user);
        assert(self.emails() =~= old(self).emails().remove(user_id@));
        Ok(removed)
    }

    /// Every (user, address) pair, in the users' order; always succeeds. Each
    /// user with an address is listed, once.
    pub fn list_user_emails(&self) -> (r: Result<Vec<(String, String)>, String>)
        requires
            self.wf(),
        ensures
            self.user_order().no_duplicates(),
            forall|u: Seq<char>| #[trigger] self.user_order().contains(u) <==> self.emails().contains_key(u),
            r matches Ok(pairs) && pairs@.len() == self.user_order().len() && (forall|i: int|
                0 <= i < pairs@.len() ==> #[trigger] pairs@[i].0@ == self.user_order()[i]
                    && pairs@[i].1@ == self.emails()[self.user_order()[i]]),
    {
        proof {
            assert forall|u: Seq<char>| #[trigger] self.user_order().contains(u) <==> self.emails().contains_key(u) by {
                self.user_emails.lemma_order_contains(u);
            }
        }
        let users = self.user_emails.keys();
        let mut pairs: Vec<(String, String)> = Vec::new();
        let mut i: usize = 0;
        while i < users.len()
            invariant
                self.wf(),
                i <= users@.len(),
                users@.map_values(|s: String| s@) == self.user_order(),
                pairs@.len() == i,
                forall|j: int|
                    0 <= j < i ==> #[trigger] pairs@[j].0@ == self.user_order()[j] && pairs@[j].1@
                        == self.emails()[self.user_order()[j]],
            decreases users@.len() - i,
        {
            let user = &users[i];
            proof {
                assert(user@ == self.user_order()[i as int]);
                crate::keyed::lemma_order_in_map(&self.user_emails, i as int);
            }
            match self.user_emails.get(user) {
                Some(e) => {
                    pairs.push((user.clone(), e.clone()));
                },
                None => {
                    proof {
                        assert(false);
                    }
                },
            }
            i = i + 1;
        }
        Ok(pairs)
    }
}

impl Default for UserEmailService {
    fn default() -> (s: Self)
        ensures
            s.wf(),
            s.emails() == Map::<Seq<char>, Seq<char>>::empty(),
    {
        Self::new()
    }
}

/// Setting a user's address and then looking it up finds that address; removing
/// it and then looking it up finds none. Other users are unaffected either way.
pub proof fn law_lookup_after_set_and_remove(
    before: UserEmailService,
    after_set: UserEmailService,
    after_remove: UserEmailService,
    user: Seq<char>,
    email: Seq<char>,
)
    requires
        after_set.emails() == before.emails().insert(user, email),
        after_remove.emails() == after_set.emails().remove(user),
    ensures
        after_set.emails().get(user) == Some(email),
        after_remove.emails().get(user) is None,
        forall|other: Seq<char>| other != user ==> #[trigger] after_remove.emails().get(other) == before.emails().get(other),
{
}

/// A failed response whose error is `prefix` followed by `detail`.
fn prefixed_error<T>(prefix: &str, detail: &str) -> (r: ApiResponse<T>)
    ensures
        !r.success,
        r.data is None,
        r.error matches Some(e) && e@ == prefix@ + detail@,
{
    let mut e = String::from_str(prefix);
    e.append(detail);
    ApiResponse::error(e)
}

/// The response to setting an address, given the service's outcome.
pub fn set_user_email_response(outcome: &Result<(), String>) -> (r: ApiResponse<UserEmailResponse>)
    ensures
        r.success == outcome is Ok,
        r.success ==> r.error is None,
        outcome is Ok ==> (r.data matches Some(d) && d.message@ == "User email set successfully"@),
        outcome matches Err(e) ==> (r.data is None && (r.error matches Some(m) && m@ == "Failed to set user email: "@ + e@)),
{
    match outcome {
        Ok(()) => ApiResponse::success(UserEmailResponse { message: String::from_str("User email set successfully") }),
        Err(e) => prefixed_error("Failed to set user email: ", e.as_str()),
    }
}

/// The response to looking up the address of `user_id`, given the service's outcome.
pub fn get_user_email_response(user_id: String, outcome: Result<Option<String>, String>) -> (r: ApiResponse<UserEmailDetailsResponse>)
    ensures
        r.success == outcome matches Ok(Some(_)),
        r.success ==> r.error is None,
        outcome matches Ok(Some(e)) ==> (r.data matches Some(d) && d.user_id == user_id && d.email == e),
        outcome matches Ok(None) ==> (r.data is None && (r.error matches Some(m) && m@ == "User email not found"@)),
        outcome matches Err(e) ==> (r.data is None && (r.error matches Some(m) && m@ == "Failed to get user email: "@ + e@)),
{
    match outcome {
        Ok(Some(email)) => ApiResponse::success(UserEmailDetailsResponse { user_id, email }),
        Ok(None) => ApiResponse::error(String::from_str("User email not found")),
        Err(e) => prefixed_error("Failed to get user email: ", e.as_str()),
    }
}

/// The response to removing an address, given the service's outcome.
pub fn remove_user_email_response(outcome: &Result<Option<String>, String>) -> (r: ApiResponse<UserEmailResponse>)
    ensures
        r.success == outcome matches Ok(Some(_)),
        r.success ==> r.error is None,
        outcome matches Ok(Some(_)) ==> (r.data matches Some(d) && d.message@ == "User email removed successfully"@),
        outcome matches Ok(None) ==> (r.data is None && (r.error matches Some(m) && m@ == "User email not found"@)),
        outcome matches Err(e) ==> (r.data is None && (r.error matches Some(m) && m@ == "Failed to remove user email: "@ + e@)),
{
    match outcome {
        Ok(Some(_)) => ApiResponse::success(UserEmailResponse { message: String::from_str("User email removed successfully") }),
        Ok(None) => ApiResponse::error(String::from_str("User email not found")),
        Err(e) => prefixed_error("Failed to remove user email: ", e.as_str()),
    }
}

/// The response to listing addresses, given the service's outcome.
pub fn list_user_emails_response(outcome: Result<Vec<(String, String)>, String>) -> (r: ApiResponse<Vec<UserEmailDetailsResponse>>)
    ensures
        r.success == outcome is Ok,
        r.success ==> r.error is None,
        outcome matches Ok(pairs) ==> (r.data matches Some(d) && d@.len() == pairs@.len() && (forall|i: int|
            0 <= i < pairs@.len() ==> #[trigger] d@[i].user_id == pairs@[i].0 && d@[i].email == pairs@[i].1)),
        outcome matches Err(e) ==> (r.data is None && (r.error matches Some(m) && m@ == "Failed to list user emails: "@ + e@)),
{
    match outcome {
        Ok(pairs) => {
            let ghost orig = pairs@;
            let mut rest = pairs;
            let mut details: Vec<UserEmailDetailsResponse> = Vec::new();
            while rest.len() > 0
                invariant
                    details@.len() + rest@.len() == orig.len(),
                    rest@ == orig.skip(details@.len() as int),
                    forall|i: int|
                        0 <= i < details@.len() ==> #[trigger] details@[i].user_id == orig[i].0
                            && details@[i].email == orig[i].1,
                decreases rest@.len(),
            {
                let pair = rest.remove(0);
                proof {
                    assert(pair == orig[details@.len() as int]);
                    assert(rest@ =~= orig.skip(details@.len() as int + 1));
                }
                details.push(UserEmailDetailsResponse { user_id: pair.0, email: pair.1 });
            }
            ApiResponse::success(details)
        },
        Err(e) => prefixed_error("Failed to list user emails: ", e.as_str()),
    }
}

} // verus!
