//! A notifier that sends notifications by email.

use vstd::prelude::*;
use crate::keyed::KeyedStore;
use crate::text::{decimal, u64_to_decimal};

verus! {

/// The body of the email for a notification.
pub open spec fn email_body(user: Seq<char>, content: Seq<char>, timestamp: u64) -> Seq<char> {
    "Hello "@ + user + ",\n\n"@ + content + "\n\nSent at: "@ + decimal(timestamp as nat)
}

/// The error for a user without an email address.
pub open spec fn missing_address_message(user: Seq<char>) -> Seq<char> {
    "No email address found for user "@ + user
}

/// An email ready to be handed to the mail transport.
pub struct EmailDraft {
    pub from: String,
    pub to: String,
    pub subject: String,
    pub body: String,
}

/// Email notifier: SMTP settings and the address of each user. Handles that
/// share one notifier, so that an address set through one is seen through all,
/// hold it behind a shared lock.
pub struct EmailNotifier {
    name: String,
    smtp_server: String,
    smtp_port: u16,
    pub smtp_username: String,
    pub smtp_password: String,
    user_emails: KeyedStore<String>,
}

impl EmailNotifier {
    /// The notifier's name.
    pub closed spec fn spec_name(&self) -> Seq<char> {
        self.name@
    }

    /// The SMTP server's host name.
    pub closed spec fn spec_smtp_server(&self) -> Seq<char> {
        self.smtp_server@
    }

    /// The SMTP server's port.
    pub closed spec fn spec_smtp_port(&self) -> u16 {
        self.smtp_port
    }

    /// The SMTP user name, which is also the sender's address.
    pub closed spec fn spec_smtp_username(&self) -> Seq<char> {
        self.smtp_username@
    }

    /// The SMTP password.
    pub closed spec fn spec_smtp_password(&self) -> Seq<char> {
        self.smtp_password@
    }

    /// The email address of each user.
    pub closed spec fn emails(&self) -> Map<Seq<char>, Seq<char>> {
        self.user_emails.map().map_values(|e: String| e@)
    }

    /// The notifier's invariant.
    pub closed spec fn wf(&self) -> bool {
        self.user_emails.wf()
    }

    /// A notifier with the given SMTP configuration and no user addresses.
    pub fn new(
        name: String,
        smtp_server: String,
        smtp_port: u16,
        smtp_username: String,
        smtp_password: String,
    ) -> (n: Self)
        ensures
            n.wf(),
            n.spec_name() == name@,
            n.spec_smtp_server() == smtp_server@,
            n.spec_smtp_port() == smtp_port,
            n.spec_smtp_username() == smtp_username@,
            n.spec_smtp_password() == smtp_password@,
            n.emails() == Map::<Seq<char>, Seq<char>>::empty(),
    {
        let n = EmailNotifier {
            name,
            smtp_server,
            smtp_port,
            smtp_username,
            smtp_password,
            user_emails: KeyedStore::new(),
        };
        assert(n.emails() =~= Map::<Seq<char>, Seq<char>>::empty());
        n
    }

    /// Adds or updates the email address of `user_id`.
    pub fn set_user_email(&mut self, user_id: String, email: String)
        requires
            old(self).wf(),
        ensures
            final(self).wf(),
            final(self).emails() == old(self).emails().insert(user_id@, email@),
            final(self).spec_name() == old(self).spec_name(),
            final(self).spec_smtp_server() == old(self).spec_smtp_server(),
            final(self).spec_smtp_port() == old(self).spec_smtp_port(),
            final(self).spec_smtp_username() == old(self).spec_smtp_username(),
            final(self).spec_smtp_password() == old(self).spec_smtp_password(),
    {
        self.user_emails.insert(user_id, email);
        assert(self.emails() =~= old(self).emails().insert(user_id@, email@));
    }

    /// The email address of `user_id`, if one was set.
    pub fn get_user_email(&self, user_id: &str) -> (email: Option<String>)
        requires
            self.wf(),
        ensures
            email.is_some() == self.emails().contains_key(user_id@),
            email.is_some() ==> email.unwrap()@ == self.emails()[user_id@],
    {
        let user = String::from_str(user_id);
        match self.user_emails.get(&user) {
            Some(e) => Some(e.clone()),
            None => None,
        }
    }

    /// The name of this notifier.
    pub fn name(&self) -> (name: &str)
        ensures
            name@ == self.spec_name(),
    {
        self.name.as_str()
    }

    /// Renames this notifier.
    pub fn set_name(&mut self, name: String)
        ensures
            final(self).spec_name() == name@,
            final(self).emails() == old(self).emails(),
            final(self).wf() == old(self).wf(),
            final(self).spec_smtp_server() == old(self).spec_smtp_server(),
            final(self).spec_smtp_port() == old(self).spec_smtp_port(),
            final(self).spec_smtp_username() == old(self).spec_smtp_username(),
            final(self).spec_smtp_password() == old(self).spec_smtp_password(),
    {
        self.name = name;
    }

    /// The SMTP server's host name.
    pub fn smtp_server(&self) -> (server: &str)
        ensures
            server@ == self.spec_smtp_server(),
    {
        self.smtp_server.as_str()
    }

    /// The SMTP server's port.
    pub fn smtp_port(&self) -> (port: u16)
        ensures
            port == self.spec_smtp_port(),
    {
        self.smtp_port
    }

    /// The email for a notification to `user_id` with `title` and content shown
    /// as `content`, stamped `timestamp`; an error if the user has no address.
    pub fn prepare_email(&self, user_id: &str, title: &str, content: &str, timestamp: u64) -> (draft: Result<EmailDraft, String>)
        requires
            self.wf(),
        ensures
            draft.is_ok() == self.emails().contains_key(user_id@),
            draft matches Ok(d) ==> {
                &&& d.from@ == self.spec_smtp_username()
                &&& d.to@ == self.emails()[user_id@]
                &&& d.subject@ == title@
                &&& d.body@ == email_body(user_id@, content@, timestamp)
            },
            draft matches Err(e) ==> e@ == missing_address_message(user_id@),
    {
        match self.get_user_email(user_id) {
            Some(to) => {
                let mut body = String::from_str("Hello ");
                body.append(user_id);
                body.append(",\n\n");
                body.append(content);
                body.append("\n\nSent at: ");
                let ts = u64_to_decimal(timestamp);
                body.append(ts.as_str());
                Ok(EmailDraft {
                    from: self.smtp_username.clone(),
                    to,
                    subject: String::from_str(title),
                    body,
                })
            },
            None => {
                let mut msg = String::from_str("No email address found for user ");
                msg.append(user_id);
                Err(msg)
            },
        }
    }
}

/// After a user's address is set, it is the address found for that user, and
/// therefore the recipient of the user's next email; other users keep theirs.
pub proof fn law_address_after_set(before: EmailNotifier, after: EmailNotifier, user: Seq<char>, email: Seq<char>)
    requires
        after.emails() == before.emails().insert(user, email),
    ensures
        after.emails().contains_key(user),
        after.emails()[user] == email,
        forall|other: Seq<char>| other != user ==> #[trigger] after.emails().get(other) == before.emails().get(other),
{
}

} // verus!
