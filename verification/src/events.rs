//! The `user.registered` event: published by the authentication service when
//! a user registers, consumed by the profile service to create the profile.

use vstd::prelude::*;
use crate::models::{NewUser, RegisterResponse};
use crate::text::{decimal_int, i32_to_string, str_eq};

verus! {

/// Topic the user events are published to.
pub const USER_EVENTS_TOPIC: &'static str = "user.events";

/// An event about a user account.
#[derive(Debug, Clone)]
pub struct UserEvent {
    pub event_type: String,
    pub user_id: i32,
    pub email: String,
}

/// Position of the first `@` in `s`, if any.
pub open spec fn first_at(s: Seq<char>) -> Option<int>
    decreases s.len(),
{
    if s.len() == 0 {
        None
    } else if s[0] == '@' {
        Some(0)
    } else {
        match first_at(s.drop_first()) {
            Some(i) => Some(i + 1),
            None => None,
        }
    }
}

/// The display name derived from an email: the text before its first `@`, or the
/// whole email when it has none.
pub open spec fn name_from_email(email: Seq<char>) -> Seq<char> {
    match first_at(email) {
        Some(i) => email.take(i),
        None => email,
    }
}

/// The first `@` of `s` is at `j` when none comes before `j` and `s[j]` is one;
/// there is none when `j` is the length and none comes before it.
pub proof fn lemma_first_at(s: Seq<char>, j: int)
    requires
        0 <= j <= s.len(),
        forall|k: int| 0 <= k < j ==> #[trigger] s[k] != '@',
        j == s.len() || s[j] == '@',
    ensures
        first_at(s) == (if j == s.len() {
            None::<int>
        } else {
            Some(j)
        }),
    decreases j,
{
    if j > 0 {
        let t = s.drop_first();
        assert forall|k: int| 0 <= k < j - 1 implies #[trigger] t[k] != '@' by {
            assert(t[k] == s[k + 1]);
        }
        if j < s.len() {
            assert(t[j - 1] == s[j]);
        }
        lemma_first_at(t, j - 1);
    }
}

impl UserEvent {
    /// The event announcing a newly registered user.
    pub fn registered(resp: &RegisterResponse) -> (e: UserEvent)
        ensures
            e.event_type@ == "user.registered"@,
            e.user_id == resp.id,
            e.email == resp.email,
    {
        UserEvent {
            event_type: String::from_str("user.registered"),
            user_id: resp.id,
            email: resp.email.clone(),
        }
    }

    /// Message key the event is published under: the user id in decimal.
    pub fn key(&self) -> (k: String)
        ensures
            k@ == decimal_int(self.user_id as int),
    {
        i32_to_string(self.user_id)
    }

    /// The profile to create for an event: for `user.registered`, a profile with the
    /// event's email and the name before the email's first `@`; no profile for any
    /// other event.
    pub fn new_user(&self) -> (r: Option<NewUser>)
        ensures
            self.event_type@ == "user.registered"@ ==> (r matches Some(u) && u.email == self.email
                && u.name@ == name_from_email(self.email@)),
            self.event_type@ != "user.registered"@ ==> r is None,
    {
        if !str_eq(self.event_type.as_str(), "user.registered") {
            return None;
        }
        let e = self.email.as_str();
        let n = e.unicode_len();
        let mut i: usize = 0;
        while i < n && e.get_char(i) != '@'
            invariant
                n == e@.len(),
                i <= n,
                forall|k: int| 0 <= k < i ==> #[trigger] e@[k] != '@',
            decreases n - i,
        {
            i = i + 1;
        }
        proof {
            lemma_first_at(e@, i as int);
        }
        let name = String::from_str(e.substring_char(0, i));
        proof {
            if i == n {
                assert(e@.subrange(0, i as int) =~= e@);
            }
        }
        Some(NewUser { name, email: self.email.clone() })
    }
}

} // verus!
