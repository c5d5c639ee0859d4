//! Access rights of the caller on a workload. Strong access (owner or
//! superuser) gates destructive controls; weak access (strong, or a listed
//! participant) gates everyday controls.

use vstd::prelude::*;

verus! {

/// The signed-in caller.
pub struct User {
    pub login: String,
    pub is_admin: bool,
}

/// The two rights computed for one caller on one workload.
#[derive(PartialEq, Eq, Structural, Clone, Copy, Debug)]
pub struct Access {
    pub strong: bool,
    pub weak: bool,
}

pub open spec fn logins(participants: Seq<String>) -> Seq<Seq<char>> {
    participants.map_values(|p: String| p@)
}

pub open spec fn strong_access(user: Option<&User>, owner: Seq<char>) -> bool {
    match user {
        Some(u) => u.is_admin || u.login@ == owner,
        None => false,
    }
}

pub open spec fn weak_access(user: Option<&User>, owner: Seq<char>, participants: Seq<Seq<char>>) -> bool {
    match user {
        Some(u) => u.is_admin || u.login@ == owner || participants.contains(u.login@),
        None => false,
    }
}

/// Whether `login` is among `participants`.
pub fn is_participant(participants: &Vec<String>, login: &String) -> (r: bool)
    ensures
        r == logins(participants@).contains(login@),
{
    let mut k: usize = 0;
    while k < participants.len()
        invariant
            k <= participants.len(),
            forall|t: int| 0 <= t < k ==> participants@[t]@ != login@,
        decreases participants.len() - k,
    {
        if participants[k] == *login {
            assert(logins(participants@)[k as int] == login@);
            return true;
        }
        k = k + 1;
    }
    assert(!logins(participants@).contains(login@)) by {
        if logins(participants@).contains(login@) {
            let t = choose|t: int| 0 <= t < logins(participants@).len() && logins(participants@)[t] == login@;
            assert(participants@[t]@ == login@);
        }
    }
    false
}

/// The rights of `user` (none when nobody is signed in) on a workload owned
/// by `owner` with the given participants.
pub fn access_for(user: Option<&User>, owner: &String, participants: &Vec<String>) -> (r: Access)
    ensures
        r.strong == strong_access(user, owner@),
        r.weak == weak_access(user, owner@, logins(participants@)),
{
    match user {
        Some(u) => {
            let strong = u.is_admin || u.login == *owner;
            let weak = strong || is_participant(participants, &u.login);
            Access { strong, weak }
        },
        None => Access { strong: false, weak: false },
    }
}

/// Strong access always comes with weak access.
pub proof fn lemma_strong_implies_weak(user: Option<&User>, owner: Seq<char>, participants: Seq<Seq<char>>)
    ensures
        strong_access(user, owner) ==> weak_access(user, owner, participants),
{
}

/// The caller's rights are decided by the owner, the participants and the
/// superuser flag alone: a superuser has both rights whoever they are.
pub proof fn lemma_admin_has_all(user: &User, owner: Seq<char>, participants: Seq<Seq<char>>)
    requires
        user.is_admin,
    ensures
        strong_access(Some(user), owner),
        weak_access(Some(user), owner, participants),
{
}

/// What a guarded page does for the current session.
#[derive(PartialEq, Eq, Structural, Clone, Copy, Debug)]
pub enum Gate {
    /// The session is still being read.
    Wait,
    /// Show the page.
    Show,
    /// Nobody is signed in: go home.
    Redirect,
    /// Signed in without the superuser flag on an admin page: go home and
    /// say why.
    Denied,
}

pub open spec fn gate_of(loading: bool, user: Option<&User>, admin_only: bool) -> Gate {
    if loading {
        Gate::Wait
    } else {
        match user {
            None => Gate::Redirect,
            Some(u) => if admin_only && !u.is_admin {
                Gate::Denied
            } else {
                Gate::Show
            },
        }
    }
}

/// The decision of a page that needs a signed-in caller, and for admin pages
/// a superuser.
pub fn route_gate(loading: bool, user: Option<&User>, admin_only: bool) -> (r: Gate)
    ensures
        r == gate_of(loading, user, admin_only),
{
    if loading {
        return Gate::Wait;
    }
    match user {
        None => Gate::Redirect,
        Some(u) => if admin_only && !u.is_admin {
            Gate::Denied
        } else {
            Gate::Show
        },
    }
}

} // verus!
