//! The dashboard of one workload. It owns the fetched details, the caller's
//! personal database and the load error, and a reload counter that children
//! bump after a successful change; every change of the counter fetches both
//! records again. What is drawn is a function of these cells and the caller.

use vstd::prelude::*;
use crate::access::{access_for, logins, strong_access, weak_access, Access, User};
use crate::api_error::ApiError;
use crate::database::{card_of, database_card, DatabaseCard};
use crate::model::{DatabaseDetails, ProjectDetails};
use crate::text::{
    append_chars, chars_of, concat, find_char, index_of, interpolate, join_with, replace_all,
    string_from,
};

verus! {

/// A fetch the dashboard asks for.
#[derive(PartialEq, Eq, Structural, Clone, Copy, Debug)]
pub enum FetchCall {
    /// The workload with its participants and database.
    Details { project_id: i32 },
    /// The caller's personal database.
    PersonalDatabase,
}

/// Which parts of the dashboard are drawn, for one caller.
#[derive(PartialEq, Eq, Structural, Clone, Copy, Debug)]
pub struct Sections {
    pub access: Access,
    pub database_card: DatabaseCard,
    /// Start, stop and restart.
    pub controls: bool,
    pub participants: bool,
    /// The environment editor and the image form.
    pub env_and_image: bool,
    pub danger_zone: bool,
}

#[derive(PartialEq, Eq, Structural, Clone, Copy, Debug)]
pub enum DashboardView {
    /// The details could not be loaded: an error card and a link home.
    Failed,
    /// A record is still on its way.
    Loading,
    Ready(Sections),
}

pub open spec fn sections_of(
    details: &ProjectDetails,
    personal: &Option<DatabaseDetails>,
    user: Option<&User>,
) -> Sections {
    let strong = strong_access(user, details.project.owner@);
    let weak = weak_access(user, details.project.owner@, logins(details.participants@));
    Sections {
        access: Access { strong, weak },
        database_card: card_of(&details.database, personal, strong),
        controls: weak,
        participants: strong,
        env_and_image: weak,
        danger_zone: strong,
    }
}

/// The value that follows a reload counter; it always differs from it.
pub open spec fn next_reload(n: u64) -> u64 {
    if n == u64::MAX {
        0
    } else {
        (n + 1) as u64
    }
}

pub struct Dashboard {
    pub project_id: i32,
    pub details: Option<ProjectDetails>,
    /// Absent until the lookup came back; then the database, if any.
    pub personal_database: Option<Option<DatabaseDetails>>,
    pub load_error: Option<String>,
    pub reload: u64,
}

impl Dashboard {
    pub open spec fn view_of(&self, user: Option<&User>) -> DashboardView {
        if self.load_error is Some {
            DashboardView::Failed
        } else if self.details is None || self.personal_database is None {
            DashboardView::Loading
        } else {
            DashboardView::Ready(
                sections_of(
                    &self.details->0,
                    &self.personal_database->0,
                    user,
                ),
            )
        }
    }

    /// A dashboard for a workload, with nothing loaded yet, and the two
    /// fetches to start.
    pub fn new(project_id: i32) -> (r: (Dashboard, Vec<FetchCall>))
        ensures
            r.0.project_id == project_id,
            r.0.details is None,
            r.0.personal_database is None,
            r.0.load_error is None,
            r.1@ == seq![FetchCall::Details { project_id }, FetchCall::PersonalDatabase],
    {
        let d = Dashboard {
            project_id,
            details: None,
            personal_database: None,
            load_error: None,
            reload: 0,
        };
        let calls = d.fetches();
        (d, calls)
    }

    /// Both fetches of the dashboard.
    pub fn fetches(&self) -> (r: Vec<FetchCall>)
        ensures
            r@ == seq![FetchCall::Details { project_id: self.project_id }, FetchCall::PersonalDatabase],
    {
        let mut r: Vec<FetchCall> = Vec::new();
        r.push(FetchCall::Details { project_id: self.project_id });
        r.push(FetchCall::PersonalDatabase);
        assert(r@ =~= seq![FetchCall::Details { project_id: self.project_id }, FetchCall::PersonalDatabase]);
        r
    }

    /// A child reports a change: the counter moves on and both records are
    /// fetched again. Nothing else changes until they come back.
    pub fn request_reload(&mut self) -> (r: Vec<FetchCall>)
        ensures
            final(self).reload == next_reload(old(self).reload),
            final(self).reload != old(self).reload,
            final(self).project_id == old(self).project_id,
            final(self).details == old(self).details,
            final(self).personal_database == old(self).personal_database,
            final(self).load_error == old(self).load_error,
            r@ == seq![FetchCall::Details { project_id: old(self).project_id }, FetchCall::PersonalDatabase],
    {
        self.reload = if self.reload == u64::MAX {
            0
        } else {
            self.reload + 1
        };
        self.fetches()
    }

    /// The details came back; a failure is kept as the load error.
    pub fn details_loaded(&mut self, result: Result<ProjectDetails, String>)
        ensures
            final(self).project_id == old(self).project_id,
            final(self).reload == old(self).reload,
            final(self).personal_database == old(self).personal_database,
            match result {
                Ok(d) => final(self).details == Some(d) && final(self).load_error
                    == old(self).load_error,
                Err(e) => final(self).load_error == Some(e) && final(self).details
                    == old(self).details,
            },
    {
        match result {
            Ok(d) => self.details = Some(d),
            Err(e) => self.load_error = Some(e),
        }
    }

    /// The personal-database lookup came back; a failure means there is
    /// none, which is no error.
    pub fn personal_database_loaded(&mut self, result: Result<DatabaseDetails, ApiError>)
        ensures
            final(self).project_id == old(self).project_id,
            final(self).reload == old(self).reload,
            final(self).details == old(self).details,
            final(self).load_error == old(self).load_error,
            match result {
                Ok(db) => final(self).personal_database == Some(Some(db)),
                Err(_) => final(self).personal_database == Some(None::<DatabaseDetails>),
            },
    {
        match result {
            Ok(db) => self.personal_database = Some(Some(db)),
            Err(_) => self.personal_database = Some(None),
        }
    }

    /// What is drawn for `user`.
    pub fn view(&self, user: Option<&User>) -> (r: DashboardView)
        ensures
            r == self.view_of(user),
    {
        if self.load_error.is_some() {
            return DashboardView::Failed;
        }
        match (&self.details, &self.personal_database) {
            (Some(d), Some(personal)) => {
                let access = access_for(user, &d.project.owner, &d.participants);
                let card = database_card(&d.database, personal, access.strong);
                DashboardView::Ready(
                    Sections {
                        access,
                        database_card: card,
                        controls: access.weak,
                        participants: access.strong,
                        env_and_image: access.weak,
                        danger_zone: access.strong,
                    },
                )
            },
            _ => DashboardView::Loading,
        }
    }
}

/// Fills the `{error}` slot of an error text.
pub fn error_prompt(template: &str, error: &str) -> (r: String)
    ensures
        r@ == replace_all(template@, "{error}"@, error@),
{
    proof {
        reveal_strlit("{error}");
    }
    interpolate(template, "{error}", error)
}

/// The date part of an ISO-8601 timestamp: what precedes the first `T`.
pub fn created_date(created_at: &str) -> (r: String)
    ensures
        r@ == created_at@.take(index_of(created_at@, 'T')),
{
    let v = chars_of(created_at);
    let p = find_char(&v, 0, v.len(), 'T');
    assert(v@.subrange(0, v.len() as int) =~= v@);
    string_from(&v, 0, p)
}

/// The participants' logins separated by `, `.
pub fn participants_line(participants: &Vec<String>) -> (r: String)
    ensures
        r@ == join_with(logins(participants@), ", "@),
{
    let ghost ls = logins(participants@);
    let sep = chars_of(", ");
    let mut out: Vec<char> = Vec::new();
    let mut k: usize = 0;
    while k < participants.len()
        invariant
            k <= participants.len(),
            ls == logins(participants@),
            sep@ == ", "@,
            out@ == join_with(ls.take(k as int), ", "@),
        decreases participants.len() - k,
    {
        let ghost before = out@;
        if k > 0 {
            append_chars(&mut out, &sep);
        }
        let name = chars_of(participants[k].as_str());
        append_chars(&mut out, &name);
        assert(ls.take(k + 1).drop_last() =~= ls.take(k as int));
        assert(ls.take(k + 1).last() == ls[k as int]);
        if k > 0 {
            assert(out@ =~= before + ", "@ + ls[k as int]);
        } else {
            assert(out@ =~= ls[0]);
        }
        k = k + 1;
    }
    assert(ls.take(participants.len() as int) =~= ls);
    string_from(&out, 0, out.len())
}

/// The public address of a workload.
pub fn app_url(name: &str) -> (r: String)
    ensures
        r@ == "https://"@ + name@ + ".hangar.garageisep.com"@,
{
    let head = concat("https://", name);
    concat(head.as_str(), ".hangar.garageisep.com")
}

} // verus!
