//! Database linkage of a workload. The state is read afresh from the latest
//! data on each render: a database linked to the workload, else a personal
//! database of the caller linked to nothing, else neither.

use vstd::prelude::*;
use crate::api_error::{link_failed, ApiError};
use crate::model::DatabaseDetails;

verus! {

#[derive(PartialEq, Eq, Structural, Clone, Copy, Debug)]
pub enum Linkage {
    /// The workload has a database.
    Linked,
    /// The caller has a personal database that no workload uses.
    PersonalUnlinked,
    /// Neither.
    NoDatabase,
}

/// What the database card of the dashboard shows.
#[derive(PartialEq, Eq, Structural, Clone, Copy, Debug)]
pub enum DatabaseCard {
    /// Connection details, with unlink and delete.
    Managed,
    /// Connection details only.
    ReadOnly,
    /// An offer to link the caller's personal database.
    LinkExisting { database_id: i32 },
    /// An offer to create a database and link it.
    CreateAndLink,
    /// A note that no database is linked.
    NoneLinked,
}

/// An operation that the card offers.
#[derive(PartialEq, Eq, Structural, Clone, Copy, Debug)]
pub enum DatabaseOp {
    Unlink,
    Delete,
    LinkExisting,
    CreateAndLink,
}

pub open spec fn linkage_of(linked: &Option<DatabaseDetails>, personal: &Option<DatabaseDetails>) -> Linkage {
    if linked is Some {
        Linkage::Linked
    } else if personal is Some && personal->0.project_id is None {
        Linkage::PersonalUnlinked
    } else {
        Linkage::NoDatabase
    }
}

pub open spec fn card_of(
    linked: &Option<DatabaseDetails>,
    personal: &Option<DatabaseDetails>,
    strong: bool,
) -> DatabaseCard {
    match linkage_of(linked, personal) {
        Linkage::Linked => if strong {
            DatabaseCard::Managed
        } else {
            DatabaseCard::ReadOnly
        },
        Linkage::PersonalUnlinked => if strong {
            DatabaseCard::LinkExisting { database_id: personal->0.id }
        } else {
            DatabaseCard::NoneLinked
        },
        Linkage::NoDatabase => if strong {
            DatabaseCard::CreateAndLink
        } else {
            DatabaseCard::NoneLinked
        },
    }
}

pub open spec fn ops_of(card: DatabaseCard) -> Seq<DatabaseOp> {
    match card {
        DatabaseCard::Managed => seq![DatabaseOp::Unlink, DatabaseOp::Delete],
        DatabaseCard::LinkExisting { .. } => seq![DatabaseOp::LinkExisting],
        DatabaseCard::CreateAndLink => seq![DatabaseOp::CreateAndLink],
        _ => Seq::empty(),
    }
}

/// The linkage state of a workload, given its linked database and the
/// caller's personal database.
pub fn linkage(linked: &Option<DatabaseDetails>, personal: &Option<DatabaseDetails>) -> (r: Linkage)
    ensures
        r == linkage_of(linked, personal),
{
    if linked.is_some() {
        Linkage::Linked
    } else {
        match personal {
            Some(db) => if db.project_id.is_none() {
                Linkage::PersonalUnlinked
            } else {
                Linkage::NoDatabase
            },
            None => Linkage::NoDatabase,
        }
    }
}

/// What the database card shows to a caller with (`strong`) or without
/// strong access.
pub fn database_card(
    linked: &Option<DatabaseDetails>,
    personal: &Option<DatabaseDetails>,
    strong: bool,
) -> (r: DatabaseCard)
    ensures
        r == card_of(linked, personal, strong),
{
    match linkage(linked, personal) {
        Linkage::Linked => if strong {
            DatabaseCard::Managed
        } else {
            DatabaseCard::ReadOnly
        },
        Linkage::PersonalUnlinked => {
            if strong {
                match personal {
                    Some(db) => DatabaseCard::LinkExisting { database_id: db.id },
                    None => DatabaseCard::NoneLinked,
                }
            } else {
                DatabaseCard::NoneLinked
            }
        },
        Linkage::NoDatabase => if strong {
            DatabaseCard::CreateAndLink
        } else {
            DatabaseCard::NoneLinked
        },
    }
}

/// The operations that a card offers.
pub fn offered_ops(card: DatabaseCard) -> (r: Vec<DatabaseOp>)
    ensures
        r@ == ops_of(card),
{
    let mut r: Vec<DatabaseOp> = Vec::new();
    match card {
        DatabaseCard::Managed => {
            r.push(DatabaseOp::Unlink);
            r.push(DatabaseOp::Delete);
        },
        DatabaseCard::LinkExisting { .. } => {
            r.push(DatabaseOp::LinkExisting);
        },
        DatabaseCard::CreateAndLink => {
            r.push(DatabaseOp::CreateAndLink);
        },
        _ => {},
    }
    assert(r@ =~= ops_of(card));
    r
}

/// A request of the database card.
#[derive(PartialEq, Eq, Structural, Clone, Copy, Debug)]
pub enum DatabaseCall {
    /// Create a personal database.
    Create,
    /// Link a database to a workload.
    Link { project_id: i32, database_id: i32 },
    /// Clear the link of a workload's database, keeping the database.
    Unlink { project_id: i32 },
    /// Destroy a workload's database, and with it the link.
    DeleteLinked { project_id: i32 },
}

pub open spec fn call_of(op: DatabaseOp, card: DatabaseCard, project_id: i32) -> Option<DatabaseCall> {
    match (op, card) {
        (DatabaseOp::Unlink, DatabaseCard::Managed) => Some(DatabaseCall::Unlink { project_id }),
        (DatabaseOp::Delete, DatabaseCard::Managed) => Some(DatabaseCall::DeleteLinked { project_id }),
        (DatabaseOp::LinkExisting, DatabaseCard::LinkExisting { database_id }) => Some(
            DatabaseCall::Link { project_id, database_id },
        ),
        (DatabaseOp::CreateAndLink, DatabaseCard::CreateAndLink) => Some(DatabaseCall::Create),
        _ => None,
    }
}

/// The first request of an operation that the card offers; unlink and
/// delete act on the workload, not on the database. An operation the card
/// does not offer asks for nothing.
pub fn call_for(op: DatabaseOp, card: DatabaseCard, project_id: i32) -> (r: Option<DatabaseCall>)
    ensures
        r == call_of(op, card, project_id),
        r is Some <==> ops_of(card).contains(op),
{
    let r = match (op, card) {
        (DatabaseOp::Unlink, DatabaseCard::Managed) => Some(DatabaseCall::Unlink { project_id }),
        (DatabaseOp::Delete, DatabaseCard::Managed) => Some(DatabaseCall::DeleteLinked { project_id }),
        (DatabaseOp::LinkExisting, DatabaseCard::LinkExisting { database_id }) => Some(
            DatabaseCall::Link { project_id, database_id },
        ),
        (DatabaseOp::CreateAndLink, DatabaseCard::CreateAndLink) => Some(DatabaseCall::Create),
        _ => None,
    };
    proof {
        let ops = ops_of(card);
        if ops.contains(op) {
            let k = choose|k: int| 0 <= k < ops.len() && ops[k] == op;
            assert(ops[k] == op);
        }
        if r is Some {
            match card {
                DatabaseCard::Managed => {
                    if op == DatabaseOp::Unlink {
                        assert(ops[0] == op);
                    } else {
                        assert(ops[1] == op);
                    }
                },
                _ => {
                    assert(ops[0] == op);
                },
            }
        }
    }
    r
}

/// Where the create-and-link flow stands.
pub enum CreateLinkStep {
    Idle,
    Creating,
    Linking { database_id: i32 },
    Failed { error: ApiError },
}

/// The create-then-link flow for a workload without a database. When the
/// database is created but the link fails, the database stays, unlinked: the
/// caller finds it as a personal unlinked database on the next visit.
pub struct CreateLink {
    pub project_id: i32,
    pub step: CreateLinkStep,
}

impl CreateLink {
    pub fn new(project_id: i32) -> (r: CreateLink)
        ensures
            r.project_id == project_id,
            r.step is Idle,
    {
        CreateLink { project_id, step: CreateLinkStep::Idle }
    }

    pub open spec fn busy(&self) -> bool {
        self.step is Creating || self.step is Linking
    }

    /// Whether a request is in flight; the button is disabled meanwhile.
    pub fn is_loading(&self) -> (r: bool)
        ensures
            r == self.busy(),
    {
        match self.step {
            CreateLinkStep::Creating => true,
            CreateLinkStep::Linking { .. } => true,
            _ => false,
        }
    }

    /// The button is pressed: clear any error and create a database, unless
    /// a request is already in flight.
    pub fn start(&mut self) -> (r: Option<DatabaseCall>)
        ensures
            final(self).project_id == old(self).project_id,
            old(self).busy() ==> r is None && final(self).step == old(self).step,
            !old(self).busy() ==> r == Some(DatabaseCall::Create) && final(self).step is Creating,
    {
        if self.is_loading() {
            return None;
        }
        self.step = CreateLinkStep::Creating;
        Some(DatabaseCall::Create)
    }

    /// The creation came back: link the new database, or show the error.
    pub fn created(&mut self, result: Result<i32, ApiError>) -> (r: Option<DatabaseCall>)
        requires
            old(self).step is Creating,
        ensures
            final(self).project_id == old(self).project_id,
            match result {
                Ok(id) => r == Some(DatabaseCall::Link { project_id: old(self).project_id, database_id: id })
                    && final(self).step == (CreateLinkStep::Linking { database_id: id }),
                Err(e) => r is None && final(self).step == (CreateLinkStep::Failed { error: e }),
            },
    {
        match result {
            Ok(id) => {
                self.step = CreateLinkStep::Linking { database_id: id };
                Some(DatabaseCall::Link { project_id: self.project_id, database_id: id })
            },
            Err(e) => {
                self.step = CreateLinkStep::Failed { error: e };
                None
            },
        }
    }

    /// The link came back; returns whether the dashboard must reload. A
    /// failed link is reported as `LINK_FAILED`.
    pub fn linked(&mut self, ok: bool) -> (r: bool)
        requires
            old(self).step is Linking,
        ensures
            final(self).project_id == old(self).project_id,
            r == ok,
            ok ==> final(self).step is Idle,
            !ok ==> (final(self).step matches CreateLinkStep::Failed { error }
                && error.error_code@ == "LINK_FAILED"@ && error.details is None),
    {
        if ok {
            self.step = CreateLinkStep::Idle;
            true
        } else {
            self.step = CreateLinkStep::Failed { error: link_failed() };
            false
        }
    }
}

/// Without a linked database and without a personal one, a caller with
/// strong access is offered only to create and link.
pub proof fn lemma_offer_without_database(personal: &Option<DatabaseDetails>)
    requires
        personal is None,
    ensures
        ops_of(card_of(&None, personal, true)) == seq![DatabaseOp::CreateAndLink],
{
}

/// With an unlinked personal database, only linking it is offered.
pub proof fn lemma_offer_personal(personal: &Option<DatabaseDetails>)
    requires
        personal is Some,
        personal->0.project_id is None,
    ensures
        ops_of(card_of(&None, personal, true)) == seq![DatabaseOp::LinkExisting],
{
}

/// With a linked database, unlink and delete are offered exactly to callers
/// with strong access; others see the connection details only.
pub proof fn lemma_offer_linked(
    linked: &Option<DatabaseDetails>,
    personal: &Option<DatabaseDetails>,
    strong: bool,
)
    requires
        linked is Some,
    ensures
        strong ==> ops_of(card_of(linked, personal, strong)) == seq![DatabaseOp::Unlink, DatabaseOp::Delete],
        !strong ==> card_of(linked, personal, strong) == DatabaseCard::ReadOnly && ops_of(
            card_of(linked, personal, strong),
        ).len() == 0,
{
}

} // verus!
