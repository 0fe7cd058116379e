use vstd::prelude::*;
use vstd::string::*;
use crate::error::{bad_request_with, ApiError};
use crate::product::{
    check_update, merge_product, merged, product_not_found, update_problem, Product, UpdateProduct,
};
use crate::user::{
    check_user_update, merge_user, merged_user, user_not_found, user_update_problem, UpdateUser, User,
};

verus! {

/// A stored row that a merge-update can rewrite.
pub trait Mergeable: Sized {
    type Patch;

    /// `out` is a possible outcome of merging `patch` into `current`.
    spec fn merges_to(current: Self, patch: Self::Patch, out: Result<Self, ApiError>) -> bool;

    /// Merges `patch` into `current`.
    fn merge(current: &Self, patch: &Self::Patch) -> (r: Result<Self, ApiError>)
        ensures
            Self::merges_to(*current, *patch, r),
    ;

    /// The failure for a row `id` that is not there.
    fn missing(id: u128) -> (r: ApiError)
        ensures
            r is NotFound,
    ;
}

impl Mergeable for Product {
    type Patch = UpdateProduct;

    /// A patch that breaks the domain rules is refused; any other is merged.
    open spec fn merges_to(current: Product, patch: UpdateProduct, out: Result<Product, ApiError>) -> bool {
        match update_problem(patch) {
            Some(m) => bad_request_with(out, m),
            None => out == Ok::<Product, ApiError>(merged(current, patch)),
        }
    }

    fn merge(current: &Product, patch: &UpdateProduct) -> (r: Result<Product, ApiError>) {
        check_update(patch)?;
        Ok(merge_product(current, patch))
    }

    fn missing(id: u128) -> (r: ApiError) {
        product_not_found(id)
    }
}

impl Mergeable for User {
    type Patch = UpdateUser;

    /// A patch with a malformed email or a short password is refused; any
    /// other is merged, which fails only when hashing fails.
    open spec fn merges_to(current: User, patch: UpdateUser, out: Result<User, ApiError>) -> bool {
        match user_update_problem(patch) {
            Some(m) => bad_request_with(out, m),
            None => match out {
                Ok(u) => merged_user(current, patch, u),
                Err(e) => e is Internal,
            },
        }
    }

    fn merge(current: &User, patch: &UpdateUser) -> (r: Result<User, ApiError>) {
        check_user_update(patch)?;
        merge_user(current, patch)
    }

    fn missing(id: u128) -> (r: ApiError) {
        user_not_found(id)
    }
}

/// What the storage reports back after an action.
#[derive(Debug, PartialEq, Eq)]
pub enum TxEvent<R> {
    /// The transaction is open.
    Opened,
    /// The locking read returned this row, or none.
    Locked(Option<R>),
    /// The write returned this row.
    Written(R),
    Committed,
    RolledBack,
    /// The last action failed, with the driver's description.
    Failed(String),
}

/// What the caller must do next.
#[derive(Debug, PartialEq, Eq)]
pub enum TxAction<R> {
    /// Open a transaction.
    Begin,
    /// Read row `id` and lock it until the transaction ends.
    Lock(u128),
    /// Write this row back.
    Write(R),
    Commit,
    Rollback,
    /// The update is over, with this outcome.
    Finish(Result<R, ApiError>),
}

/// Where an update transaction stands.
#[derive(Debug, PartialEq, Eq)]
pub enum TxPhase<R> {
    Idle,
    Opening,
    Locking,
    Writing,
    /// Waiting for the commit of this written row.
    Committing(R),
    /// Waiting for the rollback; the update then fails with this error.
    RollingBack(ApiError),
    Done,
}

/// A transactional merge-update of one row: open, read the current row under
/// a row lock, merge, write, commit. Concurrent updates of one row are thus
/// serialized, and each merges into the row the previous one committed.
/// Every path that leaves an open transaction commits or rolls it back.
pub struct UpdateTx<R: Mergeable> {
    pub id: u128,
    pub patch: R::Patch,
    pub phase: TxPhase<R>,
}

/// One step of the transaction: from the phase before, the event the
/// storage reported, to the phase after and the action asked for.
pub open spec fn tx_step<R: Mergeable>(
    id: u128,
    patch: R::Patch,
    before: TxPhase<R>,
    ev: TxEvent<R>,
    after: TxPhase<R>,
    act: TxAction<R>,
) -> bool {
    match (before, ev) {
        (TxPhase::Opening, TxEvent::Opened) => after is Locking && act == TxAction::<R>::Lock(id),
        (TxPhase::Opening, TxEvent::Failed(t)) => after is Done && act == TxAction::<R>::Finish(
            Err(ApiError::Database(t)),
        ),
        (TxPhase::Locking, TxEvent::Locked(None)) => after matches TxPhase::RollingBack(e) && e is NotFound
            && act is Rollback,
        (TxPhase::Locking, TxEvent::Locked(Some(current))) => exists|m: Result<R, ApiError>|
            {
                &&& R::merges_to(current, patch, m)
                &&& match m {
                    Ok(row) => after is Writing && act == TxAction::Write(row),
                    Err(e) => after == TxPhase::<R>::RollingBack(e) && act is Rollback,
                }
            },
        (TxPhase::Writing, TxEvent::Written(row)) => after == TxPhase::Committing(row) && act is Commit,
        (TxPhase::Committing(row), TxEvent::Committed) => after is Done && act == TxAction::Finish(
            Ok(row),
        ),
        (TxPhase::Committing(_), TxEvent::Failed(t)) => after is Done && act == TxAction::<R>::Finish(
            Err(ApiError::Database(t)),
        ),
        (TxPhase::RollingBack(e), TxEvent::RolledBack) => after is Done && act == TxAction::<R>::Finish(
            Err(e),
        ),
        (TxPhase::RollingBack(e), TxEvent::Failed(_)) => after is Done && act == TxAction::<R>::Finish(
            Err(e),
        ),
        (TxPhase::Locking, TxEvent::Failed(t)) => after == TxPhase::<R>::RollingBack(
            ApiError::Database(t),
        ) && act is Rollback,
        (TxPhase::Writing, TxEvent::Failed(t)) => after == TxPhase::<R>::RollingBack(
            ApiError::Database(t),
        ) && act is Rollback,
        (TxPhase::Idle, _) | (TxPhase::Done, _) => after is Done && act matches TxAction::Finish(
            Err(ApiError::Internal(_)),
        ),
        (TxPhase::Opening, _) => after is Done && act matches TxAction::Finish(Err(ApiError::Internal(_))),
        _ => after matches TxPhase::RollingBack(ApiError::Internal(_)) && act is Rollback,
    }
}

fn unexpected() -> (r: ApiError)
    ensures
        r is Internal,
{
    ApiError::Internal(String::from_str("Unexpected storage event"))
}

impl<R: Mergeable> UpdateTx<R> {
    /// An update of row `id` by `patch`, not yet started.
    pub fn new(id: u128, patch: R::Patch) -> (r: Self)
        ensures
            r.id == id,
            r.patch == patch,
            r.phase is Idle,
    {
        UpdateTx { id, patch, phase: TxPhase::Idle }
    }

    /// Starts the update: the first action opens the transaction.
    pub fn start(self) -> (r: (Self, TxAction<R>))
        requires
            self.phase is Idle,
        ensures
            r.0.phase is Opening,
            r.0.id == self.id,
            r.0.patch == self.patch,
            r.1 is Begin,
    {
        (UpdateTx { id: self.id, patch: self.patch, phase: TxPhase::Opening }, TxAction::Begin)
    }

    /// Takes the storage's report on the last action and says what to do
    /// next. A report that does not fit the phase ends the update with an
    /// internal failure, rolling back what is open.
    pub fn step(self, ev: TxEvent<R>) -> (r: (Self, TxAction<R>))
        ensures
            r.0.id == self.id,
            r.0.patch == self.patch,
            tx_step(self.id, self.patch, self.phase, ev, r.0.phase, r.1),
    {
        let UpdateTx { id, patch, phase } = self;
        let (next, act): (TxPhase<R>, TxAction<R>) = match (phase, ev) {
            (TxPhase::Opening, TxEvent::Opened) => (TxPhase::Locking, TxAction::Lock(id)),
            (TxPhase::Opening, TxEvent::Failed(t)) => (
                TxPhase::Done,
                TxAction::Finish(Err(ApiError::Database(t))),
            ),
            (TxPhase::Locking, TxEvent::Locked(None)) => (
                TxPhase::RollingBack(R::missing(id)),
                TxAction::Rollback,
            ),
            (TxPhase::Locking, TxEvent::Locked(Some(current))) => {
                let m = R::merge(&current, &patch);
                match m {
                    Ok(row) => (TxPhase::Writing, TxAction::Write(row)),
                    Err(e) => (TxPhase::RollingBack(e), TxAction::Rollback),
                }
            },
            (TxPhase::Writing, TxEvent::Written(row)) => (TxPhase::Committing(row), TxAction::Commit),
            (TxPhase::Committing(row), TxEvent::Committed) => (TxPhase::Done, TxAction::Finish(Ok(row))),
            (TxPhase::Committing(_), TxEvent::Failed(t)) => (
                TxPhase::Done,
                TxAction::Finish(Err(ApiError::Database(t))),
            ),
            (TxPhase::RollingBack(e), TxEvent::RolledBack) => (TxPhase::Done, TxAction::Finish(Err(e))),
            (TxPhase::RollingBack(e), TxEvent::Failed(_)) => (TxPhase::Done, TxAction::Finish(Err(e))),
            (TxPhase::Locking, TxEvent::Failed(t)) => (
                TxPhase::RollingBack(ApiError::Database(t)),
                TxAction::Rollback,
            ),
            (TxPhase::Writing, TxEvent::Failed(t)) => (
                TxPhase::RollingBack(ApiError::Database(t)),
                TxAction::Rollback,
            ),
            (TxPhase::Idle, _) | (TxPhase::Done, _) | (TxPhase::Opening, _) => (
                TxPhase::Done,
                TxAction::Finish(Err(unexpected())),
            ),
            _ => (TxPhase::RollingBack(unexpected()), TxAction::Rollback),
        };
        (UpdateTx { id, patch, phase: next }, act)
    }
}

/// No update leaves a transaction open: while one is open and neither
/// committed nor rolled back (the locking and writing phases), the next
/// action is never to finish; and an update finishes with success only
/// right after its commit went through.
pub proof fn lemma_finish_closes_the_transaction<R: Mergeable>(
    id: u128,
    patch: R::Patch,
    before: TxPhase<R>,
    ev: TxEvent<R>,
    after: TxPhase<R>,
    act: TxAction<R>,
)
    requires
        tx_step(id, patch, before, ev, after, act),
    ensures
        (before is Locking || before is Writing) ==> !(act is Finish),
        (act matches TxAction::Finish(Ok(_))) ==> (before is Committing && ev is Committed),
{
}

/// The row an update writes is the merge of its patch into the row read
/// under the lock, so a second update of the same row builds on what the
/// first one committed.
pub proof fn lemma_write_merges_the_locked_row<R: Mergeable>(
    id: u128,
    patch: R::Patch,
    current: R,
    after: TxPhase<R>,
    row: R,
)
    requires
        tx_step(id, patch, TxPhase::Locking, TxEvent::Locked(Some(current)), after, TxAction::Write(row)),
    ensures
        R::merges_to(current, patch, Ok(row)),
{
}

} // verus!
