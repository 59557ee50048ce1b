use vstd::prelude::*;

use crate::dao::{UserDAO, UserRecordView};
use crate::error::AppError;
use crate::model::UserId;

verus! {

/// True iff some stored record carries the given email.
pub open spec fn spec_email_stored(m: Map<UserId, UserRecordView>, email: Seq<char>) -> bool {
    exists|k: UserId| #[trigger] m.contains_key(k) && m[k].email == email
}

/// The persistence contract of the user aggregate.
///
/// An implementation exposes its stored records as a map from
/// identifier to record (`records`).  Every operation may fail with an
/// `Internal` error for a storage or transport fault; beyond that, each
/// operation says exactly how its result relates to the map.  A lookup
/// miss is `NotFound`, and a failed `save` persists nothing.
pub trait UserRepository: Sized {
    /// The stored records, keyed by identifier.
    spec fn records(&self) -> Map<UserId, UserRecordView>;

    /// Produces a fresh identifier.  Collisions with stored identifiers
    /// are only probabilistically excluded, so nothing is promised of
    /// the value.
    fn next_id(&self) -> (r: Result<UserId, AppError>)
        ensures
            r matches Err(e) ==> e is Internal,
    ;

    fn id_exists(&self, id: &UserId) -> (r: Result<bool, AppError>)
        ensures
            r matches Ok(b) ==> b == self.records().contains_key(*id),
            r matches Err(e) ==> e is Internal,
    ;

    fn email_exists(&self, email: &String) -> (r: Result<bool, AppError>)
        ensures
            r matches Ok(b) ==> b == spec_email_stored(self.records(), email@),
            r matches Err(e) ==> e is Internal,
    ;

    fn by_id(&self, id: &UserId) -> (r: Result<UserDAO, AppError>)
        ensures
            r matches Ok(d) ==> self.records().contains_key(*id) && d@ == self.records()[*id]
                && d@.id == *id,
            r matches Err(e) ==> e is NotFound || e is Internal,
            r matches Err(e) && e is NotFound ==> !self.records().contains_key(*id),
    ;

    fn by_email(&self, email: &String) -> (r: Result<UserDAO, AppError>)
        ensures
            r matches Ok(d) ==> self.records().contains_key(d@.id) && self.records()[d@.id]
                == d@ && d@.email == email@,
            r matches Err(e) ==> e is NotFound || e is Internal,
            r matches Err(e) && e is NotFound ==> !spec_email_stored(self.records(), email@),
    ;

    /// Upserts the record under its own identifier.
    fn save(&mut self, user: &UserDAO) -> (r: Result<(), AppError>)
        ensures
            r matches Ok(_) ==> final(self).records() == old(self).records().insert(
                user@.id,
                user@,
            ),
            r matches Err(e) ==> e is Internal && final(self).records() == old(self).records(),
    ;
}

} // verus!
