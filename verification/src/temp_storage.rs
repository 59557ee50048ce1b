use vstd::prelude::*;

use crate::error::AppError;

verus! {

/// A string key-value store for transient data, exposed as a map from
/// key to value.  Every operation may fail with an `Internal` error for
/// a storage fault; a miss on `get` is `NotFound`, and a failed `set`
/// or `remove` stores nothing.
pub trait KeyValueStorage: Sized {
    /// The stored entries, keyed by key.
    spec fn entries(&self) -> Map<Seq<char>, Seq<char>>;

    fn get(&self, key: String) -> (r: Result<String, AppError>)
        ensures
            r matches Ok(v) ==> self.entries().contains_key(key@) && v@ == self.entries()[key@],
            r matches Err(e) ==> e is NotFound || e is Internal,
            r matches Err(e) && e is NotFound ==> !self.entries().contains_key(key@),
    ;

    fn set(&mut self, key: String, value: String) -> (r: Result<(), AppError>)
        ensures
            r matches Ok(_) ==> final(self).entries() == old(self).entries().insert(key@, value@),
            r matches Err(e) ==> e is Internal && final(self).entries() == old(self).entries(),
    ;

    fn remove(&mut self, key: String) -> (r: Result<(), AppError>)
        ensures
            r matches Ok(_) ==> final(self).entries() == old(self).entries().remove(key@),
            r matches Err(e) ==> e is Internal && final(self).entries() == old(self).entries(),
    ;
}

} // verus!
