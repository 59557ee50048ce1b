use vstd::prelude::*;

use crate::error::AppError;

verus! {

/// A capability that decides whether an email is well-formed.  Which
/// emails pass is the implementation's own spec-level predicate
/// `accepts`; the core only relies on `validate` deciding it.
pub trait EmailValidator: Sized {
    /// The emails this validator lets through.
    spec fn accepts(&self, email: Seq<char>) -> bool;

    fn validate(&self, email: &String) -> (r: Result<(), AppError>)
        ensures
            r is Ok <==> self.accepts(email@),
            r matches Err(e) ==> e is InvalidData,
    ;
}

/// A capability that decides whether a password satisfies the policy.
/// The owner's email is available to the policy, for example to reject
/// passwords containing it.
pub trait PasswordValidator: Sized {
    /// The (password, owner email) pairs this validator lets through.
    spec fn accepts(&self, password: Seq<char>, email: Seq<char>) -> bool;

    fn validate(&self, password: &String, email: &String) -> (r: Result<(), AppError>)
        ensures
            r is Ok <==> self.accepts(password@, email@),
            r matches Err(e) ==> e is InvalidData,
    ;
}

/// A capability that hashes passwords and checks a password against a
/// hash.  A hash may be salted, so nothing relates two hashes of the
/// same password; the only promise is that a produced hash matches the
/// password it was made from, under the implementation's own
/// `hash_matches` relation.
pub trait PasswordHasher: Sized {
    /// The (password, hash) pairs this hasher accepts as matching.
    spec fn hash_matches(&self, password: Seq<char>, hash: Seq<char>) -> bool;

    fn hash(&self, password: &String) -> (r: Result<String, AppError>)
        ensures
            r matches Ok(h) ==> self.hash_matches(password@, h@),
            r matches Err(e) ==> e is Internal,
    ;

    fn compare_password(&self, password: &String, hash: &String) -> (r: Result<bool, AppError>)
        ensures
            r matches Ok(b) ==> b == self.hash_matches(password@, hash@),
            r matches Err(e) ==> e is Internal,
    ;
}

/// The null email validator: every email passes.
pub struct NullEmailValidator;

impl EmailValidator for NullEmailValidator {
    open spec fn accepts(&self, email: Seq<char>) -> bool {
        true
    }

    fn validate(&self, email: &String) -> (r: Result<(), AppError>) {
        Ok(())
    }
}

/// The null password validator: every password passes.
pub struct NullPasswordValidator;

impl PasswordValidator for NullPasswordValidator {
    open spec fn accepts(&self, password: Seq<char>, email: Seq<char>) -> bool {
        true
    }

    fn validate(&self, password: &String, email: &String) -> (r: Result<(), AppError>) {
        Ok(())
    }
}

/// The null password hasher: the hash of a password is the password
/// itself.  For tests and wiring only; it applies no one-way function.
pub struct NullPasswordHasher;

impl PasswordHasher for NullPasswordHasher {
    open spec fn hash_matches(&self, password: Seq<char>, hash: Seq<char>) -> bool {
        password == hash
    }

    fn hash(&self, password: &String) -> (r: Result<String, AppError>)
        ensures
            r matches Ok(h) && h@ == password@,
    {
        Ok(password.clone())
    }

    fn compare_password(&self, password: &String, hash: &String) -> (r: Result<bool, AppError>)
        ensures
            r matches Ok(b) && b == (password@ == hash@),
    {
        Ok(*password == *hash)
    }
}

} // verus!
