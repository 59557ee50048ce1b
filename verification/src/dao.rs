use vstd::prelude::*;

use crate::error::AppError;
use crate::model::{
    spec_parse_state, spec_parse_status, spec_state_token, spec_status_token, State, Status, User,
    UserId, UserView,
};

verus! {

/// The mathematical value of a persisted user record.
#[verifier::ext_equal]
pub ghost struct UserRecordView {
    pub id: UserId,
    pub email: Seq<char>,
    pub state: Seq<char>,
    pub status: Seq<char>,
    pub password_hash: Seq<char>,
    pub version: u64,
}

/// The flattened projection of a `User` for storage, with `state` and
/// `status` serialized as lowercase tokens.
#[derive(Debug)]
pub struct UserDAO {
    pub id: UserId,
    pub email: String,
    pub state: String,
    pub status: String,
    pub password_hash: String,
    pub version: u64,
}

impl View for UserDAO {
    type V = UserRecordView;

    open spec fn view(&self) -> UserRecordView {
        UserRecordView {
            id: self.id,
            email: self.email@,
            state: self.state@,
            status: self.status@,
            password_hash: self.password_hash@,
            version: self.version,
        }
    }
}

impl Clone for UserDAO {
    /// A clone carries the same record value.
    fn clone(&self) -> (res: Self)
        ensures
            res@ == self@,
    {
        UserDAO {
            id: self.id,
            email: self.email.clone(),
            state: self.state.clone(),
            status: self.status.clone(),
            password_hash: self.password_hash.clone(),
            version: self.version,
        }
    }
}

/// The record under which a user is persisted.
pub open spec fn spec_record_of(u: UserView) -> UserRecordView {
    UserRecordView {
        id: u.id,
        email: u.email,
        state: spec_state_token(u.state),
        status: spec_status_token(u.status),
        password_hash: u.password_hash,
        version: u.version,
    }
}

/// Why a stored record could not be reconstructed into a user.
pub ghost enum RestoreError {
    /// The `state` field is no known token (an `InvalidData` error).
    UnknownState,
    /// The `status` field is no known token (an `InvalidData` error).
    UnknownStatus,
    /// The record carries the reserved version 0 (an `Internal` error).
    ZeroVersion,
}

/// What reconstructing a stored record yields: the state token is
/// parsed first, then the status token, then the version invariant is
/// checked.
pub open spec fn spec_restore_record(d: UserRecordView) -> Result<UserView, RestoreError> {
    match spec_parse_state(d.state) {
        None => Err(RestoreError::UnknownState),
        Some(state) => match spec_parse_status(d.status) {
            None => Err(RestoreError::UnknownStatus),
            Some(status) => if d.version == 0 {
                Err(RestoreError::ZeroVersion)
            } else {
                Ok(
                    UserView {
                        id: d.id,
                        email: d.email,
                        state,
                        status,
                        password_hash: d.password_hash,
                        version: d.version,
                    },
                )
            },
        },
    }
}

/// The error under which a failed reconstruction of the record `d` is
/// surfaced, message included.
pub open spec fn spec_restore_error_matches(re: RestoreError, d: UserRecordView, e: AppError) -> bool {
    match re {
        RestoreError::UnknownState => e matches AppError::InvalidData(m) && m@
            == "unknown state token: "@ + d.state,
        RestoreError::UnknownStatus => e matches AppError::InvalidData(m) && m@
            == "unknown status token: "@ + d.status,
        RestoreError::ZeroVersion => e matches AppError::Internal(m) && m@
            == "user version must not be 0"@,
    }
}

impl UserDAO {
    /// Flattens a user into its storage record.
    pub fn from_user(user: &User) -> (d: UserDAO)
        ensures
            d@ == spec_record_of(user@),
    {
        UserDAO {
            id: user.id(),
            email: user.email(),
            state: user.state().to_string(),
            status: user.status().to_string(),
            password_hash: user.password_hash(),
            version: user.current_version(),
        }
    }

    /// Reconstructs the domain user from this record.  An unrecognized
    /// `state` or `status` token is `InvalidData`; the reserved version
    /// 0 is an `Internal` error.
    pub fn into_user(self) -> (r: Result<User, AppError>)
        ensures
            match r {
                Ok(u) => spec_restore_record(self@) == Ok::<UserView, RestoreError>(u@),
                Err(e) => spec_restore_record(self@) matches Err(re)
                    && spec_restore_error_matches(re, self@, e),
            },
    {
        let state: State = match State::parse(&self.state) {
            Ok(s) => s,
            Err(e) => {
                return Err(e);
            },
        };
        let status: Status = match Status::parse(&self.status) {
            Ok(s) => s,
            Err(e) => {
                return Err(e);
            },
        };
        User::restore(self.id, self.email, state, status, self.password_hash, self.version)
    }
}

/// Flattening a user and reconstructing the record yields the user
/// back: persistence loses nothing.
pub proof fn lemma_record_round_trip(u: UserView)
    requires
        u.version != 0,
    ensures
        spec_restore_record(spec_record_of(u)) == Ok::<UserView, RestoreError>(u),
{
    crate::model::lemma_state_token_round_trip(u.state);
    crate::model::lemma_status_token_round_trip(u.status);
}

/// A stored record carrying the reserved version 0 cannot be
/// reconstructed.
pub proof fn lemma_zero_version_restore(d: UserRecordView)
    requires
        d.version == 0,
    ensures
        spec_restore_record(d) is Err,
{
}

} // verus!
