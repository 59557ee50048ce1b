use vstd::prelude::*;
use vstd::string::StringExecFns;

use crate::error::AppError;

verus! {

/// The lifecycle state of a user.
#[derive(Debug, Clone, Copy, PartialEq, Eq, Structural)]
pub enum State {
    Active,
    Frozen,
    Deleted,
}

/// The role of a user.
#[derive(Debug, Clone, Copy, PartialEq, Eq, Structural)]
pub enum Status {
    User,
    Admin,
}

/// The opaque unique identifier of a user, wide enough for a
/// randomly-allocated identifier space.
#[derive(Debug, Clone, Copy, PartialEq, Eq, Structural, Hash)]
pub struct UserId(pub u128);

/// The lowercase token under which a `State` is persisted.
pub open spec fn spec_state_token(s: State) -> Seq<char> {
    match s {
        State::Active => "active"@,
        State::Frozen => "frozen"@,
        State::Deleted => "deleted"@,
    }
}

/// The lowercase token under which a `Status` is persisted.
pub open spec fn spec_status_token(s: Status) -> Seq<char> {
    match s {
        Status::User => "user"@,
        Status::Admin => "admin"@,
    }
}

/// Which `State`, if any, a stored token denotes.
pub open spec fn spec_parse_state(s: Seq<char>) -> Option<State> {
    if s == "active"@ {
        Some(State::Active)
    } else if s == "frozen"@ {
        Some(State::Frozen)
    } else if s == "deleted"@ {
        Some(State::Deleted)
    } else {
        None
    }
}

/// Which `Status`, if any, a stored token denotes.
pub open spec fn spec_parse_status(s: Seq<char>) -> Option<Status> {
    if s == "user"@ {
        Some(Status::User)
    } else if s == "admin"@ {
        Some(Status::Admin)
    } else {
        None
    }
}

/// Encoding and parsing of the enumeration tokens are mutually inverse:
/// the token of every `State` parses back to that `State`.
pub proof fn lemma_state_token_round_trip(s: State)
    ensures
        spec_parse_state(spec_state_token(s)) == Some(s),
{
    reveal_strlit("active");
    reveal_strlit("frozen");
    reveal_strlit("deleted");
    assert("frozen"@.index(0) == 'f' && "active"@.index(0) == 'a');
    assert("deleted"@.len() == 7 && "active"@.len() == 6);
}

/// The token of every `Status` parses back to that `Status`.
pub proof fn lemma_status_token_round_trip(s: Status)
    ensures
        spec_parse_status(spec_status_token(s)) == Some(s),
{
    reveal_strlit("user");
    reveal_strlit("admin");
    assert("user"@.len() == 4 && "admin"@.len() == 5);
}

/// True on `String`s that hold the same characters.
fn str_eq(a: &String, b: &str) -> (r: bool)
    ensures
        r == (a@ == b@),
{
    let owned: String = b.to_owned();
    *a == owned
}

impl State {
    /// Parses a lowercase storage token; any unrecognized token is
    /// `InvalidData`, with a message naming the token.
    pub fn parse(value: &String) -> (r: Result<State, AppError>)
        ensures
            match r {
                Ok(s) => spec_parse_state(value@) == Some(s),
                Err(e) => spec_parse_state(value@) is None && (e matches AppError::InvalidData(m)
                    && m@ == "unknown state token: "@ + value@),
            },
    {
        if str_eq(value, "active") {
            Ok(State::Active)
        } else if str_eq(value, "frozen") {
            Ok(State::Frozen)
        } else if str_eq(value, "deleted") {
            Ok(State::Deleted)
        } else {
            Err(AppError::InvalidData("unknown state token: ".to_owned().concat(value.as_str())))
        }
    }

    /// The lowercase token under which this state is persisted.
    pub fn to_string(&self) -> (r: String)
        ensures
            r@ == spec_state_token(*self),
    {
        match self {
            State::Active => "active".to_owned(),
            State::Frozen => "frozen".to_owned(),
            State::Deleted => "deleted".to_owned(),
        }
    }

    pub fn is_active(&self) -> (r: bool)
        ensures
            r == (*self == State::Active),
    {
        match self {
            State::Active => true,
            _ => false,
        }
    }
}

impl Status {
    /// Parses a lowercase storage token; any unrecognized token is
    /// `InvalidData`, with a message naming the token.
    pub fn parse(value: &String) -> (r: Result<Status, AppError>)
        ensures
            match r {
                Ok(s) => spec_parse_status(value@) == Some(s),
                Err(e) => spec_parse_status(value@) is None && (e matches AppError::InvalidData(m)
                    && m@ == "unknown status token: "@ + value@),
            },
    {
        if str_eq(value, "user") {
            Ok(Status::User)
        } else if str_eq(value, "admin") {
            Ok(Status::Admin)
        } else {
            Err(AppError::InvalidData("unknown status token: ".to_owned().concat(value.as_str())))
        }
    }

    /// The lowercase token under which this status is persisted.
    pub fn to_string(&self) -> (r: String)
        ensures
            r@ == spec_status_token(*self),
    {
        match self {
            Status::User => "user".to_owned(),
            Status::Admin => "admin".to_owned(),
        }
    }

    pub fn is_admin(&self) -> (r: bool)
        ensures
            r == (*self == Status::Admin),
    {
        match self {
            Status::Admin => true,
            _ => false,
        }
    }
}

/// The mathematical value of a `User`.
#[verifier::ext_equal]
pub ghost struct UserView {
    pub id: UserId,
    pub email: Seq<char>,
    pub state: State,
    pub status: Status,
    pub password_hash: Seq<char>,
    pub version: u64,
}

/// The user aggregate.  Mutated only through its own methods, which
/// enforce the activity and no-op-edit rules.
#[derive(Debug, Clone)]
pub struct User {
    id: UserId,
    email: String,
    state: State,
    status: Status,
    password_hash: String,
    version: u64,
}

impl View for User {
    type V = UserView;

    closed spec fn view(&self) -> UserView {
        UserView {
            id: self.id,
            email: self.email@,
            state: self.state,
            status: self.status,
            password_hash: self.password_hash@,
            version: self.version,
        }
    }
}

/// Why a mutator refused an edit.
pub ghost enum MutError {
    /// The user's state is not `Active`.
    NotActive,
    /// The requested value equals the current one.
    SameValue,
}

/// True iff the user may edit other users: active and admin.
pub open spec fn spec_can_edit(u: UserView) -> bool {
    u.state == State::Active && u.status == Status::Admin
}

/// What `new_email` does: guarded by activity, then by the no-op check.
pub open spec fn spec_new_email(u: UserView, email: Seq<char>) -> Result<UserView, MutError> {
    if u.state != State::Active {
        Err(MutError::NotActive)
    } else if u.email == email {
        Err(MutError::SameValue)
    } else {
        Ok(UserView { email, ..u })
    }
}

/// What `new_state` does: any transition between two distinct states,
/// with no activity guard.
pub open spec fn spec_new_state(u: UserView, state: State) -> Result<UserView, MutError> {
    if u.state == state {
        Err(MutError::SameValue)
    } else {
        Ok(UserView { state, ..u })
    }
}

/// What `new_status` does: guarded by activity, then by the no-op check.
pub open spec fn spec_new_status(u: UserView, status: Status) -> Result<UserView, MutError> {
    if u.state != State::Active {
        Err(MutError::NotActive)
    } else if u.status == status {
        Err(MutError::SameValue)
    } else {
        Ok(UserView { status, ..u })
    }
}

/// What `new_password_hash` does: guarded by activity only.  Re-setting
/// the current hash is allowed, asymmetric with the other mutators.
pub open spec fn spec_new_password_hash(u: UserView, hash: Seq<char>) -> Result<
    UserView,
    MutError,
> {
    if u.state != State::Active {
        Err(MutError::NotActive)
    } else {
        Ok(UserView { password_hash: hash, ..u })
    }
}

impl User {
    /// A freshly registered user: active, ordinary, not yet persisted
    /// (`version` 0).
    pub fn new(id: UserId, email: String, password_hash: String) -> (r: Result<User, AppError>)
        ensures
            r matches Ok(u) && u@ == (UserView {
                id,
                email: email@,
                state: State::Active,
                status: Status::User,
                password_hash: password_hash@,
                version: 0u64,
            }),
    {
        Ok(
            User {
                id,
                email,
                state: State::Active,
                status: Status::User,
                password_hash,
                version: 0,
            },
        )
    }

    /// Reconstructs a user from its persisted fields.  Version 0 is
    /// reserved for a not-yet-persisted user, so reconstructing from it
    /// is a fatal `Internal` error.
    pub fn restore(
        id: UserId,
        email: String,
        state: State,
        status: Status,
        password_hash: String,
        version: u64,
    ) -> (r: Result<User, AppError>)
        ensures
            match r {
                Ok(u) => version != 0 && u@ == (UserView {
                    id,
                    email: email@,
                    state,
                    status,
                    password_hash: password_hash@,
                    version,
                }),
                Err(e) => version == 0 && (e matches AppError::Internal(m) && m@
                    == "user version must not be 0"@),
            },
    {
        if version == 0 {
            return Err(AppError::Internal("user version must not be 0".to_owned()));
        }
        Ok(User { id, email, state, status, password_hash, version })
    }

    pub fn id(&self) -> (r: UserId)
        ensures
            r == self@.id,
    {
        self.id
    }

    pub fn email(&self) -> (r: String)
        ensures
            r@ == self@.email,
    {
        self.email.clone()
    }

    pub fn state(&self) -> (r: State)
        ensures
            r == self@.state,
    {
        self.state
    }

    pub fn status(&self) -> (r: Status)
        ensures
            r == self@.status,
    {
        self.status
    }

    pub fn password_hash(&self) -> (r: String)
        ensures
            r@ == self@.password_hash,
    {
        self.password_hash.clone()
    }

    pub fn current_version(&self) -> (r: u64)
        ensures
            r == self@.version,
    {
        self.version
    }

    /// The version under which the next persisted revision would be
    /// stored.
    pub fn modify_version(&self) -> (r: u64)
        requires
            self@.version < u64::MAX,
        ensures
            r == self@.version + 1,
    {
        self.version + 1
    }

    pub fn can_edit_others(&self) -> (r: bool)
        ensures
            r == spec_can_edit(self@),
    {
        self.state.is_active() && self.status.is_admin()
    }

    pub fn new_email(&mut self, email: String) -> (r: Result<(), AppError>)
        ensures
            match r {
                Ok(_) => spec_new_email(old(self)@, email@) == Ok::<UserView, MutError>(final(self)@),
                Err(e) => final(self)@ == old(self)@ && match spec_new_email(
                    old(self)@,
                    email@,
                ) {
                    Err(MutError::NotActive) => e is NotActive,
                    Err(MutError::SameValue) => e matches AppError::InvalidData(m) && m@
                        == "the new email equals the old one"@,
                    Ok(_) => false,
                },
            },
    {
        match self.check_state() {
            Ok(_) => {},
            Err(e) => {
                return Err(e);
            },
        }
        if self.email == email {
            return Err(AppError::InvalidData("the new email equals the old one".to_owned()));
        }
        self.email = email;
        Ok(())
    }

    pub fn new_state(&mut self, state: State) -> (r: Result<(), AppError>)
        ensures
            match r {
                Ok(_) => spec_new_state(old(self)@, state) == Ok::<UserView, MutError>(final(self)@),
                Err(e) => final(self)@ == old(self)@ && match spec_new_state(old(self)@, state) {
                    Err(MutError::NotActive) => e is NotActive,
                    Err(MutError::SameValue) => e matches AppError::InvalidData(m) && m@
                        == "the new state equals the old one"@,
                    Ok(_) => false,
                },
            },
    {
        if self.state == state {
            return Err(AppError::InvalidData("the new state equals the old one".to_owned()));
        }
        self.state = state;
        Ok(())
    }

    pub fn new_status(&mut self, status: Status) -> (r: Result<(), AppError>)
        ensures
            match r {
                Ok(_) => spec_new_status(old(self)@, status) == Ok::<UserView, MutError>(final(self)@),
                Err(e) => final(self)@ == old(self)@ && match spec_new_status(
                    old(self)@,
                    status,
                ) {
                    Err(MutError::NotActive) => e is NotActive,
                    Err(MutError::SameValue) => e matches AppError::InvalidData(m) && m@
                        == "the new status equals the old one"@,
                    Ok(_) => false,
                },
            },
    {
        match self.check_state() {
            Ok(_) => {},
            Err(e) => {
                return Err(e);
            },
        }
        if self.status == status {
            return Err(AppError::InvalidData("the new status equals the old one".to_owned()));
        }
        self.status = status;
        Ok(())
    }

    pub fn new_password_hash(&mut self, password_hash: String) -> (r: Result<(), AppError>)
        ensures
            match r {
                Ok(_) => spec_new_password_hash(old(self)@, password_hash@) == Ok::<UserView, MutError>(final(self)@),
                Err(e) => final(self)@ == old(self)@ && e is NotActive && spec_new_password_hash(
                    old(self)@,
                    password_hash@,
                ) == Err::<UserView, MutError>(MutError::NotActive),
            },
    {
        match self.check_state() {
            Ok(_) => {},
            Err(e) => {
                return Err(e);
            },
        }
        self.password_hash = password_hash;
        Ok(())
    }

    fn check_state(&self) -> (r: Result<(), AppError>)
        ensures
            match r {
                Ok(_) => self@.state == State::Active,
                Err(e) => self@.state != State::Active && e is NotActive,
            },
    {
        if !self.state.is_active() {
            Err(AppError::NotActive)
        } else {
            Ok(())
        }
    }
}

/// An active user accepts any email different from the current one,
/// and only the email field changes.
pub proof fn lemma_active_email_change(u: UserView, email: Seq<char>)
    requires
        u.state == State::Active,
        email != u.email,
    ensures
        spec_new_email(u, email) == Ok::<UserView, MutError>(UserView { email, ..u }),
{
}

/// An active user accepts any new password hash, the current one
/// included, and only the hash field changes.
pub proof fn lemma_active_password_change(u: UserView, hash: Seq<char>)
    requires
        u.state == State::Active,
    ensures
        spec_new_password_hash(u, hash) == Ok::<UserView, MutError>(
            UserView { password_hash: hash, ..u },
        ),
{
}

/// On a user whose state is not `Active`, the guarded mutators all
/// fail with the activity error, while a state transition to any
/// different state still succeeds and changes only the state field.
pub proof fn lemma_inactive_guards(
    u: UserView,
    email: Seq<char>,
    status: Status,
    hash: Seq<char>,
    state: State,
)
    requires
        u.state != State::Active,
    ensures
        spec_new_email(u, email) == Err::<UserView, MutError>(MutError::NotActive),
        spec_new_status(u, status) == Err::<UserView, MutError>(MutError::NotActive),
        spec_new_password_hash(u, hash) == Err::<UserView, MutError>(MutError::NotActive),
        state != u.state ==> spec_new_state(u, state) == Ok::<UserView, MutError>(
            UserView { state, ..u },
        ),
{
}

/// Setting a field to its current value is refused as a no-op edit,
/// with the one deliberate exception: re-setting the same password
/// hash is accepted and leaves the user as it was.
pub proof fn lemma_noop_edits_rejected(u: UserView)
    ensures
        u.state == State::Active ==> spec_new_email(u, u.email) == Err::<UserView, MutError>(
            MutError::SameValue,
        ),
        spec_new_state(u, u.state) == Err::<UserView, MutError>(MutError::SameValue),
        u.state == State::Active ==> spec_new_status(u, u.status) == Err::<UserView, MutError>(
            MutError::SameValue,
        ),
        u.state == State::Active ==> spec_new_password_hash(u, u.password_hash) == Ok::<
            UserView,
            MutError,
        >(u),
{
    assert(UserView { password_hash: u.password_hash, ..u } =~= u);
}

} // verus!
