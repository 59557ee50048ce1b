use vstd::prelude::*;

use crate::dao::{
    spec_record_of, spec_restore_error_matches, spec_restore_record, RestoreError, UserDAO,
    UserRecordView,
};
use crate::dto::{ChangeUserCommand, ChangeUserCommandView};
use crate::error::AppError;
use crate::model::{
    spec_can_edit, spec_new_email, spec_new_state, spec_new_status, spec_parse_state,
    spec_parse_status, MutError, State, Status, User, UserId, UserView,
};
use crate::repository::UserRepository;
use crate::validator::{EmailValidator, PasswordHasher, PasswordValidator};

verus! {

/// Why a user could not be loaded from the stored records.
pub ghost enum LoadError {
    /// No record is stored under the identifier (a `NotFound` error).
    Missing,
    /// The stored record could not be reconstructed.
    BadRecord(RestoreError),
}

/// Loading a user: look the record up, then reconstruct it.
pub open spec fn spec_load(m: Map<UserId, UserRecordView>, id: UserId) -> Result<
    UserView,
    LoadError,
> {
    if !m.contains_key(id) {
        Err(LoadError::Missing)
    } else {
        match spec_restore_record(m[id]) {
            Ok(u) => Ok(u),
            Err(re) => Err(LoadError::BadRecord(re)),
        }
    }
}

/// Why one requested field mutation failed.
pub ghost enum StepError {
    /// The email validator rejected the email (an `InvalidData` error).
    EmailRejected,
    /// `new_email` refused the edit.
    EmailEdit(MutError),
    /// The password validator rejected the password (an `InvalidData`
    /// error).
    PasswordRejected,
    /// `new_password_hash` refused the edit.
    PasswordEdit(MutError),
    /// The state field is no known token (an `InvalidData` error).
    StateUnknown,
    /// `new_state` refused the edit.
    StateEdit(MutError),
    /// The status field is no known token (an `InvalidData` error).
    StatusUnknown,
    /// `new_status` refused the edit.
    StatusEdit(MutError),
}

/// The `AppError` kind under which a refused mutation is surfaced.
pub open spec fn spec_mut_error_matches(me: MutError, e: AppError) -> bool {
    match me {
        MutError::NotActive => e is NotActive,
        MutError::SameValue => e is InvalidData,
    }
}

/// The error under which a failed field step of the command `cmd` is
/// surfaced.  For errors the library makes itself the message is
/// pinned too; a validator's rejection carries the validator's own
/// message, of which only the kind is known.
pub open spec fn spec_step_matches(k: StepError, cmd: ChangeUserCommandView, e: AppError) -> bool {
    match k {
        StepError::EmailRejected => e is InvalidData,
        StepError::EmailEdit(MutError::NotActive) => e is NotActive,
        StepError::EmailEdit(MutError::SameValue) => e matches AppError::InvalidData(m) && m@
            == "the new email equals the old one"@,
        StepError::PasswordRejected => e is InvalidData,
        StepError::PasswordEdit(me) => spec_mut_error_matches(me, e),
        StepError::StateUnknown => cmd.state matches Some(s) && (e matches AppError::InvalidData(
            m,
        ) && m@ == "unknown state token: "@ + s),
        StepError::StateEdit(MutError::NotActive) => e is NotActive,
        StepError::StateEdit(MutError::SameValue) => e matches AppError::InvalidData(m) && m@
            == "the new state equals the old one"@,
        StepError::StatusUnknown => cmd.status matches Some(s) && (e matches
        AppError::InvalidData(m) && m@ == "unknown status token: "@ + s),
        StepError::StatusEdit(MutError::NotActive) => e is NotActive,
        StepError::StatusEdit(MutError::SameValue) => e matches AppError::InvalidData(m) && m@
            == "the new status equals the old one"@,
    }
}

/// The email step: validate the format, then apply `new_email`.
pub open spec fn spec_email_step<E: EmailValidator>(
    ev: E,
    u: UserView,
    email: Option<Seq<char>>,
) -> Result<UserView, StepError> {
    match email {
        None => Ok(u),
        Some(e) => if !ev.accepts(e) {
            Err(StepError::EmailRejected)
        } else {
            match spec_new_email(u, e) {
                Ok(u2) => Ok(u2),
                Err(me) => Err(StepError::EmailEdit(me)),
            }
        },
    }
}

/// The password step: validate the password against the policy (using
/// the email as it stands after the email step), then apply the
/// activity guard of `new_password_hash`.  The hash field itself is
/// supplied by the hasher and accounted by `spec_with_hash`.
pub open spec fn spec_password_step<P: PasswordValidator>(
    pv: P,
    u: UserView,
    password: Option<Seq<char>>,
) -> Result<UserView, StepError> {
    match password {
        None => Ok(u),
        Some(p) => if !pv.accepts(p, u.email) {
            Err(StepError::PasswordRejected)
        } else if u.state != State::Active {
            Err(StepError::PasswordEdit(MutError::NotActive))
        } else {
            Ok(u)
        },
    }
}

/// The state step: parse the token, then apply `new_state`.
pub open spec fn spec_state_step(u: UserView, state: Option<Seq<char>>) -> Result<
    UserView,
    StepError,
> {
    match state {
        None => Ok(u),
        Some(s) => match spec_parse_state(s) {
            None => Err(StepError::StateUnknown),
            Some(st) => match spec_new_state(u, st) {
                Ok(u2) => Ok(u2),
                Err(me) => Err(StepError::StateEdit(me)),
            },
        },
    }
}

/// The status step: parse the token, then apply `new_status`.
pub open spec fn spec_status_step(u: UserView, status: Option<Seq<char>>) -> Result<
    UserView,
    StepError,
> {
    match status {
        None => Ok(u),
        Some(s) => match spec_parse_status(s) {
            None => Err(StepError::StatusUnknown),
            Some(st) => match spec_new_status(u, st) {
                Ok(u2) => Ok(u2),
                Err(me) => Err(StepError::StatusEdit(me)),
            },
        },
    }
}

/// All four field steps, in the fixed order email, password, state,
/// status; the first failure wins.
pub open spec fn spec_field_steps<E: EmailValidator, P: PasswordValidator>(
    ev: E,
    pv: P,
    u: UserView,
    cmd: ChangeUserCommandView,
) -> Result<UserView, StepError> {
    match spec_email_step(ev, u, cmd.email) {
        Err(k) => Err(k),
        Ok(u1) => match spec_password_step(pv, u1, cmd.password) {
            Err(k) => Err(k),
            Ok(u2) => match spec_state_step(u2, cmd.state) {
                Err(k) => Err(k),
                Ok(u3) => spec_status_step(u3, cmd.status),
            },
        },
    }
}

/// The stored hash after the command: the hasher's output `h` when a
/// password was supplied, the user's own hash otherwise.
pub open spec fn spec_with_hash(u: UserView, password: Option<Seq<char>>, h: Seq<char>) -> UserView {
    match password {
        Some(_) => UserView { password_hash: h, ..u },
        None => u,
    }
}

/// After a successful command the stored records are the old ones with
/// the target's record replaced; the stored hash is the hasher's
/// output when a password was supplied.
pub open spec fn spec_saved_outcome<H: PasswordHasher>(
    hasher: H,
    m0: Map<UserId, UserRecordView>,
    mpost: Map<UserId, UserRecordView>,
    uf: UserView,
    user_id: UserId,
    password: Option<Seq<char>>,
) -> bool {
    exists|h: Seq<char>|
        #![trigger spec_with_hash(uf, password, h)]
        {
            let fin = spec_with_hash(uf, password, h);
            &&& (password matches Some(p) ==> hasher.hash_matches(p, h))
            &&& mpost == m0.insert(user_id, spec_record_of(fin))
        }
}

/// The full outcome of `execute`, step by step: `pre` is the
/// orchestrator before the call, `mpost` the stored records after it,
/// and `r` its result.  A
/// storage or hasher fault may surface as `Internal` at any point;
/// apart from that, every failure is pinned to its cause, and on
/// success the stored records are exactly the old ones with the
/// target's record replaced.
pub open spec fn spec_execute_outcome<R, E, P, H>(
    pre: ChangeUserUseCase<R, E, P, H>,
    mpost: Map<UserId, UserRecordView>,
    cmd: ChangeUserCommandView,
    r: Result<(), AppError>,
) -> bool where
    R: UserRepository,
    E: EmailValidator,
    P: PasswordValidator,
    H: PasswordHasher,
 {
    let m0 = pre.spec_repo().records();
    let ev = pre.spec_email_validator();
    let pv = pre.spec_password_validator();
    match spec_load(m0, cmd.initiator_id) {
        Err(LoadError::Missing) => r matches Err(e) && (e is NotFound || e is Internal),
        Err(LoadError::BadRecord(re)) => r matches Err(e) && (spec_restore_error_matches(
            re,
            m0[cmd.initiator_id],
            e,
        ) || e is Internal),
        Ok(initiator) => if !spec_can_edit(initiator) {
            r matches Err(e) && (e is NotAllowed || e is Internal)
        } else {
            let target0 = if cmd.user_id == cmd.initiator_id {
                Ok(initiator)
            } else {
                spec_load(m0, cmd.user_id)
            };
            match target0 {
                Err(LoadError::Missing) => r matches Err(e) && (e is NotFound || e is Internal),
                Err(LoadError::BadRecord(re)) => r matches Err(e) && (
                spec_restore_error_matches(re, m0[cmd.user_id], e) || e is Internal),
                Ok(u0) => match spec_field_steps(ev, pv, u0, cmd) {
                    Err(k) => r matches Err(e) && (spec_step_matches(k, cmd, e)
                        || e is Internal),
                    Ok(uf) => match r {
                        Err(e) => e is Internal,
                        Ok(_) => spec_saved_outcome(
                            pre.spec_password_hasher(),
                            m0,
                            mpost,
                            uf,
                            cmd.user_id,
                            cmd.password,
                        ),
                    },
                },
            }
        },
    }
}

/// The change-user orchestration: loads the initiator, enforces
/// authorization, resolves the target, applies the requested field
/// mutations in memory, and persists the result only when every step
/// succeeded.
pub struct ChangeUserUseCase<R, E, P, H> where
    R: UserRepository,
    E: EmailValidator,
    P: PasswordValidator,
    H: PasswordHasher,
 {
    repo: R,
    email_validator: E,
    password_validator: P,
    password_hasher: H,
}

impl<R, E, P, H> ChangeUserUseCase<R, E, P, H> where
    R: UserRepository,
    E: EmailValidator,
    P: PasswordValidator,
    H: PasswordHasher,
 {
    pub closed spec fn spec_repo(&self) -> R {
        self.repo
    }

    pub closed spec fn spec_email_validator(&self) -> E {
        self.email_validator
    }

    pub closed spec fn spec_password_validator(&self) -> P {
        self.password_validator
    }

    pub closed spec fn spec_password_hasher(&self) -> H {
        self.password_hasher
    }

    pub fn new(repo: R, email_validator: E, password_validator: P, password_hasher: H) -> (r:
        Self)
        ensures
            r.spec_repo() == repo,
            r.spec_email_validator() == email_validator,
            r.spec_password_validator() == password_validator,
            r.spec_password_hasher() == password_hasher,
    {
        Self { repo, email_validator, password_validator, password_hasher }
    }

    /// The stored records, for callers that inspect the outcome.
    pub fn repo(&self) -> (r: &R)
        ensures
            r == self.spec_repo(),
    {
        &self.repo
    }

    /// Applies one change command.
    ///
    /// The contract follows the algorithm step by step.  Any storage or
    /// hasher fault may surface as `Internal` at any point; apart from
    /// that, each failure is pinned to its cause, and on success the
    /// stored records are exactly the old ones with the target's record
    /// replaced.  On any failure nothing is persisted.
    #[verifier::rlimit(100)]
    #[verifier::spinoff_prover]
    pub fn execute(&mut self, command: ChangeUserCommand) -> (r: Result<(), AppError>)
        ensures
            final(self).spec_email_validator() == old(self).spec_email_validator(),
            final(self).spec_password_validator() == old(self).spec_password_validator(),
            final(self).spec_password_hasher() == old(self).spec_password_hasher(),
            r matches Err(e) ==> final(self).spec_repo().records() == old(
                self,
            ).spec_repo().records(),
            spec_execute_outcome(*old(self), final(self).spec_repo().records(), command@, r),
    {
        let ghost pre = *self;
        let ghost m0 = self.spec_repo().records();
        let ghost cmdv = command@;
        let initiator_dao = match self.repo.by_id(&command.initiator_id) {
            Ok(d) => d,
            Err(e) => {
                proof {
                    assert(spec_execute_outcome(
                        pre,
                        self.spec_repo().records(),
                        cmdv,
                        Err::<(), AppError>(e),
                    ));
                }
                return Err(e);
            },
        };
        let initiator = match initiator_dao.into_user() {
            Ok(u) => u,
            Err(e) => {
                proof {
                    assert(spec_execute_outcome(
                        pre,
                        self.spec_repo().records(),
                        cmdv,
                        Err::<(), AppError>(e),
                    ));
                }
                return Err(e);
            },
        };
        let ghost iv = initiator@;
        proof {
            assert(spec_load(m0, cmdv.initiator_id) == Ok::<UserView, LoadError>(iv));
        }
        if !initiator.can_edit_others() {
            let e = AppError::NotAllowed;
            proof {
                assert(spec_execute_outcome(
                    pre,
                    self.spec_repo().records(),
                    cmdv,
                    Err::<(), AppError>(e),
                ));
            }
            return Err(e);
        }
        let mut user: User;
        if command.initiator_id == command.user_id {
            user = initiator;
        } else {
            let target_dao = match self.repo.by_id(&command.user_id) {
                Ok(d) => d,
                Err(e) => {
                    proof {
                        assert(spec_execute_outcome(
                            pre,
                            self.spec_repo().records(),
                            cmdv,
                            Err::<(), AppError>(e),
                        ));
                    }
                    return Err(e);
                },
            };
            user = match target_dao.into_user() {
                Ok(u) => u,
                Err(e) => {
                    proof {
                        assert(spec_execute_outcome(
                            pre,
                            self.spec_repo().records(),
                            cmdv,
                            Err::<(), AppError>(e),
                        ));
                    }
                    return Err(e);
                },
            };
            proof {
                assert(spec_load(m0, cmdv.user_id) == Ok::<UserView, LoadError>(user@));
            }
        }
        let ghost u0 = user@;
        let ghost ev = self.spec_email_validator();
        let ghost pv = self.spec_password_validator();
        match &command.email {
            Some(email) => {
                match self.email_validator.validate(email) {
                    Ok(_) => {},
                    Err(e) => {
                        proof {
                            assert(spec_field_steps(ev, pv, u0, cmdv) == Err::<
                                UserView,
                                StepError,
                            >(StepError::EmailRejected));
                            assert(spec_execute_outcome(
                                pre,
                                self.spec_repo().records(),
                                cmdv,
                                Err::<(), AppError>(e),
                            ));
                        }
                        return Err(e);
                    },
                }
                match user.new_email(email.clone()) {
                    Ok(_) => {},
                    Err(e) => {
                        proof {
                            assert(spec_execute_outcome(
                                pre,
                                self.spec_repo().records(),
                                cmdv,
                                Err::<(), AppError>(e),
                            ));
                        }
                        return Err(e);
                    },
                }
            },
            None => {},
        }
        let ghost u1 = user@;
        proof {
            assert(spec_email_step(ev, u0, cmdv.email) == Ok::<UserView, StepError>(u1));
        }
        let ghost mut hfin: Seq<char> = u1.password_hash;
        match &command.password {
            Some(password) => {
                let current_email = user.email();
                match self.password_validator.validate(password, &current_email) {
                    Ok(_) => {},
                    Err(e) => {
                        proof {
                            assert(spec_execute_outcome(
                                pre,
                                self.spec_repo().records(),
                                cmdv,
                                Err::<(), AppError>(e),
                            ));
                        }
                        return Err(e);
                    },
                }
                let hashed = match self.password_hasher.hash(password) {
                    Ok(h) => h,
                    Err(e) => {
                        proof {
                            assert(spec_execute_outcome(
                                pre,
                                self.spec_repo().records(),
                                cmdv,
                                Err::<(), AppError>(e),
                            ));
                        }
                        return Err(e);
                    },
                };
                proof {
                    hfin = hashed@;
                    assert(cmdv.password == Some(password@));
                    assert(pre.spec_password_hasher().hash_matches(password@, hfin));
                }
                match user.new_password_hash(hashed) {
                    Ok(_) => {},
                    Err(e) => {
                        proof {
                            assert(spec_execute_outcome(
                                pre,
                                self.spec_repo().records(),
                                cmdv,
                                Err::<(), AppError>(e),
                            ));
                        }
                        return Err(e);
                    },
                }
            },
            None => {},
        }
        let ghost u2 = spec_password_step(pv, u1, cmdv.password)->Ok_0;
        proof {
            assert(spec_password_step(pv, u1, cmdv.password) == Ok::<UserView, StepError>(u2));
            assert(user@ == spec_with_hash(u2, cmdv.password, hfin));
        }
        match &command.state {
            Some(state) => {
                let st = match State::parse(state) {
                    Ok(s) => s,
                    Err(e) => {
                        proof {
                            assert(spec_execute_outcome(
                                pre,
                                self.spec_repo().records(),
                                cmdv,
                                Err::<(), AppError>(e),
                            ));
                        }
                        return Err(e);
                    },
                };
                match user.new_state(st) {
                    Ok(_) => {},
                    Err(e) => {
                        proof {
                            assert(spec_execute_outcome(
                                pre,
                                self.spec_repo().records(),
                                cmdv,
                                Err::<(), AppError>(e),
                            ));
                        }
                        return Err(e);
                    },
                }
            },
            None => {},
        }
        let ghost u3 = spec_state_step(u2, cmdv.state)->Ok_0;
        proof {
            assert(spec_state_step(u2, cmdv.state) == Ok::<UserView, StepError>(u3));
            assert(user@ == spec_with_hash(u3, cmdv.password, hfin));
        }
        match &command.status {
            Some(status) => {
                let st = match Status::parse(status) {
                    Ok(s) => s,
                    Err(e) => {
                        proof {
                            assert(spec_execute_outcome(
                                pre,
                                self.spec_repo().records(),
                                cmdv,
                                Err::<(), AppError>(e),
                            ));
                        }
                        return Err(e);
                    },
                };
                match user.new_status(st) {
                    Ok(_) => {},
                    Err(e) => {
                        proof {
                            assert(spec_execute_outcome(
                                pre,
                                self.spec_repo().records(),
                                cmdv,
                                Err::<(), AppError>(e),
                            ));
                        }
                        return Err(e);
                    },
                }
            },
            None => {},
        }
        let ghost uf = spec_field_steps(ev, pv, u0, cmdv)->Ok_0;
        proof {
            assert(spec_field_steps(ev, pv, u0, cmdv) == Ok::<UserView, StepError>(uf));
            assert(user@ == spec_with_hash(uf, cmdv.password, hfin));
        }
        let record = UserDAO::from_user(&user);
        match self.repo.save(&record) {
            Ok(_) => {
                proof {
                    assert(user@.id == cmdv.user_id);
                    assert(self.spec_repo().records() == m0.insert(
                        cmdv.user_id,
                        spec_record_of(spec_with_hash(uf, cmdv.password, hfin)),
                    ));
                    assert(cmdv.password matches Some(p)
                        ==> pre.spec_password_hasher().hash_matches(p, hfin));
                    assert(spec_saved_outcome(
                        pre.spec_password_hasher(),
                        m0,
                        self.spec_repo().records(),
                        uf,
                        cmdv.user_id,
                        cmdv.password,
                    )) by {
                        let fin = spec_with_hash(uf, cmdv.password, hfin);
                        assert((cmdv.password matches Some(p)
                            ==> pre.spec_password_hasher().hash_matches(p, hfin))
                            && self.spec_repo().records() == m0.insert(
                            cmdv.user_id,
                            spec_record_of(fin),
                        ));
                    };
                    assert(pre.spec_email_validator() == ev && pre.spec_password_validator()
                        == pv && pre.spec_repo().records() == m0);
                    assert(spec_load(m0, cmdv.initiator_id) == Ok::<UserView, LoadError>(iv));
                    assert(spec_can_edit(iv));
                    assert((if cmdv.user_id == cmdv.initiator_id {
                        Ok::<UserView, LoadError>(iv)
                    } else {
                        spec_load(m0, cmdv.user_id)
                    }) == Ok::<UserView, LoadError>(u0));
                    assert(spec_field_steps(ev, pv, u0, cmdv) == Ok::<UserView, StepError>(uf));
                    assert(spec_execute_outcome(
                        pre,
                        self.spec_repo().records(),
                        cmdv,
                        Ok::<(), AppError>(()),
                    ));
                }
                Ok(())
            },
            Err(e) => {
                proof {
                    assert(spec_execute_outcome(
                        pre,
                        self.spec_repo().records(),
                        cmdv,
                        Err::<(), AppError>(e),
                    ));
                }
                Err(e)
            },
        }
    }
}

/// An email-only command on an active target changes the email and
/// nothing else.
pub proof fn lemma_email_only_change<E: EmailValidator, P: PasswordValidator>(
    ev: E,
    pv: P,
    u: UserView,
    cmd: ChangeUserCommandView,
)
    requires
        u.state == State::Active,
        cmd.email matches Some(e) && ev.accepts(e) && e != u.email,
        cmd.password is None,
        cmd.state is None,
        cmd.status is None,
    ensures
        spec_field_steps(ev, pv, u, cmd) == Ok::<UserView, StepError>(
            UserView { email: cmd.email->Some_0, ..u },
        ),
{
}

/// Combining a deactivating state change with a status change in one
/// command fails: the fixed field order applies the state change
/// first, so the status guard already sees the new, non-active state.
pub proof fn lemma_deactivation_blocks_status<E: EmailValidator, P: PasswordValidator>(
    ev: E,
    pv: P,
    u: UserView,
    cmd: ChangeUserCommandView,
    st: State,
)
    requires
        u.state == State::Active,
        cmd.email is None,
        cmd.password is None,
        cmd.state matches Some(s) && spec_parse_state(s) == Some(st),
        st != State::Active,
        cmd.status matches Some(s) && spec_parse_status(s) is Some,
    ensures
        spec_field_steps(ev, pv, u, cmd) == Err::<UserView, StepError>(
            StepError::StatusEdit(MutError::NotActive),
        ),
{
}

} // verus!
