use vstd::prelude::*;
use vstd::string::StringExecFns;

use crate::dao::{UserDAO, UserRecordView};
use crate::error::AppError;
use crate::model::UserId;
use crate::repository::{spec_email_stored, UserRepository};

verus! {

/// True iff no two records in the sequence share an identifier.
pub open spec fn unique_ids(s: Seq<UserDAO>) -> bool {
    forall|i: int, j: int|
        0 <= i < j < s.len() ==> (#[trigger] s[i]).id != (#[trigger] s[j]).id
}

/// The map a sequence of records holds, later entries overriding
/// earlier ones.
spec fn seq_to_map(s: Seq<UserDAO>) -> Map<UserId, UserRecordView>
    decreases s.len(),
{
    if s.len() == 0 {
        Map::empty()
    } else {
        seq_to_map(s.drop_last()).insert(s.last().id, s.last()@)
    }
}

proof fn lemma_seq_to_map_dom(s: Seq<UserDAO>, k: UserId)
    ensures
        seq_to_map(s).contains_key(k) <==> exists|i: int|
            0 <= i < s.len() && (#[trigger] s[i]).id == k,
    decreases s.len(),
{
    if s.len() == 0 {
    } else {
        lemma_seq_to_map_dom(s.drop_last(), k);
        if s.last().id == k {
            assert(s[s.len() - 1].id == k);
        } else {
            if seq_to_map(s).contains_key(k) {
                let i = choose|i: int|
                    0 <= i < s.drop_last().len() && (#[trigger] s.drop_last()[i]).id == k;
                assert(s[i].id == k);
            }
            if exists|i: int| 0 <= i < s.len() && (#[trigger] s[i]).id == k {
                let i = choose|i: int| 0 <= i < s.len() && (#[trigger] s[i]).id == k;
                assert(i < s.len() - 1);
                assert(s.drop_last()[i].id == k);
            }
        }
    }
}

proof fn lemma_seq_to_map_at(s: Seq<UserDAO>, i: int)
    requires
        0 <= i < s.len(),
        forall|j: int| i < j < s.len() ==> (#[trigger] s[j]).id != s[i].id,
    ensures
        seq_to_map(s).contains_key(s[i].id),
        seq_to_map(s)[s[i].id] == s[i]@,
    decreases s.len(),
{
    if i == s.len() - 1 {
    } else {
        assert(s.last().id != s[i].id);
        assert(s.drop_last()[i] == s[i]);
        assert forall|j: int|
            i < j < s.drop_last().len() implies (#[trigger] s.drop_last()[j]).id
            != s.drop_last()[i].id by {
            assert(s.drop_last()[j] == s[j]);
        };
        lemma_seq_to_map_at(s.drop_last(), i);
    }
}

proof fn lemma_seq_to_map_update(s: Seq<UserDAO>, i: int, d: UserDAO)
    requires
        unique_ids(s),
        0 <= i < s.len(),
        s[i].id == d.id,
    ensures
        seq_to_map(s.update(i, d)) == seq_to_map(s).insert(d.id, d@),
        unique_ids(s.update(i, d)),
{
    let s1 = s.update(i, d);
    let m0 = seq_to_map(s);
    let m1 = seq_to_map(s1);
    let mi = m0.insert(d.id, d@);
    assert forall|p: int, q: int|
        0 <= p < q < s1.len() implies (#[trigger] s1[p]).id != (#[trigger] s1[q]).id by {
        assert(s1[p].id == s[p].id);
        assert(s1[q].id == s[q].id);
    };
    assert forall|k: UserId| #[trigger] m1.contains_key(k) implies mi.contains_key(k) && m1[k]
        == mi[k] by {
        lemma_seq_to_map_dom(s1, k);
        let j = choose|j: int| 0 <= j < s1.len() && (#[trigger] s1[j]).id == k;
        assert forall|l: int| j < l < s1.len() implies (#[trigger] s1[l]).id != s1[j].id by {};
        lemma_seq_to_map_at(s1, j);
        if k == d.id {
            if j != i {
                assert(s[j].id == d.id && s[i].id == d.id);
                assert(false);
            }
            assert(m1[k] == d@);
        } else {
            assert(j != i);
            assert(s1[j] == s[j]);
            assert forall|l: int| j < l < s.len() implies (#[trigger] s[l]).id != s[j].id by {};
            lemma_seq_to_map_at(s, j);
            assert(m0[k] == s[j]@);
        }
    };
    assert forall|k: UserId| #[trigger] mi.contains_key(k) implies m1.contains_key(k) by {
        if k == d.id {
            lemma_seq_to_map_dom(s1, k);
            assert(s1[i].id == k);
        } else {
            lemma_seq_to_map_dom(s, k);
            let j = choose|j: int| 0 <= j < s.len() && (#[trigger] s[j]).id == k;
            assert(s1[j].id == k);
            lemma_seq_to_map_dom(s1, k);
        }
    };
    assert(m1 =~= mi);
}

proof fn lemma_seq_to_map_push(s: Seq<UserDAO>, d: UserDAO)
    ensures
        seq_to_map(s.push(d)) == seq_to_map(s).insert(d.id, d@),
{
    assert(s.push(d).drop_last() =~= s);
    assert(s.push(d).last() == d);
}

/// Relies on uuid::Uuid::new_v4 to draw a random 128-bit identifier;
/// nothing is assumed of the value.
#[verifier::external_body]
fn random_id() -> (r: UserId) {
    UserId(uuid::Uuid::new_v4().as_u128())
}

/// The decimal digits of a value, most significant first, without
/// leading zeros.
pub open spec fn spec_decimal(v: u128) -> Seq<char>
    decreases v,
{
    if v < 10 {
        seq![((('0' as u8) + (v as u8)) as char)]
    } else {
        spec_decimal(v / 10).push((('0' as u8) + ((v % 10) as u8)) as char)
    }
}

/// Relies on u128's `Display` implementation: the decimal digits of
/// the value, most significant first, without leading zeros.
#[verifier::external_body]
fn id_to_string(id: &UserId) -> (r: String)
    ensures
        r@ == spec_decimal(id.0),
{
    format!("{}", id.0)
}

/// The reference storage adapter: records held in memory, one per
/// identifier.
#[derive(Debug)]
pub struct InMemoryUserRepository {
    store: Vec<UserDAO>,
}

impl InMemoryUserRepository {
    #[verifier::type_invariant]
    spec fn wf(&self) -> bool {
        unique_ids(self.store@)
    }

    /// The position of the record with the given identifier, if any.
    fn find_index(&self, id: &UserId) -> (r: Option<usize>)
        ensures
            match r {
                Some(i) => i < self.store@.len() && self.store@[i as int].id == *id,
                None => forall|j: int|
                    0 <= j < self.store@.len() ==> (#[trigger] self.store@[j]).id != *id,
            },
    {
        let n: usize = self.store.len();
        let mut i: usize = 0;
        while i < n
            invariant
                n == self.store@.len(),
                i <= n,
                forall|j: int| 0 <= j < i ==> (#[trigger] self.store@[j]).id != *id,
            decreases n - i,
        {
            if self.store[i].id == *id {
                return Some(i);
            }
            i += 1;
        }
        None
    }

    /// An empty store.
    pub fn new() -> (r: InMemoryUserRepository)
        ensures
            r.records() == Map::<UserId, UserRecordView>::empty(),
    {
        InMemoryUserRepository { store: Vec::new() }
    }
}

impl UserRepository for InMemoryUserRepository {
    closed spec fn records(&self) -> Map<UserId, UserRecordView> {
        seq_to_map(self.store@)
    }

    fn next_id(&self) -> (r: Result<UserId, AppError>)
        ensures
            r is Ok,
    {
        Ok(random_id())
    }

    fn id_exists(&self, id: &UserId) -> (r: Result<bool, AppError>)
        ensures
            r matches Ok(b) && b == self.records().contains_key(*id),
    {
        proof {
            use_type_invariant(&*self);
        }
        let n: usize = self.store.len();
        let mut i: usize = 0;
        while i < n
            invariant
                n == self.store@.len(),
                i <= n,
                forall|j: int| 0 <= j < i ==> (#[trigger] self.store@[j]).id != *id,
            decreases n - i,
        {
            if self.store[i].id == *id {
                proof {
                    lemma_seq_to_map_dom(self.store@, *id);
                }
                return Ok(true);
            }
            i += 1;
        }
        proof {
            lemma_seq_to_map_dom(self.store@, *id);
        }
        Ok(false)
    }

    fn email_exists(&self, email: &String) -> (r: Result<bool, AppError>)
        ensures
            r matches Ok(b) && b == spec_email_stored(self.records(), email@),
    {
        proof {
            use_type_invariant(&*self);
        }
        let n: usize = self.store.len();
        let mut i: usize = 0;
        while i < n
            invariant
                n == self.store@.len(),
                i <= n,
                unique_ids(self.store@),
                forall|j: int| 0 <= j < i ==> (#[trigger] self.store@[j]).email@ != email@,
            decreases n - i,
        {
            if self.store[i].email == *email {
                proof {
                    let s = self.store@;
                    lemma_seq_to_map_dom(s, s[i as int].id);
                    assert forall|l: int|
                        i < l < s.len() implies (#[trigger] s[l]).id != s[i as int].id by {};
                    lemma_seq_to_map_at(s, i as int);
                }
                return Ok(true);
            }
            i += 1;
        }
        proof {
            let s = self.store@;
            assert forall|k: UserId|
                #[trigger] seq_to_map(s).contains_key(k) implies seq_to_map(s)[k].email
                != email@ by {
                lemma_seq_to_map_dom(s, k);
                let j = choose|j: int| 0 <= j < s.len() && (#[trigger] s[j]).id == k;
                assert forall|l: int| j < l < s.len() implies (#[trigger] s[l]).id != s[j].id by {};
                lemma_seq_to_map_at(s, j);
            };
        }
        Ok(false)
    }

    fn by_id(&self, id: &UserId) -> (r: Result<UserDAO, AppError>)
        ensures
            self.records().contains_key(*id) ==> (r matches Ok(d) && d@
                == self.records()[*id]),
            !self.records().contains_key(*id) ==> (r matches Err(e) && e matches
            AppError::NotFound(m) && m@ == "no user with id: "@ + spec_decimal(id.0)),
    {
        proof {
            use_type_invariant(&*self);
        }
        let n: usize = self.store.len();
        let mut i: usize = 0;
        while i < n
            invariant
                n == self.store@.len(),
                i <= n,
                unique_ids(self.store@),
                forall|j: int| 0 <= j < i ==> (#[trigger] self.store@[j]).id != *id,
            decreases n - i,
        {
            if self.store[i].id == *id {
                let d = self.store[i].clone();
                proof {
                    let s = self.store@;
                    assert forall|l: int|
                        i < l < s.len() implies (#[trigger] s[l]).id != s[i as int].id by {};
                    lemma_seq_to_map_at(s, i as int);
                }
                return Ok(d);
            }
            i += 1;
        }
        proof {
            lemma_seq_to_map_dom(self.store@, *id);
        }
        Err(AppError::NotFound("no user with id: ".to_owned().concat(id_to_string(id).as_str())))
    }

    fn by_email(&self, email: &String) -> (r: Result<UserDAO, AppError>)
        ensures
            spec_email_stored(self.records(), email@) ==> r is Ok,
            !spec_email_stored(self.records(), email@) ==> (r matches Err(e) && e matches
            AppError::NotFound(m) && m@ == "no user with email: "@ + email@),
    {
        proof {
            use_type_invariant(&*self);
        }
        let n: usize = self.store.len();
        let mut i: usize = 0;
        while i < n
            invariant
                n == self.store@.len(),
                i <= n,
                unique_ids(self.store@),
                forall|j: int| 0 <= j < i ==> (#[trigger] self.store@[j]).email@ != email@,
            decreases n - i,
        {
            if self.store[i].email == *email {
                let d = self.store[i].clone();
                proof {
                    let s = self.store@;
                    lemma_seq_to_map_dom(s, s[i as int].id);
                    assert forall|l: int|
                        i < l < s.len() implies (#[trigger] s[l]).id != s[i as int].id by {};
                    lemma_seq_to_map_at(s, i as int);
                }
                return Ok(d);
            }
            i += 1;
        }
        proof {
            let s = self.store@;
            assert forall|k: UserId|
                #[trigger] seq_to_map(s).contains_key(k) implies seq_to_map(s)[k].email
                != email@ by {
                lemma_seq_to_map_dom(s, k);
                let j = choose|j: int| 0 <= j < s.len() && (#[trigger] s[j]).id == k;
                assert forall|l: int| j < l < s.len() implies (#[trigger] s[l]).id != s[j].id by {};
                lemma_seq_to_map_at(s, j);
            };
        }
        Err(
            AppError::NotFound(
                "no user with email: ".to_owned().concat(email.as_str()),
            ),
        )
    }

    fn save(&mut self, user: &UserDAO) -> (r: Result<(), AppError>)
        ensures
            r is Ok,
            final(self).records() == old(self).records().insert(user@.id, user@),
    {
        proof {
            use_type_invariant(&*self);
        }
        let ghost s0 = self.store@;
        let idx = self.find_index(&user.id);
        let d = user.clone();
        let ghost dg = d;
        let mut store: Vec<UserDAO> = Vec::new();
        std::mem::swap(&mut store, &mut self.store);
        match idx {
            Some(i) => {
                store[i] = d;
                proof {
                    assert(store@ == s0.update(i as int, dg));
                    lemma_seq_to_map_update(s0, i as int, dg);
                    assert(dg.id == user@.id && dg@ == user@);
                }
                self.store = store;
            },
            None => {
                proof {
                    lemma_seq_to_map_push(s0, dg);
                    assert forall|p: int, q: int|
                        0 <= p < q < s0.push(dg).len() implies (#[trigger] s0.push(dg)[p]).id
                        != (#[trigger] s0.push(dg)[q]).id by {
                        if q < s0.len() {
                            assert(s0.push(dg)[p] == s0[p] && s0.push(dg)[q] == s0[q]);
                        } else {
                            assert(s0.push(dg)[p] == s0[p] && s0.push(dg)[q] == dg);
                        }
                    };
                    assert(dg.id == user@.id && dg@ == user@);
                }
                store.push(d);
                self.store = store;
            },
        }
        Ok(())
    }
}

} // verus!
