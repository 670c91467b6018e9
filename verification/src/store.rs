//! The two tables that the limiter works on, each keyed by `(user, action)`.

use std::collections::HashMap;
use vstd::prelude::*;
use crate::action::LimitedAction;
use crate::bucket::Bucket;
use crate::error::StoreError;
use crate::overrides::RateOverride;
use crate::time::Interval;
use crate::time::Timestamp;

verus! {

/// The key of a row: a user and an action.
pub type RowKey = (i32, LimitedAction);

/// The single integer under which the row of `(user_id, action)` is filed.
pub open spec fn row_index(user_id: i32, action: LimitedAction) -> i64 {
    (user_id as int * 0x1_0000_0000 + action.spec_code() as int) as i64
}

/// The row that an insert-or-update at `now` writes for a pair whose row was
/// `prior`, or why the store cannot hold it. A pair without a row gets a
/// full bucket. A pair with a row has that row refilled.
pub open spec fn upserted(
    prior: Option<Bucket>,
    user_id: i32,
    action: LimitedAction,
    burst: i32,
    rate: Interval,
    now: Timestamp,
) -> Result<Bucket, StoreError> {
    match prior {
        None => Ok(Bucket::spec_fresh(user_id, action, burst, now)),
        Some(bucket) => bucket.spec_refilled(burst, rate, now),
    }
}

/// The bucket table and the override table.
pub struct Store {
    buckets: HashMap<i64, Bucket>,
    overrides: HashMap<i64, RateOverride>,
}

fn index_of(user_id: i32, action: LimitedAction) -> (index: i64)
    ensures
        index == row_index(user_id, action),
{
    proof {
        action.lemma_defaults_in_range();
    }
    user_id as i64 * 0x1_0000_0000 + action.code() as i64
}

proof fn lemma_row_index_injective(a: RowKey, b: RowKey)
    requires
        row_index(a.0, a.1) == row_index(b.0, b.1),
    ensures
        a == b,
{
    a.1.lemma_defaults_in_range();
    b.1.lemma_defaults_in_range();
    a.1.lemma_code_injective(b.1);
}

impl Store {
    #[verifier::type_invariant]
    spec fn filed_by_key(self) -> bool {
        &&& forall|index: i64| #[trigger]
            self.buckets@.contains_key(index) ==> row_index(
                self.buckets@[index].user_id,
                self.buckets@[index].action,
            ) == index
        &&& forall|index: i64| #[trigger]
            self.overrides@.contains_key(index) ==> row_index(
                self.overrides@[index].user_id,
                self.overrides@[index].action,
            ) == index
    }

    /// The bucket table: at most one row for each pair.
    pub closed spec fn buckets(&self) -> Map<RowKey, Bucket> {
        Map::new(
            |key: RowKey| self.buckets@.contains_key(row_index(key.0, key.1)),
            |key: RowKey| self.buckets@[row_index(key.0, key.1)],
        )
    }

    /// The override table: at most one row for each pair.
    pub closed spec fn overrides(&self) -> Map<RowKey, RateOverride> {
        Map::new(
            |key: RowKey| self.overrides@.contains_key(row_index(key.0, key.1)),
            |key: RowKey| self.overrides@[row_index(key.0, key.1)],
        )
    }

    /// The bucket of `(user_id, action)`, if the pair has one.
    pub open spec fn bucket_of(&self, user_id: i32, action: LimitedAction) -> Option<Bucket> {
        self.buckets().get((user_id, action))
    }

    /// The override of `(user_id, action)`, if the pair has one.
    pub open spec fn override_of(&self, user_id: i32, action: LimitedAction) -> Option<
        RateOverride,
    > {
        self.overrides().get((user_id, action))
    }

    /// A store without rows.
    pub fn new() -> (store: Store)
        ensures
            store.buckets() == Map::<RowKey, Bucket>::empty(),
            store.overrides() == Map::<RowKey, RateOverride>::empty(),
    {
        broadcast use vstd::std_specs::hash::group_hash_axioms;

        let store = Store { buckets: HashMap::new(), overrides: HashMap::new() };
        assert(store.buckets() =~= Map::<RowKey, Bucket>::empty());
        assert(store.overrides() =~= Map::<RowKey, RateOverride>::empty());
        store
    }

    /// The bucket of `(user_id, action)`, if the pair has one.
    pub fn bucket(&self, user_id: i32, action: LimitedAction) -> (found: Option<Bucket>)
        ensures
            found == self.bucket_of(user_id, action),
            found matches Some(row) ==> row.user_id == user_id && row.action == action,
    {
        broadcast use vstd::std_specs::hash::group_hash_axioms;

        proof {
            use_type_invariant(self);
        }
        let index = index_of(user_id, action);
        match self.buckets.get(&index) {
            Some(row) => {
                proof {
                    lemma_row_index_injective((row.user_id, row.action), (user_id, action));
                }
                Some(*row)
            },
            None => None,
        }
    }

    /// The override of `(user_id, action)`, if the pair has one, whether or
    /// not it is still in force.
    pub fn rate_override(&self, user_id: i32, action: LimitedAction) -> (found: Option<
        RateOverride,
    >)
        ensures
            found == self.override_of(user_id, action),
            found matches Some(row) ==> row.user_id == user_id && row.action == action,
    {
        broadcast use vstd::std_specs::hash::group_hash_axioms;

        proof {
            use_type_invariant(self);
        }
        let index = index_of(user_id, action);
        match self.overrides.get(&index) {
            Some(row) => {
                proof {
                    lemma_row_index_injective((row.user_id, row.action), (user_id, action));
                }
                Some(*row)
            },
            None => None,
        }
    }

    /// Writes `row` as the bucket of its pair, in place of any other.
    pub fn put_bucket(&mut self, row: Bucket)
        ensures
            final(self).buckets() == old(self).buckets().insert((row.user_id, row.action), row),
            final(self).overrides() == old(self).overrides(),
    {
        broadcast use vstd::std_specs::hash::group_hash_axioms;

        proof {
            use_type_invariant(&*self);
        }
        let index = index_of(row.user_id, row.action);
        let mut rows: HashMap<i64, Bucket> = HashMap::new();
        std::mem::swap(&mut rows, &mut self.buckets);
        rows.insert(index, row);
        self.buckets = rows;
        proof {
            assert forall|key: RowKey|
                row_index(key.0, key.1) == index implies key == (row.user_id, row.action) by {
                lemma_row_index_injective(key, (row.user_id, row.action));
            }
            assert(final(self).buckets() =~= old(self).buckets().insert(
                (row.user_id, row.action),
                row,
            ));
        }
    }

    /// Writes `row` as the override of its pair, in place of any other.
    pub fn put_override(&mut self, row: RateOverride)
        ensures
            final(self).overrides() == old(self).overrides().insert(
                (row.user_id, row.action),
                row,
            ),
            final(self).buckets() == old(self).buckets(),
    {
        broadcast use vstd::std_specs::hash::group_hash_axioms;

        proof {
            use_type_invariant(&*self);
        }
        let index = index_of(row.user_id, row.action);
        let mut rows: HashMap<i64, RateOverride> = HashMap::new();
        std::mem::swap(&mut rows, &mut self.overrides);
        rows.insert(index, row);
        self.overrides = rows;
        proof {
            assert forall|key: RowKey|
                row_index(key.0, key.1) == index implies key == (row.user_id, row.action) by {
                lemma_row_index_injective(key, (row.user_id, row.action));
            }
            assert(final(self).overrides() =~= old(self).overrides().insert(
                (row.user_id, row.action),
                row,
            ));
        }
    }

    /// Inserts a full bucket for `(user_id, action)` if the pair has none,
    /// and refills the one it has otherwise, in one step. The write goes
    /// through for every pair without a bucket, and for every bucket whose
    /// last refill is not after `now` if `rate` is not zero. A refused write
    /// leaves every row as it was.
    pub fn upsert_bucket(
        &mut self,
        user_id: i32,
        action: LimitedAction,
        burst: i32,
        rate: Interval,
        now: Timestamp,
    ) -> (result: Result<Bucket, StoreError>)
        ensures
            result == upserted(
                old(self).bucket_of(user_id, action),
                user_id,
                action,
                burst,
                rate,
                now,
            ),
            result matches Ok(row) ==> row.user_id == user_id && row.action == action,
            old(self).bucket_of(user_id, action) is None ==> result is Ok,
            old(self).bucket_of(user_id, action) matches Some(prior) ==> (rate@ > 0
                && prior.last_refill@ <= now@ ==> result is Ok),
            result matches Ok(row) ==> final(self).buckets() == old(self).buckets().insert(
                (user_id, action),
                row,
            ),
            result is Err ==> final(self).buckets() == old(self).buckets(),
            final(self).overrides() == old(self).overrides(),
    {
        let written = match self.bucket(user_id, action) {
            None => Bucket::fresh(user_id, action, burst, now),
            Some(row) => match row.refilled(burst, rate, now) {
                Ok(next) => next,
                Err(refusal) => {
                    return Err(refusal);
                },
            },
        };
        self.put_bucket(written);
        Ok(written)
    }
}

} // verus!
