//! The schema bootstrapper: applying the schema creates the fourteen tables
//! in a fixed order; reverting drops them in the exact reverse order with
//! drop-if-exists semantics.

use vstd::prelude::*;

use crate::engine::Database;
use crate::engine::DbError;
use crate::engine::TableV;
use crate::schema::TableId;
use crate::schema::creation_order;
use crate::schema::id_at;
use crate::schema::order_pos;
use crate::schema::table_columns;
use crate::schema::table_def;
use crate::schema::table_def_spec;
use crate::sql::create_table_sql;
use crate::sql::create_table_sql_spec;
use crate::sql::drop_table_sql;
use crate::sql::drop_table_sql_spec;

verus! {

/// A freshly created table: the declared columns and no rows.
pub open spec fn empty_table(id: TableId) -> TableV {
    TableV { columns: table_columns(id), rows: Seq::empty() }
}

/// None of the fourteen tables is present.
pub open spec fn fresh_schema(s: Map<TableId, TableV>) -> bool {
    forall|k: int| 0 <= k < 14 ==> !s.dom().contains(#[trigger] id_at(k))
}

/// The database after creating the first `k` tables of the creation order.
pub open spec fn apply_upto(s: Map<TableId, TableV>, k: int) -> Map<TableId, TableV>
    decreases k,
{
    if k <= 0 {
        s
    } else {
        apply_upto(s, k - 1).insert(id_at(k - 1), empty_table(id_at(k - 1)))
    }
}

/// The database after dropping the last `k` tables of the creation order,
/// i.e. the first `k` of the reverse order.
pub open spec fn remove_upto(s: Map<TableId, TableV>, k: int) -> Map<TableId, TableV>
    decreases k,
{
    if k <= 0 {
        s
    } else {
        remove_upto(s, k - 1).remove(id_at(13 - (k - 1)))
    }
}

/// The database after a full revert: all fourteen tables dropped.
pub open spec fn revert_spec(s: Map<TableId, TableV>) -> Map<TableId, TableV> {
    remove_upto(s, 14)
}

/// What `apply_upto` holds: the first `k` tables of the creation order are
/// present and fresh, and everything else is as it was.
pub proof fn lemma_apply_upto(s: Map<TableId, TableV>, k: int)
    requires
        0 <= k <= 14,
    ensures
        forall|id: TableId|
            #[trigger] apply_upto(s, k).dom().contains(id) <==> (s.dom().contains(id) || order_pos(
                id,
            ) < k),
        forall|id: TableId|
            order_pos(id) < k ==> #[trigger] apply_upto(s, k)[id] == empty_table(id),
        forall|id: TableId|
            order_pos(id) >= k && s.dom().contains(id) ==> #[trigger] apply_upto(s, k)[id]
                == s[id],
    decreases k,
{
    crate::schema::lemma_order_bijective();
    if k > 0 {
        lemma_apply_upto(s, k - 1);
        let nid = id_at(k - 1);
        assert(order_pos(nid) == k - 1);
        assert forall|id: TableId|
            #[trigger] apply_upto(s, k).dom().contains(id) <==> (s.dom().contains(id) || order_pos(
                id,
            ) < k) by {
            assert(apply_upto(s, k - 1).dom().contains(id) <==> (s.dom().contains(id) || order_pos(
                id,
            ) < k - 1));
            if id != nid {
                assert(order_pos(id) != k - 1);
            }
        }
        assert forall|id: TableId| order_pos(id) < k implies #[trigger] apply_upto(s, k)[id]
            == empty_table(id) by {
            if id != nid {
                assert(order_pos(id) != k - 1);
                assert(apply_upto(s, k - 1)[id] == empty_table(id));
            }
        }
        assert forall|id: TableId| order_pos(id) >= k && s.dom().contains(id) implies
            #[trigger] apply_upto(s, k)[id] == s[id] by {
            assert(id != nid);
            assert(apply_upto(s, k - 1)[id] == s[id]);
        }
    }
}

/// What `remove_upto` holds: the tables at the last `k` positions of the
/// creation order are gone, and everything else is as it was.
pub proof fn lemma_remove_upto(s: Map<TableId, TableV>, k: int)
    requires
        0 <= k <= 14,
    ensures
        forall|id: TableId|
            #[trigger] remove_upto(s, k).dom().contains(id) <==> (s.dom().contains(id)
                && order_pos(id) < 14 - k),
        forall|id: TableId|
            order_pos(id) < 14 - k && s.dom().contains(id) ==> #[trigger] remove_upto(s, k)[id]
                == s[id],
    decreases k,
{
    crate::schema::lemma_order_bijective();
    if k > 0 {
        lemma_remove_upto(s, k - 1);
        let rid = id_at(13 - (k - 1));
        assert(order_pos(rid) == 14 - k);
        assert forall|id: TableId|
            #[trigger] remove_upto(s, k).dom().contains(id) <==> (s.dom().contains(id)
                && order_pos(id) < 14 - k) by {
            assert(remove_upto(s, k - 1).dom().contains(id) <==> (s.dom().contains(id)
                && order_pos(id) < 14 - (k - 1)));
            if id != rid {
                assert(order_pos(id) != 14 - k);
            }
        }
        assert forall|id: TableId| order_pos(id) < 14 - k && s.dom().contains(id) implies
            #[trigger] remove_upto(s, k)[id] == s[id] by {
            assert(id != rid);
            assert(remove_upto(s, k - 1)[id] == s[id]);
        }
    }
}

/// The schema bootstrapper. `apply` creates the fourteen tables in creation
/// order and `revert` drops them in the exact reverse order; the statement
/// lists give the same operations as SQL text for a real connection to run.
pub struct Migration;

impl Migration {
    /// Creates the fourteen tables in creation order, stopping at the first
    /// failure. Succeeds exactly when none of them was present; otherwise it
    /// fails with a table-exists error for the first table of the order that
    /// was already there, having created exactly the tables before it.
    #[verifier::loop_isolation(false)]
    pub fn apply(&self, db: &mut Database) -> (r: Result<(), DbError>)
        requires
            old(db).wf(),
        ensures
            final(db).wf(),
            match r {
                Ok(()) => {
                    &&& fresh_schema(old(db)@)
                    &&& final(db)@ == apply_upto(old(db)@, 14)
                },
                Err(e) => exists|k: int|
                    {
                        &&& 0 <= k < 14
                        &&& old(db)@.dom().contains(#[trigger] id_at(k))
                        &&& forall|j: int| 0 <= j < k ==> !old(db)@.dom().contains(
                            #[trigger] id_at(j),
                        )
                        &&& e == DbError::TableExists(id_at(k))
                        &&& final(db)@ == apply_upto(old(db)@, k)
                    },
            },
    {
        let order = creation_order();
        let mut i: usize = 0;
        while i < 14
            invariant
                db.wf(),
                i <= 14,
                db@ == apply_upto(old(db)@, i as int),
                forall|j: int| 0 <= j < i ==> !old(db)@.dom().contains(#[trigger] id_at(j)),
            decreases 14 - i,
        {
            let def = table_def(order[i]);
            proof {
                lemma_apply_upto(old(db)@, i as int);
                assert(order_pos(id_at(i as int)) == i as int);
            }
            match db.create_table(def) {
                Ok(()) => {},
                Err(e) => {
                    proof {
                        assert(old(db)@.dom().contains(id_at(i as int)));
                        assert(e == DbError::TableExists(id_at(i as int)));
                        assert(db@ == apply_upto(old(db)@, i as int));
                    }
                    return Err(e);
                },
            }
            i += 1;
        }
        Ok(())
    }

    /// Drops each of the fourteen tables if it exists, in the exact reverse
    /// of the creation order. It cannot fail (the signature reports no
    /// error), and it leaves the database with no table at all, whatever was
    /// present before — so reverting an already-empty database succeeds and
    /// stays empty.
    #[verifier::loop_isolation(false)]
    pub fn revert(&self, db: &mut Database)
        requires
            old(db).wf(),
        ensures
            final(db).wf(),
            final(db)@ == revert_spec(old(db)@),
            final(db)@ == Map::<TableId, TableV>::empty(),
    {
        let order = creation_order();
        let mut i: usize = 0;
        while i < 14
            invariant
                db.wf(),
                i <= 14,
                db@ == remove_upto(old(db)@, i as int),
            decreases 14 - i,
        {
            db.drop_table_if_exists(order[13 - i]);
            i += 1;
        }
        proof {
            lemma_remove_upto(old(db)@, 14);
            assert(db@ =~= Map::<TableId, TableV>::empty());
        }
    }

    /// The CREATE TABLE statements, one per table, in creation order.
    #[verifier::loop_isolation(false)]
    pub fn up_statements(&self) -> (v: Vec<String>)
        ensures
            v@.len() == 14,
            forall|k: int| 0 <= k < 14 ==> (#[trigger] v@[k])@ == create_table_sql_spec(
                table_def_spec(id_at(k)),
            ),
    {
        let order = creation_order();
        let mut v: Vec<String> = Vec::new();
        let mut i: usize = 0;
        while i < 14
            invariant
                i <= 14,
                v@.len() == i,
                forall|k: int| 0 <= k < i ==> (#[trigger] v@[k])@ == create_table_sql_spec(
                    table_def_spec(id_at(k)),
                ),
            decreases 14 - i,
        {
            let def = table_def(order[i]);
            v.push(create_table_sql(&def));
            i += 1;
        }
        v
    }

    /// The DROP TABLE IF EXISTS statements, one per table, in the exact
    /// reverse of the creation order.
    #[verifier::loop_isolation(false)]
    pub fn down_statements(&self) -> (v: Vec<String>)
        ensures
            v@.len() == 14,
            forall|k: int| 0 <= k < 14 ==> (#[trigger] v@[k])@ == drop_table_sql_spec(
                id_at(13 - k),
            ),
    {
        let order = creation_order();
        let mut v: Vec<String> = Vec::new();
        let mut i: usize = 0;
        while i < 14
            invariant
                i <= 14,
                v@.len() == i,
                forall|k: int| 0 <= k < i ==> (#[trigger] v@[k])@ == drop_table_sql_spec(
                    id_at(13 - k),
                ),
            decreases 14 - i,
        {
            v.push(drop_table_sql(order[13 - i]));
            i += 1;
        }
        v
    }
}

} // verus!
