//! The lifecycle laws of the bootstrapper, stated and proved over the models
//! that the contracts of `Migration::apply`, `Migration::revert` and
//! `Database::insert_row` speak of.

use vstd::prelude::*;

use crate::engine::TableV;
use crate::engine::Value;
use crate::engine::row_ok;
use crate::migration::apply_upto;
use crate::migration::empty_table;
use crate::migration::lemma_apply_upto;
use crate::migration::lemma_remove_upto;
use crate::migration::revert_spec;
use crate::schema::ColumnV;
use crate::schema::TableId;
use crate::schema::id_at;
use crate::schema::lemma_order_bijective;
use crate::schema::order_pos;
use crate::schema::table_columns;

verus! {

/// Law: applying to an empty database yields exactly the fourteen tables,
/// each with the columns the schema declares and no rows.
pub proof fn lemma_apply_fresh_creates_fourteen(s: Map<TableId, TableV>)
    requires
        s == Map::<TableId, TableV>::empty(),
    ensures
        apply_upto(s, 14).dom().finite(),
        apply_upto(s, 14).dom().len() == 14,
        forall|id: TableId| apply_upto(s, 14).dom().contains(id),
        forall|id: TableId|
            #[trigger] apply_upto(s, 14)[id] == (TableV {
                columns: table_columns(id),
                rows: Seq::empty(),
            }),
{
    lemma_order_bijective();
    lemma_apply_upto(s, 14);
    lemma_apply_upto_card(s, 14);
    assert forall|id: TableId| #[trigger] apply_upto(s, 14)[id] == (TableV {
        columns: table_columns(id),
        rows: Seq::empty(),
    }) by {
        assert(apply_upto(s, 14)[id] == empty_table(id));
    }
}

proof fn lemma_apply_upto_card(s: Map<TableId, TableV>, k: int)
    requires
        s == Map::<TableId, TableV>::empty(),
        0 <= k <= 14,
    ensures
        apply_upto(s, k).dom().finite(),
        apply_upto(s, k).dom().len() == k,
    decreases k,
{
    broadcast use vstd::set::group_set_axioms;

    lemma_order_bijective();
    if k > 0 {
        lemma_apply_upto_card(s, k - 1);
        lemma_apply_upto(s, k - 1);
        assert(order_pos(id_at(k - 1)) == k - 1);
        assert(!apply_upto(s, k - 1).dom().contains(id_at(k - 1)));
        assert(apply_upto(s, k).dom() =~= apply_upto(s, k - 1).dom().insert(id_at(k - 1)));
    }
}

/// Law: reverting leaves no table at all, whatever the database held. In
/// particular a revert after an apply removes all fourteen tables, and a
/// revert of an already-empty database stays empty (drop-if-exists: it
/// reports no error by its signature).
pub proof fn lemma_revert_leaves_nothing(s: Map<TableId, TableV>)
    ensures
        revert_spec(s) == Map::<TableId, TableV>::empty(),
        forall|k: int| 0 <= k < 14 ==> !revert_spec(s).dom().contains(#[trigger] id_at(k)),
{
    lemma_order_bijective();
    lemma_remove_upto(s, 14);
    assert(revert_spec(s) =~= Map::<TableId, TableV>::empty());
}

/// Law: the round trip. Applying the schema to an empty database and then
/// reverting it restores the initial state exactly.
pub proof fn lemma_round_trip(s: Map<TableId, TableV>)
    requires
        s == Map::<TableId, TableV>::empty(),
    ensures
        revert_spec(apply_upto(s, 14)) == s,
{
    lemma_revert_leaves_nothing(apply_upto(s, 14));
}

/// Law: a second apply without an intervening revert fails on the very first
/// table of the creation order and creates nothing, so the database keeps
/// exactly the first application's tables. Together with the contract of
/// `Migration::apply`, whose error branch pins the reported error to the
/// first table of the order already present, the error is a table-exists
/// error for that first table.
pub proof fn lemma_reapply_changes_nothing(s: Map<TableId, TableV>, k: int)
    requires
        forall|j: int| 0 <= j < 14 ==> s.dom().contains(#[trigger] id_at(j)),
        0 <= k < 14,
        forall|j: int| 0 <= j < k ==> !s.dom().contains(#[trigger] id_at(j)),
    ensures
        k == 0,
        apply_upto(s, k) == s,
{
    assert(s.dom().contains(id_at(0)));
}

/// Law: a row that populates every column conforms to any column set of the
/// same width; in particular its insertion never depends on any other table
/// or row, since no foreign-key constraint exists.
pub proof fn lemma_full_row_conforms(cols: Seq<ColumnV>, vals: Seq<Value>)
    requires
        vals.len() == cols.len(),
        forall|j: int| 0 <= j < vals.len() ==> !((#[trigger] vals[j]) is Null),
    ensures
        row_ok(cols, vals),
{
}

/// Law: a row that leaves a NOT NULL column unpopulated does not conform,
/// whatever its other values hold.
pub proof fn lemma_omitted_not_null_rejected(cols: Seq<ColumnV>, vals: Seq<Value>, j: int)
    requires
        vals.len() == cols.len(),
        0 <= j < cols.len(),
        cols[j].not_null,
        vals[j] is Null,
    ensures
        !row_ok(cols, vals),
{
}

} // verus!
