//! A model of the database the bootstrapper manages: which of the fourteen
//! tables are present, each with its column set and rows.
//!
//! The model enforces what the declared columns impose on a single insert: a
//! table can be created once (creating it again is a table-exists error),
//! dropping is drop-if-exists, and an inserted row must populate every NOT
//! NULL column. No foreign-key constraints exist, so inserting never looks at
//! any table but the one named. Primary-key auto-assignment and uniqueness
//! are the underlying engine's runtime behaviour and are not modelled here.

use vstd::prelude::*;

use crate::schema::Column;
use crate::schema::ColumnV;
use crate::schema::TableDef;
use crate::schema::TableId;

verus! {

/// A value stored in a row.
#[derive(Debug, PartialEq)]
pub enum Value {
    Null,
    Int(i64),
    Text(String),
    Bool(bool),
}

/// Mathematical image of one table: its columns and its rows.
pub struct TableV {
    pub columns: Seq<ColumnV>,
    pub rows: Seq<Seq<Value>>,
}

/// One table held by the database: its definition and its rows.
struct Table {
    id: TableId,
    columns: Vec<Column>,
    rows: Vec<Vec<Value>>,
}

impl View for Table {
    type V = TableV;

    closed spec fn view(&self) -> TableV {
        TableV {
            columns: self.columns@.map_values(|c: Column| c@),
            rows: self.rows@.map_values(|r: Vec<Value>| r@),
        }
    }
}

/// The error a database operation reports.
#[derive(Clone, Copy, Debug, PartialEq, Eq, Structural)]
pub enum DbError {
    /// Creating a table that is already present.
    TableExists(TableId),
    /// Inserting into a table that is not present.
    NoSuchTable(TableId),
    /// Inserting a row with more or fewer values than the table has columns.
    ArityMismatch(TableId),
    /// Inserting a row whose value for the NOT NULL column at this position
    /// is missing.
    NotNullViolation(TableId, usize),
}

/// A row conforms to a column set when it has one value per column and every
/// NOT NULL column's value is populated. Nothing else is checked: the schema
/// declares no foreign-key constraints, so conformance never depends on any
/// other table or row.
pub open spec fn row_ok(cols: Seq<ColumnV>, vals: Seq<Value>) -> bool {
    &&& vals.len() == cols.len()
    &&& forall|j: int| 0 <= j < cols.len() && cols[j].not_null ==> !((#[trigger] vals[j]) is Null)
}

spec fn ids_distinct(s: Seq<Table>) -> bool {
    forall|i: int, j: int| 0 <= i < j < s.len() ==> (#[trigger] s[i]).id != (#[trigger] s[j]).id
}

spec fn has_id(s: Seq<Table>, id: TableId) -> bool {
    exists|i: int| 0 <= i < s.len() && (#[trigger] s[i]).id == id
}

/// The map a sequence of tables stands for.
spec fn tmap(s: Seq<Table>) -> Map<TableId, TableV>
    decreases s.len(),
{
    if s.len() == 0 {
        Map::empty()
    } else {
        tmap(s.drop_last()).insert(s.last().id, s.last()@)
    }
}

proof fn lemma_tmap_dom(s: Seq<Table>)
    ensures
        forall|id: TableId| #[trigger] tmap(s).dom().contains(id) <==> has_id(s, id),
        tmap(s).dom().finite(),
    decreases s.len(),
{
    if s.len() > 0 {
        lemma_tmap_dom(s.drop_last());
        assert forall|id: TableId| #[trigger] tmap(s).dom().contains(id) implies has_id(s, id) by {
            if s.last().id == id {
                assert(s[s.len() - 1].id == id);
            } else {
                let i = choose|i: int|
                    0 <= i < s.drop_last().len() && (#[trigger] s.drop_last()[i]).id == id;
                assert(s[i].id == id);
            }
        }
        assert forall|id: TableId| has_id(s, id) implies #[trigger] tmap(s).dom().contains(id) by {
            let i = choose|i: int| 0 <= i < s.len() && (#[trigger] s[i]).id == id;
            if i < s.len() - 1 {
                assert(s.drop_last()[i].id == id);
            }
        }
    }
}

proof fn lemma_tmap_index(s: Seq<Table>)
    requires
        ids_distinct(s),
    ensures
        forall|i: int| 0 <= i < s.len() ==> tmap(s)[(#[trigger] s[i]).id] == s[i]@,
    decreases s.len(),
{
    if s.len() > 0 {
        lemma_tmap_index(s.drop_last());
        assert forall|i: int| 0 <= i < s.len() implies tmap(s)[(#[trigger] s[i]).id] == s[i]@ by {
            if i < s.len() - 1 {
                assert(s[i].id != s.last().id);
                assert(s.drop_last()[i] == s[i]);
            }
        }
    }
}

proof fn lemma_tmap_card(s: Seq<Table>)
    requires
        ids_distinct(s),
    ensures
        tmap(s).dom().finite(),
        tmap(s).dom().len() == s.len(),
    decreases s.len(),
{
    broadcast use vstd::set::group_set_axioms;

    lemma_tmap_dom(s);
    if s.len() > 0 {
        lemma_tmap_card(s.drop_last());
        lemma_tmap_dom(s.drop_last());
        assert(!has_id(s.drop_last(), s.last().id));
        assert(tmap(s).dom() =~= tmap(s.drop_last()).dom().insert(s.last().id));
    }
}

proof fn lemma_tmap_remove(s: Seq<Table>, i: int)
    requires
        ids_distinct(s),
        0 <= i < s.len(),
    ensures
        tmap(s.remove(i)) == tmap(s).remove(s[i].id),
    decreases s.len(),
{
    lemma_tmap_dom(s.drop_last());
    if i == s.len() - 1 {
        assert(s.remove(i) =~= s.drop_last());
        assert(!has_id(s.drop_last(), s.last().id));
        assert(tmap(s.drop_last()).insert(s.last().id, s.last()@).remove(s.last().id)
            =~= tmap(s.drop_last()));
    } else {
        lemma_tmap_remove(s.drop_last(), i);
        assert(s.remove(i).drop_last() =~= s.drop_last().remove(i));
        assert(s.remove(i).last() == s.last());
        assert(s[i].id != s.last().id);
        assert(tmap(s.drop_last()).remove(s[i].id).insert(s.last().id, s.last()@)
            =~= tmap(s.drop_last()).insert(s.last().id, s.last()@).remove(s[i].id));
        assert(tmap(s.remove(i)) == tmap(s.remove(i).drop_last()).insert(s.last().id, s.last()@));
    }
}

/// Whether the value is SQL NULL.
fn is_null(v: &Value) -> (b: bool)
    ensures
        b == (*v is Null),
{
    match v {
        Value::Null => true,
        _ => false,
    }
}

/// The model database.
pub struct Database {
    tables: Vec<Table>,
}

impl View for Database {
    type V = Map<TableId, TableV>;

    closed spec fn view(&self) -> Map<TableId, TableV> {
        tmap(self.tables@)
    }
}

impl Database {
    /// The database holds no table twice.
    pub closed spec fn wf(&self) -> bool {
        ids_distinct(self.tables@)
    }

    /// A database with no tables.
    pub fn new() -> (d: Database)
        ensures
            d.wf(),
            d@ == Map::<TableId, TableV>::empty(),
    {
        Database { tables: Vec::new() }
    }

    /// The index of the table `id`, if present.
    #[verifier::loop_isolation(false)]
    fn find(&self, id: TableId) -> (r: Option<usize>)
        requires
            self.wf(),
        ensures
            match r {
                Some(i) => {
                    &&& i < self.tables@.len()
                    &&& self.tables@[i as int].id == id
                    &&& self@.dom().contains(id)
                    &&& self@[id] == self.tables@[i as int]@
                },
                None => !self@.dom().contains(id),
            },
    {
        proof {
            lemma_tmap_dom(self.tables@);
            lemma_tmap_index(self.tables@);
        }
        let mut i: usize = 0;
        while i < self.tables.len()
            invariant
                i <= self.tables@.len(),
                forall|j: int| 0 <= j < i ==> (#[trigger] self.tables@[j]).id != id,
            decreases self.tables@.len() - i,
        {
            if self.tables[i].id == id {
                return Some(i);
            }
            i += 1;
        }
        proof {
            assert(!has_id(self.tables@, id));
        }
        None
    }

    /// Whether the table `id` is present.
    pub fn has_table(&self, id: TableId) -> (r: bool)
        requires
            self.wf(),
        ensures
            r == self@.dom().contains(id),
    {
        self.find(id).is_some()
    }

    /// How many tables are present.
    pub fn table_count(&self) -> (n: usize)
        requires
            self.wf(),
        ensures
            self@.dom().finite(),
            n == self@.dom().len(),
    {
        proof {
            lemma_tmap_card(self.tables@);
        }
        self.tables.len()
    }

    /// How many rows the table `id` holds, or `None` if it is not present.
    pub fn row_count(&self, id: TableId) -> (r: Option<usize>)
        requires
            self.wf(),
        ensures
            match r {
                Some(n) => self@.dom().contains(id) && n == self@[id].rows.len(),
                None => !self@.dom().contains(id),
            },
    {
        match self.find(id) {
            Some(i) => Some(self.tables[i].rows.len()),
            None => None,
        }
    }

    /// Creates the table, empty. Fails with a table-exists error, changing
    /// nothing, when a table of that identifier is already present.
    pub fn create_table(&mut self, def: TableDef) -> (r: Result<(), DbError>)
        requires
            old(self).wf(),
        ensures
            final(self).wf(),
            match r {
                Ok(()) => {
                    &&& !old(self)@.dom().contains(def@.id)
                    &&& final(self)@ == old(self)@.insert(
                        def@.id,
                        (TableV { columns: def@.columns, rows: Seq::empty() }),
                    )
                },
                Err(e) => {
                    &&& e == DbError::TableExists(def@.id)
                    &&& old(self)@.dom().contains(def@.id)
                    &&& final(self)@ == old(self)@
                },
            },
    {
        match self.find(def.id) {
            Some(_) => Err(DbError::TableExists(def.id)),
            None => {
                let t = Table { id: def.id, columns: def.columns, rows: Vec::new() };
                proof {
                    lemma_tmap_dom(self.tables@);
                }
                let ghost before = self.tables@;
                self.tables.push(t);
                proof {
                    assert(self.tables@.drop_last() =~= before);
                    assert forall|a: int, b: int| 0 <= a < b < self.tables@.len()
                        implies (#[trigger] self.tables@[a]).id != (#[trigger] self.tables@[b]).id by {
                        if b == before.len() {
                            assert(has_id(before, self.tables@[a].id));
                        }
                    }
                    assert(self.tables@.last()@.rows =~= Seq::<Seq<Value>>::empty());
                    assert(self@ == old(self)@.insert(
                        def@.id,
                        (TableV { columns: def@.columns, rows: Seq::empty() }),
                    ));
                }
                Ok(())
            },
        }
    }

    /// Drops the table if it is present; never fails. On a database without
    /// the table this changes nothing.
    pub fn drop_table_if_exists(&mut self, id: TableId)
        requires
            old(self).wf(),
        ensures
            final(self).wf(),
            final(self)@ == old(self)@.remove(id),
    {
        match self.find(id) {
            Some(i) => {
                proof {
                    lemma_tmap_remove(self.tables@, i as int);
                }
                let ghost before = self.tables@;
                let _ = self.tables.remove(i);
                proof {
                    assert forall|a: int, b: int| 0 <= a < b < self.tables@.len()
                        implies (#[trigger] self.tables@[a]).id != (#[trigger] self.tables@[b]).id by {
                        assert(self.tables@[a] == if a < i { before[a] } else { before[a + 1] });
                        assert(self.tables@[b] == if b < i { before[b] } else { before[b + 1] });
                    }
                }
            },
            None => {
                proof {
                    assert(old(self)@.remove(id) =~= old(self)@);
                }
            },
        }
    }

    /// Inserts a row into the table `id`. Succeeds exactly when the table is
    /// present and the row conforms to its columns; whether any other table
    /// or row exists plays no part (no foreign-key constraints).
    #[verifier::loop_isolation(false)]
    pub fn insert_row(&mut self, id: TableId, row: Vec<Value>) -> (r: Result<(), DbError>)
        requires
            old(self).wf(),
        ensures
            final(self).wf(),
            match r {
                Ok(()) => {
                    &&& old(self)@.dom().contains(id)
                    &&& row_ok(old(self)@[id].columns, row@)
                    &&& final(self)@ == old(self)@.insert(
                        id,
                        (TableV {
                            columns: old(self)@[id].columns,
                            rows: old(self)@[id].rows.push(row@),
                        }),
                    )
                },
                Err(e) => {
                    &&& final(self)@ == old(self)@
                    &&& match e {
                        DbError::NoSuchTable(t) => t == id && !old(self)@.dom().contains(id),
                        DbError::ArityMismatch(t) => {
                            &&& t == id
                            &&& old(self)@.dom().contains(id)
                            &&& row@.len() != old(self)@[id].columns.len()
                        },
                        DbError::NotNullViolation(t, j) => {
                            &&& t == id
                            &&& old(self)@.dom().contains(id)
                            &&& row@.len() == old(self)@[id].columns.len()
                            &&& 0 <= j < old(self)@[id].columns.len()
                            &&& old(self)@[id].columns[j as int].not_null
                            &&& row@[j as int] is Null
                            &&& forall|k: int| 0 <= k < j ==> !(old(self)@[id].columns[k].not_null
                                && ((#[trigger] row@[k]) is Null))
                        },
                        DbError::TableExists(_) => false,
                    }
                },
            },
    {
        let i = match self.find(id) {
            Some(i) => i,
            None => {
                return Err(DbError::NoSuchTable(id));
            },
        };
        let ghost cols = self@[id].columns;
        proof {
            assert(cols =~= self.tables@[i as int].columns@.map_values(|c: Column| c@));
        }
        if row.len() != self.tables[i].columns.len() {
            return Err(DbError::ArityMismatch(id));
        }
        let mut j: usize = 0;
        while j < row.len()
            invariant
                j <= row@.len(),
                forall|k: int| 0 <= k < j ==> !(cols[k].not_null && ((#[trigger] row@[k]) is Null)),
            decreases row@.len() - j,
        {
            if self.tables[i].columns[j].not_null && is_null(&row[j]) {
                return Err(DbError::NotNullViolation(id, j));
            }
            j += 1;
        }
        let ghost before = self.tables@;
        let mut t = self.tables.remove(i);
        proof {
            lemma_tmap_remove(before, i as int);
            lemma_tmap_dom(self.tables@);
            assert forall|a: int, b: int| 0 <= a < b < self.tables@.len()
                implies (#[trigger] self.tables@[a]).id != (#[trigger] self.tables@[b]).id by {
                assert(self.tables@[a] == if a < i { before[a] } else { before[a + 1] });
                assert(self.tables@[b] == if b < i { before[b] } else { before[b + 1] });
            }
        }
        let ghost told = t@;
        t.rows.push(row);
        proof {
            assert(t@.rows =~= told.rows.push(row@));
            assert(t@.columns == told.columns);
        }
        let ghost mid = self.tables@;
        self.tables.push(t);
        proof {
            assert(self.tables@.drop_last() =~= mid);
            assert(!has_id(mid, id));
            assert forall|a: int, b: int| 0 <= a < b < self.tables@.len()
                implies (#[trigger] self.tables@[a]).id != (#[trigger] self.tables@[b]).id by {
                if b == mid.len() {
                    assert(has_id(mid, self.tables@[a].id));
                }
            }
            assert(self@ =~= old(self)@.insert(
                id,
                (TableV {
                    columns: old(self)@[id].columns,
                    rows: old(self)@[id].rows.push(row@),
                }),
            ));
        }
        Ok(())
    }
}

} // verus!
