//! Rendering of the DDL statements: the exact text of each CREATE TABLE and
//! DROP TABLE statement, pinned character by character.

use vstd::prelude::*;
use vstd::string::StringExecFns;

use crate::schema::Column;
use crate::schema::ColumnType;
use crate::schema::ColumnV;
use crate::schema::TableDef;
use crate::schema::TableDefV;
use crate::schema::TableId;
use crate::schema::table_name;
use crate::schema::table_name_spec;

verus! {

/// The decimal digit `d` as a character.
pub open spec fn digit_char(d: int) -> char {
    if d == 0 {
        '0'
    } else if d == 1 {
        '1'
    } else if d == 2 {
        '2'
    } else if d == 3 {
        '3'
    } else if d == 4 {
        '4'
    } else if d == 5 {
        '5'
    } else if d == 6 {
        '6'
    } else if d == 7 {
        '7'
    } else if d == 8 {
        '8'
    } else {
        '9'
    }
}

/// The decimal rendering of `n`, most significant digit first.
pub open spec fn dec_seq(n: int) -> Seq<char>
    recommends
        n >= 0,
    decreases n,
{
    if n < 10 {
        seq![digit_char(n)]
    } else {
        dec_seq(n / 10).push(digit_char(n % 10))
    }
}

fn digit_str(d: u32) -> (r: &'static str)
    requires
        d < 10,
    ensures
        r@ == seq![digit_char(d as int)],
{
    let r: &'static str = if d == 0 {
        "0"
    } else if d == 1 {
        "1"
    } else if d == 2 {
        "2"
    } else if d == 3 {
        "3"
    } else if d == 4 {
        "4"
    } else if d == 5 {
        "5"
    } else if d == 6 {
        "6"
    } else if d == 7 {
        "7"
    } else if d == 8 {
        "8"
    } else {
        "9"
    };
    proof {
        reveal_strlit("0");
        reveal_strlit("1");
        reveal_strlit("2");
        reveal_strlit("3");
        reveal_strlit("4");
        reveal_strlit("5");
        reveal_strlit("6");
        reveal_strlit("7");
        reveal_strlit("8");
        reveal_strlit("9");
        assert(r@ =~= seq![digit_char(d as int)]);
    }
    r
}

/// The decimal rendering of `n`, as executable text.
pub fn u32_dec(n: u32) -> (r: String)
    ensures
        r@ == dec_seq(n as int),
    decreases n,
{
    if n < 10 {
        digit_str(n).to_owned()
    } else {
        let mut s = u32_dec(n / 10);
        let ghost pre = s@;
        s.append(digit_str(n % 10));
        proof {
            assert(s@ =~= pre.push(digit_char(n as int % 10)));
        }
        s
    }
}

/// The SQL spelling of a column type.
pub open spec fn type_sql(ty: ColumnType) -> Seq<char> {
    match ty {
        ColumnType::Integer => "INTEGER"@,
        ColumnType::Varchar(n) => "VARCHAR("@ + dec_seq(n as int) + ")"@,
        ColumnType::Boolean => "BOOLEAN"@,
        ColumnType::Time => "TIME"@,
    }
}

/// The SQL spelling of a column type, as executable text.
pub fn type_sql_text(ty: ColumnType) -> (r: String)
    ensures
        r@ == type_sql(ty),
{
    match ty {
        ColumnType::Integer => "INTEGER".to_owned(),
        ColumnType::Boolean => "BOOLEAN".to_owned(),
        ColumnType::Time => "TIME".to_owned(),
        ColumnType::Varchar(n) => {
            let mut s = "VARCHAR(".to_owned();
            s.append(u32_dec(n).as_str());
            s.append(")");
            s
        },
    }
}

/// The declaration of one column inside a CREATE TABLE statement.
pub open spec fn column_sql(c: ColumnV) -> Seq<char> {
    c.name + " "@ + type_sql(c.ty) + (if c.primary_key {
        " PRIMARY KEY"@
    } else {
        Seq::<char>::empty()
    }) + (if c.not_null {
        " NOT NULL"@
    } else {
        Seq::<char>::empty()
    })
}

/// The declaration of one column, as executable text.
pub fn column_sql_text(c: &Column) -> (r: String)
    ensures
        r@ == column_sql(c@),
{
    let mut s = c.name.to_owned();
    s.append(" ");
    s.append(type_sql_text(c.ty).as_str());
    if c.primary_key {
        s.append(" PRIMARY KEY");
    }
    if c.not_null {
        s.append(" NOT NULL");
    }
    proof {
        assert(s@ =~= column_sql(c@));
    }
    s
}

/// The column list of a CREATE TABLE statement, comma-separated.
pub open spec fn columns_sql(cs: Seq<ColumnV>) -> Seq<char>
    decreases cs.len(),
{
    if cs.len() == 0 {
        Seq::empty()
    } else if cs.len() == 1 {
        column_sql(cs[0])
    } else {
        columns_sql(cs.drop_last()) + ", "@ + column_sql(cs.last())
    }
}

/// The column list, as executable text.
#[verifier::loop_isolation(false)]
pub fn columns_text(cs: &Vec<Column>) -> (r: String)
    ensures
        r@ == columns_sql(cs@.map_values(|c: Column| c@)),
{
    let ghost m = cs@.map_values(|c: Column| c@);
    let mut s = String::new();
    let mut i: usize = 0;
    while i < cs.len()
        invariant
            i <= cs@.len(),
            s@ == columns_sql(m.take(i as int)),
        decreases cs@.len() - i,
    {
        if i > 0 {
            s.append(", ");
        }
        let piece = column_sql_text(&cs[i]);
        s.append(piece.as_str());
        proof {
            assert(m.take(i as int + 1).drop_last() =~= m.take(i as int));
            assert(m.take(i as int + 1).last() == m[i as int]);
            assert(s@ =~= columns_sql(m.take(i as int + 1)));
        }
        i += 1;
    }
    proof {
        assert(m.take(cs@.len() as int) =~= m);
    }
    s
}

/// The complete CREATE TABLE statement for a table definition.
pub open spec fn create_table_sql_spec(t: TableDefV) -> Seq<char> {
    "CREATE TABLE "@ + table_name_spec(t.id) + " ("@ + columns_sql(t.columns) + ");"@
}

/// The complete CREATE TABLE statement, as executable text.
pub fn create_table_sql(t: &TableDef) -> (r: String)
    ensures
        r@ == create_table_sql_spec(t@),
{
    let mut s = "CREATE TABLE ".to_owned();
    s.append(table_name(t.id));
    s.append(" (");
    s.append(columns_text(&t.columns).as_str());
    s.append(");");
    proof {
        assert(s@ =~= create_table_sql_spec(t@));
    }
    s
}

/// The complete DROP TABLE IF EXISTS statement for a table.
pub open spec fn drop_table_sql_spec(id: TableId) -> Seq<char> {
    "DROP TABLE IF EXISTS "@ + table_name_spec(id) + ";"@
}

/// The complete DROP TABLE IF EXISTS statement, as executable text.
pub fn drop_table_sql(id: TableId) -> (r: String)
    ensures
        r@ == drop_table_sql_spec(id),
{
    let mut s = "DROP TABLE IF EXISTS ".to_owned();
    s.append(table_name(id));
    s.append(";");
    s
}

} // verus!
