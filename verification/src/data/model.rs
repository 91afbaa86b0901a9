use vstd::prelude::*;
use vstd::hash_map::StringHashMap;
use vstd::string::*;
use crate::numbers::{decimal, u64_text};
use crate::data::data_set::DataSet;

verus! {

/// Whether the checked row keeps the column `column`: never `id`; `created` always;
/// `updated` on an update; any other column where a value was posted for it.
pub open spec fn kept(column: Seq<char>, posted: Map<Seq<char>, String>, is_update: bool) -> bool {
    &&& column != "id"@
    &&& column == "created"@ || (column == "updated"@ && is_update) || posted.contains_key(column)
}

/// The value the checked row holds for a kept column: the time `now` for `created`,
/// and for `updated` on an update; the posted value otherwise.
pub open spec fn kept_value(column: Seq<char>, posted: Map<Seq<char>, String>, is_update: bool, now: Seq<char>) -> Seq<char> {
    if column == "created"@ || (column == "updated"@ && is_update) {
        now
    } else {
        posted[column]@
    }
}

/// The checked row: each kept column of the table with its value.
pub open spec fn checked_map(
    columns: Seq<Seq<char>>,
    posted: Map<Seq<char>, String>,
    is_update: bool,
    now: Seq<char>,
) -> Map<Seq<char>, Seq<char>> {
    Map::new(
        |c: Seq<char>| columns.contains(c) && kept(c, posted, is_update),
        |c: Seq<char>| kept_value(c, posted, is_update, now),
    )
}

/// The checked row holds every column it should: each posted column of the table other
/// than `id`, `created`, and `updated` on an update, with exactly the posted value, empty
/// or not; `created`, and `updated` on an update, with the time `now`; and, on a create,
/// a posted `updated` with its posted value.
pub proof fn lemma_checked_map_complete(
    columns: Seq<Seq<char>>,
    posted: Map<Seq<char>, String>,
    is_update: bool,
    now: Seq<char>,
)
    ensures
        forall|c: Seq<char>|
            columns.contains(c) && c != "id"@ && c != "created"@ && !(c == "updated"@ && is_update)
                && #[trigger] posted.contains_key(c) ==> checked_map(columns, posted, is_update, now).contains_key(c)
                && checked_map(columns, posted, is_update, now)[c] == posted[c]@,
        columns.contains("created"@) ==> checked_map(columns, posted, is_update, now).contains_key("created"@)
            && checked_map(columns, posted, is_update, now)["created"@] == now,
        is_update && columns.contains("updated"@) ==> checked_map(columns, posted, is_update, now).contains_key(
            "updated"@,
        ) && checked_map(columns, posted, is_update, now)["updated"@] == now,
        !columns.contains("id"@) || !checked_map(columns, posted, is_update, now).contains_key("id"@),
        forall|c: Seq<char>| !columns.contains(c) ==> !#[trigger] checked_map(columns, posted, is_update, now).contains_key(c),
{
    reveal_strlit("id");
    reveal_strlit("created");
    reveal_strlit("updated");
    assert("id"@.len() == 2 && "created"@.len() == 7 && "updated"@.len() == 7);
}

/// What the checked row holds: never `id`; only columns of the table; every value
/// either the posted one or, for `created` and `updated`, the time `now`; and, where the
/// table has a `created` column, `created` with the time `now`.
pub proof fn lemma_checked_map_shape(
    columns: Seq<Seq<char>>,
    posted: Map<Seq<char>, String>,
    is_update: bool,
    now: Seq<char>,
)
    ensures
        forall|c: Seq<char>| #[trigger] checked_map(columns, posted, is_update, now).contains_key(c) ==> {
            &&& c != "id"@
            &&& columns.contains(c)
            &&& if c == "created"@ || (c == "updated"@ && is_update) {
                checked_map(columns, posted, is_update, now)[c] == now
            } else {
                posted.contains_key(c) && checked_map(columns, posted, is_update, now)[c] == posted[c]@
            }
        },
        columns.contains("created"@) ==> checked_map(columns, posted, is_update, now).contains_key("created"@)
            && checked_map(columns, posted, is_update, now)["created"@] == now,
{
    reveal_strlit("id");
    reveal_strlit("created");
    assert("id"@.len() == 2 && "created"@.len() == 7);
}

/// The column names of a table, as text.
pub open spec fn columns_view(columns: Vec<String>) -> Seq<Seq<char>> {
    columns@.map_values(|c: String| c@)
}

/// The columns that `real_fields` lists for `table_name`; none where the table is not listed.
pub open spec fn table_columns(table_name: Seq<char>, real_fields: Map<Seq<char>, Vec<String>>) -> Seq<Seq<char>> {
    if real_fields.contains_key(table_name) {
        columns_view(real_fields[table_name])
    } else {
        Seq::empty()
    }
}

/// Whether `s` holds the text `lit`.
fn text_is(s: &str, lit: &str) -> (b: bool)
    ensures
        b == (s@ == lit@),
{
    s.to_owned() == lit.to_owned()
}

/// `INSERT INTO <table> <row>`, the statement that stores `data` as a new row.
pub fn insert_statement(table_name: &str, data: &DataSet) -> (sql: String)
    requires
        !data.is_create ==> data.fields@.len() <= data.values@.len(),
    ensures
        sql@ == "INSERT INTO "@ + table_name@ + " "@ + data.sql(),
{
    let mut sql = String::from_str("INSERT INTO ");
    sql.append(table_name);
    sql.append(" ");
    let row = data.build();
    sql.append(row.as_str());
    sql
}

/// `UPDATE <table> SET <row> WHERE <cond>`, the statement that writes `data` into the
/// rows that `cond` selects.
pub fn update_statement(table_name: &str, data: &DataSet, cond: &str) -> (sql: String)
    requires
        !data.is_create ==> data.fields@.len() <= data.values@.len(),
    ensures
        sql@ == "UPDATE "@ + table_name@ + " SET "@ + data.sql() + " WHERE "@ + cond@,
{
    let mut sql = String::from_str("UPDATE ");
    sql.append(table_name);
    sql.append(" SET ");
    let row = data.build();
    sql.append(row.as_str());
    sql.append(" WHERE ");
    sql.append(cond);
    sql
}

/// `DELETE FROM <table> WHERE <cond>`.
pub fn delete_statement(table_name: &str, cond: &str) -> (sql: String)
    ensures
        sql@ == "DELETE FROM "@ + table_name@ + " WHERE "@ + cond@,
{
    let mut sql = String::from_str("DELETE FROM ");
    sql.append(table_name);
    sql.append(" WHERE ");
    sql.append(cond);
    sql
}

/// The query that lists the columns of `table_name` in the schema `database`.
pub fn columns_statement(database: &str, table_name: &str) -> (sql: String)
    ensures
        sql@ == "SELECT COLUMN_NAME FROM information_schema.COLUMNS WHERE TABLE_SCHEMA = '"@ + database@
            + "' AND TABLE_NAME = '"@ + table_name@ + "'"@,
{
    let mut sql = String::from_str("SELECT COLUMN_NAME FROM information_schema.COLUMNS WHERE TABLE_SCHEMA = '");
    sql.append(database);
    sql.append("' AND TABLE_NAME = '");
    sql.append(table_name);
    sql.append("'");
    sql
}

/// Database helpers.
pub struct Db {}

impl Db {
    /// Keeps, of the posted form, what the table's columns accept: `id` is dropped,
    /// `created` (and `updated`, for an update) gets the time `now`, and every other
    /// column gets its posted value where there is one.
    pub fn check_fields(
        table_name: &str,
        real_fields: &StringHashMap<Vec<String>>,
        post_fields: &StringHashMap<String>,
        is_update: bool,
        now: u64,
    ) -> (checked: StringHashMap<String>)
        ensures
            checked@.dom() == checked_map(
                table_columns(table_name@, real_fields@),
                post_fields@,
                is_update,
                decimal(now as nat),
            ).dom(),
            forall|c: Seq<char>| #[trigger] checked@.contains_key(c) ==> checked@[c]@ == checked_map(
                table_columns(table_name@, real_fields@),
                post_fields@,
                is_update,
                decimal(now as nat),
            )[c],
    {
        let mut checked: StringHashMap<String> = StringHashMap::new();
        let ghost now_text = decimal(now as nat);
        let ghost posted = post_fields@;
        match real_fields.get(table_name) {
            Some(columns) => {
                let ghost cols = columns_view(*columns);
                let mut i: usize = 0;
                while i < columns.len()
                    invariant
                        i <= columns@.len(),
                        cols == columns_view(*columns),
                        posted == post_fields@,
                        now_text == decimal(now as nat),
                        checked@.dom() == checked_map(cols.take(i as int), posted, is_update, now_text).dom(),
                        forall|c: Seq<char>| #[trigger] checked@.contains_key(c) ==> checked@[c]@
                            == checked_map(cols.take(i as int), posted, is_update, now_text)[c],
                    decreases columns@.len() - i,
                {
                    let field = &columns[i];
                    let ghost before = checked@;
                    let ghost old_cols = cols.take(i as int);
                    let ghost new_cols = cols.take(i + 1);
                    proof {
                        assert(new_cols =~= old_cols.push(field@));
                        reveal_strlit("id");
                        reveal_strlit("updated");
                        reveal_strlit("created");
                    }
                    if text_is(field.as_str(), "id") {
                    } else if text_is(field.as_str(), "updated") && is_update {
                        checked.insert(String::from_str("updated"), u64_text(now));
                    } else if text_is(field.as_str(), "created") {
                        checked.insert(String::from_str("created"), u64_text(now));
                    } else {
                        match post_fields.get(field.as_str()) {
                            Some(ev) => {
                                checked.insert(field.clone(), ev.clone());
                            }
                            None => {}
                        }
                    }
                    proof {
                        let m_new = checked_map(new_cols, posted, is_update, now_text);
                        assert forall|c: Seq<char>| new_cols.contains(c) <==> (old_cols.contains(c) || c == field@) by {
                            if new_cols.contains(c) {
                                let j = choose|j: int| 0 <= j < new_cols.len() && new_cols[j] == c;
                                if j < old_cols.len() {
                                    assert(old_cols[j] == c);
                                }
                            }
                            if old_cols.contains(c) {
                                let j = choose|j: int| 0 <= j < old_cols.len() && old_cols[j] == c;
                                assert(new_cols[j] == c);
                            }
                            if c == field@ {
                                assert(new_cols[old_cols.len() as int] == c);
                            }
                        }
                        assert(checked@.dom() =~= m_new.dom());
                    }
                    i = i + 1;
                }
                proof {
                    assert(cols.take(columns@.len() as int) =~= cols);
                }
            }
            None => {
                proof {
                    assert(checked@.dom() =~= checked_map(Seq::empty(), posted, is_update, now_text).dom());
                }
            }
        }
        checked
    }
}

} // verus!
