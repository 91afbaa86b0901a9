use vstd::prelude::*;
use vstd::string::*;

verus! {

/// Joins `items`, putting `sep` between each two neighbours.
pub open spec fn join(items: Seq<Seq<char>>, sep: Seq<char>) -> Seq<char>
    decreases items.len(),
{
    if items.len() == 0 {
        Seq::empty()
    } else if items.len() == 1 {
        items[0]
    } else {
        join(items.drop_last(), sep) + sep + items.last()
    }
}

/// The text of `s`, for a sequence of string slices.
pub open spec fn strs_view<'a>(s: Seq<&'a str>) -> Seq<Seq<char>> {
    s.map_values(|x: &'a str| x@)
}

/// The text of `s`, for a sequence of owned strings.
pub open spec fn strings_view(s: Seq<String>) -> Seq<Seq<char>> {
    s.map_values(|x: String| x@)
}

/// The column list and value list of an `INSERT`: `(f1,f2) VALUES ('v1','v2')`.
pub open spec fn create_sql(fields: Seq<Seq<char>>, values: Seq<Seq<char>>) -> Seq<char> {
    "("@ + join(fields, ","@) + ") VALUES ('"@ + join(values, "','"@) + "')"@
}

/// One assignment of an `UPDATE`: `f = 'v'`.
pub open spec fn assignment(field: Seq<char>, value: Seq<char>) -> Seq<char> {
    field + " = '"@ + value + "'"@
}

/// The assignments of the first `fields.len()` pairs.
pub open spec fn assignments(fields: Seq<Seq<char>>, values: Seq<Seq<char>>) -> Seq<Seq<char>> {
    Seq::new(fields.len(), |i: int| assignment(fields[i], values[i]))
}

/// The `SET` list of an `UPDATE`: `f1 = 'v1',f2 = 'v2'`.
pub open spec fn update_sql(fields: Seq<Seq<char>>, values: Seq<Seq<char>>) -> Seq<char> {
    join(assignments(fields, values), ","@)
}

/// One line of the readable dump: `    f => v,` and a line break.
pub open spec fn display_line(field: Seq<char>, value: Seq<char>) -> Seq<char> {
    "    "@ + field + " => "@ + value + ",\n"@
}

/// All lines of the readable dump, for the first `n` pairs.
pub open spec fn display_lines(fields: Seq<Seq<char>>, values: Seq<Seq<char>>, n: nat) -> Seq<char>
    decreases n,
{
    if n == 0 {
        Seq::empty()
    } else {
        display_lines(fields, values, (n - 1) as nat) + display_line(
            fields[n - 1],
            values[n - 1],
        )
    }
}

/// The readable dump of a data set.
pub open spec fn display_text(is_create: bool, fields: Seq<Seq<char>>, values: Seq<Seq<char>>) -> Seq<char> {
    "(method: "@ + (if is_create { "create"@ } else { "update"@ }) + "){"@ + "\n"@
        + display_lines(fields, values, fields.len()) + "}"@
}

/// Joins the field names with `sep` between them.
fn join_fields<'a>(items: &Vec<&'a str>, sep: &str) -> (res: String)
    ensures
        res@ == join(strs_view(items@), sep@),
{
    let mut res = String::new();
    let ghost texts = strs_view(items@);
    let mut i: usize = 0;
    while i < items.len()
        invariant
            i <= items@.len(),
            texts == strs_view(items@),
            res@ == join(texts.take(i as int), sep@),
        decreases items@.len() - i,
    {
        if i != 0 {
            res.append(sep);
        }
        res.append(items[i]);
        proof {
            assert(texts.take(i + 1).drop_last() =~= texts.take(i as int));
            if i == 0 {
                assert(res@ =~= join(texts.take(1), sep@));
            }
        }
        i = i + 1;
    }
    proof {
        assert(texts.take(items@.len() as int) =~= texts);
    }
    res
}

/// Joins the values with `sep` between them.
fn join_strings(items: &Vec<String>, sep: &str) -> (res: String)
    ensures
        res@ == join(strings_view(items@), sep@),
{
    let mut res = String::new();
    let ghost texts = strings_view(items@);
    let mut i: usize = 0;
    while i < items.len()
        invariant
            i <= items@.len(),
            texts == strings_view(items@),
            res@ == join(texts.take(i as int), sep@),
        decreases items@.len() - i,
    {
        if i != 0 {
            res.append(sep);
        }
        res.append(items[i].as_str());
        proof {
            assert(texts.take(i + 1).drop_last() =~= texts.take(i as int));
            if i == 0 {
                assert(res@ =~= join(texts.take(1), sep@));
            }
        }
        i = i + 1;
    }
    proof {
        assert(texts.take(items@.len() as int) =~= texts);
    }
    res
}

/// How the statement texts grow: one pair gives `(f) VALUES ('v')` or `f = 'v'`; one more
/// pair adds `,f` and `','v` to the insert lists, and `,f = 'v'` to the update list.
pub proof fn lemma_sql_grows(
    fields: Seq<Seq<char>>,
    values: Seq<Seq<char>>,
    f: Seq<char>,
    v: Seq<char>,
)
    requires
        fields.len() == values.len(),
    ensures
        fields.len() == 0 ==> create_sql(fields.push(f), values.push(v)) == "("@ + f + ") VALUES ('"@ + v + "')"@,
        fields.len() == 0 ==> update_sql(fields.push(f), values.push(v)) == f + " = '"@ + v + "'"@,
        fields.len() > 0 ==> update_sql(fields.push(f), values.push(v)) == update_sql(fields, values) + ","@ + f
            + " = '"@ + v + "'"@,
        fields.len() > 0 ==> join(fields.push(f), ","@) == join(fields, ","@) + ","@ + f,
        values.len() > 0 ==> join(values.push(v), "','"@) == join(values, "','"@) + "','"@ + v,
        join(Seq::<Seq<char>>::empty(), ","@) == Seq::<char>::empty(),
{
    let a = assignments(fields.push(f), values.push(v));
    assert(fields.push(f).drop_last() =~= fields);
    assert(values.push(v).drop_last() =~= values);
    assert(a.drop_last() =~= assignments(fields, values));
    if fields.len() == 0 {
        assert(seq![f] =~= fields.push(f));
        assert(seq![v] =~= values.push(v));
    }
}

/// How the readable dump grows: an empty set shows only its method and the braces, and
/// one more pair adds the line `    f => v,` just before the closing brace.
pub proof fn lemma_display_grows(
    is_create: bool,
    fields: Seq<Seq<char>>,
    values: Seq<Seq<char>>,
    f: Seq<char>,
    v: Seq<char>,
)
    requires
        fields.len() == values.len(),
    ensures
        display_text(is_create, Seq::empty(), Seq::empty()) == "(method: "@ + (if is_create { "create"@ } else {
            "update"@
        }) + "){"@ + "\n"@ + "}"@,
        display_text(is_create, fields.push(f), values.push(v)) == display_text(is_create, fields, values).drop_last()
            + "    "@ + f + " => "@ + v + ",\n"@ + "}"@,
{
    reveal_strlit("}");
    let n = fields.len();
    assert(display_lines(fields.push(f), values.push(v), n) =~= display_lines(fields, values, n)) by {
        lemma_display_lines_prefix(fields, values, fields.push(f), values.push(v), n);
    }
    let head = "(method: "@ + (if is_create { "create"@ } else { "update"@ }) + "){"@ + "\n"@;
    assert((head + display_lines(fields, values, n) + "}"@).drop_last() =~= head + display_lines(fields, values, n));
    assert(display_text(is_create, Seq::empty(), Seq::empty()) =~= head + "}"@);
}

proof fn lemma_display_lines_prefix(
    f1: Seq<Seq<char>>,
    v1: Seq<Seq<char>>,
    f2: Seq<Seq<char>>,
    v2: Seq<Seq<char>>,
    n: nat,
)
    requires
        n <= f1.len(),
        n <= v1.len(),
        n <= f2.len(),
        n <= v2.len(),
        forall|i: int| 0 <= i < n ==> f1[i] == f2[i] && v1[i] == v2[i],
    ensures
        display_lines(f1, v1, n) == display_lines(f2, v2, n),
    decreases n,
{
    if n > 0 {
        lemma_display_lines_prefix(f1, v1, f2, v2, (n - 1) as nat);
    }
}

/// The column/value pairs of one row to insert or update.
pub struct DataSet<'a> {
    /// `true` for an `INSERT`, `false` for an `UPDATE`.
    pub is_create: bool,
    pub fields: Vec<&'a str>,
    pub values: Vec<String>,
}

impl<'a> DataSet<'a> {
    /// The field names as text.
    pub open spec fn field_texts(&self) -> Seq<Seq<char>> {
        strs_view(self.fields@)
    }

    /// The values as text.
    pub open spec fn value_texts(&self) -> Seq<Seq<char>> {
        strings_view(self.values@)
    }

    /// Every field has its value.
    pub open spec fn well_formed(&self) -> bool {
        self.fields@.len() == self.values@.len()
    }

    /// The statement text that `build` gives.
    pub open spec fn sql(&self) -> Seq<char> {
        if self.is_create {
            create_sql(self.field_texts(), self.value_texts())
        } else {
            update_sql(self.field_texts(), self.value_texts())
        }
    }

    /// An empty data set for an `INSERT`.
    pub fn create() -> (ds: Self)
        ensures
            ds.is_create,
            ds.fields@.len() == 0,
            ds.values@.len() == 0,
            ds.well_formed(),
    {
        DataSet { is_create: true, fields: Vec::new(), values: Vec::new() }
    }

    /// An empty data set for an `UPDATE`.
    pub fn update() -> (ds: Self)
        ensures
            !ds.is_create,
            ds.fields@.len() == 0,
            ds.values@.len() == 0,
            ds.well_formed(),
    {
        DataSet { is_create: false, fields: Vec::new(), values: Vec::new() }
    }

    /// Empties the data set and makes it an `INSERT` again.
    pub fn clear(&mut self) -> (this: &mut Self)
        ensures
            this.is_create,
            this.fields@.len() == 0,
            this.values@.len() == 0,
            *final(self) == *final(this),
    {
        self.is_create = true;
        self.fields = Vec::new();
        self.values = Vec::new();
        self
    }

    /// Adds the pair `field = value`; setting `id` turns the data set into an `INSERT`.
    pub fn set(&mut self, field: &'a str, value: &str) -> (this: &mut Self)
        ensures
            this.is_create == (old(self).is_create || field@ == "id"@),
            this.fields@ == old(self).fields@.push(field),
            this.values@.len() == old(self).values@.len() + 1,
            this.value_texts() == old(self).value_texts().push(value@),
            old(self).well_formed() ==> this.well_formed(),
            *final(self) == *final(this),
    {
        if field.to_owned() == "id".to_owned() {
            self.is_create = true;
        }
        self.fields.push(field);
        let ghost old_values = self.values@;
        self.values.push(value.to_owned());
        proof {
            assert(strings_view(self.values@) =~= strings_view(old_values).push(value@));
        }
        self
    }
    /// The statement text: the `INSERT` form or the `UPDATE` form.
    /// The `UPDATE` form reads one value per field.
    pub fn build(&self) -> (sql: String)
        requires
            !self.is_create ==> self.fields@.len() <= self.values@.len(),
        ensures
            sql@ == self.sql(),
    {
        if self.is_create {
            return self.build_create();
        }
        self.build_update()
    }

    /// `(f1,f2) VALUES ('v1','v2')`.
    fn build_create(&self) -> (sql: String)
        ensures
            sql@ == create_sql(self.field_texts(), self.value_texts()),
    {
        let mut sql = String::from_str("(");
        let fields = join_fields(&self.fields, ",");
        sql.append(fields.as_str());
        sql.append(") VALUES ('");
        let values = join_strings(&self.values, "','");
        sql.append(values.as_str());
        sql.append("')");
        sql
    }

    /// `f1 = 'v1',f2 = 'v2'`.
    fn build_update(&self) -> (sql: String)
        requires
            self.fields@.len() <= self.values@.len(),
        ensures
            sql@ == update_sql(self.field_texts(), self.value_texts()),
    {
        let length = self.fields.len();
        let ghost parts = assignments(self.field_texts(), self.value_texts());
        let mut sql = String::new();
        let mut i: usize = 0;
        while i < length
            invariant
                length == self.fields@.len(),
                length <= self.values@.len(),
                i <= length,
                parts == assignments(self.field_texts(), self.value_texts()),
                sql@ == join(parts.take(i as int), ","@),
            decreases length - i,
        {
            if i != 0 {
                sql.append(",");
            }
            sql.append(self.fields[i]);
            sql.append(" = '");
            sql.append(self.values[i].as_str());
            sql.append("'");
            proof {
                assert(parts.take(i + 1).drop_last() =~= parts.take(i as int));
                assert(parts[i as int] == assignment(self.fields@[i as int]@, self.values@[i as int]@));
                if i == 0 {
                    assert(sql@ =~= join(parts.take(1), ","@));
                } else {
                    assert(sql@ =~= join(parts.take(i + 1), ","@));
                }
            }
            i = i + 1;
        }
        proof {
            assert(parts.take(length as int) =~= parts);
        }
        sql
    }

    /// The readable dump: the method, then one `field => value` line per pair.
    pub fn display_string(&self) -> (text: String)
        requires
            self.fields@.len() <= self.values@.len(),
        ensures
            text@ == display_text(self.is_create, self.field_texts(), self.value_texts()),
    {
        let mut result = String::from_str("(method: ");
        if self.is_create {
            result.append("create");
        } else {
            result.append("update");
        }
        result.append("){");
        result.append("\n");
        let ghost head = result@;
        let mut i: usize = 0;
        while i < self.fields.len()
            invariant
                self.fields@.len() <= self.values@.len(),
                i <= self.fields@.len(),
                result@ == head + display_lines(self.field_texts(), self.value_texts(), i as nat),
            decreases self.fields@.len() - i,
        {
            result.append("    ");
            result.append(self.fields[i]);
            result.append(" => ");
            result.append(self.values[i].as_str());
            result.append(",\n");
            proof {
                assert(result@ =~= head + display_lines(self.field_texts(), self.value_texts(), (i + 1) as nat));
            }
            i = i + 1;
        }
        result.append("}");
        proof {
            assert(result@ =~= display_text(self.is_create, self.field_texts(), self.value_texts()));
        }
        result
    }
}

} // verus!
