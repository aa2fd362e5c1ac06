use vstd::prelude::*;

verus! {

/// Everything that can go wrong in the pipeline: file or transport trouble,
/// an input file that does not match the two-column schema, a registry
/// answer of the wrong shape, a registry-reported failure, or an empty
/// result list.
#[derive(Clone, Copy, Debug, PartialEq, Eq, Structural)]
pub enum Error {
    IoError,
    FormatError,
    RegistryParseError,
    RegistryStatusError,
    NotFoundError,
    HttpError,
}

/// Mathematical model of a single record: the author and title character
/// sequences as they stood in the source file.
pub struct RecordModel {
    pub author: Seq<char>,
    pub title: Seq<char>,
}

/// One bibliographic query unit: an author and a title, both as given in
/// the source file.
#[derive(Debug, PartialEq, Eq)]
pub struct ResourceRecord {
    pub author: String,
    pub title: String,
}

impl DeepView for ResourceRecord {
    type V = RecordModel;

    open spec fn deep_view(&self) -> RecordModel {
        RecordModel { author: self.author@, title: self.title@ }
    }
}

/// The model of a parse result: the record sequence on success, the error
/// otherwise.
pub open spec fn result_model(r: Result<Vec<ResourceRecord>, Error>) -> Result<
    Seq<RecordModel>,
    Error,
> {
    match r {
        Ok(v) => Ok(v.deep_view()),
        Err(e) => Err(e),
    }
}

/// Index of the first field of `fields` that equals `name`, if any.
pub open spec fn find_col(fields: Seq<Seq<char>>, name: Seq<char>) -> Option<int>
    decreases fields.len(),
{
    if fields.len() == 0 {
        None
    } else if fields[0] == name {
        Some(0)
    } else {
        match find_col(fields.drop_first(), name) {
            None => None,
            Some(i) => Some(i + 1),
        }
    }
}

pub proof fn lemma_find_col_some(fields: Seq<Seq<char>>, name: Seq<char>, i: int)
    requires
        0 <= i < fields.len(),
        fields[i] == name,
        forall|j: int| 0 <= j < i ==> fields[j] != name,
    ensures
        find_col(fields, name) == Some(i),
    decreases i,
{
    if i == 0 {
    } else {
        assert(fields.drop_first()[i - 1] == name);
        assert(forall|j: int| 0 <= j < i - 1 ==> fields.drop_first()[j] != name);
        lemma_find_col_some(fields.drop_first(), name, i - 1);
    }
}

pub proof fn lemma_find_col_none(fields: Seq<Seq<char>>, name: Seq<char>)
    requires
        forall|j: int| 0 <= j < fields.len() ==> fields[j] != name,
    ensures
        find_col(fields, name) is None,
    decreases fields.len(),
{
    if fields.len() > 0 {
        assert(forall|j: int|
            0 <= j < fields.drop_first().len() ==> fields.drop_first()[j] != name);
        lemma_find_col_none(fields.drop_first(), name);
    }
}

pub proof fn lemma_find_col_in_range(fields: Seq<Seq<char>>, name: Seq<char>)
    requires
        find_col(fields, name) is Some,
    ensures
        0 <= find_col(fields, name)->Some_0 < fields.len(),
        fields[find_col(fields, name)->Some_0] == name,
    decreases fields.len(),
{
    if fields.len() > 0 && fields[0] != name {
        lemma_find_col_in_range(fields.drop_first(), name);
    }
}

/// A data row that cannot yield a record: it does not have exactly one
/// field per header field, or its author or title cell is empty — both
/// fields are required, non-empty, at parse time.
pub open spec fn row_bad(row: Seq<Seq<char>>, hlen: int, ai: int, ti: int) -> bool {
    row.len() != hlen || row[ai].len() == 0 || row[ti].len() == 0
}

/// What a two-column deserialization owes for a grid of text cells whose
/// first row is the header: one record per data row, in order, the author
/// and title taken verbatim from the columns headed `Author` and `Title`;
/// the whole parse fails when a data row exists and the header lacks one
/// of the two columns, or when some data row is bad: not exactly one
/// field per header field, or an empty author or title cell.
pub open spec fn rows_to_records_spec(rows: Seq<Seq<Seq<char>>>) -> Result<
    Seq<RecordModel>,
    Error,
> {
    if rows.len() <= 1 {
        Ok(Seq::empty())
    } else {
        let header = rows[0];
        match (find_col(header, "Author"@), find_col(header, "Title"@)) {
            (Some(ai), Some(ti)) => {
                if exists|i: int| 1 <= i < rows.len() && row_bad(#[trigger] rows[i], header.len() as int, ai, ti) {
                    Err(Error::FormatError)
                } else {
                    Ok(
                        Seq::new(
                            (rows.len() - 1) as nat,
                            |i: int|
                                RecordModel { author: rows[i + 1][ai], title: rows[i + 1][ti] },
                        ),
                    )
                }
            },
            _ => Err(Error::FormatError),
        }
    }
}

/// Law: for a well-formed two-column grid — a header holding the `Author`
/// and `Title` columns, and every data row with exactly one field per
/// header field and non-empty author and title cells — deserialization
/// succeeds with exactly one record per data row, in row order, author
/// and title taken verbatim from the row.
pub proof fn lemma_one_record_per_row(rows: Seq<Seq<Seq<char>>>)
    requires
        rows.len() > 1,
        find_col(rows[0], "Author"@) is Some,
        find_col(rows[0], "Title"@) is Some,
        forall|i: int|
            1 <= i < rows.len() ==> !row_bad(
                #[trigger] rows[i],
                rows[0].len() as int,
                find_col(rows[0], "Author"@)->Some_0,
                find_col(rows[0], "Title"@)->Some_0,
            ),
    ensures
        ({
            let r = rows_to_records_spec(rows);
            let ai = find_col(rows[0], "Author"@)->Some_0;
            let ti = find_col(rows[0], "Title"@)->Some_0;
            &&& r is Ok
            &&& r->Ok_0.len() == rows.len() - 1
            &&& forall|i: int|
                1 <= i < rows.len() ==> r->Ok_0[i - 1] == (RecordModel {
                    author: rows[i][ai],
                    title: rows[i][ti],
                })
        }),
{
}

/// Law: when the header lacks the `Author` or the `Title` column and at
/// least one data row exists, the whole parse fails; no partial list is
/// returned.
pub proof fn lemma_missing_column_fails(rows: Seq<Seq<Seq<char>>>)
    requires
        rows.len() > 1,
        find_col(rows[0], "Author"@) is None || find_col(rows[0], "Title"@) is None,
    ensures
        rows_to_records_spec(rows) == Err::<Seq<RecordModel>, Error>(Error::FormatError),
{
}

/// Law: one bad data row — not exactly one field per header field, or an
/// empty author or title cell — makes the whole parse fail; no partial
/// list is returned.
pub proof fn lemma_bad_row_fails(rows: Seq<Seq<Seq<char>>>, i: int)
    requires
        rows.len() > 1,
        1 <= i < rows.len(),
        find_col(rows[0], "Author"@) is Some,
        find_col(rows[0], "Title"@) is Some,
        row_bad(
            rows[i],
            rows[0].len() as int,
            find_col(rows[0], "Author"@)->Some_0,
            find_col(rows[0], "Title"@)->Some_0,
        ),
    ensures
        rows_to_records_spec(rows) == Err::<Seq<RecordModel>, Error>(Error::FormatError),
{
}

/// Law: every record of a successful parse has a non-empty author and a
/// non-empty title; a row that would yield an empty field fails the
/// parse instead.
pub proof fn lemma_records_nonempty(rows: Seq<Seq<Seq<char>>>)
    ensures
        rows_to_records_spec(rows) matches Ok(recs) ==> forall|k: int|
            0 <= k < recs.len() ==> (#[trigger] recs[k]).author.len() > 0 && recs[k].title.len()
                > 0,
{
    let r = rows_to_records_spec(rows);
    if r is Ok && rows.len() > 1 {
        let header = rows[0];
        let ai = find_col(header, "Author"@)->Some_0;
        let ti = find_col(header, "Title"@)->Some_0;
        assert forall|k: int|
            0 <= k < r->Ok_0.len() implies (#[trigger] r->Ok_0[k]).author.len() > 0
            && r->Ok_0[k].title.len() > 0 by {
            assert(!row_bad(rows[k + 1], header.len() as int, ai, ti));
        }
    }
}

/// Index of the first cell of `fields` equal to `name`, under the model
/// `find_col`.
fn find_col_exec(fields: &Vec<String>, name: &str) -> (r: Option<usize>)
    ensures
        match r {
            Some(i) => find_col(fields.deep_view(), name@) == Some(i as int),
            None => find_col(fields.deep_view(), name@) is None,
        },
{
    let ghost m = fields.deep_view();
    let needle = name.to_owned();
    let mut i: usize = 0;
    while i < fields.len()
        invariant
            0 <= i <= fields.len(),
            m == fields.deep_view(),
            needle@ == name@,
            forall|j: int| 0 <= j < i ==> m[j] != name@,
        decreases fields.len() - i,
    {
        if fields[i] == needle {
            proof {
                lemma_find_col_some(m, name@, i as int);
            }
            return Some(i);
        }
        i += 1;
    }
    proof {
        lemma_find_col_none(m, name@);
    }
    None
}

/// Deserialize a grid of text cells (header row first) into records, as
/// `rows_to_records_spec` states.
pub fn parse_rows(rows: &Vec<Vec<String>>) -> (r: Result<Vec<ResourceRecord>, Error>)
    ensures
        result_model(r) == rows_to_records_spec(rows.deep_view()),
{
    let ghost m = rows.deep_view();
    if rows.len() <= 1 {
        let empty: Vec<ResourceRecord> = Vec::new();
        assert(empty.deep_view() =~= Seq::<RecordModel>::empty());
        return Ok(empty);
    }
    let header_len = rows[0].len();
    let ai = match find_col_exec(&rows[0], "Author") {
        Some(i) => i,
        None => {
            return Err(Error::FormatError);
        },
    };
    let ti = match find_col_exec(&rows[0], "Title") {
        Some(i) => i,
        None => {
            return Err(Error::FormatError);
        },
    };
    proof {
        lemma_find_col_in_range(m[0], "Author"@);
        lemma_find_col_in_range(m[0], "Title"@);
    }
    let mut recs: Vec<ResourceRecord> = Vec::new();
    let mut i: usize = 1;
    while i < rows.len()
        invariant
            1 <= i <= rows.len(),
            m == rows.deep_view(),
            m.len() == rows.len(),
            find_col(m[0], "Author"@) == Some(ai as int),
            find_col(m[0], "Title"@) == Some(ti as int),
            ai < m[0].len(),
            ti < m[0].len(),
            header_len == m[0].len(),
            forall|j: int|
                1 <= j < i ==> !row_bad(#[trigger] m[j], m[0].len() as int, ai as int, ti as int),
            recs.deep_view().len() == i - 1,
            forall|j: int|
                0 <= j < i - 1 ==> recs.deep_view()[j] == (RecordModel {
                    author: m[j + 1][ai as int],
                    title: m[j + 1][ti as int],
                }),
        decreases rows.len() - i,
    {
        let arity_bad = rows[i].len() != header_len;
        let field_empty = !arity_bad && (rows[i][ai].as_str().is_empty() || rows[i][ti]
            .as_str()
            .is_empty());
        if arity_bad || field_empty {
            proof {
                if !arity_bad {
                    assert(m[i as int][ai as int] == rows@[i as int]@[ai as int]@);
                    assert(m[i as int][ti as int] == rows@[i as int]@[ti as int]@);
                }
                assert(1 <= i < m.len() && row_bad(
                    m[i as int],
                    m[0].len() as int,
                    ai as int,
                    ti as int,
                ));
            }
            return Err(Error::FormatError);
        }
        let rec = ResourceRecord {
            author: rows[i][ai].clone(),
            title: rows[i][ti].clone(),
        };
        let ghost pre = recs.deep_view();
        recs.push(rec);
        proof {
            assert(recs.deep_view() =~= pre.push(
                RecordModel { author: m[i as int][ai as int], title: m[i as int][ti as int] },
            ));
        }
        i += 1;
    }
    assert(rows_to_records_spec(m) matches Ok(s) && s =~= recs.deep_view());
    Ok(recs)
}

/// A format-specific reader producing records from an already-loaded source.
/// Each implementation fixes `records_model`, the parse result it owes.
pub trait RecordParser {
    spec fn records_model(&self) -> Result<Seq<RecordModel>, Error>;

    fn parse(&mut self) -> (r: Result<Vec<ResourceRecord>, Error>)
        ensures
            final(self).records_model() == old(self).records_model(),
            result_model(r) == old(self).records_model(),
    ;
}

} // verus!
