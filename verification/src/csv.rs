use vstd::prelude::*;

use crate::record::{
    find_col, lemma_bad_row_fails, lemma_missing_column_fails, lemma_one_record_per_row, row_bad,
    rows_to_records_spec, Error, RecordModel, RecordParser, ResourceRecord,
};
use crate::text::{chars_vec, split_chars, split_spec, string_from_chars, strip_cr};

verus! {

/// One character prepended to the first piece of `r`.
pub open spec fn piece_cons(c: char, r: Seq<Seq<char>>) -> Seq<Seq<char>> {
    seq![seq![c] + r[0]] + r.drop_first()
}

/// The fields of the rest of a line, read in one of three modes: at the
/// start of a field (mode 0), inside a quoted run (mode 1), or inside an
/// unquoted run (mode 2). A comma outside a quoted run ends the field; a
/// quote at the start of a field opens a quoted run, inside which a
/// doubled quote stands for one literal quote and a single quote closes
/// the run; every other quote is literal. A quoted run does not continue
/// past the end of the line.
pub open spec fn fields_from(s: Seq<char>, mode: int) -> Seq<Seq<char>>
    decreases s.len(),
{
    if s.len() == 0 {
        seq![Seq::<char>::empty()]
    } else if mode == 1 {
        if s[0] == '"' {
            if s.len() >= 2 && s[1] == '"' {
                piece_cons('"', fields_from(s.skip(2), 1))
            } else {
                fields_from(s.drop_first(), 2)
            }
        } else {
            piece_cons(s[0], fields_from(s.drop_first(), 1))
        }
    } else if s[0] == ',' {
        seq![Seq::<char>::empty()] + fields_from(s.drop_first(), 0)
    } else if mode == 0 && s[0] == '"' {
        fields_from(s.drop_first(), 1)
    } else {
        piece_cons(s[0], fields_from(s.drop_first(), 2))
    }
}

/// The fields of one line.
pub open spec fn fields_spec(line: Seq<char>) -> Seq<Seq<char>> {
    fields_from(line, 0)
}

pub proof fn lemma_fields_len(s: Seq<char>, mode: int)
    ensures
        fields_from(s, mode).len() >= 1,
    decreases s.len(),
{
    if s.len() > 0 {
        lemma_fields_len(s.drop_first(), 0);
        lemma_fields_len(s.drop_first(), 1);
        lemma_fields_len(s.drop_first(), 2);
        if s.len() >= 2 {
            lemma_fields_len(s.skip(2), 1);
        }
    }
}

/// The cell grid of the given raw lines: each line with one trailing
/// carriage return removed, blank lines skipped, every kept line split
/// into fields.
pub open spec fn rows_of_lines(lines: Seq<Seq<char>>) -> Seq<Seq<Seq<char>>>
    decreases lines.len(),
{
    if lines.len() == 0 {
        Seq::empty()
    } else {
        let rest = rows_of_lines(lines.drop_last());
        let kept = strip_cr(lines.last());
        if kept.len() > 0 {
            rest.push(fields_spec(kept))
        } else {
            rest
        }
    }
}

/// The cell grid of a delimited text file: its text split into lines at
/// newlines, then read as `rows_of_lines` states.
pub open spec fn csv_rows_spec(s: Seq<char>) -> Seq<Seq<Seq<char>>> {
    rows_of_lines(split_spec(s, '\n'))
}

/// What the CSV adapter owes for a file's text: the two-column
/// deserialization of its cell grid, as `rows_to_records_spec` states.
pub open spec fn csv_parse_spec(s: Seq<char>) -> Result<Seq<RecordModel>, Error> {
    rows_to_records_spec(csv_rows_spec(s))
}

/// Law: for a well-formed two-column file — its grid has data rows, a
/// header holding the `Author` and `Title` columns, and every data row
/// with one field per header field and non-empty author and title cells
/// — the adapter owes exactly one record per data row, in file order,
/// fields verbatim from the row's cells.
pub proof fn lemma_csv_one_record_per_row(s: Seq<char>)
    requires
        csv_rows_spec(s).len() > 1,
        find_col(csv_rows_spec(s)[0], "Author"@) is Some,
        find_col(csv_rows_spec(s)[0], "Title"@) is Some,
        forall|i: int|
            1 <= i < csv_rows_spec(s).len() ==> !row_bad(
                #[trigger] csv_rows_spec(s)[i],
                csv_rows_spec(s)[0].len() as int,
                find_col(csv_rows_spec(s)[0], "Author"@)->Some_0,
                find_col(csv_rows_spec(s)[0], "Title"@)->Some_0,
            ),
    ensures
        ({
            let r = csv_parse_spec(s);
            let ai = find_col(csv_rows_spec(s)[0], "Author"@)->Some_0;
            let ti = find_col(csv_rows_spec(s)[0], "Title"@)->Some_0;
            &&& r is Ok
            &&& r->Ok_0.len() == csv_rows_spec(s).len() - 1
            &&& forall|i: int|
                1 <= i < csv_rows_spec(s).len() ==> r->Ok_0[i - 1] == (RecordModel {
                    author: csv_rows_spec(s)[i][ai],
                    title: csv_rows_spec(s)[i][ti],
                })
        }),
{
    lemma_one_record_per_row(csv_rows_spec(s));
}

/// Law: a data row missing the author or the title column — the header
/// lacks one of the two, the row has not one field per header field, or
/// its author or title cell is empty — fails the parse of the whole
/// file; no partial list is returned.
pub proof fn lemma_csv_missing_field_fails(s: Seq<char>, i: int)
    requires
        csv_rows_spec(s).len() > 1,
        1 <= i < csv_rows_spec(s).len(),
        find_col(csv_rows_spec(s)[0], "Author"@) is None || find_col(
            csv_rows_spec(s)[0],
            "Title"@,
        ) is None || row_bad(
            csv_rows_spec(s)[i],
            csv_rows_spec(s)[0].len() as int,
            find_col(csv_rows_spec(s)[0], "Author"@)->Some_0,
            find_col(csv_rows_spec(s)[0], "Title"@)->Some_0,
        ),
    ensures
        csv_parse_spec(s) == Err::<Seq<RecordModel>, Error>(Error::FormatError),
{
    if find_col(csv_rows_spec(s)[0], "Author"@) is None || find_col(
        csv_rows_spec(s)[0],
        "Title"@,
    ) is None {
        lemma_missing_column_fails(csv_rows_spec(s));
    } else {
        lemma_bad_row_fails(csv_rows_spec(s), i);
    }
}

/// Split one line into fields, as `fields_spec` states: commas separate
/// fields, a quote at the start of a field opens a quoted run, a
/// doubled quote inside it stands for one literal quote.
fn split_fields(v: &Vec<char>) -> (r: Vec<Vec<char>>)
    ensures
        r.deep_view() == fields_spec(v@),
        r.len() >= 1,
{
    let ghost s = v@;
    let mut done: Vec<Vec<char>> = Vec::new();
    let mut cur: Vec<char> = Vec::new();
    let mut mode: u8 = 0;
    let mut i: usize = 0;
    proof {
        lemma_fields_len(s, 0);
        assert(s.skip(0) =~= s);
    }
    while i < v.len()
        invariant
            0 <= i <= v.len(),
            s == v@,
            mode == 0 || mode == 1 || mode == 2,
            fields_from(s.skip(i as int), mode as int).len() >= 1,
            fields_spec(s) =~= done.deep_view() + seq![
                cur@ + fields_from(s.skip(i as int), mode as int)[0],
            ] + fields_from(s.skip(i as int), mode as int).drop_first(),
        decreases v.len() - i,
    {
        let ghost tail = s.skip(i as int);
        let ghost m0 = mode as int;
        proof {
            assert(tail[0] == s[i as int]);
            assert(tail.drop_first() =~= s.skip(i + 1));
        }
        let c = v[i];
        if mode == 1 {
            if c == '"' && i + 1 < v.len() && v[i + 1] == '"' {
                let ghost rest = fields_from(s.skip(i + 2), 1);
                proof {
                    assert(tail[1] == s[i + 1]);
                    assert(tail.skip(2) =~= s.skip(i + 2));
                    lemma_fields_len(s.skip(i + 2), 1);
                    assert(fields_from(tail, 1) =~= piece_cons('"', rest));
                }
                let ghost cpre = cur@;
                cur.push('"');
                proof {
                    assert(cur@ =~= cpre.push('"'));
                    assert(cur@ + rest[0] =~= cpre + fields_from(tail, 1)[0]);
                    assert(fields_spec(s) =~= done.deep_view() + seq![
                        cur@ + rest[0],
                    ] + rest.drop_first());
                }
                i += 2;
            } else if c == '"' {
                proof {
                    lemma_fields_len(s.skip(i + 1), 2);
                    assert(fields_from(tail, 1) == fields_from(s.skip(i + 1), 2));
                }
                mode = 2;
                i += 1;
            } else {
                let ghost rest = fields_from(s.skip(i + 1), 1);
                proof {
                    lemma_fields_len(s.skip(i + 1), 1);
                    assert(fields_from(tail, 1) =~= piece_cons(s[i as int], rest));
                }
                let ghost cpre = cur@;
                cur.push(c);
                proof {
                    assert(cur@ =~= cpre.push(s[i as int]));
                    assert(cur@ + rest[0] =~= cpre + fields_from(tail, 1)[0]);
                    assert(fields_spec(s) =~= done.deep_view() + seq![
                        cur@ + rest[0],
                    ] + rest.drop_first());
                }
                i += 1;
            }
        } else if c == ',' {
            let ghost rest = fields_from(s.skip(i + 1), 0);
            proof {
                lemma_fields_len(s.skip(i + 1), 0);
                assert(fields_from(tail, m0) =~= seq![Seq::<char>::empty()] + rest);
            }
            let ghost dpre = done.deep_view();
            let finished = cur;
            done.push(finished);
            cur = Vec::new();
            mode = 0;
            proof {
                assert(done.deep_view() =~~= dpre.push(finished@));
                assert(fields_spec(s) =~= done.deep_view() + seq![
                    cur@ + rest[0],
                ] + rest.drop_first());
            }
            i += 1;
        } else if mode == 0 && c == '"' {
            proof {
                lemma_fields_len(s.skip(i + 1), 1);
                assert(fields_from(tail, 0) == fields_from(s.skip(i + 1), 1));
            }
            mode = 1;
            i += 1;
        } else {
            let ghost rest = fields_from(s.skip(i + 1), 2);
            proof {
                lemma_fields_len(s.skip(i + 1), 2);
                assert(fields_from(tail, m0) =~= piece_cons(s[i as int], rest));
            }
            let ghost cpre = cur@;
            cur.push(c);
            proof {
                assert(cur@ =~= cpre.push(s[i as int]));
                assert(cur@ + rest[0] =~= cpre + fields_from(tail, m0)[0]);
                assert(fields_spec(s) =~= done.deep_view() + seq![
                    cur@ + rest[0],
                ] + rest.drop_first());
            }
            mode = 2;
            i += 1;
        }
    }
    proof {
        assert(s.skip(v.len() as int) =~= Seq::<char>::empty());
        assert(fields_from(s.skip(v.len() as int), mode as int) =~= seq![Seq::<char>::empty()]);
    }
    let ghost dpre = done.deep_view();
    let last = cur;
    done.push(last);
    proof {
        assert(done.deep_view() =~~= dpre.push(last@));
        assert(done.deep_view() =~~= fields_spec(s));
    }
    done
}

/// Reads records from comma-delimited text with a header row; this
/// adapter expects the header spellings `Author` and `Title`, separates
/// fields as `fields_spec` states — quoted fields may hold commas and
/// doubled quotes, but do not span lines — and skips blank lines.
pub struct CsvParser {
    content: String,
}

impl CsvParser {
    /// The file text this parser reads.
    pub closed spec fn text(&self) -> Seq<char> {
        self.content@
    }

    /// A parser over the given file text.
    pub fn new(content: String) -> (r: Self)
        ensures
            r.text() == content@,
    {
        CsvParser { content }
    }
}

impl RecordParser for CsvParser {
    open spec fn records_model(&self) -> Result<Seq<RecordModel>, Error> {
        csv_parse_spec(self.text())
    }

    fn parse(&mut self) -> (r: Result<Vec<ResourceRecord>, Error>) {
        let ghost s = self.content@;
        let cv = chars_vec(self.content.as_str());
        let lines = split_chars(&cv, '\n');
        let ghost raw = split_spec(s, '\n');
        let mut rows: Vec<Vec<String>> = Vec::new();
        let mut j: usize = 0;
        proof {
            assert(raw.take(0) =~= Seq::<Seq<char>>::empty());
        }
        while j < lines.len()
            invariant
                0 <= j <= lines.len(),
                raw == split_spec(s, '\n'),
                lines.deep_view() == raw,
                lines.len() == raw.len(),
                rows.deep_view() =~~= rows_of_lines(raw.take(j as int)),
            decreases lines.len() - j,
        {
            let line = &lines[j];
            let has_cr = line.len() > 0 && line[line.len() - 1] == '\r';
            let eff_len = if has_cr {
                line.len() - 1
            } else {
                line.len()
            };
            let mut lc: Vec<char> = Vec::new();
            let mut k: usize = 0;
            while k < eff_len
                invariant
                    0 <= k <= eff_len <= line@.len(),
                    lc@ == line@.take(k as int),
                decreases eff_len - k,
            {
                let ch = line[k];
                lc.push(ch);
                proof {
                    assert(lc@ =~= line@.take(k + 1));
                }
                k += 1;
            }
            proof {
                assert(line@ == raw[j as int]);
                assert(lc@ =~= strip_cr(raw[j as int]));
                assert(raw.take(j + 1).drop_last() =~= raw.take(j as int));
                assert(raw.take(j + 1).last() == raw[j as int]);
            }
            if lc.len() > 0 {
                let fields = split_fields(&lc);
                let mut frow: Vec<String> = Vec::new();
                let mut t: usize = 0;
                while t < fields.len()
                    invariant
                        0 <= t <= fields.len(),
                        frow.deep_view() =~~= fields.deep_view().take(t as int),
                    decreases fields.len() - t,
                {
                    let cell = string_from_chars(&fields[t]);
                    let ghost fpre = frow.deep_view();
                    frow.push(cell);
                    proof {
                        assert(frow.deep_view() =~~= fpre.push(fields.deep_view()[t as int]));
                        assert(frow.deep_view() =~~= fields.deep_view().take(t + 1));
                    }
                    t += 1;
                }
                proof {
                    assert(frow.deep_view() =~~= fields.deep_view());
                    assert(frow.deep_view() == fields_spec(strip_cr(raw[j as int])));
                }
                let ghost rpre = rows.deep_view();
                rows.push(frow);
                proof {
                    assert(rows.deep_view() =~~= rpre.push(fields_spec(strip_cr(raw[j as int]))));
                    assert(rows.deep_view() =~~= rows_of_lines(raw.take(j + 1)));
                }
            } else {
                proof {
                    assert(rows.deep_view() =~~= rows_of_lines(raw.take(j + 1)));
                }
            }
            j += 1;
        }
        proof {
            assert(raw.take(lines.len() as int) =~= raw);
            assert(rows.deep_view() =~~= csv_rows_spec(s));
        }
        crate::record::parse_rows(&rows)
    }
}

} // verus!
