//! The pass over the rows of a call, and the choice between the two text
//! types.

use vstd::prelude::*;
use crate::column::text_rows;
use crate::column::Column;
use crate::column::ColumnData;
use crate::column::DataType;
use crate::column::TypeTag;
use crate::engine::pattern_compiles;
use crate::error::ExtractError;
use crate::error::Failure;
use crate::error::Position;
use crate::pattern::extracted;
use crate::pattern::resolve_pattern;
use crate::pattern::CompiledPattern;
use crate::pattern::PatternPlan;

verus! {

/// The index at which row `row` reads a column of `len` rows: a column of one
/// row is read at 0 by every row.
pub open spec fn source_index(len: nat, row: int) -> int {
    if len == 1 {
        0
    } else {
        row
    }
}

/// A column of `len` rows can serve `n` rows: it has one row, or at least `n`.
pub open spec fn serves(len: nat, n: nat) -> bool {
    len == 1 || len >= n
}

/// The patterns that a call of `n` rows compiles, in the order in which it
/// compiles them: the one pattern of a column of one row, else the patterns
/// of the first `n` rows.
pub open spec fn compiled_patterns(n: nat, patterns: Seq<Seq<char>>) -> Seq<Seq<char>> {
    if patterns.len() == 1 {
        patterns
    } else {
        patterns.take(n as int)
    }
}

/// Every pattern compiles.
pub open spec fn all_compile(patterns: Seq<Seq<char>>) -> bool {
    forall|i: int| 0 <= i < patterns.len() ==> pattern_compiles(#[trigger] patterns[i])
}

/// Pattern `i` does not compile, and every pattern before it does.
pub open spec fn is_first_invalid(patterns: Seq<Seq<char>>, i: int) -> bool {
    &&& 0 <= i < patterns.len()
    &&& !pattern_compiles(patterns[i])
    &&& forall|j: int| 0 <= j < i ==> pattern_compiles(#[trigger] patterns[j])
}

/// The index of the first pattern that does not compile, where there is one.
pub open spec fn first_invalid(patterns: Seq<Seq<char>>) -> int {
    choose|i: int| is_first_invalid(patterns, i)
}

/// What row `row` of a call yields.
pub open spec fn row_text(
    texts: Seq<Seq<char>>,
    patterns: Seq<Seq<char>>,
    groups: Seq<i64>,
    row: int,
) -> Seq<char> {
    extracted(
        patterns[source_index(patterns.len(), row)],
        texts[source_index(texts.len(), row)],
        groups[source_index(groups.len(), row)] as int,
    )
}

/// What a call of `n` rows yields: the text of each row, or, where a pattern
/// that the call compiles does not compile, the failure that names the first
/// such pattern.
pub open spec fn extraction(
    n: nat,
    texts: Seq<Seq<char>>,
    patterns: Seq<Seq<char>>,
    groups: Seq<i64>,
) -> Result<Seq<Seq<char>>, Failure> {
    let compiled = compiled_patterns(n, patterns);
    if all_compile(compiled) {
        Ok(Seq::new(n, |row: int| row_text(texts, patterns, groups, row)))
    } else {
        Err(Failure::PatternCompileError(compiled[first_invalid(compiled)]))
    }
}

/// There is at most one first pattern that does not compile, and where there
/// is one, not every pattern compiles.
pub proof fn lemma_first_invalid_is(patterns: Seq<Seq<char>>, i: int)
    requires
        is_first_invalid(patterns, i),
    ensures
        !all_compile(patterns),
        first_invalid(patterns) == i,
{
    let k = first_invalid(patterns);
    assert(is_first_invalid(patterns, k));
    if k < i {
        assert(pattern_compiles(patterns[k]));
    }
    if i < k {
        assert(pattern_compiles(patterns[i]));
    }
}

/// What the outcome of a pass over the rows is in contracts.
pub open spec fn rows_outcome(r: Result<Vec<String>, ExtractError>) -> Result<
    Seq<Seq<char>>,
    Failure,
> {
    match r {
        Ok(rows) => Ok(text_rows(rows@)),
        Err(e) => Err(e@),
    }
}

/// The pass over the rows, the same for both text types. Row `i` of `n`
/// reads each column at `i`, or at 0 where the column has one row. A pattern
/// column of one row is compiled once, before the first row; otherwise each
/// row compiles its own pattern. The first pattern that does not compile
/// ends the call.
pub fn concrete_regexp_extract(
    n: usize,
    texts: &Vec<String>,
    patterns: &Vec<String>,
    groups: &Vec<i64>,
) -> (r: Result<Vec<String>, ExtractError>)
    requires
        serves(texts@.len(), n as nat),
        serves(patterns@.len(), n as nat),
        serves(groups@.len(), n as nat),
    ensures
        rows_outcome(r) == extraction(
            n as nat,
            text_rows(texts@),
            text_rows(patterns@),
            groups@,
        ),
{
    let ghost ts = text_rows(texts@);
    let ghost ps = text_rows(patterns@);
    let ghost compiled = compiled_patterns(n as nat, ps);
    let plan = match resolve_pattern(patterns) {
        Ok(plan) => plan,
        Err(e) => {
            proof {
                lemma_first_invalid_is(compiled, 0);
            }
            return Err(e);
        },
    };
    let mut rows: Vec<String> = Vec::new();
    let mut i: usize = 0;
    while i < n
        invariant
            i <= n,
            ts == text_rows(texts@),
            ps == text_rows(patterns@),
            compiled == compiled_patterns(n as nat, ps),
            serves(ts.len(), n as nat),
            serves(ps.len(), n as nat),
            serves(groups@.len(), n as nat),
            plan.fits(ps),
            plan is PerRow ==> forall|j: int| 0 <= j < i ==> pattern_compiles(#[trigger] ps[j]),
            rows@.len() == i,
            forall|j: int| 0 <= j < i ==> (#[trigger] rows@[j])@ == row_text(ts, ps, groups@, j),
        decreases n - i,
    {
        let group_index: i64 = if groups.len() == 1 {
            groups[0]
        } else {
            groups[i]
        };
        let text: &str = if texts.len() == 1 {
            texts[0].as_str()
        } else {
            texts[i].as_str()
        };
        let piece: String = match &plan {
            PatternPlan::Shared(compiled) => compiled.extract(text, group_index).to_owned(),
            PatternPlan::PerRow => {
                match CompiledPattern::new(patterns[i].as_str()) {
                    Ok(compiled) => compiled.extract(text, group_index).to_owned(),
                    Err(e) => {
                        proof {
                            assert(compiled[i as int] == ps[i as int]);
                            assert forall|j: int| 0 <= j < i implies pattern_compiles(
                                #[trigger] compiled[j],
                            ) by {
                                assert(compiled[j] == ps[j]);
                            }
                            lemma_first_invalid_is(compiled, i as int);
                        }
                        return Err(e);
                    },
                }
            },
        };
        rows.push(piece);
        i = i + 1;
    }
    proof {
        assert(all_compile(compiled)) by {
            assert forall|j: int| 0 <= j < compiled.len() implies pattern_compiles(
                #[trigger] compiled[j],
            ) by {
                if ps.len() != 1 {
                    assert(compiled[j] == ps[j]);
                }
            }
        }
        assert(text_rows(rows@) =~= Seq::new(
            n as nat,
            |row: int| row_text(ts, ps, groups@, row),
        ));
    }
    Ok(rows)
}

/// The three columns can be read for `n` rows: where their types are those
/// of a call that reaches the rows, each serves `n` rows.
pub open spec fn aligned(
    n: nat,
    input: ColumnData,
    pattern: ColumnData,
    group_index: ColumnData,
) -> bool {
    match (input, pattern, group_index) {
        (ColumnData::Utf8(texts), ColumnData::Utf8(patterns), ColumnData::Int64(groups)) => {
            serves(texts.len(), n) && serves(patterns.len(), n) && serves(groups.len(), n)
        },
        (
            ColumnData::LargeUtf8(texts),
            ColumnData::LargeUtf8(patterns),
            ColumnData::Int64(groups),
        ) => { serves(texts.len(), n) && serves(patterns.len(), n) && serves(groups.len(), n) },
        _ => true,
    }
}

fn column_serves(len: usize, n: usize) -> (b: bool)
    ensures
        b == serves(len as nat, n as nat),
{
    len == 1 || len >= n
}

/// Tells whether the three columns can be read for `n` rows.
pub fn is_aligned(n: usize, input: &Column, pattern: &Column, group_index: &Column) -> (b: bool)
    ensures
        b == aligned(n as nat, input@, pattern@, group_index@),
{
    let reaches_rows = match (input, pattern, group_index) {
        (Column::Utf8(_), Column::Utf8(_), Column::Int64(_)) => true,
        (Column::LargeUtf8(_), Column::LargeUtf8(_), Column::Int64(_)) => true,
        _ => false,
    };
    !reaches_rows || (column_serves(input.len(), n) && column_serves(pattern.len(), n)
        && column_serves(group_index.len(), n))
}

/// What a call of `n` rows on three columns yields. The group indices must
/// be integers; the subject must be text of either type, and the patterns
/// text of the same type. The output is text of the subject's type.
pub open spec fn column_extraction(
    n: nat,
    input: ColumnData,
    pattern: ColumnData,
    group_index: ColumnData,
) -> Result<ColumnData, Failure> {
    match group_index {
        ColumnData::Int64(groups) => match input {
            ColumnData::Utf8(texts) => match pattern {
                ColumnData::Utf8(patterns) => match extraction(n, texts, patterns, groups) {
                    Ok(rows) => Ok(ColumnData::Utf8(rows)),
                    Err(failure) => Err(failure),
                },
                _ => Err(Failure::RepresentationMismatchError(Position::Pattern, TypeTag::Utf8)),
            },
            ColumnData::LargeUtf8(texts) => match pattern {
                ColumnData::LargeUtf8(patterns) => match extraction(n, texts, patterns, groups) {
                    Ok(rows) => Ok(ColumnData::LargeUtf8(rows)),
                    Err(failure) => Err(failure),
                },
                _ => Err(
                    Failure::RepresentationMismatchError(Position::Pattern, TypeTag::LargeUtf8),
                ),
            },
            _ => Err(Failure::UnsupportedInputType(input.data_type())),
        },
        _ => Err(Failure::RepresentationMismatchError(Position::GroupIndex, TypeTag::Int64)),
    }
}

/// What the outcome of a call is in contracts.
pub open spec fn outcome(r: Result<Column, ExtractError>) -> Result<ColumnData, Failure> {
    match r {
        Ok(column) => Ok(column@),
        Err(e) => Err(e@),
    }
}

/// Extraction over `n` rows of three columns, each read at the row's index or,
/// where it has one row, at 0. Chooses the pass by the subject's text type
/// and gives the output that type.
pub fn regexp_extract_rows(
    n: usize,
    input: &Column,
    pattern: &Column,
    group_index: &Column,
) -> (r: Result<Column, ExtractError>)
    requires
        aligned(n as nat, input@, pattern@, group_index@),
    ensures
        outcome(r) == column_extraction(n as nat, input@, pattern@, group_index@),
{
    let groups: &Vec<i64> = match group_index {
        Column::Int64(groups) => groups,
        _ => {
            return Err(
                ExtractError::RepresentationMismatchError(Position::GroupIndex, DataType::Int64),
            );
        },
    };
    match input {
        Column::Utf8(texts) => match pattern {
            Column::Utf8(patterns) => match concrete_regexp_extract(n, texts, patterns, groups) {
                Ok(rows) => Ok(Column::Utf8(rows)),
                Err(e) => Err(e),
            },
            _ => Err(ExtractError::RepresentationMismatchError(Position::Pattern, DataType::Utf8)),
        },
        Column::LargeUtf8(texts) => match pattern {
            Column::LargeUtf8(patterns) => match concrete_regexp_extract(
                n,
                texts,
                patterns,
                groups,
            ) {
                Ok(rows) => Ok(Column::LargeUtf8(rows)),
                Err(e) => Err(e),
            },
            _ => Err(
                ExtractError::RepresentationMismatchError(Position::Pattern, DataType::LargeUtf8),
            ),
        },
        _ => Err(ExtractError::UnsupportedInputType(input.data_type())),
    }
}

/// Extraction on three columns: the subject texts, the patterns and the
/// group indices, in this order. The call has as many rows as the subject
/// column.
pub fn regexp_extract(args: &[Column]) -> (r: Result<Column, ExtractError>)
    requires
        args@.len() == 3,
        aligned(args@[0]@.len(), args@[0]@, args@[1]@, args@[2]@),
    ensures
        outcome(r) == column_extraction(args@[0]@.len(), args@[0]@, args@[1]@, args@[2]@),
{
    let n: usize = args[0].len();
    regexp_extract_rows(n, &args[0], &args[1], &args[2])
}

} // verus!
