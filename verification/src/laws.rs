//! What holds of every call, proved from the definitions that the contracts
//! of extraction are stated over.

use vstd::prelude::*;
use crate::column::Argument;
use crate::column::ColumnData;
use crate::engine::first_match;
use crate::engine::pattern_compiles;
use crate::error::Failure;
use crate::extract::all_compile;
use crate::extract::column_extraction;
use crate::extract::compiled_patterns;
use crate::pattern::extracted;
use crate::extract::extraction;
use crate::extract::lemma_first_invalid_is;
use crate::extract::row_text;
use crate::extract::source_index;
use crate::function::invocation;
use crate::function::row_count;

verus! {

/// The call on three scalars: a subject, a pattern and a group index, the
/// texts with standard offsets.
pub open spec fn scalar_call(text: Seq<char>, pattern: Seq<char>, g: i64) -> Seq<Argument> {
    seq![
        Argument { scalar: true, column: ColumnData::Utf8(seq![text]) },
        Argument { scalar: true, column: ColumnData::Utf8(seq![pattern]) },
        Argument { scalar: true, column: ColumnData::Int64(seq![g]) },
    ]
}

/// The scalar result that holds one text with standard offsets.
pub open spec fn scalar_text(text: Seq<char>) -> Argument {
    Argument { scalar: true, column: ColumnData::Utf8(seq![text]) }
}

/// A call on three scalars yields a scalar: what the one row yields where
/// the pattern compiles, and else the failure that names the pattern.
pub proof fn lemma_scalar_call(text: Seq<char>, pattern: Seq<char>, g: i64)
    ensures
        invocation(scalar_call(text, pattern, g)) == if pattern_compiles(pattern) {
            Ok::<Argument, Failure>(scalar_text(extracted(pattern, text, g as int)))
        } else {
            Err::<Argument, Failure>(Failure::PatternCompileError(pattern))
        },
{
    let args = scalar_call(text, pattern, g);
    let texts = seq![text];
    let patterns = seq![pattern];
    let groups = seq![g];
    assert(row_count(args) == 1);
    assert(compiled_patterns(1, patterns) == patterns);
    if pattern_compiles(pattern) {
        assert(all_compile(patterns));
        assert(row_text(texts, patterns, groups, 0) == extracted(pattern, text, g as int));
        assert(Seq::new(1, |row: int| row_text(texts, patterns, groups, row)) =~= seq![
            extracted(pattern, text, g as int),
        ]);
    } else {
        lemma_first_invalid_is(patterns, 0);
    }
}

/// A call that succeeds yields one row of output for each of its rows.
pub proof fn lemma_one_output_row_per_row(
    n: nat,
    input: ColumnData,
    pattern: ColumnData,
    group_index: ColumnData,
)
    ensures
        column_extraction(n, input, pattern, group_index) matches Ok(output) ==> output.len()
            == n,
{
}

/// Each row of a call that succeeds holds what its own subject, pattern and
/// group index yield, each read at the row's index or, from a column of one
/// row, at 0.
pub proof fn lemma_row_by_row(
    n: nat,
    texts: Seq<Seq<char>>,
    patterns: Seq<Seq<char>>,
    groups: Seq<i64>,
    row: int,
)
    requires
        0 <= row < n,
    ensures
        extraction(n, texts, patterns, groups) matches Ok(rows) ==> rows[row] == extracted(
            patterns[source_index(patterns.len(), row)],
            texts[source_index(texts.len(), row)],
            groups[source_index(groups.len(), row)] as int,
        ),
{
}

/// A call on scalars and columns that succeeds yields as many rows as the
/// call has: the length of its first column, or one row for a call on
/// scalars.
pub proof fn lemma_invocation_row_count(args: Seq<Argument>)
    requires
        args.len() == 3,
    ensures
        invocation(args) matches Ok(output) ==> output.column.len() == row_count(args),
{
    lemma_one_output_row_per_row(
        row_count(args),
        args[0].column,
        args[1].column,
        args[2].column,
    );
}

/// With group index 0, a call on scalars whose pattern compiles yields the
/// whole text of the leftmost match of the pattern in the subject, and the
/// empty text where the pattern matches nowhere.
pub proof fn lemma_group_zero_is_whole_match(text: Seq<char>, pattern: Seq<char>)
    requires
        pattern_compiles(pattern),
    ensures
        invocation(scalar_call(text, pattern, 0)) == Ok::<Argument, Failure>(
            scalar_text(
                match first_match(pattern, text) {
                    Some(groups) => if groups.len() > 0 && groups[0] is Some {
                        groups[0]->Some_0
                    } else {
                        Seq::empty()
                    },
                    None => Seq::empty(),
                },
            ),
        ),
{
    lemma_scalar_call(text, pattern, 0);
}

/// With a group index `k` of 1 or more, a call on scalars whose pattern
/// compiles yields the text of capture group `k` of the leftmost match where
/// that group took part in it, and the empty text where it did not, where
/// the match has no group `k`, and where the pattern matches nowhere.
pub proof fn lemma_group_k_is_capture(text: Seq<char>, pattern: Seq<char>, k: i64)
    requires
        k >= 1,
        pattern_compiles(pattern),
    ensures
        invocation(scalar_call(text, pattern, k)) == Ok::<Argument, Failure>(
            scalar_text(
                match first_match(pattern, text) {
                    Some(groups) => if k < groups.len() && groups[k as int] is Some {
                        groups[k as int]->Some_0
                    } else {
                        Seq::empty()
                    },
                    None => Seq::empty(),
                },
            ),
        ),
{
    lemma_scalar_call(text, pattern, k);
}

/// A negative group index yields the empty text, whatever matched.
pub proof fn lemma_negative_group_is_empty(text: Seq<char>, pattern: Seq<char>, g: int)
    requires
        g < 0,
    ensures
        extracted(pattern, text, g) == Seq::<char>::empty(),
{
}

/// A pattern compiled once for all rows yields what the same pattern yields
/// when every row compiles it anew. A call without rows is left out where
/// the pattern does not compile: given once, the pattern is compiled and the
/// call fails; given per row, there is no row to compile it.
pub proof fn lemma_shared_pattern_is_per_row_pattern(
    n: nat,
    texts: Seq<Seq<char>>,
    pattern: Seq<char>,
    groups: Seq<i64>,
)
    requires
        n > 0 || pattern_compiles(pattern),
    ensures
        extraction(n, texts, seq![pattern], groups) == extraction(
            n,
            texts,
            Seq::new(n, |row: int| pattern),
            groups,
        ),
{
    let once = seq![pattern];
    let per_row = Seq::new(n, |row: int| pattern);
    if n == 1 {
        assert(per_row =~= once);
    } else {
        assert(compiled_patterns(n, once) == once);
        assert(compiled_patterns(n, per_row) =~= per_row);
        if pattern_compiles(pattern) {
            assert(all_compile(once));
            assert(all_compile(per_row));
            assert(Seq::new(n, |row: int| row_text(texts, once, groups, row)) =~= Seq::new(
                n,
                |row: int| row_text(texts, per_row, groups, row),
            ));
        } else {
            lemma_first_invalid_is(once, 0);
            lemma_first_invalid_is(per_row, 0);
        }
    }
}

/// Text with standard offsets and text with wide offsets yield the same: on
/// the same texts, patterns and group indices both calls fail alike, or both
/// succeed with the same rows, each in the text type of its subject.
pub proof fn lemma_offset_width_is_immaterial(
    n: nat,
    texts: Seq<Seq<char>>,
    patterns: Seq<Seq<char>>,
    groups: Seq<i64>,
)
    ensures
        match extraction(n, texts, patterns, groups) {
            Ok(rows) => {
                &&& column_extraction(
                    n,
                    ColumnData::Utf8(texts),
                    ColumnData::Utf8(patterns),
                    ColumnData::Int64(groups),
                ) == Ok::<ColumnData, Failure>(ColumnData::Utf8(rows))
                &&& column_extraction(
                    n,
                    ColumnData::LargeUtf8(texts),
                    ColumnData::LargeUtf8(patterns),
                    ColumnData::Int64(groups),
                ) == Ok::<ColumnData, Failure>(ColumnData::LargeUtf8(rows))
            },
            Err(failure) => {
                &&& column_extraction(
                    n,
                    ColumnData::Utf8(texts),
                    ColumnData::Utf8(patterns),
                    ColumnData::Int64(groups),
                ) == Err::<ColumnData, Failure>(failure)
                &&& column_extraction(
                    n,
                    ColumnData::LargeUtf8(texts),
                    ColumnData::LargeUtf8(patterns),
                    ColumnData::Int64(groups),
                ) == Err::<ColumnData, Failure>(failure)
            },
        },
{
}

} // verus!
