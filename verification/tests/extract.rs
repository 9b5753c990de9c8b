use regex::Regex;
use regexp_extract::column::Column;
use regexp_extract::column::DataType;
use regexp_extract::error::ExtractError;
use regexp_extract::error::Position;
use regexp_extract::extract::concrete_regexp_extract;
use regexp_extract::extract::is_aligned;
use regexp_extract::extract::regexp_extract;
use regexp_extract::extract::regexp_extract_rows;
use regexp_extract::pattern::resolve_pattern;
use regexp_extract::pattern::select_group;
use regexp_extract::pattern::CompiledPattern;
use regexp_extract::pattern::PatternPlan;

const THREE_GROUPS: &str = "(a.*?b).*(c.*?d).*(e.*f)";

fn texts(rows: &[&str]) -> Vec<String> {
    rows.iter().map(|row| row.to_string()).collect()
}

#[test]
fn test_case_sensitive_regexp_extract() {
    let values = Column::Utf8(texts(&["axb_cyd_ezf"; 5]));

    let patterns = Column::Utf8(texts(&[
        "(a.*?b).*(c.*?d).*(e.*f)",
        "(a.*?b).*(c.*?d).*(e.*f)",
        "(a.*?b)",
        "(c.*?d)",
        "nomatch",
    ]));

    let group_indices = Column::Int64(vec![0, 2, 2, 1, 0]);

    let expected = Column::Utf8(texts(&["axb_cyd_ezf", "cyd", "", "cyd", ""]));

    let actual = regexp_extract(&[values, patterns, group_indices]).unwrap();

    println!("{:?}", actual);

    assert_eq!(actual, expected);
}

#[test]
fn wide_text_yields_wide_text() {
    let values = Column::LargeUtf8(texts(&["axb_cyd_ezf"; 5]));
    let patterns = Column::LargeUtf8(texts(&[
        THREE_GROUPS,
        THREE_GROUPS,
        "(a.*?b)",
        "(c.*?d)",
        "nomatch",
    ]));
    let group_indices = Column::Int64(vec![0, 2, 2, 1, 0]);
    let actual = regexp_extract(&[values, patterns, group_indices]).unwrap();
    assert_eq!(actual, Column::LargeUtf8(texts(&["axb_cyd_ezf", "cyd", "", "cyd", ""])));
}

#[test]
fn standard_and_wide_offsets_agree() {
    let subjects = ["---axxxxb+++", "nmlkjkh", "---axxxxbcyyyyydezzzzzzf+++", "Köln"];
    let patterns = [THREE_GROUPS, "(k)(j)", THREE_GROUPS, "(ö)(l)"];
    let groups = vec![1, 2, 3, 0];
    let standard = regexp_extract(&[
        Column::Utf8(texts(&subjects)),
        Column::Utf8(texts(&patterns)),
        Column::Int64(groups.clone()),
    ]);
    let wide = regexp_extract(&[
        Column::LargeUtf8(texts(&subjects)),
        Column::LargeUtf8(texts(&patterns)),
        Column::Int64(groups),
    ]);
    let expected = texts(&["", "j", "ezzzzzzf", "öl"]);
    assert_eq!(standard, Ok(Column::Utf8(expected.clone())));
    assert_eq!(wide, Ok(Column::LargeUtf8(expected)));
}

#[test]
fn third_group_of_the_long_subject() {
    let rows = concrete_regexp_extract(
        1,
        &texts(&["---axxxxbcyyyyydezzzzzzf+++"]),
        &texts(&[THREE_GROUPS]),
        &vec![3],
    );
    assert_eq!(rows, Ok(texts(&["ezzzzzzf"])));
}

#[test]
fn every_group_of_the_long_subject() {
    let subject = texts(&["---axxxxbcyyyyydezzzzzzf+++"]);
    let pattern = texts(&[THREE_GROUPS]);
    let groups = vec![0, 1, 2, 3, 4];
    let rows = concrete_regexp_extract(5, &subject, &pattern, &groups);
    assert_eq!(
        rows,
        Ok(texts(&["axxxxbcyyyyydezzzzzzf", "axxxxb", "cyyyyyd", "ezzzzzzf", ""]))
    );
}

#[test]
fn multi_byte_subject_keeps_whole_characters() {
    let rows = concrete_regexp_extract(
        1,
        &texts(&["Köln"]),
        &texts(&["[a-zA-Z]ö[a-zA-Z]{2}"]),
        &vec![0],
    );
    assert_eq!(rows, Ok(texts(&["Köln"])));
}

#[test]
fn multi_byte_match_inside_a_longer_subject() {
    let rows = concrete_regexp_extract(
        2,
        &texts(&["in Köln am Rhein"]),
        &texts(&["([A-Z]ö)(l)n"]),
        &vec![0, 1],
    );
    assert_eq!(rows, Ok(texts(&["Köln", "Kö"])));
}

#[test]
fn unbalanced_group_fails_and_names_the_pattern() {
    let rows = concrete_regexp_extract(3, &texts(&["a", "b", "c"]), &texts(&["(a"]), &vec![0]);
    assert_eq!(rows, Err(ExtractError::PatternCompileError("(a".to_string())));
}

#[test]
fn invalid_pattern_in_a_later_row_fails_the_whole_call() {
    let result = regexp_extract(&[
        Column::Utf8(texts(&["a", "a", "a", "a"])),
        Column::Utf8(texts(&["(a)", "a", "(a", "a"])),
        Column::Int64(vec![0]),
    ]);
    assert_eq!(result, Err(ExtractError::PatternCompileError("(a".to_string())));
}

#[test]
fn first_invalid_pattern_is_the_one_named() {
    let rows = concrete_regexp_extract(
        4,
        &texts(&["x"]),
        &texts(&["x", "[z", "(a", "x"]),
        &vec![0],
    );
    assert_eq!(rows, Err(ExtractError::PatternCompileError("[z".to_string())));
}

#[test]
fn invalid_pattern_beyond_the_rows_is_not_compiled() {
    let rows = concrete_regexp_extract(
        2,
        &texts(&["x", "y"]),
        &texts(&["x", "(y)", "(a"]),
        &vec![0, 1],
    );
    assert_eq!(rows, Ok(texts(&["x", "y"])));
}

#[test]
fn constant_invalid_pattern_fails_a_call_without_rows() {
    let rows = concrete_regexp_extract(0, &texts(&[]), &texts(&["(a"]), &vec![]);
    assert_eq!(rows, Err(ExtractError::PatternCompileError("(a".to_string())));
}

#[test]
fn call_without_rows_yields_no_rows() {
    let rows = concrete_regexp_extract(0, &texts(&[]), &texts(&[]), &vec![]);
    assert_eq!(rows, Ok(Vec::new()));
    let result = regexp_extract(&[
        Column::Utf8(Vec::new()),
        Column::Utf8(texts(&["a"])),
        Column::Int64(vec![0]),
    ]);
    assert_eq!(result, Ok(Column::Utf8(Vec::new())));
}

#[test]
fn output_has_one_row_per_input_row() {
    let subjects = texts(&["a1", "b2", "c3", "d4", "e5", "f6", "g7"]);
    let result = regexp_extract(&[
        Column::Utf8(subjects),
        Column::Utf8(texts(&["[a-c]([0-9])"])),
        Column::Int64(vec![1]),
    ])
    .unwrap();
    assert_eq!(result.len(), 7);
    assert_eq!(result, Column::Utf8(texts(&["1", "2", "3", "", "", "", ""])));
}

#[test]
fn constant_pattern_equals_pattern_in_every_row() {
    let subjects = texts(&["axb", "aab", "b", "xaxxb"]);
    let groups = vec![1, 0, 1, 1];
    let once = concrete_regexp_extract(4, &subjects, &texts(&["(a.*?)b"]), &groups);
    let per_row = concrete_regexp_extract(4, &subjects, &texts(&["(a.*?)b"; 4]), &groups);
    assert_eq!(once, Ok(texts(&["ax", "aab", "", "axx"])));
    assert_eq!(once, per_row);
    let once = concrete_regexp_extract(4, &subjects, &texts(&["(a"]), &groups);
    let per_row = concrete_regexp_extract(4, &subjects, &texts(&["(a"; 4]), &groups);
    assert_eq!(once, Err(ExtractError::PatternCompileError("(a".to_string())));
    assert_eq!(once, per_row);
}

#[test]
fn constant_subject_is_read_by_every_row() {
    let rows = concrete_regexp_extract(
        3,
        &texts(&["axb_cyd_ezf"]),
        &texts(&["(a.*?b)", "(c.*?d)", "(e.*?f)"]),
        &vec![1],
    );
    assert_eq!(rows, Ok(texts(&["axb", "cyd", "ezf"])));
}

#[test]
fn constant_group_index_is_read_by_every_row() {
    let rows = concrete_regexp_extract(
        2,
        &texts(&["k1=v1", "k2=v2"]),
        &texts(&["(k.)=(v.)"]),
        &vec![2],
    );
    assert_eq!(rows, Ok(texts(&["v1", "v2"])));
}

#[test]
fn group_that_took_no_part_is_empty() {
    let rows = concrete_regexp_extract(
        3,
        &texts(&["abc123"]),
        &texts(&["[a-z]+(?:([0-9]+)|([A-Z]+))"]),
        &vec![0, 1, 2],
    );
    assert_eq!(rows, Ok(texts(&["abc123", "123", ""])));
}

#[test]
fn group_index_out_of_range_is_empty() {
    let rows = concrete_regexp_extract(
        4,
        &texts(&["axb"]),
        &texts(&["(a)x(b)"]),
        &vec![2, 3, 4, i64::MAX],
    );
    assert_eq!(rows, Ok(texts(&["b", "", "", ""])));
}

#[test]
fn negative_group_index_is_empty() {
    let rows = concrete_regexp_extract(
        3,
        &texts(&["axb"]),
        &texts(&["(a)x(b)"]),
        &vec![-1, i64::MIN, -4294967295],
    );
    assert_eq!(rows, Ok(texts(&["", "", ""])));
}

#[test]
fn no_match_is_empty_for_every_group() {
    let rows = concrete_regexp_extract(
        4,
        &texts(&["axxxb__cyyyd---ezzzf"]),
        &texts(&["nomatch"]),
        &vec![0, 1, 2, 3],
    );
    assert_eq!(rows, Ok(texts(&["", "", "", ""])));
}

#[test]
fn leftmost_match_is_the_one_taken() {
    let rows = concrete_regexp_extract(
        2,
        &texts(&["x12y345z6"]),
        &texts(&["([0-9])([0-9]*)"]),
        &vec![0, 2],
    );
    assert_eq!(rows, Ok(texts(&["12", "2"])));
}

#[test]
fn inline_flags_are_part_of_the_pattern() {
    let rows = concrete_regexp_extract(
        2,
        &texts(&["aBc"]),
        &texts(&["(b|d)", "(?i)(b|d)"]),
        &vec![1],
    );
    assert_eq!(rows, Ok(texts(&["", "B"])));
}

#[test]
fn empty_match_yields_empty_text() {
    let rows = concrete_regexp_extract(1, &texts(&["abc"]), &texts(&["x*"]), &vec![0]);
    assert_eq!(rows, Ok(texts(&[""])));
}

#[test]
fn subject_that_is_not_text_is_unsupported() {
    let result = regexp_extract(&[
        Column::Int64(vec![1, 2]),
        Column::Utf8(texts(&["a"])),
        Column::Int64(vec![0]),
    ]);
    assert_eq!(result, Err(ExtractError::UnsupportedInputType(DataType::Int64)));
    let result = regexp_extract(&[
        Column::Other("Float64".to_string(), 2),
        Column::Utf8(texts(&["a"])),
        Column::Int64(vec![0]),
    ]);
    assert_eq!(
        result,
        Err(ExtractError::UnsupportedInputType(DataType::Other("Float64".to_string())))
    );
}

#[test]
fn pattern_of_another_type_than_the_subject_is_a_mismatch() {
    let result = regexp_extract(&[
        Column::Utf8(texts(&["a"])),
        Column::LargeUtf8(texts(&["a"])),
        Column::Int64(vec![0]),
    ]);
    assert_eq!(
        result,
        Err(ExtractError::RepresentationMismatchError(Position::Pattern, DataType::Utf8))
    );
    let result = regexp_extract(&[
        Column::LargeUtf8(texts(&["a"])),
        Column::Utf8(texts(&["a"])),
        Column::Int64(vec![0]),
    ]);
    assert_eq!(
        result,
        Err(ExtractError::RepresentationMismatchError(Position::Pattern, DataType::LargeUtf8))
    );
}

#[test]
fn group_index_that_is_not_an_integer_is_a_mismatch() {
    let result = regexp_extract(&[
        Column::Utf8(texts(&["a"])),
        Column::Utf8(texts(&["a"])),
        Column::Utf8(texts(&["0"])),
    ]);
    assert_eq!(
        result,
        Err(ExtractError::RepresentationMismatchError(Position::GroupIndex, DataType::Int64))
    );
}

#[test]
fn group_index_is_checked_before_the_subject() {
    let result = regexp_extract(&[
        Column::Int64(vec![1]),
        Column::Utf8(texts(&["(a"])),
        Column::Other("Boolean".to_string(), 1),
    ]);
    assert_eq!(
        result,
        Err(ExtractError::RepresentationMismatchError(Position::GroupIndex, DataType::Int64))
    );
}

#[test]
fn types_are_checked_before_patterns_are_compiled() {
    let result = regexp_extract(&[
        Column::Other("Date32".to_string(), 1),
        Column::Utf8(texts(&["(a"])),
        Column::Int64(vec![0]),
    ]);
    assert_eq!(
        result,
        Err(ExtractError::UnsupportedInputType(DataType::Other("Date32".to_string())))
    );
}

#[test]
fn explicit_row_count_reads_columns_of_one_row_at_zero() {
    let result = regexp_extract_rows(
        3,
        &Column::Utf8(texts(&["k=v"])),
        &Column::Utf8(texts(&["(k)=(v)"])),
        &Column::Int64(vec![0, 1, 2]),
    );
    assert_eq!(result, Ok(Column::Utf8(texts(&["k=v", "k", "v"]))));
}

#[test]
fn error_messages_name_the_offender() {
    assert_eq!(
        ExtractError::PatternCompileError("(a".to_string()).message(),
        "Unable to compile pattern '(a' into regex"
    );
    assert_eq!(
        ExtractError::UnsupportedInputType(DataType::Other("Float64".to_string())).message(),
        "Unsupported input type: Float64"
    );
    assert_eq!(
        ExtractError::UnsupportedInputType(DataType::Int64).message(),
        "Unsupported input type: Int64"
    );
    assert_eq!(
        ExtractError::RepresentationMismatchError(Position::Pattern, DataType::Utf8).message(),
        "Failed to downcast pattern array to string array"
    );
    assert_eq!(
        ExtractError::RepresentationMismatchError(Position::Pattern, DataType::LargeUtf8)
            .message(),
        "Failed to downcast pattern array to large string array"
    );
    assert_eq!(
        ExtractError::RepresentationMismatchError(Position::GroupIndex, DataType::Int64)
            .message(),
        "Failed to downcast group index array to int64 array"
    );
    assert_eq!(
        ExtractError::RepresentationMismatchError(Position::Input, DataType::Utf8).message(),
        "Failed to downcast input array to string array"
    );
}

#[test]
fn select_group_picks_from_a_match() {
    let re = Regex::new("(a)(x)?(b)").unwrap();
    let found = re.captures("--ab--");
    assert_eq!(select_group(&found, 0), "ab");
    assert_eq!(select_group(&found, 1), "a");
    assert_eq!(select_group(&found, 2), "");
    assert_eq!(select_group(&found, 3), "b");
    assert_eq!(select_group(&found, 4), "");
    assert_eq!(select_group(&found, -1), "");
}

#[test]
fn select_group_is_empty_without_a_match() {
    let re = Regex::new("(a)(b)").unwrap();
    let found = re.captures("ba");
    assert!(found.is_none());
    assert_eq!(select_group(&found, 0), "");
    assert_eq!(select_group(&found, 1), "");
}

#[test]
fn compiled_pattern_searches_and_picks() {
    let compiled = CompiledPattern::new("([a-z]+)@([a-z]+)").unwrap();
    assert_eq!(compiled.extract("to: user@host, cc: other@there", 0), "user@host");
    assert_eq!(compiled.extract("to: user@host, cc: other@there", 1), "user");
    assert_eq!(compiled.extract("to: user@host, cc: other@there", 2), "host");
    assert_eq!(compiled.extract("to: user@host, cc: other@there", 3), "");
    assert_eq!(compiled.extract("nothing here", 0), "");
}

#[test]
fn pattern_that_does_not_compile_is_named() {
    match CompiledPattern::new("a{2,1}") {
        Err(e) => assert_eq!(e, ExtractError::PatternCompileError("a{2,1}".to_string())),
        Ok(_) => panic!("a pattern that does not compile must fail"),
    }
}

#[test]
fn pattern_column_of_one_row_is_compiled_once() {
    match resolve_pattern(&texts(&["(a)(b)"])) {
        Ok(PatternPlan::Shared(compiled)) => assert_eq!(compiled.extract("xaby", 2), "b"),
        _ => panic!("a pattern column of one row must give a shared pattern"),
    }
    assert!(matches!(resolve_pattern(&texts(&["a", "b"])), Ok(PatternPlan::PerRow)));
    assert!(matches!(resolve_pattern(&texts(&[])), Ok(PatternPlan::PerRow)));
    assert!(matches!(resolve_pattern(&texts(&["(a", "b"])), Ok(PatternPlan::PerRow)));
    match resolve_pattern(&texts(&["(a"])) {
        Err(e) => assert_eq!(e, ExtractError::PatternCompileError("(a".to_string())),
        Ok(_) => panic!("a pattern that does not compile must fail"),
    }
}

#[test]
fn pattern_over_the_size_limit_does_not_compile() {
    let rows = concrete_regexp_extract(1, &texts(&["a"]), &texts(&["\\w{1000}"]), &vec![0]);
    assert_eq!(rows, Err(ExtractError::PatternCompileError("\\w{1000}".to_string())));
}

#[test]
fn columns_line_up_with_one_row_or_enough_rows() {
    let subjects = Column::Utf8(texts(&["a", "b", "c"]));
    let one_pattern = Column::Utf8(texts(&["a"]));
    let two_patterns = Column::Utf8(texts(&["a", "b"]));
    let four_patterns = Column::Utf8(texts(&["a", "b", "c", "d"]));
    let groups = Column::Int64(vec![0, 1, 2]);
    assert!(is_aligned(3, &subjects, &one_pattern, &groups));
    assert!(is_aligned(3, &subjects, &four_patterns, &groups));
    assert!(!is_aligned(3, &subjects, &two_patterns, &groups));
    assert!(!is_aligned(4, &subjects, &one_pattern, &groups));
    assert!(!is_aligned(3, &subjects, &one_pattern, &Column::Int64(Vec::new())));
    assert!(is_aligned(0, &Column::Utf8(Vec::new()), &Column::Utf8(Vec::new()), &groups));
    assert!(is_aligned(3, &subjects, &Column::LargeUtf8(texts(&["a", "b"])), &groups));
    assert!(is_aligned(9, &Column::Other("Float64".to_string(), 2), &two_patterns, &groups));
}
