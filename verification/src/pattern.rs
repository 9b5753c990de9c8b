//! One row: the pattern compiled, the search, and the choice of the group.

use vstd::prelude::*;
use regex::Captures;
use regex::Regex;
use crate::column::text_rows;
use crate::engine::capture_groups;
use crate::engine::compile;
use crate::engine::find_captures;
use crate::engine::first_match;
use crate::engine::group_at;
use crate::engine::group_count;
use crate::engine::matched_str;
use crate::engine::pattern_compiles;
use crate::engine::regex_pattern;
use crate::error::ExtractError;
use crate::error::Failure;

verus! {

/// The text of group `g` among the groups of a match: empty where `g` is
/// negative or not below the number of groups, and where the group took no
/// part in the match.
pub open spec fn group_text(groups: Seq<Option<Seq<char>>>, g: int) -> Seq<char> {
    if 0 <= g < groups.len() {
        match groups[g] {
            Some(text) => text,
            None => Seq::empty(),
        }
    } else {
        Seq::empty()
    }
}

/// The text that a search yields for group `g`: empty where nothing matched.
pub open spec fn selected_text(found: Option<Seq<Option<Seq<char>>>>, g: int) -> Seq<char> {
    match found {
        Some(groups) => group_text(groups, g),
        None => Seq::empty(),
    }
}

/// What one row yields: the text of group `g` of the leftmost match of
/// `pattern` in `text`.
pub open spec fn extracted(pattern: Seq<char>, text: Seq<char>, g: int) -> Seq<char> {
    selected_text(first_match(pattern, text), g)
}

/// The groups that the outcome of a search holds.
pub open spec fn found_groups(found: Option<Captures>) -> Option<Seq<Option<Seq<char>>>> {
    match found {
        Some(caps) => Some(capture_groups(caps)),
        None => None,
    }
}

fn empty_text() -> (text: &'static str)
    ensures
        text@ == Seq::<char>::empty(),
{
    proof {
        reveal_strlit("");
    }
    let text = "";
    assert(text@ =~= Seq::<char>::empty());
    text
}

/// Picks the text of the requested group from the outcome of a search.
pub fn select_group<'h>(found: &Option<Captures<'h>>, group_index: i64) -> (text: &'h str)
    ensures
        text@ == selected_text(found_groups(*found), group_index as int),
{
    match found {
        Some(caps) => {
            let count: usize = group_count(caps);
            if group_index >= 0 && (group_index as u64) < (count as u64) {
                match group_at(caps, group_index as usize) {
                    Some(m) => matched_str(&m),
                    None => empty_text(),
                }
            } else {
                empty_text()
            }
        },
        None => empty_text(),
    }
}

/// A pattern that has been compiled. Every value of this type stems from
/// [`CompiledPattern::new`].
#[derive(Debug)]
pub struct CompiledPattern {
    regex: Regex,
}

impl CompiledPattern {
    /// The pattern text that was compiled.
    pub closed spec fn source(self) -> Seq<char> {
        regex_pattern(self.regex)
    }

    /// Compiles a pattern. Fails, naming the pattern, exactly where the
    /// pattern does not compile.
    pub fn new(pattern: &str) -> (r: Result<CompiledPattern, ExtractError>)
        ensures
            r is Ok <==> pattern_compiles(pattern@),
            r matches Ok(compiled) ==> compiled.source() == pattern@,
            r matches Err(e) ==> e@ == Failure::PatternCompileError(pattern@),
    {
        match compile(pattern) {
            Ok(regex) => Ok(CompiledPattern { regex }),
            Err(_) => Err(ExtractError::PatternCompileError(pattern.to_owned())),
        }
    }

    /// Searches `text` for the leftmost match and picks the requested group.
    pub fn extract<'h>(&self, text: &'h str, group_index: i64) -> (piece: &'h str)
        ensures
            piece@ == extracted(self.source(), text@, group_index as int),
    {
        let found = find_captures(&self.regex, text);
        select_group(&found, group_index)
    }
}

/// How the pattern of a row is come by: compiled once for the whole call, or
/// compiled anew for each row.
#[derive(Debug)]
pub enum PatternPlan {
    /// The one pattern of the call, compiled.
    Shared(CompiledPattern),
    /// Each row compiles its own pattern.
    PerRow,
}

impl PatternPlan {
    /// A plan fits a pattern column when it is shared exactly where the column
    /// has one row, and the shared pattern is that row's, compiled.
    pub open spec fn fits(self, patterns: Seq<Seq<char>>) -> bool {
        match self {
            PatternPlan::Shared(compiled) => patterns.len() == 1 && pattern_compiles(patterns[0])
                && compiled.source() == patterns[0],
            PatternPlan::PerRow => patterns.len() != 1,
        }
    }
}

/// Decides once for the whole call how patterns are compiled. A pattern
/// column of one row is compiled here, and the call fails if that pattern
/// does not compile; a column of any other length is left to the rows.
pub fn resolve_pattern(patterns: &Vec<String>) -> (r: Result<PatternPlan, ExtractError>)
    ensures
        match r {
            Ok(plan) => plan.fits(text_rows(patterns@)),
            Err(e) => patterns@.len() == 1 && !pattern_compiles(patterns@[0]@) && e@
                == Failure::PatternCompileError(patterns@[0]@),
        },
{
    if patterns.len() == 1 {
        match CompiledPattern::new(patterns[0].as_str()) {
            Ok(compiled) => Ok(PatternPlan::Shared(compiled)),
            Err(e) => Err(e),
        }
    } else {
        Ok(PatternPlan::PerRow)
    }
}

} // verus!
