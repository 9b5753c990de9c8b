//! The function as a host engine sees it: its name, the argument types it
//! accepts, and the call on arguments that are scalars or columns.

use vstd::prelude::*;
use crate::column::Argument;
use crate::column::Column;
use crate::column::ColumnarValue;
use crate::column::DataType;
use crate::column::TypeTag;
use crate::error::ExtractError;
use crate::error::Failure;
use crate::extract::aligned;
use crate::extract::column_extraction;
use crate::extract::is_aligned;
use crate::extract::regexp_extract_rows;

verus! {

/// Whether a function may give different results on the same arguments.
#[derive(Debug, Clone, Copy, PartialEq, Eq, Structural)]
pub enum Volatility {
    /// The same arguments always give the same result.
    Immutable,
    /// The same arguments give the same result within one query.
    Stable,
    /// The result may change from one call to the next.
    Volatile,
}

/// The types held by a vector of types.
pub open spec fn type_tags(types: Seq<DataType>) -> Seq<TypeTag> {
    Seq::new(types.len(), |i: int| types[i]@)
}

/// The argument types that a function accepts, and its volatility.
#[derive(Debug, Clone, PartialEq, Eq)]
pub struct Signature {
    /// The accepted lists of argument types: a call must match one exactly.
    pub one_of: Vec<Vec<DataType>>,
    /// The function's volatility.
    pub volatility: Volatility,
}

/// What a [`Signature`] is in contracts.
pub ghost struct SignatureData {
    pub one_of: Seq<Seq<TypeTag>>,
    pub volatility: Volatility,
}

impl View for Signature {
    type V = SignatureData;

    open spec fn view(&self) -> SignatureData {
        SignatureData {
            one_of: Seq::new(self.one_of@.len(), |i: int| type_tags(self.one_of@[i]@)),
            volatility: self.volatility,
        }
    }
}

/// The signature of extraction: subject, pattern and group index, with
/// subject and pattern both text of the same type; immutable.
pub open spec fn extract_signature() -> SignatureData {
    SignatureData {
        one_of: seq![
            seq![TypeTag::Utf8, TypeTag::Utf8, TypeTag::Int64],
            seq![TypeTag::LargeUtf8, TypeTag::LargeUtf8, TypeTag::Int64],
        ],
        volatility: Volatility::Immutable,
    }
}

/// What one argument of the function is for.
#[derive(Debug, Clone, Copy, PartialEq, Eq)]
pub struct ArgumentNote {
    /// The argument's name.
    pub name: &'static str,
    /// What the argument means and what it may be.
    pub description: &'static str,
}

/// The text that describes the function to its users.
#[derive(Debug, Clone, PartialEq, Eq)]
pub struct Documentation {
    /// The section of the function reference that lists the function.
    pub section: &'static str,
    /// What the function returns.
    pub description: &'static str,
    /// The shape of a call.
    pub syntax_example: &'static str,
    /// A call with its result.
    pub sql_example: &'static str,
    /// The arguments, in the order of the call.
    pub arguments: Vec<ArgumentNote>,
}

/// What a [`Documentation`] is in contracts: its texts, and for each argument
/// its name and its description.
pub ghost struct DocumentationData {
    pub section: Seq<char>,
    pub description: Seq<char>,
    pub syntax_example: Seq<char>,
    pub sql_example: Seq<char>,
    pub arguments: Seq<(Seq<char>, Seq<char>)>,
}

impl View for Documentation {
    type V = DocumentationData;

    open spec fn view(&self) -> DocumentationData {
        DocumentationData {
            section: self.section@,
            description: self.description@,
            syntax_example: self.syntax_example@,
            sql_example: self.sql_example@,
            arguments: Seq::new(
                self.arguments@.len(),
                |i: int| (self.arguments@[i].name@, self.arguments@[i].description@),
            ),
        }
    }
}

/// The documentation of extraction.
pub open spec fn extract_documentation() -> DocumentationData {
    DocumentationData {
        section: "Regular Expression Functions"@,
        description: "Returns the text of a capture group of the first match of a regular expression in a string, or an empty string if there is no match or no such group."@,
        syntax_example: "regexp_extract(str, regexp, group_index)"@,
        sql_example: "select regexp_extract('axb_cyd_ezf', '(a.*?b).*(c.*?d).*(e.*f)', 2); -- cyd"@,
        arguments: seq![
            (
                "str"@,
                "String expression to operate on. Can be a constant, column, or function, and any combination of operators."@,
            ),
            ("regexp"@, "Regular expression to match against. Can be a constant or column."@),
            (
                "group_index"@,
                "A one-based index to the matching group to extract. If 0 is provided, will retrieve the full match. Can be a constant or column."@,
            ),
        ],
    }
}

/// The number of rows of a call on three arguments: the length of the first
/// argument that is a column, or 1 where all are scalars.
pub open spec fn row_count(args: Seq<Argument>) -> nat {
    if !args[0].scalar {
        args[0].column.len()
    } else if !args[1].scalar {
        args[1].column.len()
    } else if !args[2].scalar {
        args[2].column.len()
    } else {
        1
    }
}

/// Every one of the three arguments is a scalar.
pub open spec fn all_scalar(args: Seq<Argument>) -> bool {
    args[0].scalar && args[1].scalar && args[2].scalar
}

/// What a call on three arguments yields: the extraction over the columns
/// that lie under them, as a scalar where every argument is a scalar and as
/// a column otherwise.
pub open spec fn invocation(args: Seq<Argument>) -> Result<Argument, Failure> {
    match column_extraction(row_count(args), args[0].column, args[1].column, args[2].column) {
        Ok(column) => Ok(Argument { scalar: all_scalar(args), column }),
        Err(failure) => Err(failure),
    }
}

/// The views of a slice of arguments.
pub open spec fn arguments(args: Seq<ColumnarValue>) -> Seq<Argument> {
    Seq::new(args.len(), |i: int| args[i]@)
}

/// What the outcome of a call is in contracts.
pub open spec fn invoked(r: Result<ColumnarValue, ExtractError>) -> Result<Argument, Failure> {
    match r {
        Ok(value) => Ok(value@),
        Err(e) => Err(e@),
    }
}

/// The function `regexp_extract` as it is registered with a host engine.
#[derive(Debug)]
pub struct RegexpExtractFunc {
    signature: Signature,
}

impl RegexpExtractFunc {
    #[verifier::type_invariant]
    spec fn well_formed(self) -> bool {
        self.signature@ == extract_signature()
    }

    /// The signature that the function holds.
    pub closed spec fn held_signature(self) -> SignatureData {
        self.signature@
    }

    /// The function with its signature.
    pub fn new() -> (f: RegexpExtractFunc)
        ensures
            f.held_signature() == extract_signature(),
    {
        let standard = vec![DataType::Utf8, DataType::Utf8, DataType::Int64];
        let wide = vec![DataType::LargeUtf8, DataType::LargeUtf8, DataType::Int64];
        let one_of = vec![standard, wide];
        let signature = Signature { one_of, volatility: Volatility::Immutable };
        proof {
            assert(type_tags(standard@) =~= seq![TypeTag::Utf8, TypeTag::Utf8, TypeTag::Int64]);
            assert(type_tags(wide@) =~= seq![
                TypeTag::LargeUtf8,
                TypeTag::LargeUtf8,
                TypeTag::Int64,
            ]);
            assert(signature@.one_of =~= extract_signature().one_of);
        }
        RegexpExtractFunc { signature }
    }

    /// The name under which the function is called.
    pub fn name(&self) -> (name: &'static str)
        ensures
            name@ == "regexp_extract"@,
    {
        "regexp_extract"
    }

    /// The argument types that the function accepts, and its volatility.
    pub fn signature(&self) -> (signature: &Signature)
        ensures
            signature@ == self.held_signature(),
            signature@ == extract_signature(),
    {
        proof {
            use_type_invariant(self);
        }
        &self.signature
    }

    /// The text that describes the function to its users.
    pub fn documentation(&self) -> (documentation: Documentation)
        ensures
            documentation@ == extract_documentation(),
    {
        let arguments = vec![
            ArgumentNote {
                name: "str",
                description: "String expression to operate on. Can be a constant, column, or function, and any combination of operators.",
            },
            ArgumentNote {
                name: "regexp",
                description: "Regular expression to match against. Can be a constant or column.",
            },
            ArgumentNote {
                name: "group_index",
                description: "A one-based index to the matching group to extract. If 0 is provided, will retrieve the full match. Can be a constant or column.",
            },
        ];
        let documentation = Documentation {
            section: "Regular Expression Functions",
            description: "Returns the text of a capture group of the first match of a regular expression in a string, or an empty string if there is no match or no such group.",
            syntax_example: "regexp_extract(str, regexp, group_index)",
            sql_example: "select regexp_extract('axb_cyd_ezf', '(a.*?b).*(c.*?d).*(e.*f)', 2); -- cyd",
            arguments,
        };
        assert(documentation@.arguments =~= extract_documentation().arguments);
        documentation
    }

    /// The type of the result for arguments of the given types: that of the
    /// first argument.
    pub fn return_type(&self, arg_types: &[DataType]) -> (r: Result<DataType, ExtractError>)
        requires
            arg_types@.len() > 0,
        ensures
            r matches Ok(t) && t@ == arg_types@[0]@,
    {
        Ok(arg_types[0].duplicate())
    }

    /// Tells whether the function can be called on the arguments: there are
    /// three, and the columns that lie under them can be read for the rows of
    /// the call.
    pub fn can_invoke(&self, args: &[ColumnarValue]) -> (b: bool)
        ensures
            b == (args@.len() == 3 && aligned(
                row_count(arguments(args@)),
                args@[0]@.column,
                args@[1]@.column,
                args@[2]@.column,
            )),
    {
        if args.len() != 3 {
            return false;
        }
        let n: usize = count_rows(args);
        let held0 = scalar_column(&args[0]);
        let held1 = scalar_column(&args[1]);
        let held2 = scalar_column(&args[2]);
        is_aligned(
            n,
            underlying(&args[0], &held0),
            underlying(&args[1], &held1),
            underlying(&args[2], &held2),
        )
    }

    /// Calls the function on three arguments: the subject, the pattern and
    /// the group index, each a scalar or a column. The call has as many rows
    /// as the first argument that is a column, or one row where all are
    /// scalars; a scalar is read as a column of one row, without copying it
    /// out for every row. The result is a scalar exactly where every
    /// argument is one.
    pub fn invoke_with_args(&self, args: &[ColumnarValue]) -> (r: Result<
        ColumnarValue,
        ExtractError,
    >)
        requires
            args@.len() == 3,
            aligned(
                row_count(arguments(args@)),
                args@[0]@.column,
                args@[1]@.column,
                args@[2]@.column,
            ),
        ensures
            invoked(r) == invocation(arguments(args@)),
    {
        let n: usize = count_rows(args);
        let is_scalar = is_scalar_value(&args[0]) && is_scalar_value(&args[1]) && is_scalar_value(
            &args[2],
        );
        let held0 = scalar_column(&args[0]);
        let held1 = scalar_column(&args[1]);
        let held2 = scalar_column(&args[2]);
        let input = underlying(&args[0], &held0);
        let pattern = underlying(&args[1], &held1);
        let group_index = underlying(&args[2], &held2);
        match regexp_extract_rows(n, input, pattern, group_index) {
            Ok(column) => {
                if is_scalar {
                    Ok(ColumnarValue::Scalar(column.single_value()))
                } else {
                    Ok(ColumnarValue::Array(column))
                }
            },
            Err(e) => Err(e),
        }
    }
}

impl Default for RegexpExtractFunc {
    fn default() -> (f: RegexpExtractFunc)
        ensures
            f.held_signature() == extract_signature(),
    {
        RegexpExtractFunc::new()
    }
}

/// The number of rows of a call: the length of the first argument that is a
/// column, or 1.
fn count_rows(args: &[ColumnarValue]) -> (n: usize)
    requires
        args@.len() == 3,
    ensures
        n == row_count(arguments(args@)),
{
    match &args[0] {
        ColumnarValue::Array(column) => column.len(),
        ColumnarValue::Scalar(_) => match &args[1] {
            ColumnarValue::Array(column) => column.len(),
            ColumnarValue::Scalar(_) => match &args[2] {
                ColumnarValue::Array(column) => column.len(),
                ColumnarValue::Scalar(_) => 1,
            },
        },
    }
}

fn is_scalar_value(value: &ColumnarValue) -> (scalar: bool)
    ensures
        scalar == value@.scalar,
{
    match value {
        ColumnarValue::Scalar(_) => true,
        ColumnarValue::Array(_) => false,
    }
}

/// The column of one row that a scalar is read as; nothing for a column.
fn scalar_column(value: &ColumnarValue) -> (held: Option<Column>)
    ensures
        match held {
            Some(column) => value@.scalar && column@ == value@.column,
            None => !value@.scalar,
        },
{
    match value {
        ColumnarValue::Scalar(scalar) => Some(scalar.to_column()),
        ColumnarValue::Array(_) => None,
    }
}

/// The column that lies under an argument: the argument itself, or the column
/// that was made of the scalar.
fn underlying<'a>(value: &'a ColumnarValue, held: &'a Option<Column>) -> (column: &'a Column)
    requires
        match held {
            Some(column) => value@.scalar && column@ == value@.column,
            None => !value@.scalar,
        },
    ensures
        column@ == value@.column,
{
    match value {
        ColumnarValue::Array(column) => column,
        ColumnarValue::Scalar(_) => held.as_ref().unwrap(),
    }
}

} // verus!
