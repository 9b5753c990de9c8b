//! The values that a call is made of: element types, columns, and arguments
//! that are either a single value or a column.

use vstd::prelude::*;

verus! {

/// The element type of a column, as far as extraction tells types apart.
#[derive(Debug, Clone, PartialEq, Eq)]
pub enum DataType {
    /// Text addressed with standard (32-bit) offsets.
    Utf8,
    /// Text addressed with wide (64-bit) offsets.
    LargeUtf8,
    /// Signed 64-bit integers.
    Int64,
    /// Any other type, known by its name only.
    Other(String),
}

/// What a [`DataType`] is in contracts.
pub ghost enum TypeTag {
    Utf8,
    LargeUtf8,
    Int64,
    Other(Seq<char>),
}

impl View for DataType {
    type V = TypeTag;

    open spec fn view(&self) -> TypeTag {
        match self {
            DataType::Utf8 => TypeTag::Utf8,
            DataType::LargeUtf8 => TypeTag::LargeUtf8,
            DataType::Int64 => TypeTag::Int64,
            DataType::Other(name) => TypeTag::Other(name@),
        }
    }
}

impl TypeTag {
    /// The name under which a type is reported.
    pub open spec fn name(self) -> Seq<char> {
        match self {
            TypeTag::Utf8 => "Utf8"@,
            TypeTag::LargeUtf8 => "LargeUtf8"@,
            TypeTag::Int64 => "Int64"@,
            TypeTag::Other(name) => name,
        }
    }
}

impl DataType {
    /// A copy of this type.
    pub fn duplicate(&self) -> (copy: DataType)
        ensures
            copy@ == self@,
    {
        match self {
            DataType::Utf8 => DataType::Utf8,
            DataType::LargeUtf8 => DataType::LargeUtf8,
            DataType::Int64 => DataType::Int64,
            DataType::Other(name) => DataType::Other(name.clone()),
        }
    }

    /// The name under which this type is reported.
    pub fn name(&self) -> (name: String)
        ensures
            name@ == self@.name(),
    {
        match self {
            DataType::Utf8 => "Utf8".to_owned(),
            DataType::LargeUtf8 => "LargeUtf8".to_owned(),
            DataType::Int64 => "Int64".to_owned(),
            DataType::Other(name) => name.clone(),
        }
    }
}

/// The texts held by a vector of strings, row by row.
pub open spec fn text_rows(rows: Seq<String>) -> Seq<Seq<char>> {
    Seq::new(rows.len(), |i: int| rows[i]@)
}

/// One value per row.
#[derive(Debug, Clone, PartialEq, Eq)]
pub enum Column {
    /// Texts with standard offsets.
    Utf8(Vec<String>),
    /// Texts with wide offsets.
    LargeUtf8(Vec<String>),
    /// Integers.
    Int64(Vec<i64>),
    /// A column of another type: the type's name and the number of rows.
    Other(String, usize),
}

/// What a [`Column`] is in contracts.
pub ghost enum ColumnData {
    Utf8(Seq<Seq<char>>),
    LargeUtf8(Seq<Seq<char>>),
    Int64(Seq<i64>),
    Other(Seq<char>, nat),
}

impl ColumnData {
    /// The number of rows.
    pub open spec fn len(self) -> nat {
        match self {
            ColumnData::Utf8(rows) => rows.len(),
            ColumnData::LargeUtf8(rows) => rows.len(),
            ColumnData::Int64(rows) => rows.len(),
            ColumnData::Other(_, rows) => rows,
        }
    }

    /// The element type.
    pub open spec fn data_type(self) -> TypeTag {
        match self {
            ColumnData::Utf8(_) => TypeTag::Utf8,
            ColumnData::LargeUtf8(_) => TypeTag::LargeUtf8,
            ColumnData::Int64(_) => TypeTag::Int64,
            ColumnData::Other(name, _) => TypeTag::Other(name),
        }
    }
}

impl View for Column {
    type V = ColumnData;

    open spec fn view(&self) -> ColumnData {
        match self {
            Column::Utf8(rows) => ColumnData::Utf8(text_rows(rows@)),
            Column::LargeUtf8(rows) => ColumnData::LargeUtf8(text_rows(rows@)),
            Column::Int64(rows) => ColumnData::Int64(rows@),
            Column::Other(name, rows) => ColumnData::Other(name@, *rows as nat),
        }
    }
}

impl Column {
    /// The number of rows.
    pub fn len(&self) -> (n: usize)
        ensures
            n == self@.len(),
    {
        match self {
            Column::Utf8(rows) => rows.len(),
            Column::LargeUtf8(rows) => rows.len(),
            Column::Int64(rows) => rows.len(),
            Column::Other(_, rows) => *rows,
        }
    }

    /// The element type.
    pub fn data_type(&self) -> (t: DataType)
        ensures
            t@ == self@.data_type(),
    {
        match self {
            Column::Utf8(_) => DataType::Utf8,
            Column::LargeUtf8(_) => DataType::LargeUtf8,
            Column::Int64(_) => DataType::Int64,
            Column::Other(name, _) => DataType::Other(name.clone()),
        }
    }
}

/// A single value.
#[derive(Debug, Clone, PartialEq, Eq)]
pub enum ScalarValue {
    /// A text with standard offsets.
    Utf8(String),
    /// A text with wide offsets.
    LargeUtf8(String),
    /// An integer.
    Int64(i64),
    /// A value of another type, known by the type's name only.
    Other(String),
}

impl ScalarValue {
    /// The column of one row that holds this value.
    pub open spec fn as_column(self) -> ColumnData {
        match self {
            ScalarValue::Utf8(text) => ColumnData::Utf8(seq![text@]),
            ScalarValue::LargeUtf8(text) => ColumnData::LargeUtf8(seq![text@]),
            ScalarValue::Int64(value) => ColumnData::Int64(seq![value]),
            ScalarValue::Other(name) => ColumnData::Other(name@, 1),
        }
    }

    /// The column of one row that holds this value.
    pub fn to_column(&self) -> (column: Column)
        ensures
            column@ == self.as_column(),
    {
        match self {
            ScalarValue::Utf8(text) => {
                let rows = vec![text.clone()];
                assert(text_rows(rows@) =~= seq![text@]);
                Column::Utf8(rows)
            },
            ScalarValue::LargeUtf8(text) => {
                let rows = vec![text.clone()];
                assert(text_rows(rows@) =~= seq![text@]);
                Column::LargeUtf8(rows)
            },
            ScalarValue::Int64(value) => {
                let rows = vec![*value];
                assert(rows@ =~= seq![*value]);
                Column::Int64(rows)
            },
            ScalarValue::Other(name) => Column::Other(name.clone(), 1),
        }
    }
}

impl Column {
    /// The value in the only row of a column of one row.
    pub fn single_value(&self) -> (value: ScalarValue)
        requires
            self@.len() == 1,
        ensures
            value.as_column() == self@,
    {
        match self {
            Column::Utf8(rows) => {
                assert(text_rows(rows@) =~= seq![rows@[0]@]);
                ScalarValue::Utf8(rows[0].clone())
            },
            Column::LargeUtf8(rows) => {
                assert(text_rows(rows@) =~= seq![rows@[0]@]);
                ScalarValue::LargeUtf8(rows[0].clone())
            },
            Column::Int64(rows) => {
                assert(rows@ =~= seq![rows@[0]]);
                ScalarValue::Int64(rows[0])
            },
            Column::Other(name, _) => ScalarValue::Other(name.clone()),
        }
    }
}

/// An argument or a result of a call: one value for every row, or one value
/// per row.
#[derive(Debug, Clone, PartialEq, Eq)]
pub enum ColumnarValue {
    /// The same value in every row.
    Scalar(ScalarValue),
    /// One value per row.
    Array(Column),
}

/// What a [`ColumnarValue`] is in contracts: the column that lies under it,
/// which has one row for a scalar, and whether it is a scalar.
pub ghost struct Argument {
    pub scalar: bool,
    pub column: ColumnData,
}

impl View for ColumnarValue {
    type V = Argument;

    open spec fn view(&self) -> Argument {
        match self {
            ColumnarValue::Scalar(value) => Argument { scalar: true, column: value.as_column() },
            ColumnarValue::Array(column) => Argument { scalar: false, column: column@ },
        }
    }
}

} // verus!
