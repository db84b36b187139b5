//! Columns of values and the blocks that they make up.

use vstd::prelude::*;

use crate::schema::DataTypeModel;
use crate::schema::NumberDataType;
use crate::schema::TableDataTypeModel;
use crate::schema::TableFieldModel;

verus! {

/// The values of one column, from the first row to the last.
#[derive(Debug, PartialEq, Eq)]
pub enum Column {
    Int32(Vec<i32>),
    Int64(Vec<i64>),
    String(Vec<Vec<u8>>),
    /// Documents in their binary encoding.
    Variant(Vec<Vec<u8>>),
    Tuple(Vec<Column>),
}

/// What a `Column` stands for.
#[verifier::ext_equal]
pub enum ColumnModel {
    Int32(Seq<i32>),
    Int64(Seq<i64>),
    String(Seq<Seq<u8>>),
    Variant(Seq<Seq<u8>>),
    Tuple(Seq<ColumnModel>),
}

/// The contents of a list of byte strings.
pub open spec fn byte_rows(rows: Seq<Vec<u8>>) -> Seq<Seq<u8>> {
    Seq::new(rows.len(), |i: int| rows[i]@)
}

impl Column {
    pub open spec fn view(self) -> ColumnModel
        decreases self,
    {
        match self {
            Column::Int32(values) => ColumnModel::Int32(values@),
            Column::Int64(values) => ColumnModel::Int64(values@),
            Column::String(rows) => ColumnModel::String(byte_rows(rows@)),
            Column::Variant(rows) => ColumnModel::Variant(byte_rows(rows@)),
            Column::Tuple(inner) => ColumnModel::Tuple(
                Seq::new(
                    inner@.len(),
                    |i: int|
                        if 0 <= i < inner@.len() {
                            inner@[i].view()
                        } else {
                            arbitrary()
                        },
                ),
            ),
        }
    }
}

impl ColumnModel {
    /// Whether the column, and each column inside it, has this many rows.
    pub open spec fn has_rows(self, rows: nat) -> bool
        decreases self,
    {
        match self {
            ColumnModel::Int32(values) => values.len() == rows,
            ColumnModel::Int64(values) => values.len() == rows,
            ColumnModel::String(values) => values.len() == rows,
            ColumnModel::Variant(values) => values.len() == rows,
            ColumnModel::Tuple(inner) => {
                &&& inner.len() > 0
                &&& forall|i: int| 0 <= i < inner.len() ==> (#[trigger] inner[i]).has_rows(rows)
            },
        }
    }

    /// Whether the column holds values of this type.
    pub open spec fn has_type(self, data_type: DataTypeModel) -> bool
        decreases self,
    {
        match self {
            ColumnModel::Int32(_) => data_type == DataTypeModel::Number(NumberDataType::Int32),
            ColumnModel::Int64(_) => data_type == DataTypeModel::Number(NumberDataType::Int64),
            ColumnModel::String(_) => data_type is String,
            ColumnModel::Variant(_) => data_type is Variant,
            ColumnModel::Tuple(inner) => match data_type {
                DataTypeModel::Tuple(types) => {
                    &&& inner.len() == types.len()
                    &&& forall|i: int|
                        0 <= i < inner.len() ==> (#[trigger] inner[i]).has_type(types[i])
                },
                _ => false,
            },
        }
    }

    /// Whether the column holds values of this type of a table.
    pub open spec fn has_table_type(self, data_type: TableDataTypeModel) -> bool
        decreases self,
    {
        match self {
            ColumnModel::Int32(_) => data_type == TableDataTypeModel::Number(NumberDataType::Int32),
            ColumnModel::Int64(_) => data_type == TableDataTypeModel::Number(NumberDataType::Int64),
            ColumnModel::String(_) => data_type is String,
            ColumnModel::Variant(_) => data_type is Variant,
            ColumnModel::Tuple(inner) => match data_type {
                TableDataTypeModel::Tuple { fields_type, .. } => {
                    &&& inner.len() == fields_type.len()
                    &&& forall|i: int|
                        0 <= i < inner.len() ==> (#[trigger] inner[i]).has_table_type(
                            fields_type[i],
                        )
                },
                _ => false,
            },
        }
    }
}

/// Rows of a table, column by column.
#[derive(Debug, PartialEq, Eq)]
pub struct DataBlock {
    pub columns: Vec<Column>,
}

impl View for DataBlock {
    type V = Seq<ColumnModel>;

    open spec fn view(&self) -> Seq<ColumnModel> {
        Seq::new(self.columns@.len(), |i: int| self.columns@[i].view())
    }
}

/// Whether the columns make up a block of this many rows: there is at least
/// one, and all are equally long.
pub open spec fn is_block(columns: Seq<ColumnModel>, rows: nat) -> bool {
    &&& columns.len() > 0
    &&& forall|i: int| 0 <= i < columns.len() ==> (#[trigger] columns[i]).has_rows(rows)
}

/// Whether the columns can be inserted into a table with these fields: one
/// column for each field, of the field's type.
pub open spec fn fits_table(columns: Seq<ColumnModel>, fields: Seq<TableFieldModel>) -> bool {
    &&& columns.len() == fields.len()
    &&& forall|i: int|
        0 <= i < columns.len() ==> (#[trigger] columns[i]).has_table_type(fields[i].data_type)
}

/// The columns of a list of blocks, block by block.
pub open spec fn block_columns(blocks: Seq<DataBlock>) -> Seq<Seq<ColumnModel>> {
    Seq::new(blocks.len(), |i: int| blocks[i]@)
}

/// Whether a list of blocks stands for these columns, block by block.
pub open spec fn blocks_are(blocks: Seq<DataBlock>, models: Seq<Seq<ColumnModel>>) -> bool {
    &&& blocks.len() == models.len()
    &&& forall|i: int| 0 <= i < blocks.len() ==> (#[trigger] blocks[i])@ == models[i]
}

} // verus!
