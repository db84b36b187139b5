//! Data types, fields and schemas, in the two forms an engine keeps them:
//! the form its expressions use (`DataSchema`) and the form a table stores
//! (`TableSchema`).

use vstd::prelude::*;

verus! {

/// The number types that sample columns are made of.
#[derive(Clone, Copy, Debug, PartialEq, Eq, Structural)]
pub enum NumberDataType {
    Int32,
    Int64,
}

/// The type of a column as expressions see it.
#[derive(Debug, PartialEq, Eq)]
pub enum DataType {
    Number(NumberDataType),
    String,
    Variant,
    Nullable(Box<DataType>),
    Tuple(Vec<DataType>),
}

/// What a `DataType` stands for.
#[verifier::ext_equal]
pub enum DataTypeModel {
    Number(NumberDataType),
    String,
    Variant,
    Nullable(Box<DataTypeModel>),
    Tuple(Seq<DataTypeModel>),
}

impl DataType {
    pub open spec fn view(self) -> DataTypeModel
        decreases self,
    {
        match self {
            DataType::Number(n) => DataTypeModel::Number(n),
            DataType::String => DataTypeModel::String,
            DataType::Variant => DataTypeModel::Variant,
            DataType::Nullable(inner) => DataTypeModel::Nullable(Box::new((*inner).view())),
            DataType::Tuple(inner) => DataTypeModel::Tuple(
                Seq::new(
                    inner@.len(),
                    |i: int|
                        if 0 <= i < inner@.len() {
                            inner@[i].view()
                        } else {
                            arbitrary()
                        },
                ),
            ),
        }
    }
}

/// The type of a column as a table stores it: the fields of a tuple have names.
#[derive(Debug, PartialEq, Eq)]
pub enum TableDataType {
    Number(NumberDataType),
    String,
    Variant,
    Nullable(Box<TableDataType>),
    Tuple { fields_name: Vec<String>, fields_type: Vec<TableDataType> },
}

/// What a `TableDataType` stands for.
#[verifier::ext_equal]
pub enum TableDataTypeModel {
    Number(NumberDataType),
    String,
    Variant,
    Nullable(Box<TableDataTypeModel>),
    Tuple { fields_name: Seq<Seq<char>>, fields_type: Seq<TableDataTypeModel> },
}

/// The texts of a list of strings.
pub open spec fn texts(strings: Seq<String>) -> Seq<Seq<char>> {
    Seq::new(strings.len(), |i: int| strings[i]@)
}

/// The text of a string that may be missing.
pub open spec fn optional_text(string: Option<String>) -> Option<Seq<char>> {
    match string {
        Some(s) => Some(s@),
        None => None,
    }
}

impl TableDataType {
    pub open spec fn view(self) -> TableDataTypeModel
        decreases self,
    {
        match self {
            TableDataType::Number(n) => TableDataTypeModel::Number(n),
            TableDataType::String => TableDataTypeModel::String,
            TableDataType::Variant => TableDataTypeModel::Variant,
            TableDataType::Nullable(inner) => TableDataTypeModel::Nullable(
                Box::new((*inner).view()),
            ),
            TableDataType::Tuple { fields_name, fields_type } => TableDataTypeModel::Tuple {
                fields_name: texts(fields_name@),
                fields_type: Seq::new(
                    fields_type@.len(),
                    |i: int|
                        if 0 <= i < fields_type@.len() {
                            fields_type@[i].view()
                        } else {
                            arbitrary()
                        },
                ),
            },
        }
    }
}

/// How a computed column gets its values: on every read, or once on insertion.
#[derive(Debug, PartialEq, Eq)]
pub enum ComputedExpr {
    Virtual(String),
    Stored(String),
}

/// What a `ComputedExpr` stands for.
#[verifier::ext_equal]
pub enum ComputedExprModel {
    Virtual(Seq<char>),
    Stored(Seq<char>),
}

impl View for ComputedExpr {
    type V = ComputedExprModel;

    open spec fn view(&self) -> ComputedExprModel {
        match self {
            ComputedExpr::Virtual(expr) => ComputedExprModel::Virtual(expr@),
            ComputedExpr::Stored(expr) => ComputedExprModel::Stored(expr@),
        }
    }
}

pub open spec fn optional_computed(expr: Option<ComputedExpr>) -> Option<ComputedExprModel> {
    match expr {
        Some(e) => Some(e@),
        None => None,
    }
}

/// A named, typed column of a `DataSchema`.
#[derive(Debug, PartialEq, Eq)]
pub struct DataField {
    pub name: String,
    pub data_type: DataType,
    pub default_expr: Option<String>,
    pub computed_expr: Option<ComputedExpr>,
}

/// What a `DataField` stands for.
#[verifier::ext_equal]
pub struct DataFieldModel {
    pub name: Seq<char>,
    pub data_type: DataTypeModel,
    pub default_expr: Option<Seq<char>>,
    pub computed_expr: Option<ComputedExprModel>,
}

impl View for DataField {
    type V = DataFieldModel;

    open spec fn view(&self) -> DataFieldModel {
        DataFieldModel {
            name: self.name@,
            data_type: self.data_type.view(),
            default_expr: optional_text(self.default_expr),
            computed_expr: optional_computed(self.computed_expr),
        }
    }
}

/// A column that is neither computed nor given a default.
pub open spec fn plain_field(name: Seq<char>, data_type: DataTypeModel) -> DataFieldModel {
    DataFieldModel { name, data_type, default_expr: None, computed_expr: None }
}

impl DataField {
    /// A column that is neither computed nor given a default.
    pub fn new(name: &str, data_type: DataType) -> (field: DataField)
        ensures
            field@ == plain_field(name@, data_type.view()),
    {
        DataField { name: name.to_owned(), data_type, default_expr: None, computed_expr: None }
    }

    /// The same column with the given default expression.
    pub fn with_default_expr(self, default_expr: Option<String>) -> (field: DataField)
        ensures
            field@ == (DataFieldModel { default_expr: optional_text(default_expr), ..self@ }),
    {
        DataField {
            name: self.name,
            data_type: self.data_type,
            default_expr,
            computed_expr: self.computed_expr,
        }
    }

    /// The same column with the given computed expression.
    pub fn with_computed_expr(self, computed_expr: Option<ComputedExpr>) -> (field: DataField)
        ensures
            field@ == (DataFieldModel { computed_expr: optional_computed(computed_expr), ..self@ }),
    {
        DataField {
            name: self.name,
            data_type: self.data_type,
            default_expr: self.default_expr,
            computed_expr,
        }
    }
}

/// The columns of a block, in order.
#[derive(Debug, PartialEq, Eq)]
pub struct DataSchema {
    pub fields: Vec<DataField>,
}

impl View for DataSchema {
    type V = Seq<DataFieldModel>;

    open spec fn view(&self) -> Seq<DataFieldModel> {
        Seq::new(self.fields@.len(), |i: int| self.fields@[i]@)
    }
}

/// A named, typed column of a `TableSchema`.
#[derive(Debug, PartialEq, Eq)]
pub struct TableField {
    pub name: String,
    pub data_type: TableDataType,
    pub default_expr: Option<String>,
    pub computed_expr: Option<ComputedExpr>,
}

/// What a `TableField` stands for.
#[verifier::ext_equal]
pub struct TableFieldModel {
    pub name: Seq<char>,
    pub data_type: TableDataTypeModel,
    pub default_expr: Option<Seq<char>>,
    pub computed_expr: Option<ComputedExprModel>,
}

impl View for TableField {
    type V = TableFieldModel;

    open spec fn view(&self) -> TableFieldModel {
        TableFieldModel {
            name: self.name@,
            data_type: self.data_type.view(),
            default_expr: optional_text(self.default_expr),
            computed_expr: optional_computed(self.computed_expr),
        }
    }
}

/// A table column that is neither computed nor given a default.
pub open spec fn plain_table_field(
    name: Seq<char>,
    data_type: TableDataTypeModel,
) -> TableFieldModel {
    TableFieldModel { name, data_type, default_expr: None, computed_expr: None }
}

impl TableField {
    /// A table column that is neither computed nor given a default.
    pub fn new(name: &str, data_type: TableDataType) -> (field: TableField)
        ensures
            field@ == plain_table_field(name@, data_type.view()),
    {
        TableField { name: name.to_owned(), data_type, default_expr: None, computed_expr: None }
    }
}

/// The columns of a table, in order.
#[derive(Debug, PartialEq, Eq)]
pub struct TableSchema {
    pub fields: Vec<TableField>,
}

impl View for TableSchema {
    type V = Seq<TableFieldModel>;

    open spec fn view(&self) -> Seq<TableFieldModel> {
        Seq::new(self.fields@.len(), |i: int| self.fields@[i]@)
    }
}

impl TableDataTypeModel {
    /// Whether a table stores values of `data_type` as values of this type. The
    /// names of a tuple's fields are free.
    pub open spec fn stores(self, data_type: DataTypeModel) -> bool
        decreases self,
    {
        match self {
            TableDataTypeModel::Number(n) => data_type == DataTypeModel::Number(n),
            TableDataTypeModel::String => data_type is String,
            TableDataTypeModel::Variant => data_type is Variant,
            TableDataTypeModel::Nullable(inner) => match data_type {
                DataTypeModel::Nullable(nullable) => (*inner).stores(*nullable),
                _ => false,
            },
            TableDataTypeModel::Tuple { fields_name, fields_type } => match data_type {
                DataTypeModel::Tuple(types) => {
                    &&& fields_name.len() == types.len()
                    &&& fields_type.len() == types.len()
                    &&& forall|i: int|
                        0 <= i < fields_type.len() ==> (#[trigger] fields_type[i]).stores(types[i])
                },
                _ => false,
            },
        }
    }
}

/// Whether `table` describes, field by field, a table for the columns of `data`:
/// under the same names, with the same defaults and the same computed columns.
pub open spec fn is_table_form(table: Seq<TableFieldModel>, data: Seq<DataFieldModel>) -> bool {
    &&& table.len() == data.len()
    &&& forall|i: int|
        0 <= i < table.len() ==> {
            &&& (#[trigger] table[i]).name == data[i].name
            &&& table[i].data_type.stores(data[i].data_type)
            &&& table[i].default_expr == data[i].default_expr
            &&& table[i].computed_expr == data[i].computed_expr
        }
}

/// The columns that hold data of their own, in order.
pub open spec fn without_computed(fields: Seq<TableFieldModel>) -> Seq<TableFieldModel> {
    fields.filter(|field: TableFieldModel| field.computed_expr is None)
}

impl TableSchema {
    /// The columns that rows are inserted with: those that are not computed.
    pub fn remove_computed_fields(self) -> (schema: TableSchema)
        ensures
            schema@ == without_computed(self@),
    {
        let ghost all = self@;
        let ghost keep = |field: TableFieldModel| field.computed_expr is None;
        let mut schema = self;
        let mut kept: usize = 0;
        let ghost mut seen: int = 0;
        assert(all.take(0).filter(keep) =~= Seq::empty()) by {
            reveal(Seq::filter);
        }
        assert(schema@ =~= all.take(0).filter(keep) + all.skip(0));
        while kept < schema.fields.len()
            invariant
                0 <= seen <= all.len(),
                keep == (|field: TableFieldModel| field.computed_expr is None),
                kept == all.take(seen).filter(keep).len(),
                schema@ == all.take(seen).filter(keep) + all.skip(seen),
            decreases all.len() - seen,
        {
            let ghost before = schema@;
            assert(before[kept as int] == all[seen]);
            assert(all.take(seen + 1) =~= all.take(seen).push(all[seen]));
            assert(all.take(seen + 1).drop_last() =~= all.take(seen));
            assert(all.take(seen + 1).filter(keep) == if keep(all[seen]) {
                all.take(seen).filter(keep).push(all[seen])
            } else {
                all.take(seen).filter(keep)
            }) by {
                reveal(Seq::filter);
            }
            let computed = schema.fields[kept].computed_expr.is_some();
            assert(computed == !keep(all[seen]));
            if computed {
                let removed = schema.fields.remove(kept);
                assert(schema@ =~= before.remove(kept as int));
            } else {
                kept = kept + 1;
            }
            proof {
                seen = seen + 1;
                assert(schema@ =~= all.take(seen).filter(keep) + all.skip(seen));
            }
        }
        assert(all.take(seen) =~= all);
        assert(schema@ =~= all.filter(keep));
        schema
    }
}

} // verus!
