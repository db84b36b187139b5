//! Blocks of sample rows.

use vstd::arithmetic::power2::*;
use vstd::prelude::*;

use crate::block;
use crate::block::Column;
use crate::block::ColumnModel;
use crate::block::DataBlock;
use crate::decimal;
use crate::fixture::TestFixture;
use crate::schema;
use crate::schema::NumberDataType;
use crate::schema::TableDataType;
use crate::schema::TableDataTypeModel;
use crate::schema::TableField;
use crate::schema::TableFieldModel;
use crate::schema::TableSchema;
use crate::variant;

verus! {

pub open spec fn fits_i32(n: int) -> bool {
    i32::MIN <= n <= i32::MAX
}

pub open spec fn fits_i64(n: int) -> bool {
    i64::MIN <= n <= i64::MAX
}

/// The number that the values of block `idx` are derived from. Beyond the range
/// of an `i32` the block's index wraps around.
pub open spec fn block_base(idx: usize, start: i32) -> int {
    (idx as i32) + start
}

/// The ids of a sample block: the base throughout where the rows come in
/// threes, and otherwise the base, doubled from each row to the next.
pub open spec fn sample_ids(rows: nat, base: int) -> Seq<i32> {
    Seq::new(
        rows,
        |i: int|
            (if rows % 3 == 0 {
                base
            } else {
                base * pow2(i as nat)
            }) as i32,
    )
}

/// The same value in every row.
pub open spec fn constant_column(rows: nat, value: int) -> ColumnModel {
    ColumnModel::Int32(Seq::new(rows, |i: int| value as i32))
}

/// A sample block: the ids, and a tuple of twice and three times the base.
pub open spec fn sample_block(rows: nat, base: int) -> Seq<ColumnModel> {
    seq![
        ColumnModel::Int32(sample_ids(rows, base)),
        ColumnModel::Tuple(
            seq![constant_column(rows, base * 2), constant_column(rows, base * 3)],
        ),
    ]
}

/// Whether the arithmetic behind a sample block stays within an `i32`. Ids
/// that double do so once more after the last row.
pub open spec fn sample_block_fits(rows: nat, base: int) -> bool {
    &&& fits_i32(base)
    &&& rows > 0 ==> fits_i32(base * 2) && fits_i32(base * 3)
    &&& rows % 3 != 0 ==> fits_i32(base * pow2(rows))
}

/// Whether `num_of_block` sample blocks can be made without overflow.
pub open spec fn sample_blocks_fit(num_of_block: usize, rows: usize, start: i32) -> bool {
    forall|idx: usize|
        idx < num_of_block ==> sample_block_fits(rows as nat, #[trigger] block_base(idx, start))
}

/// The sample blocks, from the first to the last.
pub open spec fn sample_blocks(num_of_block: usize, rows: usize, start: i32) -> Seq<
    Seq<ColumnModel>,
> {
    Seq::new(
        num_of_block as nat,
        |i: int| sample_block(rows as nat, block_base(i as usize, start)),
    )
}

/// The columns of the sample blocks.
pub open spec fn sample_table_fields() -> Seq<TableFieldModel> {
    let int32 = TableDataTypeModel::Number(NumberDataType::Int32);
    seq![
        schema::plain_table_field("id"@, int32),
        schema::plain_table_field(
            "t"@,
            TableDataTypeModel::Tuple {
                fields_name: seq!["a"@, "b"@],
                fields_type: seq![int32, int32],
            },
        ),
    ]
}

/// The document in row `i` of variant block `idx`, where `n` is `idx + i`.
pub open spec fn variant_document(n: usize) -> Seq<u8> {
    variant::jsonb_int_object(
        variant::two_members("a"@, n as i64, "b"@, ((n * 2) as usize) as i64),
    )
}

/// A variant block: the base in every row, and a document that counts up from
/// the block's index.
pub open spec fn variant_block(rows: nat, idx: usize, start: i32) -> Seq<ColumnModel> {
    seq![
        constant_column(rows, block_base(idx, start)),
        ColumnModel::Variant(Seq::new(rows, |i: int| variant_document((idx + i) as usize))),
    ]
}

/// Whether `num_of_block` variant blocks can be made without overflow. Ten
/// bytes are set aside for each document beforehand.
pub open spec fn variant_blocks_fit(num_of_block: usize, rows: usize, start: i32) -> bool {
    num_of_block > 0 ==> {
        &&& rows * 10 <= usize::MAX
        &&& rows > 0 ==> {
            &&& (num_of_block - 1 + rows - 1) * 2 <= usize::MAX
            &&& forall|idx: usize|
                idx < num_of_block ==> fits_i32(#[trigger] block_base(idx, start))
        }
    }
}

/// The variant blocks, from the first to the last.
pub open spec fn variant_blocks(num_of_block: usize, rows: usize, start: i32) -> Seq<
    Seq<ColumnModel>,
> {
    Seq::new(num_of_block as nat, |i: int| variant_block(rows as nat, i as usize, start))
}

/// The columns of the variant blocks.
pub open spec fn variant_table_fields() -> Seq<TableFieldModel> {
    seq![
        schema::plain_table_field("id"@, TableDataTypeModel::Number(NumberDataType::Int32)),
        schema::plain_table_field("v"@, TableDataTypeModel::Variant),
    ]
}

/// The text `s-<start>-<i>`, in ASCII.
pub open spec fn computed_text(start: i32, i: usize) -> Seq<u8> {
    seq![LETTER_S, HYPHEN] + decimal::decimal(start as int) + seq![HYPHEN] + decimal::decimal(
        i as int,
    )
}

/// The id in row `i` of a block for a table with computed columns.
pub open spec fn computed_id(start: i32, i: usize) -> int {
    (i as i32) + start * 3
}

/// The number in row `i` of a block for a table with computed columns.
pub open spec fn computed_number(start: i32, i: usize) -> int {
    (i as i64) + start * 10
}

/// A block for a table with computed columns: ids, texts and numbers, all of
/// which count up from row to row.
pub open spec fn computed_block(rows: nat, start: i32) -> Seq<ColumnModel> {
    seq![
        ColumnModel::Int32(Seq::new(rows, |i: int| computed_id(start, i as usize) as i32)),
        ColumnModel::String(Seq::new(rows, |i: int| computed_text(start, i as usize))),
        ColumnModel::Int64(Seq::new(rows, |i: int| computed_number(start, i as usize) as i64)),
    ]
}

/// Whether row `i` of a block for a table with computed columns can be made
/// without overflow.
pub open spec fn computed_row_fits(start: i32, i: usize) -> bool {
    &&& fits_i32(start * 3)
    &&& fits_i32(start * 10)
    &&& fits_i32(computed_id(start, i))
    &&& fits_i64(computed_number(start, i))
}

/// Whether blocks for a table with computed columns can be made without overflow.
pub open spec fn computed_blocks_fit(num_of_block: usize, rows: usize, start: i32) -> bool {
    num_of_block > 0 ==> forall|i: usize| i < rows ==> #[trigger] computed_row_fits(start, i)
}

/// The blocks for a table with computed columns: all alike.
pub open spec fn computed_blocks(num_of_block: usize, rows: usize, start: i32) -> Seq<
    Seq<ColumnModel>,
> {
    Seq::new(num_of_block as nat, |i: int| computed_block(rows as nat, start))
}

/// ASCII `s`.
pub const LETTER_S: u8 = 115;

/// ASCII `-`.
pub const HYPHEN: u8 = 45;

/// Doubling `base` some more keeps it in range only if it was in range before.
pub proof fn lemma_doubling_grows(base: int, fewer: nat, more: nat)
    requires
        fewer <= more,
        fits_i32(base * pow2(more)),
    ensures
        fits_i32(base * pow2(fewer)),
    decreases more - fewer,
{
    if fewer < more {
        lemma_doubling_grows(base, fewer + 1, more);
        lemma_doubling_step(base, fewer);
    }
}

/// Doubling once more is multiplying by the next power of two.
pub proof fn lemma_doubling_step(base: int, times: nat)
    ensures
        base * pow2(times + 1) == (base * pow2(times)) * 2,
        base * pow2(0) == base,
{
    lemma_pow2_unfold(times + 1);
    lemma2_to64();
    assert(base * (2 * pow2(times)) == (base * pow2(times)) * 2) by (nonlinear_arith);
}

/// `rows` times the same value.
fn repeat_value(value: i32, rows: usize) -> (values: Vec<i32>)
    ensures
        values@ == Seq::new(rows as nat, |i: int| value),
{
    let mut values: Vec<i32> = Vec::new();
    let mut i: usize = 0;
    while i < rows
        invariant
            i <= rows,
            values@ == Seq::new(i as nat, |j: int| value),
        decreases rows - i,
    {
        values.push(value);
        i = i + 1;
        assert(values@ =~= Seq::new(i as nat, |j: int| value));
    }
    values
}

/// The ids of one sample block.
fn gen_sample_ids(base: i32, rows_per_block: usize) -> (ids: Vec<i32>)
    requires
        sample_block_fits(rows_per_block as nat, base as int),
    ensures
        ids@ == sample_ids(rows_per_block as nat, base as int),
{
    let repeat = rows_per_block % 3 == 0;
    let mut curr: i32 = base;
    let mut ids: Vec<i32> = Vec::new();
    let mut i: usize = 0;
    proof {
        lemma_doubling_step(base as int, 0);
    }
    while i < rows_per_block
        invariant
            i <= rows_per_block,
            repeat == (rows_per_block % 3 == 0),
            repeat ==> curr == base,
            !repeat ==> curr == base * pow2(i as nat),
            sample_block_fits(rows_per_block as nat, base as int),
            ids@ == sample_ids(rows_per_block as nat, base as int).take(i as int),
        decreases rows_per_block - i,
    {
        ids.push(curr);
        if !repeat {
            proof {
                lemma_doubling_step(base as int, i as nat);
                lemma_doubling_grows(base as int, (i + 1) as nat, rows_per_block as nat);
            }
            curr = curr * 2;
        }
        i = i + 1;
        assert(ids@ =~= sample_ids(rows_per_block as nat, base as int).take(i as int));
    }
    assert(ids@ =~= sample_ids(rows_per_block as nat, base as int));
    ids
}

/// One sample block.
fn gen_sample_block(base: i32, rows_per_block: usize) -> (block: DataBlock)
    requires
        sample_block_fits(rows_per_block as nat, base as int),
    ensures
        block@ == sample_block(rows_per_block as nat, base as int),
{
    let ghost rows = rows_per_block as nat;
    let column0 = Column::Int32(gen_sample_ids(base, rows_per_block));
    let doubled: i32 = if rows_per_block > 0 {
        base * 2
    } else {
        0
    };
    let tripled: i32 = if rows_per_block > 0 {
        base * 3
    } else {
        0
    };
    let column1 = Column::Int32(repeat_value(doubled, rows_per_block));
    let column2 = Column::Int32(repeat_value(tripled, rows_per_block));
    assert(column1.view() =~= constant_column(rows, base * 2));
    assert(column2.view() =~= constant_column(rows, base * 3));
    let tuple_column = Column::Tuple(vec![column1, column2]);
    assert(tuple_column.view()->Tuple_0 =~= seq![
        constant_column(rows, base * 2),
        constant_column(rows, base * 3),
    ]);
    let block = DataBlock { columns: vec![column0, tuple_column] };
    assert(block@ =~= sample_block(rows, base as int));
    block
}

fn is_i32(n: i64) -> (fits: bool)
    ensures
        fits == fits_i32(n as int),
{
    i32::MIN as i64 <= n && n <= i32::MAX as i64
}

/// Whether one sample block can be made without overflow.
fn can_gen_sample_block(base: i64, rows_per_block: usize) -> (fits: bool)
    requires
        2 * i32::MIN <= base <= 2 * i32::MAX,
    ensures
        fits == sample_block_fits(rows_per_block as nat, base as int),
{
    if !is_i32(base) {
        return false;
    }
    if rows_per_block > 0 && !(is_i32(base * 2) && is_i32(base * 3)) {
        return false;
    }
    if rows_per_block % 3 == 0 {
        return true;
    }
    let mut curr: i64 = base;
    let mut i: usize = 0;
    proof {
        lemma_doubling_step(base as int, 0);
    }
    while i < rows_per_block
        invariant
            i <= rows_per_block,
            fits_i32(curr as int),
            curr == base * pow2(i as nat),
            rows_per_block % 3 != 0,
        decreases rows_per_block - i,
    {
        curr = curr * 2;
        proof {
            lemma_doubling_step(base as int, i as nat);
        }
        i = i + 1;
        if !is_i32(curr) {
            proof {
                if fits_i32(base * pow2(rows_per_block as nat)) {
                    lemma_doubling_grows(base as int, i as nat, rows_per_block as nat);
                }
            }
            return false;
        }
    }
    true
}

/// The schema of the sample blocks.
fn sample_table_schema() -> (schema: TableSchema)
    ensures
        schema@ == sample_table_fields(),
{
    let id = TableField::new("id", TableDataType::Number(NumberDataType::Int32));
    let tuple = TableDataType::Tuple {
        fields_name: vec!["a".to_owned(), "b".to_owned()],
        fields_type: vec![
            TableDataType::Number(NumberDataType::Int32),
            TableDataType::Number(NumberDataType::Int32),
        ],
    };
    let ghost int32 = TableDataTypeModel::Number(NumberDataType::Int32);
    proof {
        reveal_with_fuel(TableDataType::view, 2);
        assert(tuple.view()->fields_name =~= seq!["a"@, "b"@]);
        assert(tuple.view()->fields_type =~= seq![int32, int32]);
    }
    let t = TableField::new("t", tuple);
    let schema = TableSchema { fields: vec![id, t] };
    assert(schema@ =~= sample_table_fields());
    schema
}

/// A block of documents, each with the same id.
pub fn variant_block_of(id: i32, documents: Vec<Vec<u8>>) -> (block: DataBlock)
    ensures
        block@ == seq![
            constant_column(documents@.len(), id as int),
            ColumnModel::Variant(block::byte_rows(documents@)),
        ],
        block.columns@[1] == Column::Variant(documents),
{
    let id_column = Column::Int32(repeat_value(id, documents.len()));
    assert(id_column.view() =~= constant_column(documents@.len(), id as int));
    let block = DataBlock { columns: vec![id_column, Column::Variant(documents)] };
    assert(block@ =~= seq![
        constant_column(documents@.len(), id as int),
        ColumnModel::Variant(block::byte_rows(documents@)),
    ]);
    block
}

/// One variant block.
fn gen_variant_block(idx: usize, rows_per_block: usize, start: i32) -> (block: DataBlock)
    requires
        rows_per_block > 0 ==> {
            &&& (idx + rows_per_block - 1) * 2 <= usize::MAX
            &&& fits_i32(block_base(idx, start))
        },
    ensures
        block@ == variant_block(rows_per_block as nat, idx, start),
{
    let ghost rows = rows_per_block as nat;
    let base: i32 = if rows_per_block > 0 {
        (#[verifier::truncate] (idx as i32)) + start
    } else {
        0
    };
    let ghost all = Seq::new(rows, |i: int| variant_document((idx + i) as usize));
    let mut documents: Vec<Vec<u8>> = Vec::new();
    let mut i: usize = 0;
    while i < rows_per_block
        invariant
            i <= rows_per_block,
            all == Seq::new(
                rows_per_block as nat,
                |i: int| variant_document((idx + i) as usize),
            ),
            rows_per_block > 0 ==> (idx + rows_per_block - 1) * 2 <= usize::MAX,
            block::byte_rows(documents@) == all.take(i as int),
        decreases rows_per_block - i,
    {
        let ghost before = documents@;
        let n: usize = idx + i;
        let mut document: Vec<u8> = Vec::new();
        variant::write_int_object(
            "a",
            #[verifier::truncate] (n as i64),
            "b",
            #[verifier::truncate] ((n * 2) as i64),
            &mut document,
        );
        assert(document@ =~= variant_document(n));
        documents.push(document);
        assert(block::byte_rows(documents@) =~= block::byte_rows(before).push(all[i as int]));
        i = i + 1;
        assert(block::byte_rows(documents@) =~= all.take(i as int));
    }
    assert(all.take(rows_per_block as int) =~= all);
    assert(constant_column(rows, base as int) =~= constant_column(rows, block_base(idx, start)));
    variant_block_of(base, documents)
}

/// One text of a block for a table with computed columns.
fn gen_computed_text(start: i32, i: usize) -> (text: Vec<u8>)
    ensures
        text@ == computed_text(start, i),
{
    let mut text: Vec<u8> = vec![LETTER_S, HYPHEN];
    decimal::push_decimal(&mut text, start as i64);
    text.push(HYPHEN);
    decimal::push_digits(&mut text, i as u64);
    assert(text@ =~= computed_text(start, i));
    text
}

/// One block for a table with computed columns.
fn gen_computed_block(rows_per_block: usize, start: i32) -> (block: DataBlock)
    requires
        forall|i: usize| i < rows_per_block ==> #[trigger] computed_row_fits(start, i),
    ensures
        block@ == computed_block(rows_per_block as nat, start),
{
    let ghost rows = rows_per_block as nat;
    let ghost ids = Seq::new(rows, |i: int| computed_id(start, i as usize) as i32);
    let ghost texts = Seq::new(rows, |i: int| computed_text(start, i as usize));
    let ghost numbers = Seq::new(rows, |i: int| computed_number(start, i as usize) as i64);
    let mut id_values: Vec<i32> = Vec::new();
    let mut c_values: Vec<Vec<u8>> = Vec::new();
    let mut d_values: Vec<i64> = Vec::new();
    let mut i: usize = 0;
    while i < rows_per_block
        invariant
            i <= rows_per_block,
            rows == rows_per_block,
            forall|i: usize| i < rows_per_block ==> #[trigger] computed_row_fits(start, i),
            ids == Seq::new(rows, |i: int| computed_id(start, i as usize) as i32),
            texts == Seq::new(rows, |i: int| computed_text(start, i as usize)),
            numbers == Seq::new(rows, |i: int| computed_number(start, i as usize) as i64),
            id_values@ == ids.take(i as int),
            block::byte_rows(c_values@) == texts.take(i as int),
            d_values@ == numbers.take(i as int),
        decreases rows_per_block - i,
    {
        assert(computed_row_fits(start, i));
        let ghost before = c_values@;
        id_values.push((#[verifier::truncate] (i as i32)) + start * 3);
        c_values.push(gen_computed_text(start, i));
        d_values.push((#[verifier::truncate] (i as i64)) + (start * 10) as i64);
        assert(block::byte_rows(c_values@) =~= block::byte_rows(before).push(texts[i as int]));
        i = i + 1;
        assert(id_values@ =~= ids.take(i as int));
        assert(block::byte_rows(c_values@) =~= texts.take(i as int));
        assert(d_values@ =~= numbers.take(i as int));
    }
    assert(ids.take(rows_per_block as int) =~= ids);
    assert(texts.take(rows_per_block as int) =~= texts);
    assert(numbers.take(rows_per_block as int) =~= numbers);
    let block = DataBlock {
        columns: vec![
            Column::Int32(id_values),
            Column::String(c_values),
            Column::Int64(d_values),
        ],
    };
    assert(block@ =~= computed_block(rows, start));
    block
}

impl TestFixture {
    /// Sample blocks of three rows each.
    pub fn gen_sample_blocks(num_of_blocks: usize, start: i32) -> (res: (
        TableSchema,
        Vec<DataBlock>,
    ))
        requires
            sample_blocks_fit(num_of_blocks, 3, start),
        ensures
            res.0@ == sample_table_fields(),
            block::blocks_are(res.1@, sample_blocks(num_of_blocks, 3, start)),
    {
        Self::gen_sample_blocks_ex(num_of_blocks, 3, start)
    }

    /// Sample blocks and their schema. The values of a block derive from the
    /// block's index and `start`.
    pub fn gen_sample_blocks_ex(
        num_of_block: usize,
        rows_per_block: usize,
        start: i32,
    ) -> (res: (TableSchema, Vec<DataBlock>))
        requires
            sample_blocks_fit(num_of_block, rows_per_block, start),
        ensures
            res.0@ == sample_table_fields(),
            block::blocks_are(res.1@, sample_blocks(num_of_block, rows_per_block, start)),
    {
        let schema = sample_table_schema();
        let ghost all = sample_blocks(num_of_block, rows_per_block, start);
        let mut blocks: Vec<DataBlock> = Vec::new();
        let mut idx: usize = 0;
        while idx < num_of_block
            invariant
                idx <= num_of_block,
                all == sample_blocks(num_of_block, rows_per_block, start),
                sample_blocks_fit(num_of_block, rows_per_block, start),
                block::blocks_are(blocks@, all.take(idx as int)),
            decreases num_of_block - idx,
        {
            assert(fits_i32(block_base(idx, start)));
            let base: i32 = (#[verifier::truncate] (idx as i32)) + start;
            blocks.push(gen_sample_block(base, rows_per_block));
            idx = idx + 1;
        }
        assert(all.take(num_of_block as int) =~= all);
        (schema, blocks)
    }

    /// Variant blocks of three rows each.
    pub fn gen_variant_sample_blocks(num_of_blocks: usize, start: i32) -> (res: (
        TableSchema,
        Vec<DataBlock>,
    ))
        requires
            variant_blocks_fit(num_of_blocks, 3, start),
        ensures
            res.0@ == variant_table_fields(),
            block::blocks_are(res.1@, variant_blocks(num_of_blocks, 3, start)),
    {
        Self::gen_variant_sample_blocks_ex(num_of_blocks, 3, start)
    }

    /// Blocks with a column of documents, and their schema. The documents
    /// depend on the block's index and the row, not on `start`.
    pub fn gen_variant_sample_blocks_ex(
        num_of_block: usize,
        rows_per_block: usize,
        start: i32,
    ) -> (res: (TableSchema, Vec<DataBlock>))
        requires
            variant_blocks_fit(num_of_block, rows_per_block, start),
        ensures
            res.0@ == variant_table_fields(),
            block::blocks_are(res.1@, variant_blocks(num_of_block, rows_per_block, start)),
    {
        let schema = TableSchema {
            fields: vec![
                TableField::new("id", TableDataType::Number(NumberDataType::Int32)),
                TableField::new("v", TableDataType::Variant),
            ],
        };
        assert(schema@ =~= variant_table_fields());
        let ghost all = variant_blocks(num_of_block, rows_per_block, start);
        let mut blocks: Vec<DataBlock> = Vec::new();
        let mut idx: usize = 0;
        while idx < num_of_block
            invariant
                idx <= num_of_block,
                all == variant_blocks(num_of_block, rows_per_block, start),
                variant_blocks_fit(num_of_block, rows_per_block, start),
                block::blocks_are(blocks@, all.take(idx as int)),
            decreases num_of_block - idx,
        {
            blocks.push(gen_variant_block(idx, rows_per_block, start));
            idx = idx + 1;
        }
        assert(all.take(num_of_block as int) =~= all);
        (schema, blocks)
    }

    /// Blocks of three rows each for a table with computed columns.
    pub fn gen_computed_sample_blocks(
        table_schema: TableSchema,
        num_of_blocks: usize,
        start: i32,
    ) -> (res: (TableSchema, Vec<DataBlock>))
        requires
            computed_blocks_fit(num_of_blocks, 3, start),
        ensures
            res.0@ == schema::without_computed(table_schema@),
            block::blocks_are(res.1@, computed_blocks(num_of_blocks, 3, start)),
    {
        Self::gen_computed_sample_blocks_ex(table_schema, num_of_blocks, 3, start)
    }

    /// Blocks for a table with computed columns, and the schema that they are
    /// inserted with: that of the table, `table_schema`, without the columns
    /// that are computed.
    pub fn gen_computed_sample_blocks_ex(
        table_schema: TableSchema,
        num_of_block: usize,
        rows_per_block: usize,
        start: i32,
    ) -> (res: (TableSchema, Vec<DataBlock>))
        requires
            computed_blocks_fit(num_of_block, rows_per_block, start),
        ensures
            res.0@ == schema::without_computed(table_schema@),
            block::blocks_are(res.1@, computed_blocks(num_of_block, rows_per_block, start)),
    {
        let schema = table_schema.remove_computed_fields();
        let ghost all = computed_blocks(num_of_block, rows_per_block, start);
        let mut blocks: Vec<DataBlock> = Vec::new();
        let mut idx: usize = 0;
        while idx < num_of_block
            invariant
                idx <= num_of_block,
                all == computed_blocks(num_of_block, rows_per_block, start),
                computed_blocks_fit(num_of_block, rows_per_block, start),
                block::blocks_are(blocks@, all.take(idx as int)),
            decreases num_of_block - idx,
        {
            blocks.push(gen_computed_block(rows_per_block, start));
            idx = idx + 1;
        }
        assert(all.take(num_of_block as int) =~= all);
        (schema, blocks)
    }

    /// Whether the sample blocks can be made without overflow.
    pub fn can_gen_sample_blocks(
        num_of_block: usize,
        rows_per_block: usize,
        start: i32,
    ) -> (fits: bool)
        ensures
            fits == sample_blocks_fit(num_of_block, rows_per_block, start),
    {
        let mut idx: usize = 0;
        while idx < num_of_block
            invariant
                idx <= num_of_block,
                forall|k: usize|
                    k < idx ==> sample_block_fits(
                        rows_per_block as nat,
                        #[trigger] block_base(k, start),
                    ),
            decreases num_of_block - idx,
        {
            let base: i64 = (#[verifier::truncate] (idx as i32)) as i64 + start as i64;
            assert(base == block_base(idx, start));
            if !can_gen_sample_block(base, rows_per_block) {
                return false;
            }
            idx = idx + 1;
        }
        true
    }

    /// Whether the variant blocks can be made without overflow.
    pub fn can_gen_variant_sample_blocks(
        num_of_block: usize,
        rows_per_block: usize,
        start: i32,
    ) -> (fits: bool)
        ensures
            fits == variant_blocks_fit(num_of_block, rows_per_block, start),
    {
        if num_of_block == 0 {
            return true;
        }
        if rows_per_block > usize::MAX / 10 {
            return false;
        }
        if rows_per_block == 0 {
            return true;
        }
        if num_of_block - 1 > usize::MAX / 2 - (rows_per_block - 1) {
            return false;
        }
        let mut idx: usize = 0;
        while idx < num_of_block
            invariant
                idx <= num_of_block,
                rows_per_block > 0,
                forall|k: usize| k < idx ==> fits_i32(#[trigger] block_base(k, start)),
            decreases num_of_block - idx,
        {
            let base: i64 = (#[verifier::truncate] (idx as i32)) as i64 + start as i64;
            assert(base == block_base(idx, start));
            if !is_i32(base) {
                return false;
            }
            idx = idx + 1;
        }
        true
    }

    /// Whether the blocks for a table with computed columns can be made
    /// without overflow.
    pub fn can_gen_computed_sample_blocks(
        num_of_block: usize,
        rows_per_block: usize,
        start: i32,
    ) -> (fits: bool)
        ensures
            fits == computed_blocks_fit(num_of_block, rows_per_block, start),
    {
        if num_of_block == 0 {
            return true;
        }
        let tripled: i64 = start as i64 * 3;
        let tenfold: i64 = start as i64 * 10;
        let mut i: usize = 0;
        while i < rows_per_block
            invariant
                i <= rows_per_block,
                num_of_block > 0,
                tripled == start * 3,
                tenfold == start * 10,
                forall|k: usize| k < i ==> #[trigger] computed_row_fits(start, k),
            decreases rows_per_block - i,
        {
            let id: i64 = (#[verifier::truncate] (i as i32)) as i64 + tripled;
            let number = (#[verifier::truncate] (i as i64)).checked_add(tenfold);
            assert(id == computed_id(start, i));
            let fits = is_i32(tripled) && is_i32(tenfold) && is_i32(id) && number.is_some();
            assert(fits == computed_row_fits(start, i));
            if !fits {
                return false;
            }
            i = i + 1;
        }
        true
    }
}

} // verus!
