//! What the values of the samples are, number by number.

use vstd::arithmetic::power2::*;
use vstd::prelude::*;

use crate::decimal;
use crate::samples;
use crate::schema;
use crate::schema::NumberDataType;
use crate::schema::TableDataTypeModel;
use crate::schema::TableFieldModel;
use crate::variant;

verus! {

/// There are as many blocks of each kind as asked for.
pub proof fn law_block_counts(num: usize, rows: usize, start: i32)
    ensures
        samples::sample_blocks(num, rows, start).len() == num,
        samples::variant_blocks(num, rows, start).len() == num,
        samples::computed_blocks(num, rows, start).len() == num,
{
}

/// Each sample block has a column of ids and a tuple of two columns of numbers,
/// all with the rows asked for.
pub proof fn law_sample_block_shape(num: usize, rows: usize, start: i32, idx: int)
    requires
        0 <= idx < num,
    ensures
        ({
            let columns = samples::sample_blocks(num, rows, start)[idx];
            &&& columns.len() == 2
            &&& columns[0] is Int32
            &&& columns[0]->Int32_0.len() == rows
            &&& columns[1] is Tuple
            &&& columns[1]->Tuple_0.len() == 2
            &&& columns[1]->Tuple_0[0] is Int32
            &&& columns[1]->Tuple_0[0]->Int32_0.len() == rows
            &&& columns[1]->Tuple_0[1] is Int32
            &&& columns[1]->Tuple_0[1]->Int32_0.len() == rows
        }),
{
}

/// The ids of sample block `idx` begin with `idx + start`. They stay the same
/// where the rows come in threes, and otherwise double from row to row. The
/// tuple holds twice and three times `idx + start` in every row, however the
/// ids go on.
pub proof fn law_sample_values(num: usize, rows: usize, start: i32, idx: usize, i: int)
    requires
        samples::sample_blocks_fit(num, rows, start),
        idx < num,
        0 <= i < rows,
    ensures
        ({
            let columns = samples::sample_blocks(num, rows, start)[idx as int];
            let ids = columns[0]->Int32_0;
            let base = (idx as i32) + start;
            &&& idx <= i32::MAX ==> base == idx + start
            &&& ids[0] == base
            &&& rows % 3 == 0 ==> ids[i] == base
            &&& rows % 3 != 0 ==> ids[i] == base * pow2(i as nat)
            &&& rows % 3 != 0 && i + 1 < rows ==> ids[i + 1] == ids[i] * 2
            &&& columns[1]->Tuple_0[0]->Int32_0[i] == base * 2
            &&& columns[1]->Tuple_0[1]->Int32_0[i] == base * 3
        }),
{
    let base = (idx as i32) + start;
    assert(samples::block_base(idx, start) == base);
    assert(samples::sample_block_fits(rows as nat, samples::block_base(idx, start)));
    samples::lemma_doubling_step(base, i as nat);
    if rows % 3 != 0 {
        samples::lemma_doubling_grows(base, 0, rows as nat);
        samples::lemma_doubling_grows(base, i as nat, rows as nat);
        if i + 1 < rows {
            samples::lemma_doubling_grows(base, (i + 1) as nat, rows as nat);
        }
    }
}

/// Moving `start` by one moves every sample by the same step: ids that repeat
/// by one, the numbers of the tuple by two and by three.
pub proof fn law_samples_move_with_start(num: usize, rows: usize, start: i32, idx: usize, i: int)
    requires
        start < i32::MAX,
        samples::sample_blocks_fit(num, rows, start),
        samples::sample_blocks_fit(num, rows, (start + 1) as i32),
        idx < num,
        0 <= i < rows,
    ensures
        ({
            let before = samples::sample_blocks(num, rows, start)[idx as int];
            let after = samples::sample_blocks(num, rows, (start + 1) as i32)[idx as int];
            &&& after[0]->Int32_0[0] == before[0]->Int32_0[0] + 1
            &&& rows % 3 == 0 ==> after[0]->Int32_0[i] == before[0]->Int32_0[i] + 1
            &&& after[1]->Tuple_0[0]->Int32_0[i] == before[1]->Tuple_0[0]->Int32_0[i] + 2
            &&& after[1]->Tuple_0[1]->Int32_0[i] == before[1]->Tuple_0[1]->Int32_0[i] + 3
        }),
{
    law_sample_values(num, rows, start, idx, i);
    law_sample_values(num, rows, (start + 1) as i32, idx, i);
}

/// No number that goes into sample block `idx` leaves the range of an `i32`:
/// neither `idx + start`, nor, where there are rows, twice and three times that,
/// nor an id doubled once for every row.
pub open spec fn sample_numbers_in_range(idx: usize, rows: usize, start: i32) -> bool {
    let base = (idx as i32) + start;
    &&& i32::MIN <= base <= i32::MAX
    &&& rows > 0 ==> i32::MIN <= base * 2 <= i32::MAX && i32::MIN <= base * 3 <= i32::MAX
    &&& rows % 3 != 0 ==> i32::MIN <= base * pow2(rows as nat) <= i32::MAX
}

/// Sample blocks can be made exactly where the numbers of each stay in range.
pub proof fn law_when_samples_fit(num: usize, rows: usize, start: i32)
    ensures
        samples::sample_blocks_fit(num, rows, start) <==> forall|idx: usize|
            idx < num ==> #[trigger] sample_numbers_in_range(idx, rows, start),
{
    if samples::sample_blocks_fit(num, rows, start) {
        assert forall|idx: usize| idx < num implies #[trigger] sample_numbers_in_range(
            idx,
            rows,
            start,
        ) by {
            assert(samples::sample_block_fits(rows as nat, samples::block_base(idx, start)));
        }
    }
    if forall|idx: usize| idx < num ==> #[trigger] sample_numbers_in_range(idx, rows, start) {
        assert forall|idx: usize| idx < num implies samples::sample_block_fits(
            rows as nat,
            #[trigger] samples::block_base(idx, start),
        ) by {
            assert(sample_numbers_in_range(idx, rows, start));
        }
    }
}

/// The sample blocks have a number `id` and a tuple `t` of two numbers, `a` and
/// `b`, none of them computed or with a default.
pub proof fn law_sample_table_fields()
    ensures
        samples::sample_table_fields().len() == 2,
        samples::sample_table_fields()[0].name == "id"@,
        samples::sample_table_fields()[0].data_type == TableDataTypeModel::Number(
            NumberDataType::Int32,
        ),
        samples::sample_table_fields()[1].name == "t"@,
        samples::sample_table_fields()[1].data_type == (TableDataTypeModel::Tuple {
            fields_name: seq!["a"@, "b"@],
            fields_type: seq![
                TableDataTypeModel::Number(NumberDataType::Int32),
                TableDataTypeModel::Number(NumberDataType::Int32),
            ],
        }),
        samples::sample_table_fields()[0].default_expr is None,
        samples::sample_table_fields()[0].computed_expr is None,
        samples::sample_table_fields()[1].default_expr is None,
        samples::sample_table_fields()[1].computed_expr is None,
{
}

/// Each variant block has a column of ids and a column of documents, both with
/// the rows asked for.
pub proof fn law_variant_block_shape(num: usize, rows: usize, start: i32, idx: int)
    requires
        0 <= idx < num,
    ensures
        ({
            let columns = samples::variant_blocks(num, rows, start)[idx];
            &&& columns.len() == 2
            &&& columns[0] is Int32
            &&& columns[0]->Int32_0.len() == rows
            &&& columns[1] is Variant
            &&& columns[1]->Variant_0.len() == rows
        }),
{
}

/// Every id of variant block `idx` is `idx + start`. The document in row `i` has
/// exactly two members: `a`, which is `idx + i`, and `b`, which is twice that.
/// Beyond the range of an `i64` both wrap around.
pub proof fn law_variant_values(num: usize, rows: usize, start: i32, idx: usize, i: int)
    requires
        samples::variant_blocks_fit(num, rows, start),
        idx < num,
        0 <= i < rows,
    ensures
        ({
            let columns = samples::variant_blocks(num, rows, start)[idx as int];
            let base = (idx as i32) + start;
            &&& idx <= i32::MAX ==> base == idx + start
            &&& columns[0]->Int32_0[i] == base
            &&& columns[1]->Variant_0[i] == variant::jsonb_int_object(
                Map::empty().insert("a"@, ((idx + i) as usize) as i64).insert(
                    "b"@,
                    (((idx + i) * 2) as usize) as i64,
                ),
            )
            &&& (idx + i) * 2 <= i64::MAX ==> columns[1]->Variant_0[i]
                == variant::jsonb_int_object(
                map!["a"@ => (idx + i) as i64, "b"@ => (2 * (idx + i)) as i64],
            )
        }),
{
    assert(samples::block_base(idx, start) == (idx as i32) + start);
    assert(samples::fits_i32(samples::block_base(idx, start)));
    let n = (idx + i) as usize;
    assert(n == idx + i);
    let members = Map::<Seq<char>, i64>::empty().insert("a"@, n as i64).insert(
        "b"@,
        ((n * 2) as usize) as i64,
    );
    assert(variant::two_members("a"@, n as i64, "b"@, ((n * 2) as usize) as i64) =~= members);
    if (idx + i) * 2 <= i64::MAX {
        assert(members =~= map!["a"@ => (idx + i) as i64, "b"@ => (2 * (idx + i)) as i64]);
    }
}

/// The members of a document are those that were set, and no others; setting a
/// key again replaces its value.
pub proof fn law_document_members(
    first_key: Seq<char>,
    first: i64,
    second_key: Seq<char>,
    second: i64,
)
    ensures
        ({
            let members = variant::two_members(first_key, first, second_key, second);
            &&& forall|key: Seq<char>| #[trigger]
                members.dom().contains(key) <==> key == first_key || key == second_key
            &&& members[second_key] == second
            &&& first_key != second_key ==> members[first_key] == first
        }),
{
}

/// The id of variant block `idx` stays in the range of an `i32`.
pub open spec fn variant_id_in_range(idx: usize, start: i32) -> bool {
    i32::MIN <= (idx as i32) + start <= i32::MAX
}

/// Variant blocks can be made exactly where no number that goes into them leaves
/// its range: ten bytes for each row, and, where there are rows, twice the
/// highest `idx + i`, and each id.
pub proof fn law_when_variants_fit(num: usize, rows: usize, start: i32)
    ensures
        samples::variant_blocks_fit(num, rows, start) <==> num == 0 || (rows * 10 <= usize::MAX && (
        rows == 0 || ((num - 1 + (rows - 1)) * 2 <= usize::MAX && forall|idx: usize|
            idx < num ==> #[trigger] variant_id_in_range(idx, start)))),
{
    if samples::variant_blocks_fit(num, rows, start) && num > 0 && rows > 0 {
        assert forall|idx: usize| idx < num implies #[trigger] variant_id_in_range(
            idx,
            start,
        ) by {
            assert(samples::fits_i32(samples::block_base(idx, start)));
        }
    }
    if forall|idx: usize| idx < num ==> #[trigger] variant_id_in_range(idx, start) {
        assert forall|idx: usize| idx < num implies samples::fits_i32(
            #[trigger] samples::block_base(idx, start),
        ) by {
            assert(variant_id_in_range(idx, start));
        }
    }
}

/// The variant blocks have a number `id` and a document `v`, neither of them
/// computed or with a default.
pub proof fn law_variant_table_fields()
    ensures
        samples::variant_table_fields().len() == 2,
        samples::variant_table_fields()[0].name == "id"@,
        samples::variant_table_fields()[0].data_type == TableDataTypeModel::Number(
            NumberDataType::Int32,
        ),
        samples::variant_table_fields()[1].name == "v"@,
        samples::variant_table_fields()[1].data_type == TableDataTypeModel::Variant,
        samples::variant_table_fields()[0].default_expr is None,
        samples::variant_table_fields()[0].computed_expr is None,
        samples::variant_table_fields()[1].default_expr is None,
        samples::variant_table_fields()[1].computed_expr is None,
{
}

/// Each block for a table with computed columns has a column of ids, one of
/// texts and one of numbers, all with the rows asked for.
pub proof fn law_computed_block_shape(num: usize, rows: usize, start: i32, idx: int)
    requires
        0 <= idx < num,
    ensures
        ({
            let columns = samples::computed_blocks(num, rows, start)[idx];
            &&& columns.len() == 3
            &&& columns[0] is Int32
            &&& columns[0]->Int32_0.len() == rows
            &&& columns[1] is String
            &&& columns[1]->String_0.len() == rows
            &&& columns[2] is Int64
            &&& columns[2]->Int64_0.len() == rows
        }),
{
}

/// In each block for a table with computed columns, row `i` holds three times
/// `start` and `i` more, the text `s-<start>-<i>`, and ten times `start` and `i`
/// more. Beyond the range of the column's type `i` wraps around.
pub proof fn law_computed_values(num: usize, rows: usize, start: i32, idx: int, i: usize)
    requires
        samples::computed_blocks_fit(num, rows, start),
        0 <= idx < num,
        i < rows,
    ensures
        ({
            let columns = samples::computed_blocks(num, rows, start)[idx];
            &&& columns[0]->Int32_0[i as int] == (i as i32) + start * 3
            &&& i <= i32::MAX ==> columns[0]->Int32_0[i as int] == i + start * 3
            &&& columns[1]->String_0[i as int] == seq![115u8, 45u8] + decimal::decimal(
                start as int,
            ) + seq![45u8] + decimal::decimal(i as int)
            &&& columns[2]->Int64_0[i as int] == (i as i64) + start * 10
            &&& i <= i64::MAX ==> columns[2]->Int64_0[i as int] == i + start * 10
        }),
{
    assert(samples::computed_row_fits(start, i));
    assert(samples::computed_text(start, i) =~= seq![115u8, 45u8] + decimal::decimal(start as int)
        + seq![45u8] + decimal::decimal(i as int));
}

/// The numbers of a block for a table with computed columns begin at three and
/// at ten times `start`, and each is one more than the number in the row before.
pub proof fn law_computed_values_count_up(num: usize, rows: usize, start: i32, idx: int, i: usize)
    requires
        samples::computed_blocks_fit(num, rows, start),
        0 <= idx < num,
        0 < i < rows,
        i <= i32::MAX,
    ensures
        ({
            let columns = samples::computed_blocks(num, rows, start)[idx];
            let ids = columns[0]->Int32_0;
            let numbers = columns[2]->Int64_0;
            &&& ids[0] == start * 3
            &&& ids[i as int] == ids[i - 1] + 1
            &&& numbers[0] == start * 10
            &&& numbers[i as int] == numbers[i - 1] + 1
        }),
{
    law_computed_values(num, rows, start, idx, 0);
    law_computed_values(num, rows, start, idx, (i - 1) as usize);
    law_computed_values(num, rows, start, idx, i);
}

/// Moving `start` by one moves every id by three and every number by ten.
pub proof fn law_computed_values_move_with_start(
    num: usize,
    rows: usize,
    start: i32,
    idx: int,
    i: usize,
)
    requires
        start < i32::MAX,
        samples::computed_blocks_fit(num, rows, start),
        samples::computed_blocks_fit(num, rows, (start + 1) as i32),
        0 <= idx < num,
        i < rows,
    ensures
        ({
            let before = samples::computed_blocks(num, rows, start)[idx];
            let after = samples::computed_blocks(num, rows, (start + 1) as i32)[idx];
            &&& after[0]->Int32_0[i as int] == before[0]->Int32_0[i as int] + 3
            &&& after[2]->Int64_0[i as int] == before[2]->Int64_0[i as int] + 10
        }),
{
    law_computed_values(num, rows, start, idx, i);
    law_computed_values(num, rows, (start + 1) as i32, idx, i);
}

/// No number that goes into row `i` of a block for a table with computed columns
/// leaves its range: three and ten times `start` that of an `i32`, the id that of
/// an `i32`, the number that of an `i64`.
pub open spec fn computed_numbers_in_range(start: i32, i: usize) -> bool {
    &&& i32::MIN <= start * 3 <= i32::MAX
    &&& i32::MIN <= start * 10 <= i32::MAX
    &&& i32::MIN <= (i as i32) + start * 3 <= i32::MAX
    &&& i64::MIN <= (i as i64) + start * 10 <= i64::MAX
}

/// Blocks for a table with computed columns can be made exactly where the
/// numbers of each row stay in range.
pub proof fn law_when_computed_fit(num: usize, rows: usize, start: i32)
    ensures
        samples::computed_blocks_fit(num, rows, start) <==> num == 0 || forall|i: usize|
            i < rows ==> #[trigger] computed_numbers_in_range(start, i),
{
    if samples::computed_blocks_fit(num, rows, start) && num > 0 {
        assert forall|i: usize| i < rows implies #[trigger] computed_numbers_in_range(
            start,
            i,
        ) by {
            assert(samples::computed_row_fits(start, i));
        }
    }
    if forall|i: usize| i < rows ==> #[trigger] computed_numbers_in_range(start, i) {
        assert forall|i: usize| i < rows implies #[trigger] samples::computed_row_fits(
            start,
            i,
        ) by {
            assert(computed_numbers_in_range(start, i));
        }
    }
}

/// A column that holds the same value throughout has the rows asked for, and
/// that value in each.
pub proof fn law_constant_column(rows: nat, value: i32, i: int)
    requires
        0 <= i < rows,
    ensures
        samples::constant_column(rows, value as int) is Int32,
        samples::constant_column(rows, value as int)->Int32_0.len() == rows,
        samples::constant_column(rows, value as int)->Int32_0[i] == value,
{
}

/// The number that a row of ASCII digits denotes.
pub open spec fn read_digits(text: Seq<u8>) -> int
    decreases text.len(),
{
    if text.len() == 0 {
        0
    } else {
        10 * read_digits(text.drop_last()) + (text.last() - 48)
    }
}

/// The number that ASCII digits denote, with a minus sign in front or without.
pub open spec fn read_decimal(text: Seq<u8>) -> int {
    if text.len() > 0 && text[0] == 45 {
        -read_digits(text.skip(1))
    } else {
        read_digits(text)
    }
}

/// Digits read back as the number that they were written for. They are digits
/// throughout, and the first of them is a zero only for the number zero.
pub proof fn law_digits_read_back(n: nat)
    ensures
        read_digits(decimal::decimal_digits(n)) == n,
        decimal::decimal_digits(n).len() > 0,
        forall|i: int|
            0 <= i < decimal::decimal_digits(n).len() ==> 48 <= #[trigger] decimal::decimal_digits(
                n,
            )[i] <= 57,
        n > 0 ==> decimal::decimal_digits(n)[0] != 48,
        n == 0 ==> decimal::decimal_digits(n).len() == 1,
    decreases n,
{
    let text = decimal::decimal_digits(n);
    if n < 10 {
        assert(text.drop_last() =~= Seq::empty());
        assert(read_digits(text.drop_last()) == 0);
    } else {
        law_digits_read_back(n / 10);
        assert(text.drop_last() =~= decimal::decimal_digits(n / 10));
        assert(text[0] == text.drop_last()[0]);
    }
}

/// A number in decimal reads back as the same number. It begins with a minus
/// sign exactly where it is negative; the rest of it are its digits.
pub proof fn law_decimal_reads_back(n: int)
    ensures
        read_decimal(decimal::decimal(n)) == n,
        decimal::decimal(n).len() > 0,
        decimal::decimal(n)[0] == 45 <==> n < 0,
        n >= 0 ==> decimal::decimal(n) == decimal::decimal_digits(n as nat),
        n < 0 ==> decimal::decimal(n).skip(1) == decimal::decimal_digits((-n) as nat),
{
    if n < 0 {
        law_digits_read_back((-n) as nat);
        assert(decimal::decimal(n).skip(1) =~= decimal::decimal_digits((-n) as nat));
    } else {
        law_digits_read_back(n as nat);
    }
}

/// To remove the computed columns is to look at each column by itself: one that
/// is computed goes, any other stays, and the order stays too.
pub proof fn law_columns_are_removed_one_by_one(
    field: TableFieldModel,
    first: Seq<TableFieldModel>,
    second: Seq<TableFieldModel>,
)
    ensures
        schema::without_computed(Seq::empty()) == Seq::<TableFieldModel>::empty(),
        field.computed_expr is None ==> schema::without_computed(seq![field]) == seq![field],
        field.computed_expr is Some ==> schema::without_computed(seq![field]) == Seq::<
            TableFieldModel,
        >::empty(),
        schema::without_computed(first + second) == schema::without_computed(first)
            + schema::without_computed(second),
{
    let keep = |field: TableFieldModel| field.computed_expr is None;
    reveal_with_fuel(Seq::filter, 2);
    assert(seq![field].drop_last() =~= Seq::empty());
    assert(Seq::<TableFieldModel>::empty().filter(keep) =~= Seq::empty());
    assert(Seq::<TableFieldModel>::empty().push(field) =~= seq![field]);
    Seq::filter_distributes_over_add(first, second, keep);
}

} // verus!
