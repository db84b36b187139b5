//! What holds of the samples and the plans as a whole.

use vstd::prelude::*;

use crate::append;
use crate::append::AppendMode;
use crate::append::AppendStepModel;
use crate::block;
use crate::block::ColumnModel;
use crate::decimal;
use crate::fixture::FixtureModel;
use crate::plan;
use crate::plan::CreateTablePlanModel;
use crate::plan::TablePathModel;
use crate::samples;
use crate::schema;
use crate::schema::DataFieldModel;
use crate::schema::TableFieldModel;

verus! {

/// Every sample block has the rows asked for, and fits the schema that comes
/// with it.
pub proof fn law_sample_blocks_fit_schema(num_of_block: usize, rows: usize, start: i32, i: int)
    requires
        0 <= i < num_of_block,
    ensures
        block::is_block(samples::sample_blocks(num_of_block, rows, start)[i], rows as nat),
        block::fits_table(
            samples::sample_blocks(num_of_block, rows, start)[i],
            samples::sample_table_fields(),
        ),
{
    let columns = samples::sample_blocks(num_of_block, rows, start)[i];
    let fields = samples::sample_table_fields();
    reveal_with_fuel(ColumnModel::has_rows, 2);
    reveal_with_fuel(ColumnModel::has_table_type, 2);
    assert(columns[0].has_rows(rows as nat));
    assert(columns[1].has_rows(rows as nat));
    assert(columns[0].has_table_type(fields[0].data_type));
    assert(columns[1].has_table_type(fields[1].data_type));
}

/// Every variant block has the rows asked for, and fits the schema that comes
/// with it.
pub proof fn law_variant_blocks_fit_schema(num_of_block: usize, rows: usize, start: i32, i: int)
    requires
        0 <= i < num_of_block,
    ensures
        block::is_block(samples::variant_blocks(num_of_block, rows, start)[i], rows as nat),
        block::fits_table(
            samples::variant_blocks(num_of_block, rows, start)[i],
            samples::variant_table_fields(),
        ),
{
    let columns = samples::variant_blocks(num_of_block, rows, start)[i];
    let fields = samples::variant_table_fields();
    assert(columns[0].has_rows(rows as nat));
    assert(columns[1].has_rows(rows as nat));
    assert(columns[0].has_table_type(fields[0].data_type));
    assert(columns[1].has_table_type(fields[1].data_type));
}

/// Of seven fields, a filter that drops the second to the fifth keeps the rest.
proof fn lemma_first_and_last_two_are_kept<F>(fields: Seq<F>, keep: spec_fn(F) -> bool)
    requires
        fields.len() == 7,
        keep(fields[0]),
        forall|i: int| 1 <= i < 5 ==> !keep(#[trigger] fields[i]),
        keep(fields[5]),
        keep(fields[6]),
    ensures
        fields.filter(keep) == seq![fields[0], fields[5], fields[6]],
{
    reveal_with_fuel(Seq::filter, 8);
    assert(fields.drop_last() =~= fields.take(6));
    assert(fields.take(6).drop_last() =~= fields.take(5));
    assert(fields.take(5).drop_last() =~= fields.take(4));
    assert(fields.take(4).drop_last() =~= fields.take(3));
    assert(fields.take(3).drop_last() =~= fields.take(2));
    assert(fields.take(2).drop_last() =~= fields.take(1));
    assert(fields.take(1).drop_last() =~= Seq::empty());
    assert(fields.filter(keep) =~= seq![fields[0], fields[5], fields[6]]);
}

/// The schema that comes with the variant blocks is a table form of
/// `variant_schema`, and the blocks fit every table form of it.
pub proof fn law_variant_blocks_fit_variant_schema(
    fields: Seq<TableFieldModel>,
    num_of_block: usize,
    rows: usize,
    start: i32,
    i: int,
)
    requires
        0 <= i < num_of_block,
        schema::is_table_form(fields, plan::variant_fields()),
    ensures
        schema::is_table_form(samples::variant_table_fields(), plan::variant_fields()),
        block::fits_table(samples::variant_blocks(num_of_block, rows, start)[i], fields),
{
    let data = plan::variant_fields();
    assert(fields[0].name == data[0].name);
    assert(fields[1].name == data[1].name);
}

/// The fields of a data schema that hold data of their own, in order.
pub open spec fn inserted_fields(fields: Seq<DataFieldModel>) -> Seq<DataFieldModel> {
    fields.filter(|field: DataFieldModel| field.computed_expr is None)
}

/// Every block for the table with computed columns has the rows asked for, and
/// one column for each field of `computed_schema` that is not computed, of that
/// field's type.
pub proof fn law_computed_blocks_fit_schema(num_of_block: usize, rows: usize, start: i32, i: int)
    requires
        0 <= i < num_of_block,
    ensures
        block::is_block(samples::computed_blocks(num_of_block, rows, start)[i], rows as nat),
        samples::computed_blocks(num_of_block, rows, start)[i].len() == inserted_fields(
            plan::computed_fields(),
        ).len(),
        forall|k: int|
            0 <= k < inserted_fields(plan::computed_fields()).len() ==> (
            #[trigger] samples::computed_blocks(num_of_block, rows, start)[i][k]).has_type(
                inserted_fields(plan::computed_fields())[k].data_type,
            ),
{
    let columns = samples::computed_blocks(num_of_block, rows, start)[i];
    let fields = plan::computed_fields();
    let keep = |field: DataFieldModel| field.computed_expr is None;
    assert(columns[0].has_rows(rows as nat));
    assert(columns[1].has_rows(rows as nat));
    assert(columns[2].has_rows(rows as nat));
    lemma_first_and_last_two_are_kept(fields, keep);
}

/// Every block for the table with computed columns fits the schema that comes
/// with it, where the table's fields are those of `computed_schema`.
pub proof fn law_computed_blocks_fit_returned_schema(
    fields: Seq<TableFieldModel>,
    num_of_block: usize,
    rows: usize,
    start: i32,
    i: int,
)
    requires
        0 <= i < num_of_block,
        schema::is_table_form(fields, plan::computed_fields()),
    ensures
        block::fits_table(
            samples::computed_blocks(num_of_block, rows, start)[i],
            schema::without_computed(fields),
        ),
{
    let data = plan::computed_fields();
    let keep = |field: TableFieldModel| field.computed_expr is None;
    assert forall|k: int| 0 <= k < 7 implies fields[k].computed_expr == (
    #[trigger] data[k]).computed_expr && fields[k].data_type.stores(data[k].data_type) by {
        assert(fields[k].name == data[k].name);
    }
    assert(data[0].computed_expr is None);
    assert(data[1].computed_expr is Some);
    assert(data[2].computed_expr is Some);
    assert(data[3].computed_expr is Some);
    assert(data[4].computed_expr is Some);
    assert(data[5].computed_expr is None);
    assert(data[6].computed_expr is None);
    lemma_first_and_last_two_are_kept(fields, keep);
}

/// The ids of a sample block are all the same where the rows come in threes;
/// otherwise each is twice the one before.
pub proof fn law_sample_ids_repeat_or_double(rows: nat, base: int, i: int)
    requires
        samples::sample_block_fits(rows, base),
        0 <= i < rows,
    ensures
        samples::sample_ids(rows, base)[0] == base,
        rows % 3 == 0 ==> samples::sample_ids(rows, base)[i] == base,
        rows % 3 != 0 && i + 1 < rows ==> samples::sample_ids(rows, base)[i + 1]
            == samples::sample_ids(rows, base)[i] * 2,
{
    samples::lemma_doubling_step(base, i as nat);
    if rows % 3 != 0 {
        samples::lemma_doubling_grows(base, 0, rows);
        samples::lemma_doubling_grows(base, i as nat, rows);
        if i + 1 < rows {
            samples::lemma_doubling_grows(base, (i + 1) as nat, rows);
        }
    }
}

/// Blocks continue where earlier ones ended: `more` blocks that start at
/// `start + num` follow on from `num` blocks that start at `start`.
pub proof fn law_sample_blocks_continue(num: usize, more: usize, rows: usize, start: i32)
    requires
        num + more <= i32::MAX + 1,
        start + num <= i32::MAX,
    ensures
        samples::sample_blocks((num + more) as usize, rows, start) == samples::sample_blocks(
            num,
            rows,
            start,
        ) + samples::sample_blocks(more, rows, (start + num) as i32),
{
    let all = samples::sample_blocks((num + more) as usize, rows, start);
    let first = samples::sample_blocks(num, rows, start);
    let second = samples::sample_blocks(more, rows, (start + num) as i32);
    assert forall|i: int| 0 <= i < num + more implies all[i] == (first + second)[i] by {
        if i >= num {
            assert(samples::block_base(i as usize, start) == samples::block_base(
                (i - num) as usize,
                (start + num) as i32,
            ));
        }
    }
    assert(all =~= first + second);
}

/// Blocks that come in threes can be made wherever three times each number
/// from `start` on stays within an `i32`.
pub proof fn law_small_samples_fit(num_of_block: usize, rows: usize, start: i32)
    requires
        rows % 3 == 0,
        i32::MIN <= start * 3,
        (start + num_of_block - 1) * 3 <= i32::MAX,
    ensures
        samples::sample_blocks_fit(num_of_block, rows, start),
{
}

/// Where some number of blocks can be made, fewer can be made too.
pub proof fn law_fewer_samples_fit(fewer: usize, num_of_block: usize, rows: usize, start: i32)
    requires
        fewer <= num_of_block,
    ensures
        samples::sample_blocks_fit(num_of_block, rows, start) ==> samples::sample_blocks_fit(
            fewer,
            rows,
            start,
        ),
        samples::variant_blocks_fit(num_of_block, rows, start) ==> samples::variant_blocks_fit(
            fewer,
            rows,
            start,
        ),
        samples::computed_blocks_fit(num_of_block, rows, start) ==> samples::computed_blocks_fit(
            fewer,
            rows,
            start,
        ),
{
}

/// The documents of a variant block do not depend on `start`.
pub proof fn law_variant_documents_ignore_start(rows: nat, idx: usize, start: i32, other: i32)
    ensures
        samples::variant_block(rows, idx, start)[1] == samples::variant_block(rows, idx, other)[1],
{
}

/// Each variant block begins with the second document of the block before it,
/// and goes on as that one does.
pub proof fn law_variant_documents_overlap(rows: nat, idx: usize, start: i32, i: int)
    requires
        0 <= i,
        i + 1 < rows,
        idx + i + 1 <= usize::MAX,
    ensures
        samples::variant_block(rows, (idx + 1) as usize, start)[1]->Variant_0[i]
            == samples::variant_block(rows, idx, start)[1]->Variant_0[i + 1],
{
}

/// Different numbers have different digits.
proof fn lemma_digits_tell_apart(a: nat, b: nat)
    requires
        decimal::decimal_digits(a) == decimal::decimal_digits(b),
    ensures
        a == b,
    decreases a,
{
    let x = decimal::decimal_digits(a);
    let y = decimal::decimal_digits(b);
    lemma_digits(a);
    lemma_digits(b);
    if a >= 10 {
        lemma_digits(a / 10);
    }
    if b >= 10 {
        lemma_digits(b / 10);
    }
    assert(x.last() == y.last());
    assert(a % 10 == b % 10);
    if a >= 10 && b >= 10 {
        assert(x.drop_last() =~= decimal::decimal_digits(a / 10));
        assert(y.drop_last() =~= decimal::decimal_digits(b / 10));
        lemma_digits_tell_apart(a / 10, b / 10);
    }
}

/// There is at least one digit, and nothing but digits.
proof fn lemma_digits(n: nat)
    ensures
        decimal::decimal_digits(n).len() > 0,
        forall|i: int|
            0 <= i < decimal::decimal_digits(n).len() ==> decimal::DIGIT_ZERO
                <= #[trigger] decimal::decimal_digits(n)[i] < decimal::DIGIT_ZERO + 10,
        decimal::decimal_digits(n).last() == decimal::DIGIT_ZERO + n % 10,
    decreases n,
{
    if n >= 10 {
        lemma_digits(n / 10);
    }
}

/// A number in decimal is not empty, and a minus sign stands at most at its
/// beginning.
proof fn lemma_decimal(n: int)
    ensures
        decimal::decimal(n).len() > 0,
        forall|i: int|
            0 < i < decimal::decimal(n).len() ==> #[trigger] decimal::decimal(n)[i]
                != decimal::MINUS_SIGN,
        decimal::decimal(n)[0] == decimal::MINUS_SIGN <==> n < 0,
{
    if n < 0 {
        lemma_digits((-n) as nat);
    } else {
        lemma_digits(n as nat);
    }
}

/// Different numbers are written differently.
pub proof fn law_decimal_tells_numbers_apart(a: int, b: int)
    requires
        decimal::decimal(a) == decimal::decimal(b),
    ensures
        a == b,
{
    lemma_decimal(a);
    lemma_decimal(b);
    if a < 0 {
        let x = decimal::decimal_digits((-a) as nat);
        let y = decimal::decimal_digits((-b) as nat);
        assert(decimal::decimal(a).skip(1) =~= x);
        assert(decimal::decimal(b).skip(1) =~= y);
        lemma_digits_tell_apart((-a) as nat, (-b) as nat);
    } else {
        lemma_digits_tell_apart(a as nat, b as nat);
    }
}

/// The texts of blocks for a table with computed columns tell apart both the
/// rows and the starts.
pub proof fn law_computed_texts_are_distinct(start: i32, i: usize, other: i32, j: usize)
    requires
        samples::computed_text(start, i) == samples::computed_text(other, j),
    ensures
        start == other,
        i == j,
{
    let a = decimal::decimal(start as int);
    let b = decimal::decimal(i as int);
    let c = decimal::decimal(other as int);
    let d = decimal::decimal(j as int);
    let x = samples::computed_text(start, i);
    let y = samples::computed_text(other, j);
    lemma_decimal(start as int);
    lemma_decimal(i as int);
    lemma_decimal(other as int);
    lemma_decimal(j as int);
    let m = a.len() as int;
    let n = c.len() as int;
    assert(x[2 + m] == samples::HYPHEN);
    assert(y[2 + n] == samples::HYPHEN);
    if m < n {
        assert(y[2 + m] == c[m]);
    }
    if n < m {
        assert(x[2 + n] == a[n]);
    }
    assert(x.subrange(2, 2 + m) =~= a);
    assert(y.subrange(2, 2 + n) =~= c);
    law_decimal_tells_numbers_apart(start as int, other as int);
    assert(x.skip(3 + m) =~= b);
    assert(y.skip(3 + n) =~= d);
    law_decimal_tells_numbers_apart(i as int, j as int);
}

/// The rows of a block for a table with computed columns differ in every column,
/// up to as many rows as there are different ids.
pub proof fn law_computed_rows_are_distinct(rows: nat, start: i32, i: int, j: int)
    requires
        0 <= i < j < rows,
        j <= usize::MAX,
        rows <= 0x1_0000_0000,
        forall|k: usize| k < rows ==> #[trigger] samples::computed_row_fits(start, k),
    ensures
        samples::computed_block(rows, start)[0]->Int32_0[i] != samples::computed_block(
            rows,
            start,
        )[0]->Int32_0[j],
        samples::computed_block(rows, start)[1]->String_0[i] != samples::computed_block(
            rows,
            start,
        )[1]->String_0[j],
        samples::computed_block(rows, start)[2]->Int64_0[i] != samples::computed_block(
            rows,
            start,
        )[2]->Int64_0[j],
{
    assert(samples::computed_row_fits(start, i as usize));
    assert(samples::computed_row_fits(start, j as usize));
    let a = i as usize;
    let b = j as usize;
    assert(a as i32 != b as i32) by (bit_vector)
        requires
            a < b,
            (b as u64) < 0x1_0000_0000u64,
    ;
    assert(a as i64 != b as i64) by (bit_vector)
        requires
            a < b,
    ;
    if samples::computed_text(start, i as usize) == samples::computed_text(start, j as usize) {
        law_computed_texts_are_distinct(start, i as usize, start, j as usize);
    }
}

/// A schema in which no column is computed loses none.
proof fn lemma_nothing_to_remove(fields: Seq<TableFieldModel>)
    requires
        forall|i: int| 0 <= i < fields.len() ==> (#[trigger] fields[i]).computed_expr is None,
    ensures
        schema::without_computed(fields) == fields,
    decreases fields.len(),
{
    reveal(Seq::filter);
    if fields.len() > 0 {
        lemma_nothing_to_remove(fields.drop_last());
        assert(fields.drop_last().push(fields.last()) =~= fields);
    }
}

/// What is left of a schema without its computed columns are exactly the
/// columns that are not computed, and it loses no more when they are removed
/// again.
pub proof fn law_computed_columns_are_removed(fields: Seq<TableFieldModel>)
    ensures
        forall|field: TableFieldModel| #[trigger]
            schema::without_computed(fields).contains(field) <==> fields.contains(field)
                && field.computed_expr is None,
        schema::without_computed(schema::without_computed(fields)) == schema::without_computed(
            fields,
        ),
{
    broadcast use vstd::seq_lib::group_filter_ensures;

    let keep = |field: TableFieldModel| field.computed_expr is None;
    let left = schema::without_computed(fields);
    assert forall|field: TableFieldModel| #[trigger] left.contains(field) implies fields.contains(
        field,
    ) && field.computed_expr is None by {
        fields.lemma_filter_contains_rev(keep, field);
        let i = choose|i: int| 0 <= i < left.len() && left[i] == field;
        assert(keep(fields.filter(keep)[i]));
    }
    assert forall|field: TableFieldModel|
        fields.contains(field) && field.computed_expr is None implies #[trigger] left.contains(
        field,
    ) by {
        let i = choose|i: int| 0 <= i < fields.len() && fields[i] == field;
        assert(keep(fields[i]));
        assert(fields.filter(keep).contains(fields[i]));
    }
    assert forall|i: int| 0 <= i < left.len() implies (
    #[trigger] left[i]).computed_expr is None by {
        assert(left.contains(left[i]));
    }
    lemma_nothing_to_remove(left);
}

/// The fixture's tables are in the fixture's database, where that is created
/// for the tenant that the engine is configured for.
pub proof fn law_table_is_in_database(
    fixture: FixtureModel,
    schema: Seq<TableFieldModel>,
    field_comments: Seq<Seq<char>>,
    cluster_key: Option<Seq<char>>,
)
    ensures
        plan::table_plan(fixture, schema, field_comments, cluster_key).tenant
            == plan::database_plan(fixture, fixture.conf.tenant_id).tenant,
        plan::table_plan(fixture, schema, field_comments, cluster_key).catalog
            == plan::database_plan(fixture, fixture.conf.tenant_id).catalog,
        plan::table_plan(fixture, schema, field_comments, cluster_key).database
            == plan::database_plan(fixture, fixture.conf.tenant_id).database,
{
}

/// The table that the fixture looks up is the one that its plans create: in the
/// same catalog, for the same tenant, under the same names.
pub proof fn law_created_table_is_found(
    fixture: FixtureModel,
    schema: Seq<TableFieldModel>,
    field_comments: Seq<Seq<char>>,
    cluster_key: Option<Seq<char>>,
)
    ensures
        plan::table_path(fixture) == ({
            let created = plan::table_plan(fixture, schema, field_comments, cluster_key);
            TablePathModel {
                catalog: created.catalog,
                tenant: created.tenant,
                database: created.database,
                table: created.table,
            }
        }),
{
}

/// The normal table is the default table without its cluster key. Both have a
/// comment for each column of `default_schema`.
pub proof fn law_normal_table_is_default_without_key(
    fixture: FixtureModel,
    schema: Seq<TableFieldModel>,
)
    ensures
        plan::normal_table_plan(fixture, schema) == (CreateTablePlanModel {
            cluster_key: None,
            ..plan::default_table_plan(fixture, schema)
        }),
        plan::default_table_plan(fixture, schema).field_comments.len()
            == plan::default_fields().len(),
{
}

/// Rows are committed exactly where that is asked for, with the wish to
/// overwrite that came with it and nothing besides; otherwise nothing comes of
/// them, whatever the wish was.
pub proof fn law_rows_are_committed_on_request(
    table_fields: Seq<TableFieldModel>,
    blocks: Seq<Seq<ColumnModel>>,
    overwrite: bool,
    commit: bool,
)
    ensures
        forall|step: AppendStepModel|
            step is CommitInsertion ==> (#[trigger] append::append_steps(
                table_fields,
                blocks,
                overwrite,
                commit,
            ).contains(step) <==> commit && step == append::plain_commit(overwrite)),
        append::append_steps(table_fields, blocks, overwrite, commit).contains(
            AppendStepModel::AddEmptySink,
        ) <==> !commit,
        !commit ==> append::append_steps(table_fields, blocks, overwrite, commit)
            == append::append_steps(table_fields, blocks, !overwrite, commit),
{
    let steps = append::append_steps(table_fields, blocks, overwrite, commit);
    if commit {
        assert(steps[4] == append::plain_commit(overwrite));
    } else {
        assert(steps[4] == AppendStepModel::AddEmptySink);
    }
}

/// The table is told to take rows exactly once, in the normal mode, whatever is
/// wished of overwriting and committing: after the one context has been opened,
/// and before the rows are committed or dropped and the pipeline runs.
pub proof fn law_rows_are_appended_once(
    table_fields: Seq<TableFieldModel>,
    blocks: Seq<Seq<ColumnModel>>,
    overwrite: bool,
    commit: bool,
)
    ensures
        exists|at: int|
            #![trigger append::append_steps(table_fields, blocks, overwrite, commit)[at]]
            {
                let steps = append::append_steps(table_fields, blocks, overwrite, commit);
                &&& 0 < at < steps.len()
                &&& steps[at] == (AppendStepModel::AppendData { mode: AppendMode::Normal })
                &&& forall|i: int|
                    0 <= i < steps.len() ==> {
                        &&& #[trigger] steps[i] is AppendData <==> i == at
                        &&& steps[i] is NewQueryContext <==> i == 0
                        &&& steps[i] is CommitInsertion || steps[i] is AddEmptySink ==> i > at
                        &&& steps[i] is ExecutePipeline <==> i == steps.len() - 1
                    }
            },
{
    let steps = append::append_steps(table_fields, blocks, overwrite, commit);
    assert(steps[3] == (AppendStepModel::AppendData { mode: AppendMode::Normal }));
}

} // verus!
