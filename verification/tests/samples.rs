use test_kits::block::Column;
use test_kits::block::DataBlock;
use test_kits::fixture::TestFixture;
use test_kits::samples::variant_block_of;
use test_kits::schema::ComputedExpr;
use test_kits::schema::NumberDataType;
use test_kits::schema::TableDataType;
use test_kits::schema::TableField;
use test_kits::schema::TableSchema;

fn ids(block: &DataBlock) -> &Vec<i32> {
    match &block.columns[0] {
        Column::Int32(values) => values,
        other => panic!("not a column of ids: {:?}", other),
    }
}

fn documents(block: &DataBlock) -> &Vec<Vec<u8>> {
    match &block.columns[1] {
        Column::Variant(rows) => rows,
        other => panic!("not a column of documents: {:?}", other),
    }
}

fn int32() -> TableDataType {
    TableDataType::Number(NumberDataType::Int32)
}

fn table_field(name: &str, data_type: TableDataType, computed: Option<ComputedExpr>) -> TableField {
    TableField {
        name: name.to_string(),
        data_type,
        default_expr: None,
        computed_expr: computed,
    }
}

/// The table form of the schema with computed columns.
fn computed_table() -> TableSchema {
    let int64 = || TableDataType::Number(NumberDataType::Int64);
    TableSchema {
        fields: vec![
            table_field("id", int32(), None),
            table_field(
                "a1",
                TableDataType::String,
                Some(ComputedExpr::Virtual("reverse(c)".to_string())),
            ),
            table_field(
                "a2",
                TableDataType::String,
                Some(ComputedExpr::Stored("upper(c)".to_string())),
            ),
            table_field("b1", int64(), Some(ComputedExpr::Virtual("(d + 2)".to_string()))),
            table_field("b2", int64(), Some(ComputedExpr::Stored("((d + 1) * 3)".to_string()))),
            table_field("c", TableDataType::String, None),
            table_field("d", int64(), None),
        ],
    }
}

#[test]
fn sample_blocks_of_three_rows_repeat_the_base() {
    let (_, blocks) = TestFixture::gen_sample_blocks(2, 5);
    assert_eq!(
        blocks,
        vec![
            DataBlock {
                columns: vec![
                    Column::Int32(vec![5, 5, 5]),
                    Column::Tuple(vec![
                        Column::Int32(vec![10, 10, 10]),
                        Column::Int32(vec![15, 15, 15]),
                    ]),
                ],
            },
            DataBlock {
                columns: vec![
                    Column::Int32(vec![6, 6, 6]),
                    Column::Tuple(vec![
                        Column::Int32(vec![12, 12, 12]),
                        Column::Int32(vec![18, 18, 18]),
                    ]),
                ],
            },
        ]
    );
}

#[test]
fn sample_blocks_come_with_their_schema() {
    let (schema, _) = TestFixture::gen_sample_blocks(1, 0);
    assert_eq!(
        schema,
        TableSchema {
            fields: vec![
                table_field("id", int32(), None),
                table_field(
                    "t",
                    TableDataType::Tuple {
                        fields_name: vec!["a".to_string(), "b".to_string()],
                        fields_type: vec![int32(), int32()],
                    },
                    None
                ),
            ],
        }
    );
}

#[test]
fn sample_ids_double_unless_the_rows_come_in_threes() {
    let (_, blocks) = TestFixture::gen_sample_blocks_ex(2, 4, 3);
    assert_eq!(ids(&blocks[0]), &vec![3, 6, 12, 24]);
    assert_eq!(ids(&blocks[1]), &vec![4, 8, 16, 32]);
    let (_, blocks) = TestFixture::gen_sample_blocks_ex(1, 6, -7);
    assert_eq!(ids(&blocks[0]), &vec![-7; 6]);
    let (_, blocks) = TestFixture::gen_sample_blocks_ex(1, 1, 9);
    assert_eq!(ids(&blocks[0]), &vec![9]);
}

#[test]
fn sample_blocks_may_be_empty() {
    let (schema, blocks) = TestFixture::gen_sample_blocks(0, i32::MAX);
    assert_eq!(schema.fields.len(), 2);
    assert!(blocks.is_empty());
    let (_, blocks) = TestFixture::gen_sample_blocks_ex(1, 0, i32::MAX);
    assert_eq!(
        blocks[0],
        DataBlock {
            columns: vec![
                Column::Int32(vec![]),
                Column::Tuple(vec![Column::Int32(vec![]), Column::Int32(vec![])]),
            ],
        }
    );
}

#[test]
fn sample_blocks_continue_where_earlier_ones_ended() {
    let (_, all) = TestFixture::gen_sample_blocks_ex(5, 2, 10);
    let (_, mut first) = TestFixture::gen_sample_blocks_ex(2, 2, 10);
    let (_, second) = TestFixture::gen_sample_blocks_ex(3, 2, 12);
    first.extend(second);
    assert_eq!(all, first);
}

#[test]
fn sample_overflow_is_foreseen() {
    let third = i32::MAX / 3;
    assert!(TestFixture::can_gen_sample_blocks(1, 3, third));
    assert!(!TestFixture::can_gen_sample_blocks(2, 3, third));
    assert!(!TestFixture::can_gen_sample_blocks(2, 0, i32::MAX));
    assert!(TestFixture::can_gen_sample_blocks(1, 0, i32::MAX));
    assert!(TestFixture::can_gen_sample_blocks(0, 3, i32::MAX));
    // The last id would still fit, but it is doubled once more.
    assert!(!TestFixture::can_gen_sample_blocks(1, 4, 1 << 27));
    assert!(TestFixture::can_gen_sample_blocks(1, 4, (1 << 27) - 1));
    assert!(TestFixture::can_gen_sample_blocks(1, 4, -(1 << 27)));
    // Nothing doubles to nothing.
    assert!(TestFixture::can_gen_sample_blocks(1, 100, 0));
    assert!(!TestFixture::can_gen_sample_blocks(2, 100, 0));
}

#[test]
fn samples_at_the_edge_of_the_range_are_made() {
    let (_, blocks) = TestFixture::gen_sample_blocks_ex(1, 4, -(1 << 27));
    assert_eq!(ids(&blocks[0]), &vec![-(1 << 27), -(1 << 28), -(1 << 29), -(1 << 30)]);
    let (_, blocks) = TestFixture::gen_sample_blocks(1, i32::MAX / 3);
    assert_eq!(ids(&blocks[0]), &vec![i32::MAX / 3; 3]);
}

#[test]
fn fewer_blocks_fit_where_more_do() {
    assert!(TestFixture::can_gen_sample_blocks(7, 5, 11));
    assert!(TestFixture::can_gen_sample_blocks(6, 5, 11));
    assert!(TestFixture::can_gen_variant_sample_blocks(7, 5, i32::MAX - 6));
    assert!(TestFixture::can_gen_variant_sample_blocks(6, 5, i32::MAX - 6));
    assert!(TestFixture::can_gen_computed_sample_blocks(7, 5, 11));
    assert!(TestFixture::can_gen_computed_sample_blocks(6, 5, 11));
}

#[test]
fn variant_blocks_hold_documents() {
    let (schema, blocks) = TestFixture::gen_variant_sample_blocks(2, 40);
    assert_eq!(
        schema,
        TableSchema {
            fields: vec![
                table_field("id", int32(), None),
                table_field("v", TableDataType::Variant, None),
            ],
        }
    );
    assert_eq!(ids(&blocks[0]), &vec![40, 40, 40]);
    assert_eq!(ids(&blocks[1]), &vec![41, 41, 41]);
    let text = |document: &Vec<u8>| jsonb::to_string(document);
    let texts: Vec<String> = documents(&blocks[1]).iter().map(text).collect();
    assert_eq!(
        texts,
        vec![r#"{"a":1,"b":2}"#, r#"{"a":2,"b":4}"#, r#"{"a":3,"b":6}"#]
    );
}

#[test]
fn variant_documents_have_the_binary_form() {
    let (_, blocks) = TestFixture::gen_variant_sample_blocks_ex(2, 1, 0);
    assert_eq!(
        documents(&blocks[1])[0],
        vec![
            0x40, 0, 0, 2, 0x10, 0, 0, 1, 0x10, 0, 0, 1, 0x20, 0, 0, 2, 0x20, 0, 0, 2, b'a', b'b',
            0x40, 1, 0x40, 2,
        ]
    );
}

#[test]
fn variant_documents_overlap_and_ignore_the_start() {
    let (_, blocks) = TestFixture::gen_variant_sample_blocks_ex(3, 4, 100);
    let (_, others) = TestFixture::gen_variant_sample_blocks_ex(3, 4, -100);
    for idx in 0..3 {
        assert_eq!(documents(&blocks[idx]), documents(&others[idx]));
    }
    let (_, single) = TestFixture::gen_variant_sample_blocks_ex(1, 1, 100);
    let (_, other) = TestFixture::gen_variant_sample_blocks_ex(1, 1, -100);
    assert_eq!(documents(&single[0]), documents(&other[0]));
    assert_eq!(documents(&blocks[1])[0..3], documents(&blocks[0])[1..4]);
    assert_ne!(documents(&blocks[0])[0], documents(&blocks[0])[1]);
}

#[test]
fn documents_are_assembled_into_a_block() {
    let block = variant_block_of(7, vec![vec![1, 2], vec![3]]);
    assert_eq!(
        block,
        DataBlock {
            columns: vec![
                Column::Int32(vec![7, 7]),
                Column::Variant(vec![vec![1, 2], vec![3]]),
            ],
        }
    );
}

#[test]
fn variant_overflow_is_foreseen() {
    assert!(TestFixture::can_gen_variant_sample_blocks(1, 3, i32::MAX));
    assert!(!TestFixture::can_gen_variant_sample_blocks(2, 3, i32::MAX));
    assert!(TestFixture::can_gen_variant_sample_blocks(2, 0, i32::MAX));
    assert!(TestFixture::can_gen_variant_sample_blocks(0, usize::MAX, i32::MAX));
    assert!(!TestFixture::can_gen_variant_sample_blocks(1, usize::MAX, 0));
    assert!(TestFixture::can_gen_variant_sample_blocks(usize::MAX, 0, 0));
    assert!(!TestFixture::can_gen_variant_sample_blocks(usize::MAX, 1, 0));
}

#[test]
fn computed_blocks_are_all_alike() {
    let (_, blocks) = TestFixture::gen_computed_sample_blocks(computed_table(), 2, 4);
    let expected = || DataBlock {
        columns: vec![
            Column::Int32(vec![12, 13, 14]),
            Column::String(vec![b"s-4-0".to_vec(), b"s-4-1".to_vec(), b"s-4-2".to_vec()]),
            Column::Int64(vec![40, 41, 42]),
        ],
    };
    assert_eq!(blocks, vec![expected(), expected()]);
}

#[test]
fn computed_texts_are_written_in_decimal() {
    let (_, blocks) = TestFixture::gen_computed_sample_blocks_ex(computed_table(), 1, 12, -105);
    match &blocks[0].columns[1] {
        Column::String(rows) => {
            assert_eq!(rows[0], b"s--105-0".to_vec());
            assert_eq!(rows[9], b"s--105-9".to_vec());
            assert_eq!(rows[10], b"s--105-10".to_vec());
        }
        other => panic!("not a column of texts: {:?}", other),
    }
    assert_eq!(ids(&blocks[0])[11], -304);
}

#[test]
fn computed_rows_and_starts_are_told_apart() {
    let (_, one) = TestFixture::gen_computed_sample_blocks_ex(computed_table(), 1, 20, 1);
    let (_, eleven) = TestFixture::gen_computed_sample_blocks_ex(computed_table(), 1, 20, 11);
    let mut texts: Vec<Vec<u8>> = Vec::new();
    for block in one.iter().chain(eleven.iter()) {
        match &block.columns[1] {
            Column::String(rows) => texts.extend(rows.iter().cloned()),
            other => panic!("not a column of texts: {:?}", other),
        }
        let mut seen = ids(block).clone();
        seen.dedup();
        assert_eq!(seen.len(), 20);
    }
    texts.sort();
    texts.dedup();
    assert_eq!(texts.len(), 40);
}

#[test]
fn computed_blocks_leave_out_the_computed_columns() {
    let (schema, blocks) = TestFixture::gen_computed_sample_blocks(computed_table(), 1, 0);
    let names: Vec<&str> = schema.fields.iter().map(|field| field.name.as_str()).collect();
    assert_eq!(names, vec!["id", "c", "d"]);
    assert!(matches!(blocks[0].columns[0], Column::Int32(_)));
    assert_eq!(schema.fields[0].data_type, int32());
    assert!(matches!(blocks[0].columns[1], Column::String(_)));
    assert_eq!(schema.fields[1].data_type, TableDataType::String);
    assert!(matches!(blocks[0].columns[2], Column::Int64(_)));
    assert_eq!(schema.fields[2].data_type, TableDataType::Number(NumberDataType::Int64));
    assert_eq!(blocks[0].columns.len(), schema.fields.len());
    assert!(schema.fields.iter().all(|field| field.computed_expr.is_none()));
}

#[test]
fn computed_columns_are_removed_once() {
    let once = computed_table().remove_computed_fields();
    let twice = computed_table().remove_computed_fields().remove_computed_fields();
    assert_eq!(once, twice);
    let none = TableSchema { fields: vec![] };
    assert!(none.remove_computed_fields().fields.is_empty());
}

#[test]
fn computed_overflow_is_foreseen() {
    let tenth = i32::MAX / 10;
    assert!(TestFixture::can_gen_computed_sample_blocks(1, 3, tenth));
    assert!(!TestFixture::can_gen_computed_sample_blocks(1, 3, tenth + 1));
    assert!(TestFixture::can_gen_computed_sample_blocks(1, 0, i32::MAX));
    assert!(TestFixture::can_gen_computed_sample_blocks(0, 3, i32::MAX));
    assert!(!TestFixture::can_gen_computed_sample_blocks(1, 1, i32::MIN));
}
