//! How a fixture inserts rows into a table.

use vstd::prelude::*;

use crate::block;
use crate::block::ColumnModel;
use crate::block::DataBlock;
use crate::fixture::TestFixture;
use crate::schema;
use crate::schema::TableFieldModel;
use crate::schema::TableSchema;
use crate::workflow;
use crate::workflow::Workflow;

verus! {

/// What kind of rows a table is told to expect.
#[derive(Clone, Copy, Debug, PartialEq, Eq, Structural)]
pub enum AppendMode {
    /// Rows as a statement inserts them.
    Normal,
    /// Rows copied in from files.
    Copy,
}

/// The actions that insert blocks into a table. The context that the first one
/// opens is the context of all others, and all work on one pipeline.
#[derive(Debug, PartialEq, Eq)]
pub enum AppendStep {
    /// Open a new context on the fixture's default session.
    NewQueryContext,
    /// Let this many sources feed the blocks into the pipeline, first to last.
    AddBlocksSource { blocks: Vec<DataBlock>, sources: usize },
    /// Fill in the columns of the table that are not in `source_schema`, the
    /// schema of the blocks.
    FillMissingColumns { source_schema: TableSchema },
    /// Let the table write what comes through the pipeline, in this mode.
    AppendData { mode: AppendMode },
    /// Make the rows visible, in place of the rows before them if `overwrite`,
    /// along with the files that they were copied from, the updates of streams
    /// and the snapshot that they build on.
    CommitInsertion {
        copied_files: Option<Vec<String>>,
        stream_updates: Vec<String>,
        overwrite: bool,
        prev_snapshot: Option<String>,
    },
    /// Let nothing come of the rows.
    AddEmptySink,
    /// Run the pipeline.
    ExecutePipeline,
}

/// What an `AppendStep` stands for.
#[verifier::ext_equal]
pub enum AppendStepModel {
    NewQueryContext,
    AddBlocksSource { blocks: Seq<Seq<ColumnModel>>, sources: nat },
    FillMissingColumns { source_schema: Seq<TableFieldModel> },
    AppendData { mode: AppendMode },
    CommitInsertion {
        copied_files: Option<Seq<Seq<char>>>,
        stream_updates: Seq<Seq<char>>,
        overwrite: bool,
        prev_snapshot: Option<Seq<char>>,
    },
    AddEmptySink,
    ExecutePipeline,
}

impl View for AppendStep {
    type V = AppendStepModel;

    open spec fn view(&self) -> AppendStepModel {
        match *self {
            AppendStep::NewQueryContext => AppendStepModel::NewQueryContext,
            AppendStep::AddBlocksSource { blocks, sources } => AppendStepModel::AddBlocksSource {
                blocks: block::block_columns(blocks@),
                sources: sources as nat,
            },
            AppendStep::FillMissingColumns {
                source_schema,
            } => AppendStepModel::FillMissingColumns { source_schema: source_schema@ },
            AppendStep::AppendData { mode } => AppendStepModel::AppendData { mode },
            AppendStep::CommitInsertion {
                copied_files,
                stream_updates,
                overwrite,
                prev_snapshot,
            } => AppendStepModel::CommitInsertion {
                copied_files: match copied_files {
                    Some(files) => Some(schema::texts(files@)),
                    None => None,
                },
                stream_updates: schema::texts(stream_updates@),
                overwrite,
                prev_snapshot: schema::optional_text(prev_snapshot),
            },
            AppendStep::AddEmptySink => AppendStepModel::AddEmptySink,
            AppendStep::ExecutePipeline => AppendStepModel::ExecutePipeline,
        }
    }
}

/// A commit of rows and nothing besides: they come from no files, update no
/// stream and build on no particular snapshot.
pub open spec fn plain_commit(overwrite: bool) -> AppendStepModel {
    AppendStepModel::CommitInsertion {
        copied_files: None,
        stream_updates: Seq::empty(),
        overwrite,
        prev_snapshot: None,
    }
}

/// The actions that insert blocks into a table with these fields, in order. A
/// single source feeds in the blocks as they are. They have the columns of the
/// table that are not computed, and the table always takes them in the normal
/// mode. `overwrite` matters only where the rows are committed.
pub open spec fn append_steps(
    table_fields: Seq<TableFieldModel>,
    blocks: Seq<Seq<ColumnModel>>,
    overwrite: bool,
    commit: bool,
) -> Seq<AppendStepModel> {
    seq![
        AppendStepModel::NewQueryContext,
        AppendStepModel::AddBlocksSource { blocks, sources: 1 },
        AppendStepModel::FillMissingColumns {
            source_schema: schema::without_computed(table_fields),
        },
        AppendStepModel::AppendData { mode: AppendMode::Normal },
        if commit {
            plain_commit(overwrite)
        } else {
            AppendStepModel::AddEmptySink
        },
        AppendStepModel::ExecutePipeline,
    ]
}

impl TestFixture {
    /// How blocks are inserted into a table with this schema.
    pub fn append_commit_steps(
        table_schema: TableSchema,
        blocks: Vec<DataBlock>,
        overwrite: bool,
        commit: bool,
    ) -> (workflow: Workflow<AppendStep>)
        ensures
            workflow::views(workflow@) == append_steps(
                table_schema@,
                block::block_columns(blocks@),
                overwrite,
                commit,
            ),
            workflow@[1] == (AppendStep::AddBlocksSource { blocks, sources: 1 }),
    {
        let source_schema = table_schema.remove_computed_fields();
        let outcome = if commit {
            let stream_updates: Vec<String> = Vec::new();
            assert(schema::texts(stream_updates@) =~= Seq::empty());
            AppendStep::CommitInsertion {
                copied_files: None,
                stream_updates,
                overwrite,
                prev_snapshot: None,
            }
        } else {
            AppendStep::AddEmptySink
        };
        let steps = vec![
            AppendStep::NewQueryContext,
            AppendStep::AddBlocksSource { blocks, sources: 1 },
            AppendStep::FillMissingColumns { source_schema },
            AppendStep::AppendData { mode: AppendMode::Normal },
            outcome,
            AppendStep::ExecutePipeline,
        ];
        assert(workflow::views(steps@) =~= append_steps(
            table_schema@,
            block::block_columns(blocks@),
            overwrite,
            commit,
        ));
        Workflow::new(steps)
    }
}

} // verus!
