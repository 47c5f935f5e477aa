//! Recording the errors of an external-agent config import.

use vstd::prelude::*;

verus! {

/// The kind of item an external-agent config migration imports.
#[derive(Clone, Copy, PartialEq, Eq, Structural, Debug)]
pub enum ExternalAgentConfigMigrationItemType {
    Config,
    Skills,
    AgentsMd,
    McpServerConfig,
    Plugins,
}

/// One import failure, as reported.
pub struct ExternalAgentConfigImportRawError {
    pub item_type: ExternalAgentConfigMigrationItemType,
    pub error_type: Option<String>,
    pub sub_error_type: Option<String>,
    pub failure_stage: String,
    pub message: String,
    pub cwd: Option<String>,
    pub source: Option<String>,
}

/// The result of importing one item.
pub struct ExternalAgentConfigImportItemResult {
    pub item_type: ExternalAgentConfigMigrationItemType,
    pub cwd: Option<String>,
    pub errors: Vec<ExternalAgentConfigImportRawError>,
}

/// The outcome of importing plugins.
pub struct PluginImportOutcome {
    pub raw_errors: Vec<ExternalAgentConfigImportRawError>,
}

impl ExternalAgentConfigImportItemResult {
    /// Records one failure of the item.
    pub fn record_error(&mut self, error: ExternalAgentConfigImportRawError)
        ensures
            final(self).item_type == old(self).item_type,
            final(self).cwd == old(self).cwd,
            final(self).errors@ == old(self).errors@.push(error),
    {
        self.errors.push(error);
    }
}

fn clone_opt(s: &Option<String>) -> (r: Option<String>)
    ensures
        r == *s,
{
    match s {
        Some(v) => Some(v.clone()),
        None => None,
    }
}

/// Records a failure of `result` at stage `failure_stage`: it carries the
/// item's type and folder, no error type, the given sub-error type, message
/// and source.
pub fn record_import_error(
    result: &mut ExternalAgentConfigImportItemResult,
    failure_stage: &'static str,
    sub_error_type: Option<&str>,
    message: String,
    source: Option<String>,
)
    ensures
        final(result).item_type == old(result).item_type,
        final(result).cwd == old(result).cwd,
        final(result).errors@.len() == old(result).errors@.len() + 1,
        final(result).errors@.subrange(0, old(result).errors@.len() as int) == old(result).errors@,
        ({
            let e = final(result).errors@.last();
            &&& e.item_type == old(result).item_type
            &&& e.error_type is None
            &&& match sub_error_type {
                Some(t) => e.sub_error_type matches Some(s) && s@ == t@,
                None => e.sub_error_type is None,
            }
            &&& e.failure_stage@ == failure_stage@
            &&& e.message == message
            &&& e.cwd == old(result).cwd
            &&& e.source == source
        }),
{
    let sub = match sub_error_type {
        Some(t) => Some(t.to_owned()),
        None => None,
    };
    let error = ExternalAgentConfigImportRawError {
        item_type: result.item_type,
        error_type: None,
        sub_error_type: sub,
        failure_stage: failure_stage.to_owned(),
        message,
        cwd: clone_opt(&result.cwd),
        source,
    };
    result.record_error(error);
    proof {
        assert(final(result).errors@.subrange(0, old(result).errors@.len() as int)
            =~= old(result).errors@);
    }
}

/// `e` is a plugin import failure at stage `stage` with `message`.
pub open spec fn is_plugin_import_error(
    e: ExternalAgentConfigImportRawError,
    stage: Seq<char>,
    message: Seq<char>,
) -> bool {
    &&& e.item_type == ExternalAgentConfigMigrationItemType::Plugins
    &&& e.error_type is None
    &&& e.sub_error_type is None
    &&& e.failure_stage@ == stage
    &&& e.message@ == message
}

/// The stored folder is the given one (none for none).
pub open spec fn same_folder(stored: Option<String>, given: Option<&str>) -> bool {
    match given {
        Some(c) => stored matches Some(d) && d@ == c@,
        None => stored is None,
    }
}

/// A plugin import failure at stage `failure_stage`.
pub fn plugin_import_raw_error(
    cwd: Option<&str>,
    failure_stage: &'static str,
    message: String,
    source: Option<String>,
) -> (e: ExternalAgentConfigImportRawError)
    ensures
        is_plugin_import_error(e, failure_stage@, message@),
        same_folder(e.cwd, cwd),
        e.source == source,
{
    ExternalAgentConfigImportRawError {
        item_type: ExternalAgentConfigMigrationItemType::Plugins,
        error_type: None,
        sub_error_type: None,
        failure_stage: failure_stage.to_owned(),
        message,
        cwd: match cwd {
            Some(c) => Some(c.to_owned()),
            None => None,
        },
        source,
    }
}

/// Records one plugin import failure per plugin id, all with the same stage,
/// message and folder, each with its plugin id as source.
pub fn record_plugin_import_errors(
    outcome: &mut PluginImportOutcome,
    cwd: Option<&str>,
    plugin_ids: &Vec<String>,
    failure_stage: &'static str,
    message: String,
)
    ensures
        final(outcome).raw_errors@.len() == old(outcome).raw_errors@.len() + plugin_ids@.len(),
        final(outcome).raw_errors@.subrange(0, old(outcome).raw_errors@.len() as int) == old(
            outcome,
        ).raw_errors@,
        forall|i: int|
            0 <= i < plugin_ids@.len() ==> {
                let e = #[trigger] final(outcome).raw_errors@[old(outcome).raw_errors@.len() + i];
                &&& is_plugin_import_error(e, failure_stage@, message@)
                &&& same_folder(e.cwd, cwd)
                &&& e.source matches Some(s) && s@ == plugin_ids@[i]@
            },
{
    let n0 = outcome.raw_errors.len();
    let ghost start = outcome.raw_errors@;
    let mut i: usize = 0;
    while i < plugin_ids.len()
        invariant
            n0 == start.len(),
            i <= plugin_ids@.len(),
            outcome.raw_errors@.len() == n0 + i,
            outcome.raw_errors@.subrange(0, n0 as int) == start,
            forall|j: int|
                0 <= j < i ==> {
                    let e = #[trigger] outcome.raw_errors@[n0 + j];
                    &&& is_plugin_import_error(e, failure_stage@, message@)
                    &&& same_folder(e.cwd, cwd)
                    &&& e.source matches Some(s) && s@ == plugin_ids@[j]@
                },
        decreases plugin_ids@.len() - i,
    {
        let e = plugin_import_raw_error(
            cwd,
            failure_stage,
            message.clone(),
            Some(plugin_ids[i].clone()),
        );
        let ghost before = outcome.raw_errors@;
        outcome.raw_errors.push(e);
        proof {
            assert(outcome.raw_errors@.subrange(0, n0 as int) =~= before.subrange(0, n0 as int));
            assert forall|j: int| 0 <= j < i + 1 implies {
                let e = #[trigger] outcome.raw_errors@[n0 + j];
                &&& is_plugin_import_error(e, failure_stage@, message@)
                &&& same_folder(e.cwd, cwd)
                &&& e.source matches Some(s) && s@ == plugin_ids@[j]@
            } by {
                if j < i {
                    assert(outcome.raw_errors@[n0 + j] == before[n0 + j]);
                }
            }
        }
        i = i + 1;
    }
}

} // verus!
