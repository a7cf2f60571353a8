//! The workflow execution engine: format detection, the errors of a run,
//! and the loop that runs the nodes of a workflow.

use crate::heap::{substituted, Heap, Store};
use crate::nodes::base::{BaseNode, BaseNodeRunOptions};
use crate::nodes::{dispatch, node_outcome, NodeBuilder};
use crate::text::chars_of;
use crate::workflow::node::{WorkflowNode, WorkflowNodeView};
use crate::workflow::workflow::Workflow;
use std::path::PathBuf;
use vstd::prelude::*;

verus! {

/// A path of the file system, opaque here.
#[verifier::external_type_specification]
#[verifier::external_body]
pub struct ExPathBuf(std::path::PathBuf);

/// Trusted: `PathBuf::clone` gives a path equal to the one it is called on.
pub assume_specification[ <std::path::PathBuf as std::clone::Clone>::clone ](
    path: &std::path::PathBuf,
) -> (copy: std::path::PathBuf)
    ensures
        copy == *path,
;

/// What can go wrong when a workflow is loaded or run.
#[derive(Debug)]
pub enum WorkflowError {
    /// The workflow file could not be read. Holds the reader's message.
    FileRead(String),
    /// The workflow file is not valid JSON. Holds the parser's message.
    JsonParse(String),
    /// The workflow file is not valid YAML. Holds the parser's message.
    YamlParse(String),
    /// The file's extension is none of `.json`, `.yml` and `.yaml`.
    UnsupportedFormat,
    /// There is no file at `path`.
    NotFound { path: PathBuf },
    /// A node was built without a configuration.
    NodeBuilder(String),
    /// A node failed while it executed.
    NodeExecutionFailed(String),
    /// No node has this type tag.
    InvalidNode(String),
}

/// The mathematical model of a [`WorkflowError`].
pub ghost enum WorkflowErrorView {
    FileRead(Seq<char>),
    JsonParse(Seq<char>),
    YamlParse(Seq<char>),
    UnsupportedFormat,
    NotFound { path: PathBuf },
    NodeBuilder(Seq<char>),
    NodeExecutionFailed(Seq<char>),
    InvalidNode(Seq<char>),
}

impl View for WorkflowError {
    type V = WorkflowErrorView;

    open spec fn view(&self) -> WorkflowErrorView {
        match self {
            WorkflowError::FileRead(message) => WorkflowErrorView::FileRead(message@),
            WorkflowError::JsonParse(message) => WorkflowErrorView::JsonParse(message@),
            WorkflowError::YamlParse(message) => WorkflowErrorView::YamlParse(message@),
            WorkflowError::UnsupportedFormat => WorkflowErrorView::UnsupportedFormat,
            WorkflowError::NotFound { path } => WorkflowErrorView::NotFound { path: *path },
            WorkflowError::NodeBuilder(message) => WorkflowErrorView::NodeBuilder(message@),
            WorkflowError::NodeExecutionFailed(message) => WorkflowErrorView::NodeExecutionFailed(
                message@,
            ),
            WorkflowError::InvalidNode(tag) => WorkflowErrorView::InvalidNode(tag@),
        }
    }
}

/// The result of an operation on a workflow.
pub type WorkflowResult<T> = Result<T, WorkflowError>;

/// The model of the error of a result, if it is one.
pub open spec fn failure_of<T>(result: WorkflowResult<T>) -> Option<WorkflowErrorView> {
    match result {
        Ok(_) => None,
        Err(error) => Some(error@),
    }
}

/// The model of an optional error.
pub open spec fn error_view(error: Option<WorkflowError>) -> Option<WorkflowErrorView> {
    match error {
        Some(error) => Some(error@),
        None => None,
    }
}

/// The text that `Path::display` writes for a path.
pub uninterp spec fn path_display(path: PathBuf) -> Seq<char>;

/// The text of a path, for display.
///
/// Trusted: calls `Path::display`, which may replace what is not Unicode.
/// The contract only gives the text its name: it is `path_display` of the
/// path.
#[verifier::external_body]
fn path_text(path: &PathBuf) -> (text: String)
    ensures
        text@ == path_display(*path),
{
    path.display().to_string()
}

impl WorkflowError {
    /// What `to_string` writes before the detail of an error.
    pub open spec fn heading(self) -> Seq<char> {
        match self {
            WorkflowError::FileRead(_) => "Failed to read workflow file: "@,
            WorkflowError::JsonParse(_) => "Failed to parse JSON workflow file: "@,
            WorkflowError::YamlParse(_) => "Failed to parse YAML workflow file: "@,
            WorkflowError::UnsupportedFormat =>
                "Unsupported file format. Expected .json, .yml, or .yaml extension"@,
            WorkflowError::NotFound { .. } => "Workflow file not found: "@,
            WorkflowError::NodeBuilder(_) => "Node builder error: "@,
            WorkflowError::NodeExecutionFailed(_) => "Node execution failed: "@,
            WorkflowError::InvalidNode(_) => "Invalid node type: "@,
        }
    }

    /// The message of the error: its heading, followed by its detail.
    ///
    /// The detail is the message or tag that the error holds. For
    /// `NotFound` it is the path as displayed; `UnsupportedFormat` has none.
    pub fn to_string(&self) -> (text: String)
        ensures
            match self@ {
                WorkflowErrorView::FileRead(detail) => text@ == self.heading() + detail,
                WorkflowErrorView::JsonParse(detail) => text@ == self.heading() + detail,
                WorkflowErrorView::YamlParse(detail) => text@ == self.heading() + detail,
                WorkflowErrorView::UnsupportedFormat => text@ == self.heading(),
                WorkflowErrorView::NotFound { path } => text@ == self.heading() + path_display(
                    path,
                ),
                WorkflowErrorView::NodeBuilder(detail) => text@ == self.heading() + detail,
                WorkflowErrorView::NodeExecutionFailed(detail) => text@ == self.heading() + detail,
                WorkflowErrorView::InvalidNode(detail) => text@ == self.heading() + detail,
            },
    {
        match self {
            WorkflowError::FileRead(message) => String::from_str(
                "Failed to read workflow file: ",
            ).concat(message.as_str()),
            WorkflowError::JsonParse(message) => String::from_str(
                "Failed to parse JSON workflow file: ",
            ).concat(message.as_str()),
            WorkflowError::YamlParse(message) => String::from_str(
                "Failed to parse YAML workflow file: ",
            ).concat(message.as_str()),
            WorkflowError::UnsupportedFormat => String::from_str(
                "Unsupported file format. Expected .json, .yml, or .yaml extension",
            ),
            WorkflowError::NotFound { path } => {
                let shown = path_text(path);
                String::from_str("Workflow file not found: ").concat(shown.as_str())
            },
            WorkflowError::NodeBuilder(message) => String::from_str("Node builder error: ").concat(
                message.as_str(),
            ),
            WorkflowError::NodeExecutionFailed(message) => String::from_str(
                "Node execution failed: ",
            ).concat(message.as_str()),
            WorkflowError::InvalidNode(tag) => String::from_str("Invalid node type: ").concat(
                tag.as_str(),
            ),
        }
    }
}

/// The formats in which a workflow file can be written.
#[derive(Debug, Clone, Copy, PartialEq, Eq, Structural)]
pub enum FileFormat {
    /// JSON, for the extension `.json`.
    Json,
    /// YAML, for the extensions `.yml` and `.yaml`.
    Yaml,
}

/// The lower-case form of an ASCII letter; any other character is itself.
pub open spec fn ascii_lower(c: char) -> char {
    if 'A' <= c <= 'Z' {
        ((c as u8) + 32) as char
    } else {
        c
    }
}

/// Whether `text` is `word`, the case of ASCII letters apart. `word` is
/// expected in lower case.
pub open spec fn is_word(text: Seq<char>, word: Seq<char>) -> bool {
    text.len() == word.len() && forall|i: int|
        0 <= i < text.len() ==> ascii_lower(#[trigger] text[i]) == word[i]
}

/// The format that an extension stands for: JSON for `json`, YAML for `yml`
/// and `yaml`, whatever the case of the letters; none for any other
/// extension, and none without an extension.
pub open spec fn format_of_extension(extension: Option<Seq<char>>) -> Option<FileFormat> {
    match extension {
        Some(text) => if is_word(text, seq!['j', 's', 'o', 'n']) {
            Some(FileFormat::Json)
        } else if is_word(text, seq!['y', 'm', 'l']) || is_word(text, seq!['y', 'a', 'm', 'l']) {
            Some(FileFormat::Yaml)
        } else {
            None
        },
        None => None,
    }
}

/// Tests whether `text` is `word`, the case of ASCII letters apart.
fn spells(text: &Vec<char>, word: &Vec<char>) -> (r: bool)
    ensures
        r == is_word(text@, word@),
{
    if text.len() != word.len() {
        return false;
    }
    let mut i: usize = 0;
    while i < text.len()
        invariant
            i <= text.len(),
            text.len() == word.len(),
            forall|j: int| 0 <= j < i ==> ascii_lower(#[trigger] text@[j]) == word@[j],
        decreases text.len() - i,
    {
        let c = text[i];
        let lower = if 'A' <= c && c <= 'Z' {
            ((c as u8) + 32) as char
        } else {
            c
        };
        if lower != word[i] {
            return false;
        }
        i += 1;
    }
    true
}

/// The extension that `Path::extension` finds in a path, without its dot,
/// or `None` where it finds none or finds one that is not Unicode.
pub uninterp spec fn extension_text(path: PathBuf) -> Option<Seq<char>>;

/// The extension of a path, without its dot.
///
/// Trusted: calls `Path::extension`, and gives `None` too where the
/// extension is not Unicode. The contract only gives the outcome its name:
/// the text returned is `extension_text` of the path, and `None` is returned
/// exactly where `extension_text` is `None`.
#[verifier::external_body]
fn extension_of(path: &PathBuf) -> (r: Option<String>)
    ensures
        match r {
            Some(text) => extension_text(*path) == Some(text@),
            None => extension_text(*path) is None,
        },
{
    path.extension().and_then(|extension| extension.to_str()).map(String::from)
}

impl FileFormat {
    /// Determines the format from an extension, given without its dot.
    pub fn from_extension(extension: Option<&str>) -> (format: Option<FileFormat>)
        ensures
            format == format_of_extension(
                match extension {
                    Some(text) => Some(text@),
                    None => None,
                },
            ),
    {
        match extension {
            Some(text) => {
                let text = chars_of(text);
                let json = vec!['j', 's', 'o', 'n'];
                let yml = vec!['y', 'm', 'l'];
                let yaml = vec!['y', 'a', 'm', 'l'];
                assert(json@ =~= seq!['j', 's', 'o', 'n']);
                assert(yml@ =~= seq!['y', 'm', 'l']);
                assert(yaml@ =~= seq!['y', 'a', 'm', 'l']);
                if spells(&text, &json) {
                    Some(FileFormat::Json)
                } else if spells(&text, &yml) || spells(&text, &yaml) {
                    Some(FileFormat::Yaml)
                } else {
                    None
                }
            },
            None => None,
        }
    }

    /// Determines the format of the file at `path` from its extension: JSON
    /// for `json`, YAML for `yml` and `yaml`, whatever the case of the
    /// letters, and none for any other extension or without one. The file
    /// system is not consulted.
    pub fn from_path(path: &PathBuf) -> (format: Option<FileFormat>)
        ensures
            format == format_of_extension(extension_text(*path)),
    {
        match extension_of(path) {
            Some(extension) => FileFormat::from_extension(Some(extension.as_str())),
            None => FileFormat::from_extension(None),
        }
    }
}

/// What to execute: the path of the workflow file.
#[derive(Debug, Clone)]
pub struct ExecuteWorkflowOptions {
    path: PathBuf,
}

impl ExecuteWorkflowOptions {
    /// The path that the options hold.
    pub closed spec fn path_of(&self) -> PathBuf {
        self.path
    }

    /// Creates options for the file at `path`.
    ///
    /// The path held is what the conversion of `path` gives.
    pub fn new<P: Into<PathBuf>>(path: P) -> (options: Self)
        ensures
            call_ensures(<P as Into<PathBuf>>::into, (path,), options.path_of()),
    {
        ExecuteWorkflowOptions { path: path.into() }
    }

    /// The path of the workflow file.
    pub fn path(&self) -> (path: &PathBuf)
        ensures
            *path == self.path_of(),
    {
        &self.path
    }

    /// Replaces the path by `path`.
    ///
    /// The path held is what the conversion of `path` gives.
    pub fn with_path<P: Into<PathBuf>>(self, path: P) -> (options: Self)
        ensures
            call_ensures(<P as Into<PathBuf>>::into, (path,), options.path_of()),
    {
        let mut options = self;
        options.path = path.into();
        options
    }
}

impl Default for ExecuteWorkflowOptions {
    /// Options for `workflow.yml`.
    fn default() -> (options: Self)
        ensures
            call_ensures(<&str as Into<PathBuf>>::into, ("workflow.yml",), options.path_of()),
    {
        ExecuteWorkflowOptions::new("workflow.yml")
    }
}

/// What executing one node does to the store.
///
/// Where no node has the type tag, nothing is stored and the error is
/// `InvalidNode`. Otherwise the node is built from the input, substituted
/// against the store as it is, and executed; the store then holds under the
/// node's identifier the result, or no value where the execution failed.
pub open spec fn step(node: WorkflowNodeView, store: Store) -> Result<Store, WorkflowErrorView> {
    match dispatch(node.node_type, substituted(node.input, store)) {
        Err(error) => Err(error),
        Ok(built) => Ok(
            store.insert(
                node.id,
                match node_outcome(built) {
                    Ok(value) => Some(value),
                    Err(_) => None,
                },
            ),
        ),
    }
}

/// The failure of a node that was built and then failed to execute, if it
/// failed.
pub open spec fn soft_failure(node: WorkflowNodeView, store: Store) -> Option<WorkflowErrorView> {
    match dispatch(node.node_type, substituted(node.input, store)) {
        Err(_) => None,
        Ok(built) => match node_outcome(built) {
            Ok(_) => None,
            Err(error) => Some(error),
        },
    }
}

/// The outcome of running the nodes from position `from` on, in order: the
/// store at the end, and the error that stopped the run, if one did.
///
/// The run stops at the first node that cannot be built, and leaves the
/// store as the nodes before it left it.
pub open spec fn run_from(nodes: Seq<WorkflowNodeView>, from: int, store: Store) -> (
    Store,
    Option<WorkflowErrorView>,
)
    decreases nodes.len() - from,
{
    if from < 0 || from >= nodes.len() {
        (store, None)
    } else {
        match step(nodes[from], store) {
            Err(error) => (store, Some(error)),
            Ok(next) => run_from(nodes, from + 1, next),
        }
    }
}

/// The outcome of running all of `nodes`, in order.
pub open spec fn run(nodes: Seq<WorkflowNodeView>, store: Store) -> (
    Store,
    Option<WorkflowErrorView>,
) {
    run_from(nodes, 0, store)
}

/// What is decided before a workflow file is read: `NotFound` with the path
/// where no file exists, else the format that the extension stands for, or
/// `UnsupportedFormat` where it stands for none.
pub open spec fn format_decision(path: PathBuf, exists: bool, extension: Option<Seq<char>>) -> Result<
    FileFormat,
    WorkflowErrorView,
> {
    if !exists {
        Err(WorkflowErrorView::NotFound { path })
    } else {
        match format_of_extension(extension) {
            Some(format) => Ok(format),
            None => Err(WorkflowErrorView::UnsupportedFormat),
        }
    }
}

/// The model of a decision on a format.
pub open spec fn decision_view(result: WorkflowResult<FileFormat>) -> Result<
    FileFormat,
    WorkflowErrorView,
> {
    match result {
        Ok(format) => Ok(format),
        Err(error) => Err(error@),
    }
}

/// A file that does not exist gives `NotFound` with its own path, whatever
/// its extension: existence is decided on first.
pub proof fn lemma_missing_file_is_not_found(path: PathBuf, extension: Option<Seq<char>>)
    ensures
        format_decision(path, false, extension) == Err::<FileFormat, WorkflowErrorView>(
            WorkflowErrorView::NotFound { path },
        ),
{
}

/// A file that exists gives `UnsupportedFormat` exactly where its extension
/// is none of `json`, `yml` and `yaml`, the case of the letters apart, and
/// its format otherwise. Nothing else is looked at: the decision is the
/// same whatever the file holds.
pub proof fn lemma_format_goes_by_the_extension(path: PathBuf, extension: Option<Seq<char>>)
    ensures
        format_decision(path, true, extension) == match format_of_extension(extension) {
            Some(format) => Ok::<FileFormat, WorkflowErrorView>(format),
            None => Err(WorkflowErrorView::UnsupportedFormat),
        },
        format_of_extension(extension) is None <==> extension is None || !(is_word(
            extension->0,
            seq!['j', 's', 'o', 'n'],
        ) || is_word(extension->0, seq!['y', 'm', 'l']) || is_word(
            extension->0,
            seq!['y', 'a', 'm', 'l'],
        )),
{
}

/// What loading and running give, once the file has been found to exist in
/// a known format and `loaded` is what reading and parsing it gave.
///
/// Where loading failed, its error is the result and the heap is as it was.
/// Otherwise the nodes of the workflow are run, in order, against the heap:
/// the heap is as the run left it, and the result is the error that ended
/// the run, or the workflow as it was loaded.
pub open spec fn run_outcome(
    loaded: WorkflowResult<Workflow>,
    before: Store,
    after: Store,
    result: WorkflowResult<Workflow>,
) -> bool {
    match loaded {
        Err(error) => result == Err::<Workflow, WorkflowError>(error) && after == before,
        Ok(workflow) => after == run(workflow.steps(), before).0 && match run(
            workflow.steps(),
            before,
        ).1 {
            Some(error) => failure_of(result) == Some(error),
            None => result == Ok::<Workflow, WorkflowError>(workflow),
        },
    }
}

/// Whether `result` and `after` are what loading with `load` in the format
/// `format`, and then running, can give.
pub open spec fn loads_and_runs<L: FnOnce(FileFormat) -> WorkflowResult<Workflow>>(
    load: L,
    format: FileFormat,
    before: Store,
    after: Store,
    result: WorkflowResult<Workflow>,
) -> bool {
    exists|loaded: WorkflowResult<Workflow>|
        call_ensures(load, (format,), loaded) && #[trigger] run_outcome(
            loaded,
            before,
            after,
            result,
        )
}

/// Executes workflows.
#[derive(Debug)]
pub struct WorkflowExecutor;

impl WorkflowExecutor {
    /// Decides, before anything is read, whether the file at `path` can be
    /// loaded and in which format, given whether it exists and what its
    /// extension is.
    pub fn format_for_extension(path: &PathBuf, exists: bool, extension: Option<&str>) -> (result:
        WorkflowResult<FileFormat>)
        ensures
            decision_view(result) == format_decision(
                *path,
                exists,
                match extension {
                    Some(text) => Some(text@),
                    None => None,
                },
            ),
    {
        if !exists {
            return Err(WorkflowError::NotFound { path: path.clone() });
        }
        match FileFormat::from_extension(extension) {
            Some(format) => Ok(format),
            None => Err(WorkflowError::UnsupportedFormat),
        }
    }

    /// Decides, before anything is read, whether the workflow file of
    /// `options` can be loaded and in which format, given whether it exists.
    ///
    /// A file that does not exist gives `NotFound` with the path of
    /// `options`, whatever its extension. One that exists gives the format
    /// that its extension stands for, or `UnsupportedFormat` where it
    /// stands for none.
    pub fn format_of(options: &ExecuteWorkflowOptions, exists: bool) -> (result: WorkflowResult<
        FileFormat,
    >)
        ensures
            decision_view(result) == format_decision(
                options.path_of(),
                exists,
                extension_text(options.path_of()),
            ),
    {
        let path = options.path();
        if !exists {
            return WorkflowExecutor::format_for_extension(path, false, None);
        }
        match extension_of(path) {
            Some(extension) => WorkflowExecutor::format_for_extension(
                path,
                true,
                Some(extension.as_str()),
            ),
            None => WorkflowExecutor::format_for_extension(path, true, None),
        }
    }

    /// Loads the workflow file of `options` and runs its nodes against
    /// `heap`.
    ///
    /// `exists` says whether the file exists. `load` reads the file and
    /// parses it in the format it is given.
    ///
    /// A file that does not exist gives `NotFound` with its path. One whose
    /// extension stands for no format gives `UnsupportedFormat`. In both
    /// cases the result does not depend on `load`, and the heap is left as
    /// it is. Otherwise the file is loaded in the format of its extension:
    /// an error of `load` is returned as it is, and a workflow is run and
    /// returned as it was loaded, unless a node that cannot be built ends
    /// the run with its error.
    pub fn execute<L: FnOnce(FileFormat) -> WorkflowResult<Workflow>>(
        options: ExecuteWorkflowOptions,
        exists: bool,
        load: L,
        heap: &mut Heap,
    ) -> (result: WorkflowResult<Workflow>)
        requires
            forall|format: FileFormat| call_requires(load, (format,)),
        ensures
            match format_decision(
                options.path_of(),
                exists,
                extension_text(options.path_of()),
            ) {
                Err(error) => failure_of(result) == Some(error) && final(heap)@ == old(heap)@,
                Ok(format) => loads_and_runs(load, format, old(heap)@, final(heap)@, result),
            },
    {
        let format = match WorkflowExecutor::format_of(&options, exists) {
            Ok(format) => format,
            Err(error) => {
                return Err(error);
            },
        };
        let loaded = load(format);
        let ghost kept = loaded;
        let workflow = match loaded {
            Ok(workflow) => workflow,
            Err(error) => {
                assert(run_outcome(kept, old(heap)@, heap@, Err(error)));
                return Err(error);
            },
        };
        let result = match WorkflowExecutor::execute_nodes(&workflow, heap) {
            Ok(_) => Ok(workflow),
            Err(error) => Err(error),
        };
        assert(run_outcome(kept, old(heap)@, heap@, result));
        result
    }

    /// Executes one node against the heap.
    ///
    /// Returns an error, and leaves the heap as it is, where the node cannot
    /// be built. Otherwise the node is executed and its result is stored
    /// under its identifier; where the execution failed, the key is stored
    /// without a value and the failure is returned as `Ok(Some(..))`.
    pub fn execute_node(node: &WorkflowNode, heap: &mut Heap) -> (result: WorkflowResult<
        Option<WorkflowError>,
    >)
        ensures
            match step(node@, old(heap)@) {
                Ok(next) => final(heap)@ == next && result is Ok && error_view(result->Ok_0)
                    == soft_failure(node@, old(heap)@),
                Err(fatal) => final(heap)@ == old(heap)@ && failure_of(result) == Some(fatal),
            },
    {
        let node_instance = match NodeBuilder::new().with_workflow_node(node.clone()).build(heap) {
            Ok(node_instance) => node_instance,
            Err(error) => {
                return Err(error);
            },
        };
        let output = node_instance.execute(BaseNodeRunOptions::new(&*heap, node.id.as_str()));
        match output {
            Ok(value) => {
                let _ = heap.insert(node.id.as_str(), Some(value));
                Ok(None)
            },
            Err(error) => {
                let _ = heap.insert(node.id.as_str(), None);
                Ok(Some(error))
            },
        }
    }

    /// Executes the nodes of `workflow` in the order in which it declares
    /// them.
    ///
    /// A node that cannot be built ends the run with its error; the nodes
    /// after it do not run. A node that fails to execute does not end the
    /// run: its key is stored without a value.
    pub fn execute_nodes(workflow: &Workflow, heap: &mut Heap) -> (result: WorkflowResult<()>)
        ensures
            final(heap)@ == run(workflow.steps(), old(heap)@).0,
            failure_of(result) == run(workflow.steps(), old(heap)@).1,
    {
        match &workflow.nodes {
            Some(nodes) => {
                let mut i: usize = 0;
                while i < nodes.len()
                    invariant
                        i <= nodes.len(),
                        workflow.nodes == Some(*nodes),
                        run(workflow.steps(), old(heap)@) == run_from(
                            workflow.steps(),
                            i as int,
                            heap@,
                        ),
                    decreases nodes.len() - i,
                {
                    assert(workflow.steps()[i as int] == nodes@[i as int]@);
                    match WorkflowExecutor::execute_node(&nodes[i], heap) {
                        Ok(_) => {},
                        Err(error) => {
                            return Err(error);
                        },
                    }
                    i += 1;
                }
                Ok(())
            },
            None => Ok(()),
        }
    }
}

/// Whether a node can be built: whether a node has its type tag.
pub open spec fn has_known_tag(node: WorkflowNodeView) -> bool {
    node.node_type == "Log"@
}

/// A run up to the first node that cannot be built, seen from position
/// `from`.
proof fn lemma_run_from_stops(nodes: Seq<WorkflowNodeView>, from: int, at: int, store: Store)
    requires
        0 <= from <= at < nodes.len(),
        forall|i: int| from <= i < at ==> has_known_tag(#[trigger] nodes[i]),
        !has_known_tag(nodes[at]),
    ensures
        run_from(nodes, from, store).1 == Some(
            WorkflowErrorView::InvalidNode(nodes[at].node_type),
        ),
        run_from(nodes, from, store).0 == run_from(nodes.take(at), from, store).0,
        forall|key: Seq<char>|
            (forall|i: int| from <= i < at ==> (#[trigger] nodes[i]).id != key) ==> (run_from(
                nodes,
                from,
                store,
            ).0.contains_key(key) <==> store.contains_key(key)),
    decreases at - from,
{
    if from < at {
        assert(has_known_tag(nodes[from]));
        assert(nodes.take(at)[from] == nodes[from]);
        let next = step(nodes[from], store)->Ok_0;
        lemma_run_from_stops(nodes, from + 1, at, next);
        assert forall|key: Seq<char>|
            (forall|i: int| from <= i < at ==> (#[trigger] nodes[i]).id != key) implies (run_from(
            nodes,
            from,
            store,
        ).0.contains_key(key) <==> store.contains_key(key)) by {
            assert(nodes[from].id != key);
            assert forall|i: int| from + 1 <= i < at implies (#[trigger] nodes[i]).id != key by {}
            assert(run_from(nodes, from + 1, next).0.contains_key(key) <==> next.contains_key(key));
            assert(next.contains_key(key) <==> store.contains_key(key));
        }
    }
}

/// A node that cannot be built aborts the run: the run ends with
/// `InvalidNode` and the tag of the first such node, the heap is as the
/// nodes before it left it, and no later node has run, so that a key
/// that none of the nodes before it has is a member of the heap only if it
/// was one at the start.
pub proof fn lemma_run_aborts_at_unknown_tag(nodes: Seq<WorkflowNodeView>, at: int, store: Store)
    requires
        0 <= at < nodes.len(),
        forall|i: int| 0 <= i < at ==> has_known_tag(#[trigger] nodes[i]),
        !has_known_tag(nodes[at]),
    ensures
        run(nodes, store).1 == Some(WorkflowErrorView::InvalidNode(nodes[at].node_type)),
        run(nodes, store).0 == run(nodes.take(at), store).0,
        forall|key: Seq<char>|
            (forall|i: int| 0 <= i < at ==> (#[trigger] nodes[i]).id != key) ==> (run(
                nodes,
                store,
            ).0.contains_key(key) <==> store.contains_key(key)),
{
    lemma_run_from_stops(nodes, 0, at, store);
}

/// A run of nodes that can all be built, seen from position `from`.
proof fn lemma_run_from_completes(nodes: Seq<WorkflowNodeView>, from: int, store: Store)
    requires
        0 <= from <= nodes.len(),
        forall|i: int| from <= i < nodes.len() ==> has_known_tag(#[trigger] nodes[i]),
    ensures
        run_from(nodes, from, store).1 is None,
        forall|key: Seq<char>|
            store.contains_key(key) ==> run_from(nodes, from, store).0.contains_key(key),
        forall|i: int|
            from <= i < nodes.len() ==> run_from(nodes, from, store).0.contains_key(
                (#[trigger] nodes[i]).id,
            ),
    decreases nodes.len() - from,
{
    if from < nodes.len() {
        assert(has_known_tag(nodes[from]));
        let next = step(nodes[from], store)->Ok_0;
        lemma_run_from_completes(nodes, from + 1, next);
        let end = run_from(nodes, from + 1, next).0;
        assert(run_from(nodes, from, store) == run_from(nodes, from + 1, next));
        assert(next.contains_key(nodes[from].id));
        assert(end.contains_key(nodes[from].id));
        assert forall|key: Seq<char>| store.contains_key(key) implies end.contains_key(key) by {
            assert(next.contains_key(key));
        }
        assert forall|i: int| from <= i < nodes.len() implies end.contains_key(
            (#[trigger] nodes[i]).id,
        ) by {
            if i > from {
                assert(has_known_tag(nodes[i]));
            }
        }
    }
}

/// A node that fails to execute does not abort the run: where every node
/// can be built, the run ends without an error, whatever the nodes gave,
/// and the identifier of every node is a member of the heap, with or
/// without a value. No key leaves the heap.
pub proof fn lemma_run_records_every_node(nodes: Seq<WorkflowNodeView>, store: Store)
    requires
        forall|i: int| 0 <= i < nodes.len() ==> has_known_tag(#[trigger] nodes[i]),
    ensures
        run(nodes, store).1 is None,
        forall|key: Seq<char>| store.contains_key(key) ==> run(nodes, store).0.contains_key(key),
        forall|i: int|
            0 <= i < nodes.len() ==> run(nodes, store).0.contains_key((#[trigger] nodes[i]).id),
{
    lemma_run_from_completes(nodes, 0, store);
}

/// Running a list of nodes and then one more, seen from position `from`.
proof fn lemma_run_from_push(
    nodes: Seq<WorkflowNodeView>,
    last: WorkflowNodeView,
    from: int,
    store: Store,
)
    requires
        0 <= from <= nodes.len(),
    ensures
        run_from(nodes.push(last), from, store) == match run_from(nodes, from, store).1 {
            Some(error) => run_from(nodes, from, store),
            None => match step(last, run_from(nodes, from, store).0) {
                Ok(next) => (next, None),
                Err(error) => (run_from(nodes, from, store).0, Some(error)),
            },
        },
    decreases nodes.len() - from,
{
    let all = nodes.push(last);
    if from < nodes.len() {
        assert(all[from] == nodes[from]);
        match step(nodes[from], store) {
            Ok(next) => {
                lemma_run_from_push(nodes, last, from + 1, next);
            },
            Err(_) => {},
        }
    } else {
        assert(all[from] == last);
        assert(run_from(nodes, from, store) == (store, None::<WorkflowErrorView>));
        match step(last, store) {
            Ok(next) => {
                assert(run_from(all, from + 1, next) == (next, None::<WorkflowErrorView>));
            },
            Err(_) => {},
        }
    }
}

/// A node sees what the nodes before it have stored: running a list of
/// nodes and then one more executes that node against the heap that the
/// run of the list left, provided that run ended without an error.
pub proof fn lemma_run_feeds_later_nodes(
    nodes: Seq<WorkflowNodeView>,
    last: WorkflowNodeView,
    store: Store,
)
    ensures
        run(nodes, store).1 is Some ==> run(nodes.push(last), store) == run(nodes, store),
        run(nodes, store).1 is None ==> run(nodes.push(last), store) == match step(
            last,
            run(nodes, store).0,
        ) {
            Ok(next) => (next, None::<WorkflowErrorView>),
            Err(error) => (run(nodes, store).0, Some(error)),
        },
{
    lemma_run_from_push(nodes, last, 0, store);
}

} // verus!
