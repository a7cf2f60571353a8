//! What the command line decides and reports, apart from reading
//! arguments, files and printing.

use crate::engine::{extension_text, format_of_extension, FileFormat};
use crate::text::{natural_string, natural_text};
use crate::workflow::input::WorkflowInput;
use crate::workflow::node::{WorkflowNode, WorkflowNodeView};
use crate::workflow::variable::WorkflowVariable;
use crate::workflow::workflow::{text_of, Workflow};
use std::path::PathBuf;
use vstd::prelude::*;

verus! {

/// How much the program logs.
#[derive(Debug, Clone, Copy, PartialEq, Eq, Structural)]
pub enum LogLevel {
    /// Errors only.
    Error,
    /// Warnings and errors.
    Warn,
    /// Informational messages, warnings and errors.
    Info,
    /// Debugging messages and all of the above.
    Debug,
    /// Everything.
    Trace,
}

/// The models of a list of lines.
pub open spec fn texts(lines: Seq<String>) -> Seq<Seq<char>> {
    Seq::new(lines.len(), |i: int| lines[i]@)
}

/// An optional text, or `default` where there is none.
pub open spec fn text_or(text: Option<Seq<char>>, default: Seq<char>) -> Seq<char> {
    match text {
        Some(text) => text,
        None => default,
    }
}

/// One list item for each name, in order.
pub open spec fn item_lines(names: Seq<Seq<char>>) -> Seq<Seq<char>> {
    Seq::new(names.len(), |i: int| "  - "@ + names[i])
}

/// The lines that describe a declared list: how many entries it has, then
/// one item for each name; or one line that says there is none.
pub open spec fn list_lines(title: Seq<char>, names: Option<Seq<Seq<char>>>) -> Seq<Seq<char>> {
    match names {
        Some(names) => seq![title + natural_text(names.len())] + item_lines(names),
        None => seq![title + "None"@],
    }
}

/// The lines that describe one node: its identifier and type, then its
/// condition where it has one.
pub open spec fn node_lines(node: WorkflowNodeView) -> Seq<Seq<char>> {
    let head = "  - "@ + node.id + " (type: "@ + node.node_type + ")"@;
    match node.when {
        Some(when) => seq![head, "    Condition: "@ + when],
        None => seq![head],
    }
}

/// The lines that describe a list of nodes, in order.
pub open spec fn nodes_lines(nodes: Seq<WorkflowNodeView>) -> Seq<Seq<char>>
    decreases nodes.len(),
{
    if nodes.len() == 0 {
        Seq::empty()
    } else {
        nodes_lines(nodes.drop_last()) + node_lines(nodes.last())
    }
}

/// The names of the declared inputs.
pub open spec fn input_names(inputs: Option<Vec<WorkflowInput>>) -> Option<Seq<Seq<char>>> {
    match inputs {
        Some(inputs) => Some(Seq::new(inputs@.len(), |i: int| inputs@[i].name@)),
        None => None,
    }
}

/// The names of the declared variables.
pub open spec fn variable_names(variables: Option<Vec<WorkflowVariable>>) -> Option<
    Seq<Seq<char>>,
> {
    match variables {
        Some(variables) => Some(Seq::new(variables@.len(), |i: int| variables@[i].name@)),
        None => None,
    }
}

/// The first lines of a report: title, name, identifier, version and the
/// number of nodes.
pub open spec fn heading_lines(workflow: Workflow) -> Seq<Seq<char>> {
    seq![
        "Workflow Information"@,
        "==================="@,
        "Name: "@ + text_or(text_of(workflow.name), "Unnamed"@),
        "ID: "@ + text_or(text_of(workflow.id), "Not specified"@),
        "Version: "@ + text_or(text_of(workflow.version), "Unknown"@),
        "Nodes: "@ + natural_text(workflow.steps().len()),
    ]
}

/// The lines of a report on the nodes: a title and the lines of each node,
/// where the workflow declares nodes.
pub open spec fn detail_lines(workflow: Workflow) -> Seq<Seq<char>> {
    match workflow.nodes {
        Some(_) => seq!["Node Details:"@] + nodes_lines(workflow.steps()),
        None => Seq::empty(),
    }
}

/// The report on a workflow, line by line.
pub open spec fn report(workflow: Workflow) -> Seq<Seq<char>> {
    heading_lines(workflow) + list_lines("Inputs: "@, input_names(workflow.inputs)) + list_lines(
        "Variables: "@,
        variable_names(workflow.variables),
    ) + detail_lines(workflow)
}

/// The lines that confirm a valid workflow.
pub open spec fn confirmation(workflow: Workflow) -> Seq<Seq<char>> {
    seq![
        "\u{2713} Workflow is valid"@,
        "  Name: "@ + text_or(text_of(workflow.name), "Unnamed"@),
        "  Version: "@ + text_or(text_of(workflow.version), "Unknown"@),
        "  Nodes: "@ + natural_text(workflow.steps().len()),
    ]
}

/// The line that lists a workflow file: the workflow's name, the number of
/// its nodes, and the name of the file.
pub open spec fn listing(workflow: Workflow, file_name: Seq<char>) -> Seq<char> {
    "  "@ + text_or(text_of(workflow.name), "Unnamed"@) + " ("@ + natural_text(
        workflow.steps().len(),
    ) + " nodes) - "@ + file_name
}

/// Joins two texts.
fn joined(left: &str, right: &str) -> (text: String)
    ensures
        text@ == left@ + right@,
{
    String::from_str(left).concat(right)
}

/// Appends a line.
fn push_line(lines: &mut Vec<String>, line: String)
    ensures
        texts(final(lines)@) == texts(old(lines)@).push(line@),
{
    lines.push(line);
    assert(texts(lines@) =~= texts(old(lines)@).push(line@));
}

/// Writes a count in decimal.
fn count_text(count: usize) -> (text: String)
    ensures
        text@ == natural_text(count as nat),
{
    natural_string(count as u64)
}

/// The command-line application.
#[derive(Debug)]
pub struct CliApp;

impl CliApp {
    /// The level to log at: `Debug` where `verbose` is set, else `level`.
    pub fn logging_level(level: LogLevel, verbose: bool) -> (chosen: LogLevel)
        ensures
            chosen == if verbose {
                LogLevel::Debug
            } else {
                level
            },
    {
        if verbose {
            LogLevel::Debug
        } else {
            level
        }
    }

    /// Tests whether the file at `path` has the extension of a workflow
    /// file: `json`, `yml` or `yaml`, whatever the case of the letters.
    pub fn is_workflow_file(path: &PathBuf) -> (r: bool)
        ensures
            r == format_of_extension(extension_text(*path)) is Some,
    {
        FileFormat::from_path(path).is_some()
    }

    /// Appends the lines that describe a declared list.
    fn push_list(lines: &mut Vec<String>, title: &str, names: Option<Vec<&str>>)
        ensures
            texts(final(lines)@) == texts(old(lines)@) + list_lines(
                title@,
                match names {
                    Some(names) => Some(Seq::new(names@.len(), |i: int| names@[i]@)),
                    None => None,
                },
            ),
    {
        match names {
            Some(names) => {
                let ghost shown = Seq::new(names@.len(), |i: int| names@[i]@);
                let count = count_text(names.len());
                push_line(lines, joined(title, count.as_str()));
                let mut i: usize = 0;
                while i < names.len()
                    invariant
                        i <= names.len(),
                        shown == Seq::new(names@.len(), |i: int| names@[i]@),
                        texts(lines@) == texts(old(lines)@) + seq![
                            title@ + natural_text(names@.len()),
                        ] + item_lines(shown).take(i as int),
                    decreases names.len() - i,
                {
                    let ghost before = texts(lines@);
                    push_line(lines, joined("  - ", names[i]));
                    assert(item_lines(shown).take(i + 1) =~= item_lines(shown).take(i as int).push(
                        "  - "@ + names@[i as int]@,
                    ));
                    assert(texts(lines@) =~= texts(old(lines)@) + seq![
                        title@ + natural_text(names@.len()),
                    ] + item_lines(shown).take(i + 1));
                    i += 1;
                }
                assert(item_lines(shown).take(names@.len() as int) =~= item_lines(shown));
            },
            None => {
                push_line(lines, joined(title, "None"));
                assert(texts(lines@) =~= texts(old(lines)@) + list_lines(title@, None));
            },
        }
    }

    /// Appends the lines that describe `node`.
    fn push_node(lines: &mut Vec<String>, node: &WorkflowNode)
        ensures
            texts(final(lines)@) == texts(old(lines)@) + node_lines(node@),
    {
        let mut head = joined("  - ", node.id.as_str());
        head.append(" (type: ");
        head.append(node.node_type.as_str());
        head.append(")");
        let ghost first = head@;
        assert(first =~= "  - "@ + node.id@ + " (type: "@ + node.node_type@ + ")"@);
        push_line(lines, head);
        match &node.when {
            Some(when) => {
                push_line(lines, joined("    Condition: ", when.as_str()));
                assert(texts(lines@) =~= texts(old(lines)@) + node_lines(node@));
            },
            None => {
                assert(texts(lines@) =~= texts(old(lines)@) + node_lines(node@));
            },
        }
    }

    /// Describes `workflow` in text, line by line: name, identifier,
    /// version and number of nodes, then the declared inputs and variables,
    /// then each node with its type and condition.
    pub fn output_text(workflow: &Workflow) -> (lines: Vec<String>)
        ensures
            texts(lines@) == report(*workflow),
    {
        let mut lines: Vec<String> = Vec::new();
        push_line(&mut lines, String::from_str("Workflow Information"));
        push_line(&mut lines, String::from_str("==================="));
        let name = workflow.name_or("Unnamed");
        push_line(&mut lines, joined("Name: ", name.as_str()));
        let id = match &workflow.id {
            Some(id) => id.as_str(),
            None => "Not specified",
        };
        push_line(&mut lines, joined("ID: ", id));
        let version = workflow.version_or("Unknown");
        push_line(&mut lines, joined("Version: ", version.as_str()));
        let count = count_text(workflow.node_count());
        push_line(&mut lines, joined("Nodes: ", count.as_str()));
        assert(texts(lines@) =~= heading_lines(*workflow));

        let inputs = match &workflow.inputs {
            Some(inputs) => {
                let mut names: Vec<&str> = Vec::new();
                let mut i: usize = 0;
                while i < inputs.len()
                    invariant
                        i <= inputs.len(),
                        names@.len() == i,
                        forall|j: int| 0 <= j < i ==> names@[j]@ == inputs@[j].name@,
                    decreases inputs.len() - i,
                {
                    names.push(inputs[i].name.as_str());
                    i += 1;
                }
                assert(Seq::new(names@.len(), |i: int| names@[i]@) =~= input_names(
                    workflow.inputs,
                )->0);
                Some(names)
            },
            None => None,
        };
        CliApp::push_list(&mut lines, "Inputs: ", inputs);

        let variables = match &workflow.variables {
            Some(variables) => {
                let mut names: Vec<&str> = Vec::new();
                let mut i: usize = 0;
                while i < variables.len()
                    invariant
                        i <= variables.len(),
                        names@.len() == i,
                        forall|j: int| 0 <= j < i ==> names@[j]@ == variables@[j].name@,
                    decreases variables.len() - i,
                {
                    names.push(variables[i].name.as_str());
                    i += 1;
                }
                assert(Seq::new(names@.len(), |i: int| names@[i]@) =~= variable_names(
                    workflow.variables,
                )->0);
                Some(names)
            },
            None => None,
        };
        CliApp::push_list(&mut lines, "Variables: ", variables);

        let ghost declared = texts(lines@);
        match &workflow.nodes {
            Some(nodes) => {
                push_line(&mut lines, String::from_str("Node Details:"));
                let mut i: usize = 0;
                assert(nodes_lines(workflow.steps().take(0)) =~= Seq::<Seq<char>>::empty());
                while i < nodes.len()
                    invariant
                        i <= nodes.len(),
                        workflow.nodes == Some(*nodes),
                        texts(lines@) == declared + seq!["Node Details:"@] + nodes_lines(
                            workflow.steps().take(i as int),
                        ),
                    decreases nodes.len() - i,
                {
                    CliApp::push_node(&mut lines, &nodes[i]);
                    proof {
                        let done = workflow.steps().take(i + 1);
                        assert(done.drop_last() =~= workflow.steps().take(i as int));
                        assert(done.last() == nodes@[i as int]@);
                        assert(texts(lines@) =~= declared + seq!["Node Details:"@] + nodes_lines(
                            done,
                        ));
                    }
                    i += 1;
                }
                assert(workflow.steps().take(nodes@.len() as int) =~= workflow.steps());
                assert(texts(lines@) =~= declared + detail_lines(*workflow));
            },
            None => {
                assert(texts(lines@) =~= declared + detail_lines(*workflow));
            },
        }
        lines
    }

    /// The lines that confirm that `workflow` is valid, with its name,
    /// version and number of nodes.
    pub fn validation_text(workflow: &Workflow) -> (lines: Vec<String>)
        ensures
            texts(lines@) == confirmation(*workflow),
    {
        let mut lines: Vec<String> = Vec::new();
        push_line(&mut lines, String::from_str("\u{2713} Workflow is valid"));
        let name = workflow.name_or("Unnamed");
        push_line(&mut lines, joined("  Name: ", name.as_str()));
        let version = workflow.version_or("Unknown");
        push_line(&mut lines, joined("  Version: ", version.as_str()));
        let count = count_text(workflow.node_count());
        push_line(&mut lines, joined("  Nodes: ", count.as_str()));
        assert(texts(lines@) =~= confirmation(*workflow));
        lines
    }

    /// The line that lists the workflow file named `file_name`, which holds
    /// `workflow`.
    pub fn get_workflow_info(workflow: &Workflow, file_name: &str) -> (line: String)
        ensures
            line@ == listing(*workflow, file_name@),
    {
        let name = workflow.name_or("Unnamed");
        let count = count_text(workflow.node_count());
        let mut line = joined("  ", name.as_str());
        line.append(" (");
        line.append(count.as_str());
        line.append(" nodes) - ");
        line.append(file_name);
        assert(line@ =~= listing(*workflow, file_name@));
        line
    }
}

} // verus!
