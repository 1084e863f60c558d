//! The lines of the output as they are shown, with colours.
//!
//! The colours come from outside, and whether they are applied depends on
//! the environment, so the contracts here fix each line up to the way its
//! coloured parts are shown. The exact lines, for parts shown in a given
//! way, are those of the `lines` module.

use vstd::prelude::*;
use crate::dispatch::ResourceKind;
use crate::health::{Health, Summary};
use crate::paint::{blue, cyan, green, magenta, red, shows, shows_itself, yellow};
use crate::report::{EventEntry, NodeEntry, NodeReport, PodEntry, PodReport};
use crate::lines::{
    banner, banner_text, event_line, event_line_text, invalid_resource_line,
    invalid_resource_text, node_line, node_line_text, pod_line, pod_line_text, service_line,
    service_line_text, summary_line, summary_line_text,
};

verus! {

/// The line of a node of this name and label, the name shown in some way.
pub open spec fn is_node_line(line: Seq<char>, name: Seq<char>, health: Health) -> bool {
    exists|shown: Seq<char>| shows(shown, name) && line == #[trigger] node_line_text(shown, health)
}

/// The line of a pod of this name, phase and label, name and phase shown in
/// some way.
pub open spec fn is_pod_line(
    line: Seq<char>,
    name: Seq<char>,
    phase: Seq<char>,
    health: Health,
) -> bool {
    exists|shown_name: Seq<char>, shown_phase: Seq<char>|
        shows(shown_name, name) && shows(shown_phase, phase) && line == #[trigger] pod_line_text(
            shown_name,
            shown_phase,
            health,
        )
}

/// The line of a service of this name, the name shown in some way.
pub open spec fn is_service_line(line: Seq<char>, name: Seq<char>) -> bool {
    exists|shown: Seq<char>| shows(shown, name) && line == #[trigger] service_line_text(shown)
}

/// The line of an event of this name and message, the name shown in some
/// way and the message as it is.
pub open spec fn is_event_line(line: Seq<char>, name: Seq<char>, message: Seq<char>) -> bool {
    exists|shown: Seq<char>|
        shows(shown, name) && line == #[trigger] event_line_text(shown, message)
}

/// The summary line of these counts, behind the tag `[SUMMARY]` shown in
/// some way.
pub open spec fn is_summary_line(line: Seq<char>, summary: Summary) -> bool {
    exists|shown: Seq<char>|
        shows(shown, "[SUMMARY]"@) && line == #[trigger] summary_line_text(shown, summary)
}

/// The first line of a check of this kind, behind the tag `[INFO]` shown in
/// some way.
pub open spec fn is_banner(line: Seq<char>, kind: ResourceKind) -> bool {
    exists|shown: Seq<char>| shows(shown, "[INFO]"@) && line == #[trigger] banner_text(shown, kind)
}

/// The complaint about an invalid resource argument, behind the tag
/// `[ERROR]` shown in some way.
pub open spec fn is_invalid_resource_line(line: Seq<char>) -> bool {
    exists|shown: Seq<char>|
        shows(shown, "[ERROR]"@) && line == #[trigger] invalid_resource_text(shown)
}

/// The line of a node: its name in green where it is healthy, in red where
/// it is not.
pub fn show_node(entry: &NodeEntry) -> (line: String)
    ensures
        is_node_line(line@, entry.name@, entry.health),
{
    let name = match entry.health {
        Health::Healthy => green(entry.name.as_str()),
        Health::Unhealthy => red(entry.name.as_str()),
    };
    node_line(name.as_str(), entry.health)
}

/// The line of a pod: its name in green where it is healthy; name and phase
/// in red where it is not.
pub fn show_pod(entry: &PodEntry) -> (line: String)
    ensures
        is_pod_line(line@, entry.name@, entry.phase@, entry.health),
{
    match entry.health {
        Health::Healthy => {
            let name = green(entry.name.as_str());
            proof {
                shows_itself(entry.phase@);
            }
            pod_line(name.as_str(), entry.phase.as_str(), entry.health)
        },
        Health::Unhealthy => {
            let name = red(entry.name.as_str());
            let phase = red(entry.phase.as_str());
            pod_line(name.as_str(), phase.as_str(), entry.health)
        },
    }
}

/// The line of a service, its name in blue.
pub fn show_service(name: &str) -> (line: String)
    ensures
        is_service_line(line@, name@),
{
    let shown = blue(name);
    service_line(shown.as_str())
}

/// The line of an event, its name in magenta and its message as it is.
pub fn show_event(entry: &EventEntry) -> (line: String)
    ensures
        is_event_line(line@, entry.name@, entry.message@),
{
    let name = magenta(entry.name.as_str());
    event_line(name.as_str(), entry.message.as_str())
}

/// The summary line, behind a yellow tag.
pub fn show_summary(summary: &Summary) -> (line: String)
    ensures
        is_summary_line(line@, *summary),
{
    let tag = yellow("[SUMMARY]");
    summary_line(tag.as_str(), summary)
}

/// The first line of a check, behind a cyan tag.
pub fn show_banner(kind: ResourceKind) -> (line: String)
    ensures
        is_banner(line@, kind),
{
    let tag = cyan("[INFO]");
    banner(tag.as_str(), kind)
}

/// The complaint about an invalid resource argument, behind a red tag.
pub fn show_invalid_resource() -> (line: String)
    ensures
        is_invalid_resource_line(line@),
{
    let tag = red("[ERROR]");
    invalid_resource_line(tag.as_str())
}

/// The output of the node check after its first line: one line per node in
/// the report's order, an empty line, and the summary line.
pub fn node_lines(report: &NodeReport) -> (lines: Vec<String>)
    ensures
        lines.len() == report.entries.len() + 2,
        forall|i: int|
            0 <= i < report.entries.len() ==> is_node_line(
                (#[trigger] lines@[i])@,
                report.entries@[i].name@,
                report.entries@[i].health,
            ),
        lines@[report.entries.len() as int]@ == Seq::<char>::empty(),
        is_summary_line(lines@[report.entries.len() + 1]@, report.summary),
{
    let mut lines: Vec<String> = Vec::new();
    let mut i: usize = 0;
    while i < report.entries.len()
        invariant
            i <= report.entries.len(),
            lines.len() == i,
            forall|j: int|
                0 <= j < i ==> is_node_line(
                    (#[trigger] lines@[j])@,
                    report.entries@[j].name@,
                    report.entries@[j].health,
                ),
        decreases report.entries.len() - i,
    {
        lines.push(show_node(&report.entries[i]));
        i += 1;
    }
    lines.push(String::new());
    lines.push(show_summary(&report.summary));
    lines
}

/// The output of the pod check after its first line: one line per pod in
/// the report's order, an empty line, and the summary line.
pub fn pod_lines(report: &PodReport) -> (lines: Vec<String>)
    ensures
        lines.len() == report.entries.len() + 2,
        forall|i: int|
            0 <= i < report.entries.len() ==> is_pod_line(
                (#[trigger] lines@[i])@,
                report.entries@[i].name@,
                report.entries@[i].phase@,
                report.entries@[i].health,
            ),
        lines@[report.entries.len() as int]@ == Seq::<char>::empty(),
        is_summary_line(lines@[report.entries.len() + 1]@, report.summary),
{
    let mut lines: Vec<String> = Vec::new();
    let mut i: usize = 0;
    while i < report.entries.len()
        invariant
            i <= report.entries.len(),
            lines.len() == i,
            forall|j: int|
                0 <= j < i ==> is_pod_line(
                    (#[trigger] lines@[j])@,
                    report.entries@[j].name@,
                    report.entries@[j].phase@,
                    report.entries@[j].health,
                ),
        decreases report.entries.len() - i,
    {
        lines.push(show_pod(&report.entries[i]));
        i += 1;
    }
    lines.push(String::new());
    lines.push(show_summary(&report.summary));
    lines
}

/// The output of the service check after its first line: one line per name,
/// in order.
pub fn service_lines(names: &Vec<String>) -> (lines: Vec<String>)
    ensures
        lines.len() == names.len(),
        forall|i: int|
            0 <= i < names.len() ==> is_service_line((#[trigger] lines@[i])@, names@[i]@),
{
    let mut lines: Vec<String> = Vec::new();
    let mut i: usize = 0;
    while i < names.len()
        invariant
            i <= names.len(),
            lines.len() == i,
            forall|j: int| 0 <= j < i ==> is_service_line((#[trigger] lines@[j])@, names@[j]@),
        decreases names.len() - i,
    {
        lines.push(show_service(names[i].as_str()));
        i += 1;
    }
    lines
}

/// The output of the event check after its first line: one line per event,
/// in order, each with the event's message.
pub fn event_lines(entries: &Vec<EventEntry>) -> (lines: Vec<String>)
    ensures
        lines.len() == entries.len(),
        forall|i: int|
            0 <= i < entries.len() ==> is_event_line(
                (#[trigger] lines@[i])@,
                entries@[i].name@,
                entries@[i].message@,
            ),
{
    let mut lines: Vec<String> = Vec::new();
    let mut i: usize = 0;
    while i < entries.len()
        invariant
            i <= entries.len(),
            lines.len() == i,
            forall|j: int|
                0 <= j < i ==> is_event_line(
                    (#[trigger] lines@[j])@,
                    entries@[j].name@,
                    entries@[j].message@,
                ),
        decreases entries.len() - i,
    {
        lines.push(show_event(&entries[i]));
        i += 1;
    }
    lines
}

} // verus!
