//! Cross-agent context sharing and handoff formatting: what one agent did is
//! handed to another in a structured text.

use vstd::prelude::*;
use vstd::string::*;

use crate::ids::{id_text, Uuid};
use crate::model::{kind_key, status_text, ArtifactKind, TaskStatus};
use crate::text::{contains_text, decimal, ends_with, longer_texts_contain_the_same};
use crate::text::{parts_stand_where_they_are, show_usize, stands_at};

verus! {

/// Summary of an artifact produced by a prior task.
#[derive(Clone, Debug, PartialEq, Eq)]
pub struct PriorArtifactSummary {
    pub name: String,
    pub kind: ArtifactKind,
    pub content_preview: Option<String>,
    pub size_bytes: usize,
}

/// Summary of a prior task executed by another agent.
#[derive(Clone, Debug, PartialEq, Eq)]
pub struct PriorTaskSummary {
    pub task_id: Uuid,
    pub agent_id: String,
    pub status: TaskStatus,
    pub prompt: String,
    pub error: Option<String>,
    pub artifacts: Vec<PriorArtifactSummary>,
    pub created_at: String,
    pub completed_at: Option<String>,
}

/// The lines of an artifact in a prompt.
pub open spec fn prompt_artifact(art: PriorArtifactSummary) -> Seq<char> {
    "- **"@ + art.name@ + "** (`"@ + kind_key(art.kind) + "` - "@ + decimal(art.size_bytes as nat)
        + " bytes)\n"@ + (match art.content_preview {
        Some(preview) => "```\n"@ + preview@ + "\n```\n"@,
        None => Seq::empty(),
    })
}

/// The lines of the artifacts in a prompt.
pub open spec fn prompt_artifacts(arts: Seq<PriorArtifactSummary>) -> Seq<char>
    decreases arts.len(),
{
    if arts.len() == 0 {
        Seq::empty()
    } else {
        prompt_artifacts(arts.drop_last()) + prompt_artifact(arts.last())
    }
}

/// The section of a task in a prompt; tasks are counted from one.
pub open spec fn prompt_task(number: nat, task: PriorTaskSummary) -> Seq<char> {
    "### Task "@ + decimal(number) + " [ID: "@ + id_text(task.task_id.bits) + " | Agent: "@
        + task.agent_id@ + " | Status: "@ + status_text(task.status)
        + "]\n**User Request / Input:**\n"@ + task.prompt@ + "\n\n"@ + (match task.error {
        Some(err) => "**Execution Error:**\n```\n"@ + err@ + "\n```\n\n"@,
        None => Seq::empty(),
    }) + (if task.artifacts@.len() == 0 {
        Seq::empty()
    } else {
        "**Generated Artifacts & Output:**\n"@ + prompt_artifacts(task.artifacts@) + "\n"@
    })
}

/// The sections of the tasks in a prompt.
pub open spec fn prompt_tasks(tasks: Seq<PriorTaskSummary>) -> Seq<char>
    decreases tasks.len(),
{
    if tasks.len() == 0 {
        Seq::empty()
    } else {
        prompt_tasks(tasks.drop_last()) + prompt_task(tasks.len(), tasks.last())
    }
}

/// The prompt of an agent that follows others: what they did, then the request
/// itself. Without prior tasks it is the request alone.
pub open spec fn cross_agent_prompt(current: Seq<char>, tasks: Seq<PriorTaskSummary>) -> Seq<char> {
    if tasks.len() == 0 {
        current
    } else {
        "<prior_agent_context>\nThe following previous task(s) were completed by other agents in this session:\n\n"@
            + prompt_tasks(tasks) + "</prior_agent_context>\n\n## Current Task Request\n"@ + current
    }
}

fn write_prompt_artifacts(arts: &Vec<PriorArtifactSummary>) -> (r: String)
    ensures
        r@ == prompt_artifacts(arts@),
{
    let mut out = String::new();
    let mut i: usize = 0;
    while i < arts.len()
        invariant
            i <= arts@.len(),
            out@ == prompt_artifacts(arts@.take(i as int)),
        decreases arts.len() - i,
    {
        proof {
            assert(arts@.take(i + 1).drop_last() =~= arts@.take(i as int));
            assert(arts@.take(i + 1).last() == arts@[i as int]);
        }
        let art = &arts[i];
        let head = "- **".to_owned().concat(art.name.as_str()).concat("** (`").concat(
            art.kind.key(),
        ).concat("` - ").concat(show_usize(art.size_bytes).as_str()).concat(" bytes)\n");
        let body = match &art.content_preview {
            Some(preview) => "```\n".to_owned().concat(preview.as_str()).concat("\n```\n"),
            None => String::new(),
        };
        let text = head.concat(body.as_str());
        assert(text@ == prompt_artifact(*art));
        out.append(text.as_str());
        i += 1;
    }
    assert(arts@.take(i as int) =~= arts@);
    out
}

fn write_prompt_task(number: usize, task: &PriorTaskSummary) -> (r: String)
    ensures
        r@ == prompt_task(number as nat, *task),
{
    let head = "### Task ".to_owned().concat(show_usize(number).as_str()).concat(" [ID: ").concat(
        task.task_id.to_text().as_str(),
    ).concat(" | Agent: ").concat(task.agent_id.as_str()).concat(" | Status: ").concat(
        task.status.as_str(),
    ).concat("]\n**User Request / Input:**\n").concat(task.prompt.as_str()).concat("\n\n");
    let error = match &task.error {
        Some(err) => "**Execution Error:**\n```\n".to_owned().concat(err.as_str()).concat(
            "\n```\n\n",
        ),
        None => String::new(),
    };
    let artifacts = if task.artifacts.len() == 0 {
        String::new()
    } else {
        "**Generated Artifacts & Output:**\n".to_owned().concat(
            write_prompt_artifacts(&task.artifacts).as_str(),
        ).concat("\n")
    };
    head.concat(error.as_str()).concat(artifacts.as_str())
}

/// Format the structured cross-agent context block prepended to the new
/// agent's prompt.
pub fn format_cross_agent_prompt(current_prompt: &str, prior_tasks: &[PriorTaskSummary]) -> (r:
    String)
    ensures
        r@ == cross_agent_prompt(current_prompt@, prior_tasks@),
{
    if prior_tasks.len() == 0 {
        return current_prompt.to_owned();
    }
    let mut tasks = String::new();
    let mut i: usize = 0;
    while i < prior_tasks.len()
        invariant
            i <= prior_tasks@.len(),
            tasks@ == prompt_tasks(prior_tasks@.take(i as int)),
        decreases prior_tasks.len() - i,
    {
        proof {
            assert(prior_tasks@.take(i + 1).drop_last() =~= prior_tasks@.take(i as int));
            assert(prior_tasks@.take(i + 1).last() == prior_tasks@[i as int]);
        }
        tasks.append(write_prompt_task(i + 1, &prior_tasks[i]).as_str());
        i += 1;
    }
    assert(prior_tasks@.take(i as int) =~= prior_tasks@);
    "<prior_agent_context>\nThe following previous task(s) were completed by other agents in this session:\n\n".to_owned().concat(
        tasks.as_str(),
    ).concat("</prior_agent_context>\n\n## Current Task Request\n").concat(current_prompt)
}

/// The section of an artifact in a context document.
pub open spec fn document_artifact(art: PriorArtifactSummary) -> Seq<char> {
    "#### "@ + art.name@ + " ("@ + kind_key(art.kind) + ", "@ + decimal(art.size_bytes as nat)
        + " bytes)\n\n"@ + (match art.content_preview {
        Some(content) => "```\n"@ + content@ + "\n```\n\n"@,
        None => Seq::empty(),
    })
}

/// The sections of the artifacts in a context document.
pub open spec fn document_artifacts(arts: Seq<PriorArtifactSummary>) -> Seq<char>
    decreases arts.len(),
{
    if arts.len() == 0 {
        Seq::empty()
    } else {
        document_artifacts(arts.drop_last()) + document_artifact(arts.last())
    }
}

/// The section of a task in a context document; tasks are counted from one.
pub open spec fn document_task(number: nat, task: PriorTaskSummary) -> Seq<char> {
    "## Task "@ + decimal(number) + " \u{2014} "@ + task.agent_id@ + " (`"@ + id_text(
        task.task_id.bits,
    ) + "`)\n\n- **Status**: `"@ + status_text(task.status) + "`\n- **Created**: `"@
        + task.created_at@ + "`\n"@ + (match task.completed_at {
        Some(completed) => "- **Completed**: `"@ + completed@ + "`\n"@,
        None => Seq::empty(),
    }) + "\n### Prompt\n\n"@ + task.prompt@ + "\n\n"@ + (match task.error {
        Some(err) => "### Error\n\n```\n"@ + err@ + "\n```\n\n"@,
        None => Seq::empty(),
    }) + (if task.artifacts@.len() == 0 {
        Seq::empty()
    } else {
        "### Artifacts\n\n"@ + document_artifacts(task.artifacts@)
    }) + "---\n\n"@
}

/// The sections of the tasks in a context document.
pub open spec fn document_tasks(tasks: Seq<PriorTaskSummary>) -> Seq<char>
    decreases tasks.len(),
{
    if tasks.len() == 0 {
        Seq::empty()
    } else {
        document_tasks(tasks.drop_last()) + document_task(tasks.len(), tasks.last())
    }
}

fn write_document_artifacts(arts: &Vec<PriorArtifactSummary>) -> (r: String)
    ensures
        r@ == document_artifacts(arts@),
{
    let mut out = String::new();
    let mut i: usize = 0;
    while i < arts.len()
        invariant
            i <= arts@.len(),
            out@ == document_artifacts(arts@.take(i as int)),
        decreases arts.len() - i,
    {
        proof {
            assert(arts@.take(i + 1).drop_last() =~= arts@.take(i as int));
            assert(arts@.take(i + 1).last() == arts@[i as int]);
        }
        let art = &arts[i];
        let head = "#### ".to_owned().concat(art.name.as_str()).concat(" (").concat(
            art.kind.key(),
        ).concat(", ").concat(show_usize(art.size_bytes).as_str()).concat(" bytes)\n\n");
        let body = match &art.content_preview {
            Some(content) => "```\n".to_owned().concat(content.as_str()).concat("\n```\n\n"),
            None => String::new(),
        };
        let text = head.concat(body.as_str());
        assert(text@ == document_artifact(*art));
        out.append(text.as_str());
        i += 1;
    }
    assert(arts@.take(i as int) =~= arts@);
    out
}

fn write_document_task(number: usize, task: &PriorTaskSummary) -> (r: String)
    ensures
        r@ == document_task(number as nat, *task),
{
    let head = "## Task ".to_owned().concat(show_usize(number).as_str()).concat(
        " \u{2014} ",
    ).concat(task.agent_id.as_str()).concat(" (`").concat(task.task_id.to_text().as_str()).concat(
        "`)\n\n- **Status**: `",
    ).concat(task.status.as_str()).concat("`\n- **Created**: `").concat(
        task.created_at.as_str(),
    ).concat("`\n");
    let completed = match &task.completed_at {
        Some(completed) => "- **Completed**: `".to_owned().concat(completed.as_str()).concat("`\n"),
        None => String::new(),
    };
    let error = match &task.error {
        Some(err) => "### Error\n\n```\n".to_owned().concat(err.as_str()).concat("\n```\n\n"),
        None => String::new(),
    };
    let artifacts = if task.artifacts.len() == 0 {
        String::new()
    } else {
        "### Artifacts\n\n".to_owned().concat(write_document_artifacts(&task.artifacts).as_str())
    };
    head.concat(completed.as_str()).concat("\n### Prompt\n\n").concat(task.prompt.as_str()).concat(
        "\n\n",
    ).concat(error.as_str()).concat(artifacts.as_str()).concat("---\n\n")
}

/// Format a comprehensive Markdown document for `.agentmesh/context.md` in the
/// workspace.
pub fn format_workspace_context_md(prior_tasks: &[PriorTaskSummary]) -> (r: String)
    ensures
        r@
            == "# AgentMesh Cross-Agent Session Context\n\n> Auto-generated context snapshot for cross-agent collaboration.\n\n"@
            + document_tasks(prior_tasks@),
{
    let mut tasks = String::new();
    let mut i: usize = 0;
    while i < prior_tasks.len()
        invariant
            i <= prior_tasks@.len(),
            tasks@ == document_tasks(prior_tasks@.take(i as int)),
        decreases prior_tasks.len() - i,
    {
        proof {
            assert(prior_tasks@.take(i + 1).drop_last() =~= prior_tasks@.take(i as int));
            assert(prior_tasks@.take(i + 1).last() == prior_tasks@[i as int]);
        }
        tasks.append(write_document_task(i + 1, &prior_tasks[i]).as_str());
        i += 1;
    }
    assert(prior_tasks@.take(i as int) =~= prior_tasks@);
    "# AgentMesh Cross-Agent Session Context\n\n> Auto-generated context snapshot for cross-agent collaboration.\n\n".to_owned().concat(
        tasks.as_str(),
    )
}

/// The prompt of an agent without prior tasks is the request alone; with prior
/// tasks it ends with the request, and tells every task before it.
pub proof fn prompt_ends_with_the_request(current: Seq<char>, tasks: Seq<PriorTaskSummary>)
    ensures
        tasks.len() == 0 ==> cross_agent_prompt(current, tasks) == current,
        ends_with(cross_agent_prompt(current, tasks), current),
        contains_text(cross_agent_prompt(current, tasks), prompt_tasks(tasks)),
{
    let prompt = cross_agent_prompt(current, tasks);
    assert(prompt.subrange(prompt.len() - current.len(), prompt.len() as int) =~= current);
    if tasks.len() == 0 {
        assert(prompt.subrange(0, 0) =~= prompt_tasks(tasks));
        assert(stands_at(prompt, prompt_tasks(tasks), 0));
    } else {
        let head =
            "<prior_agent_context>\nThe following previous task(s) were completed by other agents in this session:\n\n"@;
        let at = head.len() as int;
        assert(prompt.subrange(at, at + prompt_tasks(tasks).len()) =~= prompt_tasks(tasks));
        assert(stands_at(prompt, prompt_tasks(tasks), at));
    }
}

/// One more prior task is told behind the others, under the next number; so is
/// one more artifact of a task.
pub proof fn prior_tasks_are_told_in_order(
    tasks: Seq<PriorTaskSummary>,
    task: PriorTaskSummary,
    arts: Seq<PriorArtifactSummary>,
    art: PriorArtifactSummary,
)
    ensures
        prompt_tasks(Seq::empty()).len() == 0,
        prompt_tasks(tasks.push(task)) == prompt_tasks(tasks) + prompt_task(tasks.len() + 1, task),
        prompt_artifacts(Seq::empty()).len() == 0,
        prompt_artifacts(arts.push(art)) == prompt_artifacts(arts) + prompt_artifact(art),
        document_tasks(Seq::empty()).len() == 0,
        document_tasks(tasks.push(task)) == document_tasks(tasks) + document_task(
            tasks.len() + 1,
            task,
        ),
        document_artifacts(Seq::empty()).len() == 0,
        document_artifacts(arts.push(art)) == document_artifacts(arts) + document_artifact(art),
{
    assert(tasks.push(task).drop_last() =~= tasks);
    assert(arts.push(art).drop_last() =~= arts);
}

/// A prior task is told with its id, agent, status and request, its error where
/// it has one, and its artifacts where it has any.
#[verifier::rlimit(40)]
pub proof fn prior_task_is_told_whole(number: nat, task: PriorTaskSummary)
    ensures
        ({
            let told = prompt_task(number, task);
            &&& contains_text(told, id_text(task.task_id.bits))
            &&& contains_text(told, task.agent_id@)
            &&& contains_text(told, status_text(task.status))
            &&& contains_text(told, task.prompt@)
            &&& task.error matches Some(error) ==> contains_text(told, error@)
            &&& contains_text(told, prompt_artifacts(task.artifacts@))
        }),
{
    let told = prompt_task(number, task);
    let p0 = "### Task "@ + decimal(number) + " [ID: "@;
    let p1 = p0 + id_text(task.task_id.bits) + " | Agent: "@;
    let p2 = p1 + task.agent_id@ + " | Status: "@;
    let p3 = p2 + status_text(task.status) + "]\n**User Request / Input:**\n"@;
    let p4 = p3 + task.prompt@ + "\n\n"@;
    let error = match task.error {
        Some(err) => "**Execution Error:**\n```\n"@ + err@ + "\n```\n\n"@,
        None => Seq::empty(),
    };
    let p5 = p4 + error;
    let arts = if task.artifacts@.len() == 0 {
        Seq::empty()
    } else {
        "**Generated Artifacts & Output:**\n"@ + prompt_artifacts(task.artifacts@) + "\n"@
    };
    assert(told == p5 + arts);
    told_part(p0, id_text(task.task_id.bits), " | Agent: "@);
    told_part(p1, task.agent_id@, " | Status: "@);
    told_part(p2, status_text(task.status), "]\n**User Request / Input:**\n"@);
    told_part(p3, task.prompt@, "\n\n"@);
    longer_texts_contain_the_same(p1, id_text(task.task_id.bits), task.agent_id@);
    longer_texts_contain_the_same(
        p1 + task.agent_id@,
        id_text(task.task_id.bits),
        " | Status: "@,
    );
    assert(p5.subrange(0, p4.len() as int) =~= p4);
    carry(p2, id_text(task.task_id.bits), status_text(task.status), p3, p4, p5, arts, task);
    carry(p2, task.agent_id@, status_text(task.status), p3, p4, p5, arts, task);
    longer_texts_contain_the_same(p3, status_text(task.status), task.prompt@);
    longer_texts_contain_the_same(p3 + task.prompt@, status_text(task.status), "\n\n"@);
    longer_texts_contain_the_same(p4, status_text(task.status), error);
    longer_texts_contain_the_same(p5, status_text(task.status), arts);
    longer_texts_contain_the_same(p4, task.prompt@, error);
    longer_texts_contain_the_same(p5, task.prompt@, arts);
    if let Some(err) = task.error {
        let open = "**Execution Error:**\n```\n"@;
        let close = "\n```\n\n"@;
        told_part(p4 + open, err@, close);
        assert(p4 + open + err@ + close =~= p5);
        longer_texts_contain_the_same(p5, err@, arts);
    }
    if task.artifacts@.len() == 0 {
        let none = prompt_artifacts(task.artifacts@);
        assert(told.subrange(0, 0) =~= none);
        assert(stands_at(told, none, 0));
    } else {
        let open = "**Generated Artifacts & Output:**\n"@;
        told_part(p5 + open, prompt_artifacts(task.artifacts@), "\n"@);
        assert(p5 + open + prompt_artifacts(task.artifacts@) + "\n"@ =~= told);
    }
}

proof fn carry(
    p2: Seq<char>,
    part: Seq<char>,
    status: Seq<char>,
    p3: Seq<char>,
    p4: Seq<char>,
    p5: Seq<char>,
    arts: Seq<char>,
    task: PriorTaskSummary,
)
    requires
        contains_text(p2, part),
        p3 == p2 + status + "]\n**User Request / Input:**\n"@,
        p4 == p3 + task.prompt@ + "\n\n"@,
        p5.len() >= p4.len(),
        p5.subrange(0, p4.len() as int) == p4,
    ensures
        contains_text(p5 + arts, part),
{
    longer_texts_contain_the_same(p2, part, status);
    longer_texts_contain_the_same(p2 + status, part, "]\n**User Request / Input:**\n"@);
    longer_texts_contain_the_same(p3, part, task.prompt@);
    longer_texts_contain_the_same(p3 + task.prompt@, part, "\n\n"@);
    let rest = p5.skip(p4.len() as int);
    assert(p5 =~= p4 + rest);
    longer_texts_contain_the_same(p4, part, rest);
    longer_texts_contain_the_same(p5, part, arts);
}

proof fn told_part(before: Seq<char>, part: Seq<char>, after: Seq<char>)
    ensures
        contains_text(before + part + after, part),
{
    parts_stand_where_they_are(before, part, after);
}

/// An artifact is told with its name and kind, and with its content where that
/// is known.
#[verifier::rlimit(40)]
pub proof fn artifact_is_told_whole(art: PriorArtifactSummary)
    ensures
        contains_text(prompt_artifact(art), art.name@),
        art.content_preview matches Some(preview) ==> contains_text(
            prompt_artifact(art),
            preview@,
        ) && contains_text(document_artifact(art), preview@),
        contains_text(document_artifact(art), art.name@),
{
    let size = decimal(art.size_bytes as nat);
    let a0 = "- **"@;
    let a1 = "** (`"@ + kind_key(art.kind) + "` - "@ + size + " bytes)\n"@;
    let preview = match art.content_preview {
        Some(preview) => "```\n"@ + preview@ + "\n```\n"@,
        None => Seq::empty(),
    };
    told_part(a0, art.name@, a1 + preview);
    assert(a0 + art.name@ + (a1 + preview) =~= prompt_artifact(art));
    let d0 = "#### "@;
    let d1 = " ("@ + kind_key(art.kind) + ", "@ + size + " bytes)\n\n"@;
    let shown = match art.content_preview {
        Some(content) => "```\n"@ + content@ + "\n```\n\n"@,
        None => Seq::empty(),
    };
    told_part(d0, art.name@, d1 + shown);
    assert(d0 + art.name@ + (d1 + shown) =~= document_artifact(art));
    if let Some(text) = art.content_preview {
        told_part(a0 + art.name@ + a1 + "```\n"@, text@, "\n```\n"@);
        assert(a0 + art.name@ + a1 + "```\n"@ + text@ + "\n```\n"@ =~= prompt_artifact(art));
        told_part(d0 + art.name@ + d1 + "```\n"@, text@, "\n```\n\n"@);
        assert(d0 + art.name@ + d1 + "```\n"@ + text@ + "\n```\n\n"@ =~= document_artifact(art));
    }
}

} // verus!
