//! The typed commands: each shapes the arguments of one backend tool and
//! names the tool. Shaping is all they do; sending and error handling are the
//! proxy's, the same for every command.
//!
//! An optional argument that the caller left out is left out of the argument
//! object too: the backend can tell "not given" from "given empty".
use crate::json::{integer_value, json_view, json_views, list_value, no_members, Json, JsonNumber};
use crate::proxy::{
    optional_text, optional_view, text_list, text_list_value, with_optional, Arguments,
    ToolInvocation,
};
use vstd::prelude::*;

verus! {

/// An optional list of texts as an optional JSON array of strings.
pub open spec fn optional_text_list(texts: Option<Vec<String>>) -> Option<Json> {
    match texts {
        Some(present) => Some(text_list(present@)),
        None => None,
    }
}

/// An optional list of values as an optional JSON array.
pub open spec fn optional_list(items: Option<Vec<serde_json::Value>>) -> Option<Json> {
    match items {
        Some(present) => Some(Json::List(json_views(present@))),
        None => None,
    }
}

/// An optional number as an optional JSON integer.
pub open spec fn optional_integer(number: Option<i32>) -> Option<Json> {
    match number {
        Some(present) => Some(Json::Number(JsonNumber::Integer(present as int))),
        None => None,
    }
}

/// Whether `invocation` invokes the tool `name` with exactly the argument
/// object `arguments`.
pub open spec fn invokes(
    invocation: ToolInvocation,
    name: Seq<char>,
    arguments: Map<Seq<char>, Json>,
) -> bool {
    &&& invocation.name@ == name
    &&& json_view(invocation.arguments) == Json::Object(arguments)
}

/// The arguments for creating a top-level task.
pub open spec fn human_task_arguments(prompt: Seq<char>) -> Map<Seq<char>, Json> {
    no_members().insert("prompt"@, Json::Text(prompt))
}

/// The arguments for creating a sub-task: the three required members, and
/// each optional member that is present.
pub open spec fn agent_task_arguments(
    human_task_id: Seq<char>,
    agent_name: Seq<char>,
    role: Seq<char>,
    context_summary: Option<Json>,
    files_modified: Option<Json>,
    todos: Option<Json>,
) -> Map<Seq<char>, Json> {
    let required = no_members().insert("humanTaskId"@, Json::Text(human_task_id)).insert(
        "agentName"@,
        Json::Text(agent_name),
    ).insert("role"@, Json::Text(role));
    with_optional(
        with_optional(
            with_optional(required, "contextSummary"@, context_summary),
            "filesModified"@,
            files_modified,
        ),
        "todos"@,
        todos,
    )
}

/// The arguments for listing sub-tasks: each filter that is present.
pub open spec fn agent_task_filter(agent_name: Option<Json>, human_task_id: Option<Json>) -> Map<
    Seq<char>,
    Json,
> {
    with_optional(
        with_optional(no_members(), "agentName"@, agent_name),
        "humanTaskId"@,
        human_task_id,
    )
}

/// The arguments for updating a task's status.
pub open spec fn task_status_arguments(
    task_id: Seq<char>,
    status: Seq<char>,
    notes: Option<Json>,
) -> Map<Seq<char>, Json> {
    with_optional(
        no_members().insert("taskId"@, Json::Text(task_id)).insert("status"@, Json::Text(status)),
        "notes"@,
        notes,
    )
}

/// The arguments for putting a text into a collection.
pub open spec fn upsert_arguments(
    collection: Seq<char>,
    text: Seq<char>,
    metadata: Option<Json>,
) -> Map<Seq<char>, Json> {
    with_optional(
        no_members().insert("collection"@, Json::Text(collection)).insert(
            "text"@,
            Json::Text(text),
        ),
        "metadata"@,
        metadata,
    )
}

/// The arguments for querying a collection.
pub open spec fn query_arguments(
    collection: Seq<char>,
    query: Seq<char>,
    limit: Option<Json>,
) -> Map<Seq<char>, Json> {
    with_optional(
        no_members().insert("collection"@, Json::Text(collection)).insert(
            "query"@,
            Json::Text(query),
        ),
        "limit"@,
        limit,
    )
}

/// Creates a top-level task from a prompt.
pub fn create_human_task(prompt: String) -> (invocation: ToolInvocation)
    ensures
        invokes(invocation, "coordinator_create_human_task"@, human_task_arguments(prompt@)),
{
    let mut arguments = Arguments::new();
    arguments.set_text("prompt", prompt);
    ToolInvocation {
        name: "coordinator_create_human_task".to_owned(),
        arguments: arguments.finish(),
    }
}

/// Creates a sub-task under a top-level task, with an optional summary, an
/// optional list of files and an optional list of structured todo items.
pub fn create_agent_task(
    human_task_id: String,
    agent_name: String,
    role: String,
    context_summary: Option<String>,
    files_modified: Option<Vec<String>>,
    todos: Option<Vec<serde_json::Value>>,
) -> (invocation: ToolInvocation)
    ensures
        invokes(
            invocation,
            "coordinator_create_agent_task"@,
            agent_task_arguments(
                human_task_id@,
                agent_name@,
                role@,
                optional_text(context_summary),
                optional_text_list(files_modified),
                optional_list(todos),
            ),
        ),
{
    let mut arguments = Arguments::new();
    arguments.set_text("humanTaskId", human_task_id);
    arguments.set_text("agentName", agent_name);
    arguments.set_text("role", role);
    arguments.set_optional_text("contextSummary", context_summary);
    let files = match files_modified {
        Some(present) => Some(text_list_value(&present)),
        None => None,
    };
    arguments.set_optional("filesModified", files);
    let items = match todos {
        Some(present) => Some(list_value(present)),
        None => None,
    };
    arguments.set_optional("todos", items);
    ToolInvocation {
        name: "coordinator_create_agent_task".to_owned(),
        arguments: arguments.finish(),
    }
}

/// Lists the top-level tasks.
pub fn list_human_tasks() -> (invocation: ToolInvocation)
    ensures
        invokes(invocation, "coordinator_list_human_tasks"@, no_members()),
{
    ToolInvocation {
        name: "coordinator_list_human_tasks".to_owned(),
        arguments: Arguments::new().finish(),
    }
}

/// Lists sub-tasks, optionally only those of one agent, of one top-level
/// task, or both.
pub fn list_agent_tasks(agent_name: Option<String>, human_task_id: Option<String>) -> (invocation:
    ToolInvocation)
    ensures
        invokes(
            invocation,
            "coordinator_list_agent_tasks"@,
            agent_task_filter(optional_text(agent_name), optional_text(human_task_id)),
        ),
{
    let mut arguments = Arguments::new();
    arguments.set_optional_text("agentName", agent_name);
    arguments.set_optional_text("humanTaskId", human_task_id);
    ToolInvocation {
        name: "coordinator_list_agent_tasks".to_owned(),
        arguments: arguments.finish(),
    }
}

/// Sets the status of a task, with an optional note.
pub fn update_task_status(task_id: String, status: String, notes: Option<String>) -> (invocation:
    ToolInvocation)
    ensures
        invokes(
            invocation,
            "coordinator_update_task_status"@,
            task_status_arguments(task_id@, status@, optional_text(notes)),
        ),
{
    let mut arguments = Arguments::new();
    arguments.set_text("taskId", task_id);
    arguments.set_text("status", status);
    arguments.set_optional_text("notes", notes);
    ToolInvocation {
        name: "coordinator_update_task_status".to_owned(),
        arguments: arguments.finish(),
    }
}

/// Puts a text into a named collection, with optional metadata.
pub fn upsert_knowledge(collection: String, text: String, metadata: Option<serde_json::Value>) -> (invocation:
    ToolInvocation)
    ensures
        invokes(
            invocation,
            "coordinator_upsert_knowledge"@,
            upsert_arguments(collection@, text@, optional_view(metadata)),
        ),
{
    let mut arguments = Arguments::new();
    arguments.set_text("collection", collection);
    arguments.set_text("text", text);
    arguments.set_optional("metadata", metadata);
    ToolInvocation {
        name: "coordinator_upsert_knowledge".to_owned(),
        arguments: arguments.finish(),
    }
}

/// Queries a named collection by text, with an optional limit on the number
/// of results.
pub fn query_knowledge(collection: String, query: String, limit: Option<i32>) -> (invocation:
    ToolInvocation)
    ensures
        invokes(
            invocation,
            "coordinator_query_knowledge"@,
            query_arguments(collection@, query@, optional_integer(limit)),
        ),
{
    let mut arguments = Arguments::new();
    arguments.set_text("collection", collection);
    arguments.set_text("query", query);
    let bound = match limit {
        Some(present) => Some(integer_value(present)),
        None => None,
    };
    arguments.set_optional("limit", bound);
    ToolInvocation {
        name: "coordinator_query_knowledge".to_owned(),
        arguments: arguments.finish(),
    }
}

/// The keys of a sub-task's arguments are the three required ones and the
/// optional ones that are present, and no other: an absent optional argument
/// leaves no key.
pub proof fn lemma_agent_task_keys(
    human_task_id: Seq<char>,
    agent_name: Seq<char>,
    role: Seq<char>,
    context_summary: Option<Json>,
    files_modified: Option<Json>,
    todos: Option<Json>,
)
    ensures
        ({
            let keys = agent_task_arguments(
                human_task_id,
                agent_name,
                role,
                context_summary,
                files_modified,
                todos,
            ).dom();
            &&& keys.contains("humanTaskId"@)
            &&& keys.contains("agentName"@)
            &&& keys.contains("role"@)
            &&& keys.contains("contextSummary"@) <==> context_summary is Some
            &&& keys.contains("filesModified"@) <==> files_modified is Some
            &&& keys.contains("todos"@) <==> todos is Some
            &&& forall|key: Seq<char>| #[trigger]
                keys.contains(key) ==> key == "humanTaskId"@ || key == "agentName"@ || key
                    == "role"@ || key == "contextSummary"@ || key == "filesModified"@ || key
                    == "todos"@
        }),
{
    reveal_strlit("humanTaskId");
    reveal_strlit("agentName");
    reveal_strlit("role");
    reveal_strlit("contextSummary");
    reveal_strlit("filesModified");
    reveal_strlit("todos");
    assert("humanTaskId"@.len() == 11);
    assert("agentName"@.len() == 9);
    assert("role"@.len() == 4);
    assert("contextSummary"@.len() == 14);
    assert("filesModified"@.len() == 13);
    assert("todos"@.len() == 5);
}

/// The keys of a sub-task filter are exactly the filters that are present.
pub proof fn lemma_agent_task_filter_keys(agent_name: Option<Json>, human_task_id: Option<Json>)
    ensures
        ({
            let keys = agent_task_filter(agent_name, human_task_id).dom();
            &&& keys.contains("agentName"@) <==> agent_name is Some
            &&& keys.contains("humanTaskId"@) <==> human_task_id is Some
            &&& forall|key: Seq<char>| #[trigger]
                keys.contains(key) ==> key == "agentName"@ || key == "humanTaskId"@
        }),
{
    reveal_strlit("agentName");
    reveal_strlit("humanTaskId");
    assert("agentName"@.len() == 9);
    assert("humanTaskId"@.len() == 11);
}

/// The keys of a status update are the two required ones, and `notes`
/// exactly when a note is present.
pub proof fn lemma_task_status_keys(task_id: Seq<char>, status: Seq<char>, notes: Option<Json>)
    ensures
        ({
            let keys = task_status_arguments(task_id, status, notes).dom();
            &&& keys.contains("taskId"@)
            &&& keys.contains("status"@)
            &&& keys.contains("notes"@) <==> notes is Some
            &&& forall|key: Seq<char>| #[trigger]
                keys.contains(key) ==> key == "taskId"@ || key == "status"@ || key == "notes"@
        }),
{
    reveal_strlit("taskId");
    reveal_strlit("status");
    reveal_strlit("notes");
    assert("taskId"@.len() == 6);
    assert("status"@.len() == 6);
    assert("notes"@.len() == 5);
}

/// The keys of an upsert are the two required ones, and `metadata` exactly
/// when metadata is present.
pub proof fn lemma_upsert_keys(collection: Seq<char>, text: Seq<char>, metadata: Option<Json>)
    ensures
        ({
            let keys = upsert_arguments(collection, text, metadata).dom();
            &&& keys.contains("collection"@)
            &&& keys.contains("text"@)
            &&& keys.contains("metadata"@) <==> metadata is Some
            &&& forall|key: Seq<char>| #[trigger]
                keys.contains(key) ==> key == "collection"@ || key == "text"@ || key
                    == "metadata"@
        }),
{
    reveal_strlit("collection");
    reveal_strlit("text");
    reveal_strlit("metadata");
    assert("collection"@.len() == 10);
    assert("text"@.len() == 4);
    assert("metadata"@.len() == 8);
}

/// The keys of a query are the two required ones, and `limit` exactly when a
/// limit is present.
pub proof fn lemma_query_keys(collection: Seq<char>, query: Seq<char>, limit: Option<Json>)
    ensures
        ({
            let keys = query_arguments(collection, query, limit).dom();
            &&& keys.contains("collection"@)
            &&& keys.contains("query"@)
            &&& keys.contains("limit"@) <==> limit is Some
            &&& forall|key: Seq<char>| #[trigger]
                keys.contains(key) ==> key == "collection"@ || key == "query"@ || key == "limit"@
        }),
{
    reveal_strlit("collection");
    reveal_strlit("query");
    reveal_strlit("limit");
    assert("collection"@.len() == 10);
    assert("query"@.len() == 5);
    assert("limit"@.len() == 5);
    assert("query"@[0] == 'q');
    assert("limit"@[0] == 'l');
}

} // verus!
