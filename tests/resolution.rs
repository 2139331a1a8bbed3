use dynamic_info::fanout::Query;
use dynamic_info::render::render_payload;
use dynamic_info::{
    Agent, ComputingDynamicInfo, ContextDocument, ContextResolution, Prompt, ResolveError,
    RetrievedItem, ToolRegistry, ToolResolution,
};
use serde_json::Value;

fn registry(names: &[&str]) -> ToolRegistry {
    let mut reg = ToolRegistry::new();
    for n in names {
        reg.add(n.to_string());
    }
    reg
}

fn agent(context: Vec<usize>, static_tools: &[&str], dynamic: Vec<usize>, tools: &[&str]) -> Agent {
    Agent {
        dynamic_context: context,
        static_tools: static_tools.iter().map(|s| s.to_string()).collect(),
        dynamic_tools: dynamic,
        tools: registry(tools),
    }
}

fn item(id: &str, payload: Value) -> RetrievedItem {
    RetrievedItem { id: id.to_string(), payload }
}

fn strings(v: &[&str]) -> Vec<String> {
    v.iter().map(|s| s.to_string()).collect()
}

fn text(s: &str) -> Prompt {
    Prompt::Text(s.to_string())
}

fn ids(docs: &[ContextDocument]) -> Vec<String> {
    docs.iter().map(|d| d.id.clone()).collect()
}

fn drive_context(mut run: ContextResolution, answers: Vec<Result<Vec<RetrievedItem>, String>>) -> (Vec<Query>, Result<Vec<ContextDocument>, ResolveError>) {
    let mut asked = Vec::new();
    let mut answers = answers.into_iter();
    while let Some(q) = run.next_query() {
        asked.push(q);
        match answers.next().expect("an answer for each query") {
            Ok(items) => run.record_items(items),
            Err(m) => run.record_failure(m),
        }
    }
    (asked, run.finish())
}

fn drive_tools(mut run: ToolResolution, answers: Vec<Result<Vec<String>, String>>) -> (Vec<Query>, Result<(Vec<usize>, Vec<String>), ResolveError>) {
    let mut asked = Vec::new();
    let mut answers = answers.into_iter();
    while let Some(q) = run.next_query() {
        asked.push(q);
        match answers.next().expect("an answer for each query") {
            Ok(found) => run.record_ids(found),
            Err(m) => run.record_failure(m),
        }
    }
    (asked, run.finish().map(|r| (r.found, r.missing)))
}

#[test]
fn prompt_without_text_is_rejected_by_both_resolvers() {
    let a = agent(vec![2], &["calculator"], vec![1], &["calculator"]);
    assert_eq!(a.computing_context(&Prompt::NonText).err(), Some(ResolveError::InvalidPrompt));
    assert_eq!(a.computing_tools(&Prompt::NonText).err(), Some(ResolveError::InvalidPrompt));
}

#[test]
fn rag_text_of_prompts() {
    assert_eq!(text("hello").rag_text(), Some("hello".to_string()));
    assert_eq!(Prompt::NonText.rag_text(), None);
}

#[test]
fn context_documents_follow_source_then_rank_order() {
    let a = agent(vec![2, 1], &[], vec![], &[]);
    let run = a.computing_context(&text("weather")).unwrap();
    assert_eq!(run.text(), "weather");
    let (asked, out) = drive_context(
        run,
        vec![
            Ok(vec![item("a1", Value::from(1)), item("a2", Value::from(2))]),
            Ok(vec![item("b1", Value::from(3))]),
        ],
    );
    assert_eq!(
        asked,
        vec![Query { source: 0, sample_count: 2 }, Query { source: 1, sample_count: 1 }]
    );
    let docs = out.unwrap();
    assert_eq!(ids(&docs), strings(&["a1", "a2", "b1"]));
    assert_eq!(docs[2].text, "3");
    assert!(docs.iter().all(|d| d.additional_props.is_empty()));
}

#[test]
fn context_with_no_sources_is_empty() {
    let a = agent(vec![], &[], vec![], &[]);
    let (asked, out) = drive_context(a.computing_context(&text("q")).unwrap(), vec![]);
    assert!(asked.is_empty());
    assert!(out.unwrap().is_empty());
}

#[test]
fn context_source_failure_yields_no_documents() {
    let a = agent(vec![2, 1, 3], &[], vec![], &[]);
    let (asked, out) = drive_context(
        a.computing_context(&text("q")).unwrap(),
        vec![Ok(vec![item("a1", Value::Null)]), Err("storage error".to_string())],
    );
    assert_eq!(asked.len(), 2);
    assert_eq!(out.err(), Some(ResolveError::RetrievalFailure("storage error".to_string())));
}

#[test]
fn first_context_source_failure() {
    let a = agent(vec![1], &[], vec![], &[]);
    let (asked, out) = drive_context(
        a.computing_context(&text("q")).unwrap(),
        vec![Err("disk gone".to_string())],
    );
    assert_eq!(asked, vec![Query { source: 0, sample_count: 1 }]);
    let e = out.unwrap_err();
    assert_eq!(e.message(), "disk gone");
}

#[test]
fn static_then_dynamic_tools_with_unregistered_id() {
    let a = agent(vec![], &["calculator"], vec![2], &["calculator", "search"]);
    let (asked, out) = drive_tools(
        a.computing_tools(&text("compute")).unwrap(),
        vec![Ok(strings(&["search", "ghost"]))],
    );
    assert_eq!(asked, vec![Query { source: 0, sample_count: 2 }]);
    let (found, missing) = out.unwrap();
    assert_eq!(found, vec![0, 1]);
    assert_eq!(missing, strings(&["ghost"]));
}

#[test]
fn static_tools_come_before_dynamic_ones() {
    let a = agent(vec![], &["search", "calculator"], vec![1, 1], &["calculator", "search"]);
    let (_, out) = drive_tools(
        a.computing_tools(&text("q")).unwrap(),
        vec![Ok(strings(&["calculator"])), Ok(strings(&["search"]))],
    );
    let (found, missing) = out.unwrap();
    assert_eq!(found, vec![1, 0, 0, 1]);
    assert!(missing.is_empty());
}

#[test]
fn missing_static_tool_is_skipped_and_later_one_kept() {
    let a = agent(vec![], &["absent", "calculator"], vec![], &["calculator"]);
    let run = a.computing_tools(&text("q")).unwrap();
    assert_eq!(run.static_missing(), &strings(&["absent"]));
    let (asked, out) = drive_tools(run, vec![]);
    assert!(asked.is_empty());
    let (found, missing) = out.unwrap();
    assert_eq!(found, vec![0]);
    assert_eq!(missing, strings(&["absent"]));
}

#[test]
fn tool_source_failure_discards_static_tools() {
    let a = agent(vec![], &["calculator"], vec![1, 1], &["calculator"]);
    let (asked, out) = drive_tools(
        a.computing_tools(&text("q")).unwrap(),
        vec![Err("index offline".to_string())],
    );
    assert_eq!(asked.len(), 1);
    assert_eq!(out.err(), Some(ResolveError::RetrievalFailure("index offline".to_string())));
}

#[test]
fn repeated_resolution_gives_identical_output() {
    let a = agent(vec![1, 2], &["calculator"], vec![2], &["calculator", "search"]);
    let once = || {
        let (_, ctx) = drive_context(
            a.computing_context(&text("q")).unwrap(),
            vec![Ok(vec![item("x", Value::from("p"))]), Ok(vec![item("y", Value::Bool(true))])],
        );
        let (_, tools) = drive_tools(
            a.computing_tools(&text("q")).unwrap(),
            vec![Ok(strings(&["search", "calculator"]))],
        );
        let ctx = ctx.unwrap();
        (ids(&ctx), ctx.iter().map(|d| d.text.clone()).collect::<Vec<_>>(), tools.unwrap())
    };
    assert_eq!(once(), once());
}

#[test]
fn registry_lookup_and_replacement() {
    let mut reg = registry(&["calculator", "search"]);
    assert_eq!(reg.len(), 2);
    assert_eq!(reg.lookup(&"search".to_string()), Some(1));
    assert_eq!(reg.lookup(&"ghost".to_string()), None);
    assert_eq!(reg.add("search".to_string()), 1);
    assert_eq!(reg.len(), 2);
    assert_eq!(reg.add("ghost".to_string()), 2);
    assert_eq!(reg.name(2), "ghost");
}

#[test]
fn resolve_names_keeps_order() {
    let reg = registry(&["a", "b"]);
    let r = reg.resolve_names(&strings(&["b", "x", "a", "b", "y"]));
    assert_eq!(r.found, vec![1, 0, 1]);
    assert_eq!(r.missing, strings(&["x", "y"]));
}

#[test]
fn payload_is_rendered_as_indented_json() {
    let mut m = serde_json::Map::new();
    m.insert("city".to_string(), Value::from("London"));
    m.insert("zip".to_string(), Value::from(1));
    let v = Value::Object(m);
    assert_eq!(render_payload(&v), "{\n  \"city\": \"London\",\n  \"zip\": 1\n}");
    assert_eq!(render_payload(&Value::from("a")), "\"a\"");
    assert_eq!(render_payload(&Value::Array(vec![])), "[]");
}

#[test]
fn context_document_text_is_rendered_payload() {
    let a = agent(vec![1], &[], vec![], &[]);
    let payload = Value::Array(vec![Value::from(1), Value::from(2)]);
    let (_, out) = drive_context(
        a.computing_context(&text("q")).unwrap(),
        vec![Ok(vec![item("d", payload)])],
    );
    let docs = out.unwrap();
    assert_eq!(docs[0].text, "[\n  1,\n  2\n]");
}

#[test]
fn invalid_prompt_message() {
    assert_eq!(ResolveError::InvalidPrompt.message(), "Invalid prompt");
}
