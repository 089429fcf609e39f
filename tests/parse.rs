use nbview::{decode_cell, Json, Notebook, NotebookError};

fn s(t: &str) -> String {
    t.to_string()
}

#[test]
fn missing_cells_is_malformed() {
    let r = Notebook::parse("{\"metadata\": {}}");
    assert_eq!(r.unwrap_err(), NotebookError::MalformedDocument);
}

#[test]
fn root_not_an_object_is_malformed() {
    assert_eq!(Notebook::parse("[1, 2]").unwrap_err(), NotebookError::MalformedDocument);
}

#[test]
fn invalid_json_is_malformed() {
    assert_eq!(Notebook::parse("{\"cells\": [").unwrap_err(), NotebookError::MalformedDocument);
    assert_eq!(Notebook::parse("").unwrap_err(), NotebookError::MalformedDocument);
}

#[test]
fn cells_not_an_array_gives_no_cells() {
    let nb = Notebook::parse("{\"cells\": 5}").unwrap();
    assert_eq!(nb.cells.len(), 0);
}

#[test]
fn non_array_source_is_empty_and_others_decode() {
    let text = "{\"cells\": [
        {\"cell_type\": \"code\", \"source\": \"print(1)\"},
        {\"cell_type\": \"markdown\", \"source\": [\"# Hi\", \"there\"]}
    ]}";
    let nb = Notebook::parse(text).unwrap();
    assert_eq!(nb.cells.len(), 2);
    assert_eq!(nb.cells[0].cell_type, "code");
    assert!(nb.cells[0].source.is_empty());
    assert_eq!(nb.cells[1].cell_type, "markdown");
    assert_eq!(nb.cells[1].source, vec![s("# Hi"), s("there")]);
}

#[test]
fn missing_cell_type_defaults_to_code() {
    let nb = Notebook::parse("{\"cells\": [{\"source\": [\"x\"]}, {\"cell_type\": 3}]}").unwrap();
    assert_eq!(nb.cells[0].cell_type, "code");
    assert_eq!(nb.cells[1].cell_type, "code");
}

#[test]
fn non_string_source_entries_become_empty() {
    let nb = Notebook::parse("{\"cells\": [{\"cell_type\": \"raw\", \"source\": [\"a\", 7, null, \"b\"]}]}").unwrap();
    assert_eq!(nb.cells[0].source, vec![s("a"), s(""), s(""), s("b")]);
}

#[test]
fn outputs_decode_with_defaults() {
    let text = "{\"cells\": [{\"cell_type\": \"code\", \"source\": [], \"outputs\": [
        {\"output_type\": \"stream\", \"text\": [\"a\", 1]},
        {\"output_type\": \"execute_result\", \"data\": {\"text/plain\": \"1\", \"image/png\": 5}},
        {\"data\": [1]}
    ]}]}";
    let nb = Notebook::parse(text).unwrap();
    let outs = &nb.cells[0].outputs;
    assert_eq!(outs.len(), 3);
    assert_eq!(outs[0].output_type, "stream");
    assert_eq!(outs[0].text, Some(vec![s("a"), s("")]));
    assert!(outs[0].data.is_none());
    assert_eq!(outs[1].output_type, "execute_result");
    let data = outs[1].data.as_ref().unwrap();
    assert_eq!(data.len(), 2);
    assert!(data.contains(&(s("text/plain"), Some(s("1")))));
    assert!(data.contains(&(s("image/png"), None)));
    assert_eq!(outs[2].output_type, "");
    assert!(outs[2].data.is_none());
    assert!(outs[2].text.is_none());
}

#[test]
fn missing_outputs_is_empty() {
    let nb = Notebook::parse("{\"cells\": [{\"cell_type\": \"code\", \"source\": [], \"outputs\": {}}]}").unwrap();
    assert!(nb.cells[0].outputs.is_empty());
}

#[test]
fn decode_cell_from_tree() {
    let j = Json::Object(vec![
        (s("cell_type"), Json::Str(s("markdown"))),
        (s("source"), Json::Array(vec![Json::Str(s("# T")), Json::Bool(true)])),
    ]);
    let c = decode_cell(&j);
    assert_eq!(c.cell_type, "markdown");
    assert_eq!(c.source, vec![s("# T"), s("")]);
    assert!(c.outputs.is_empty());
}

#[test]
fn decode_cell_of_non_object() {
    let c = decode_cell(&Json::Null);
    assert_eq!(c.cell_type, "code");
    assert!(c.source.is_empty());
}

#[test]
fn from_json_without_cells() {
    let doc = Json::Object(vec![(s("nbformat"), Json::Number(s("4")))]);
    assert_eq!(Notebook::from_json(&doc).unwrap_err(), NotebookError::MalformedDocument);
}

#[test]
fn json_get_finds_first_member() {
    let j = Json::Object(vec![
        (s("a"), Json::Str(s("one"))),
        (s("b"), Json::Null),
        (s("a"), Json::Str(s("two"))),
    ]);
    match j.get("a") {
        Some(Json::Str(v)) => assert_eq!(v, "one"),
        _ => panic!("member a not found"),
    }
    assert!(matches!(j.get("b"), Some(Json::Null)));
    assert!(j.get("c").is_none());
    assert!(Json::Array(vec![]).get("a").is_none());
}

#[test]
fn error_messages() {
    assert_eq!(NotebookError::MalformedDocument.message(), "MalformedDocument");
    assert_eq!(NotebookError::IoUnavailable.message(), "IOUnavailable");
}
