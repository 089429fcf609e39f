//! The notebook's document model, and its decoding from a JSON tree.
//!
//! Only the absence of the top-level `cells` member (or text that is not JSON
//! at all) rejects a document. Every narrower defect falls back to a default.

use vstd::prelude::*;
use crate::json::{Json, json_decode, decode_json};

verus! {

/// A MIME bundle as plain values: each key with its value's text, where the value is a string.
pub type BundleView = Seq<(Seq<char>, Option<Seq<char>>)>;

/// What an output of a cell holds.
pub struct OutputView {
    pub output_type: Seq<char>,
    pub data: Option<BundleView>,
    pub text: Option<Seq<Seq<char>>>,
}

/// What a cell holds.
pub struct CellView {
    pub cell_type: Seq<char>,
    pub source: Seq<Seq<char>>,
    pub outputs: Seq<OutputView>,
}

/// One recorded result of running a code cell.
#[derive(Debug)]
pub struct Output {
    pub output_type: String,
    /// The MIME bundle, present when the document held an object there.
    pub data: Option<Vec<(String, Option<String>)>>,
    /// The stream's lines, present when the document held an array there.
    pub text: Option<Vec<String>>,
}

/// One unit of a notebook.
#[derive(Debug)]
pub struct Cell {
    pub cell_type: String,
    pub source: Vec<String>,
    pub outputs: Vec<Output>,
}

/// The whole document: its cells in order.
#[derive(Debug)]
pub struct Notebook {
    pub cells: Vec<Cell>,
}

/// Why a document could not be turned into a notebook.
#[derive(Debug, Clone, Copy, PartialEq, Eq, Structural)]
pub enum NotebookError {
    /// The document could not be read.
    IoUnavailable,
    /// The document is not JSON, or has no `cells` member.
    MalformedDocument,
}

pub open spec fn strings_view(v: Seq<String>) -> Seq<Seq<char>> {
    v.map_values(|s: String| s@)
}

pub open spec fn opt_string_view(o: Option<String>) -> Option<Seq<char>> {
    match o {
        Some(s) => Some(s@),
        None => None,
    }
}

pub open spec fn bundle_view(v: Seq<(String, Option<String>)>) -> BundleView {
    v.map_values(|e: (String, Option<String>)| (e.0@, opt_string_view(e.1)))
}

impl View for Output {
    type V = OutputView;

    open spec fn view(&self) -> OutputView {
        OutputView {
            output_type: self.output_type@,
            data: match self.data {
                Some(d) => Some(bundle_view(d@)),
                None => None,
            },
            text: match self.text {
                Some(t) => Some(strings_view(t@)),
                None => None,
            },
        }
    }
}

impl View for Cell {
    type V = CellView;

    open spec fn view(&self) -> CellView {
        CellView {
            cell_type: self.cell_type@,
            source: strings_view(self.source@),
            outputs: self.outputs@.map_values(|o: Output| o@),
        }
    }
}

impl View for Notebook {
    type V = Seq<CellView>;

    open spec fn view(&self) -> Seq<CellView> {
        self.cells@.map_values(|c: Cell| c@)
    }
}

impl NotebookError {
    /// The text shown to a user for this error.
    pub fn message(&self) -> (r: String)
        ensures
            r@ == self.message_spec(),
    {
        match self {
            NotebookError::IoUnavailable => String::from_str("IOUnavailable"),
            NotebookError::MalformedDocument => String::from_str("MalformedDocument"),
        }
    }

    pub open spec fn message_spec(&self) -> Seq<char> {
        match self {
            NotebookError::IoUnavailable => "IOUnavailable"@,
            NotebookError::MalformedDocument => "MalformedDocument"@,
        }
    }
}

/// The text of a string value.
pub open spec fn text_of(j: Json) -> Option<Seq<char>> {
    match j {
        Json::Str(s) => Some(s@),
        _ => None,
    }
}

/// The text of a present string member, else `default`.
pub open spec fn text_or(j: Option<Json>, default: Seq<char>) -> Seq<char> {
    match j {
        Some(Json::Str(s)) => s@,
        _ => default,
    }
}

/// A line of text: a string's own text, the empty line for any other value.
pub open spec fn line_of(j: Json) -> Seq<char> {
    text_or(Some(j), Seq::empty())
}

/// The lines of a present array member.
pub open spec fn lines_of(j: Option<Json>) -> Option<Seq<Seq<char>>> {
    match j {
        Some(Json::Array(a)) => Some(a@.map_values(|e: Json| line_of(e))),
        _ => None,
    }
}

/// The MIME bundle of a present object member.
pub open spec fn bundle_of(j: Option<Json>) -> Option<BundleView> {
    match j {
        Some(Json::Object(e)) => Some(e@.map_values(|p: (String, Json)| (p.0@, text_of(p.1)))),
        _ => None,
    }
}

/// The output that a JSON value describes.
pub open spec fn output_model(j: Json) -> OutputView {
    OutputView {
        output_type: text_or(j.field("output_type"@), Seq::empty()),
        data: bundle_of(j.field("data"@)),
        text: lines_of(j.field("text"@)),
    }
}

/// The cell that a JSON value describes.
pub open spec fn cell_model(j: Json) -> CellView {
    CellView {
        cell_type: text_or(j.field("cell_type"@), "code"@),
        source: match lines_of(j.field("source"@)) {
            Some(l) => l,
            None => Seq::empty(),
        },
        outputs: match j.field("outputs"@) {
            Some(Json::Array(a)) => a@.map_values(|e: Json| output_model(e)),
            _ => Seq::empty(),
        },
    }
}

/// The cells that a document describes; nothing where it has no `cells` member.
/// A `cells` member that is not an array describes no cells.
pub open spec fn notebook_model(doc: Json) -> Option<Seq<CellView>> {
    match doc.field("cells"@) {
        None => None,
        Some(Json::Array(a)) => Some(a@.map_values(|e: Json| cell_model(e))),
        Some(_) => Some(Seq::empty()),
    }
}

/// `r` is the outcome owed for a document whose cells are `m`.
pub open spec fn decoded_as(r: Result<Notebook, NotebookError>, m: Option<Seq<CellView>>) -> bool {
    match m {
        None => r == Err::<Notebook, NotebookError>(NotebookError::MalformedDocument),
        Some(cells) => r matches Ok(nb) && nb@ == cells,
    }
}

/// The lines of an array: each string's text, an empty line for anything else.
fn decode_lines(a: &Vec<Json>) -> (r: Vec<String>)
    ensures
        strings_view(r@) == a@.map_values(|e: Json| line_of(e)),
{
    let mut r: Vec<String> = Vec::new();
    let mut i: usize = 0;
    while i < a.len()
        invariant
            i <= a@.len(),
            r@.len() == i,
            forall|k: int| 0 <= k < i ==> #[trigger] r@[k]@ == line_of(a@[k]),
        decreases a.len() - i,
    {
        let line = match &a[i] {
            Json::Str(s) => s.clone(),
            _ => String::new(),
        };
        r.push(line);
        i = i + 1;
    }
    assert(strings_view(r@) =~= a@.map_values(|e: Json| line_of(e)));
    r
}

/// The lines of a member, where it is an array.
fn decode_opt_lines(j: Option<&Json>) -> (r: Option<Vec<String>>)
    ensures
        match r {
            Some(v) => lines_of(opt_ref(j)) == Some(strings_view(v@)),
            None => lines_of(opt_ref(j)) is None,
        },
{
    match j {
        Some(Json::Array(a)) => Some(decode_lines(a)),
        _ => None,
    }
}

/// An optional borrowed member, seen as an optional value.
pub open spec fn opt_ref(j: Option<&Json>) -> Option<Json> {
    match j {
        Some(v) => Some(*v),
        None => None,
    }
}

/// A MIME bundle: each key, with its value's text where the value is a string.
fn decode_bundle(e: &Vec<(String, Json)>) -> (r: Vec<(String, Option<String>)>)
    ensures
        bundle_view(r@) == e@.map_values(|p: (String, Json)| (p.0@, text_of(p.1))),
{
    let mut r: Vec<(String, Option<String>)> = Vec::new();
    let mut i: usize = 0;
    while i < e.len()
        invariant
            i <= e@.len(),
            r@.len() == i,
            forall|k: int| 0 <= k < i ==> (#[trigger] r@[k]).0@ == e@[k].0@ && opt_string_view(r@[k].1) == text_of(e@[k].1),
        decreases e.len() - i,
    {
        let value = match &e[i].1 {
            Json::Str(s) => Some(s.clone()),
            _ => None,
        };
        r.push((e[i].0.clone(), value));
        i = i + 1;
    }
    assert(bundle_view(r@) =~= e@.map_values(|p: (String, Json)| (p.0@, text_of(p.1))));
    r
}

/// Decodes one output. Never fails: missing or ill-typed members take their defaults.
pub fn decode_output(j: &Json) -> (o: Output)
    ensures
        o@ == output_model(*j),
{
    let output_type = match j.get("output_type") {
        Some(Json::Str(s)) => s.clone(),
        _ => String::new(),
    };
    let data = match j.get("data") {
        Some(Json::Object(e)) => Some(decode_bundle(e)),
        _ => None,
    };
    let text = decode_opt_lines(j.get("text"));
    let o = Output { output_type, data, text };
    assert(o@.text == output_model(*j).text);
    o
}

/// Decodes one cell. Never fails: missing or ill-typed members take their defaults,
/// and a missing `cell_type` is `code`.
pub fn decode_cell(j: &Json) -> (c: Cell)
    ensures
        c@ == cell_model(*j),
{
    let cell_type = match j.get("cell_type") {
        Some(Json::Str(s)) => s.clone(),
        _ => String::from_str("code"),
    };
    let source = match decode_opt_lines(j.get("source")) {
        Some(v) => v,
        None => Vec::new(),
    };
    let mut outputs: Vec<Output> = Vec::new();
    match j.get("outputs") {
        Some(Json::Array(a)) => {
            let mut i: usize = 0;
            while i < a.len()
                invariant
                    i <= a@.len(),
                    outputs@.len() == i,
                    forall|k: int| 0 <= k < i ==> #[trigger] outputs@[k]@ == output_model(a@[k]),
                decreases a.len() - i,
            {
                let o = decode_output(&a[i]);
                outputs.push(o);
                i = i + 1;
            }
            assert(outputs@.map_values(|o: Output| o@) =~= a@.map_values(|e: Json| output_model(e)));
        },
        _ => {},
    }
    let c = Cell { cell_type, source, outputs };
    assert(c@.source =~= cell_model(*j).source);
    assert(c@.outputs =~= cell_model(*j).outputs);
    c
}

impl Notebook {
    /// Builds the notebook that a decoded document describes. Fails only where the
    /// document has no `cells` member.
    pub fn from_json(doc: &Json) -> (r: Result<Notebook, NotebookError>)
        ensures
            decoded_as(r, notebook_model(*doc)),
    {
        let mut cells: Vec<Cell> = Vec::new();
        match doc.get("cells") {
            None => {
                return Err(NotebookError::MalformedDocument);
            },
            Some(Json::Array(a)) => {
                let mut i: usize = 0;
                while i < a.len()
                    invariant
                        i <= a@.len(),
                        cells@.len() == i,
                        forall|k: int| 0 <= k < i ==> #[trigger] cells@[k]@ == cell_model(a@[k]),
                    decreases a.len() - i,
                {
                    let c = decode_cell(&a[i]);
                    cells.push(c);
                    i = i + 1;
                }
                assert(cells@.map_values(|c: Cell| c@) =~= a@.map_values(|e: Json| cell_model(e)));
            },
            Some(_) => {},
        }
        let nb = Notebook { cells };
        assert(nb@ =~= notebook_model(*doc).unwrap());
        Ok(nb)
    }

    /// Parses notebook text: fails with `MalformedDocument` where the text is not
    /// JSON or the document has no `cells` member, and otherwise yields its cells.
    pub fn parse(text: &str) -> (r: Result<Notebook, NotebookError>)
        ensures
            match json_decode(text@) {
                None => r == Err::<Notebook, NotebookError>(NotebookError::MalformedDocument),
                Some(doc) => decoded_as(r, notebook_model(doc)),
            },
    {
        match decode_json(text) {
            None => Err(NotebookError::MalformedDocument),
            Some(doc) => Notebook::from_json(&doc),
        }
    }
}

/// A document without a `cells` member is rejected as malformed.
pub proof fn lemma_missing_cells_rejected(doc: Json, r: Result<Notebook, NotebookError>)
    requires
        doc.field("cells"@) is None,
        decoded_as(r, notebook_model(doc)),
    ensures
        r == Err::<Notebook, NotebookError>(NotebookError::MalformedDocument),
{
}

/// A cell whose `source` member is missing or not an array decodes with no
/// source lines, and keeps its type and outputs; the cells of a document are
/// decoded one by one, so the others are unaffected.
pub proof fn lemma_non_array_source_is_empty(doc: Json, k: int)
    requires
        notebook_model(doc) matches Some(cells) && 0 <= k < cells.len(),
        doc.field("cells"@) matches Some(Json::Array(a)) && !(a@[k].field("source"@) matches Some(
            Json::Array(_),
        )),
    ensures
        notebook_model(doc).unwrap()[k].source == Seq::<Seq<char>>::empty(),
        notebook_model(doc).unwrap()[k].cell_type == text_or(
            doc.field("cells"@).unwrap()->Array_0@[k].field("cell_type"@),
            "code"@,
        ),
{
}

} // verus!
