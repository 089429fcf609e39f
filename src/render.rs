//! The line layout of a notebook: a header per cell, its source lines, the
//! outputs of code cells, and an empty separator line.

use vstd::prelude::*;
use crate::notebook::{BundleView, Cell, CellView, Notebook, Output, OutputView, strings_view};

verus! {

/// A content line: the vertical bar, a space, then the text.
pub open spec fn barred(s: Seq<char>) -> Seq<char> {
    "│ "@ + s
}

/// Each line of `s`, barred.
pub open spec fn barred_lines(s: Seq<Seq<char>>) -> Seq<Seq<char>> {
    s.map_values(|l: Seq<char>| barred(l))
}

/// The header line of a cell of type `t`.
pub open spec fn header(t: Seq<char>) -> Seq<char> {
    "─── "@ + t + " cell ───"@
}

/// The line that opens each rendered output.
pub open spec fn output_header() -> Seq<char> {
    "│ Output:"@
}

/// The value of the first entry of a bundle whose key is `key`, if any.
pub open spec fn bundle_lookup(d: BundleView, key: Seq<char>) -> Option<Option<Seq<char>>>
    decreases d.len(),
{
    if d.len() == 0 {
        None
    } else if d[0].0 == key {
        Some(d[0].1)
    } else {
        bundle_lookup(d.drop_first(), key)
    }
}

/// A representation's text; the empty text where it is not a string.
pub open spec fn shown_text(v: Option<Seq<char>>) -> Seq<char> {
    match v {
        Some(t) => t,
        None => Seq::empty(),
    }
}

/// True of the output types whose MIME bundle is shown.
pub open spec fn is_rich(t: Seq<char>) -> bool {
    t == "execute_result"@ || t == "display_data"@
}

/// The lines of one output of a code cell.
pub open spec fn output_lines(o: OutputView) -> Seq<Seq<char>> {
    if is_rich(o.output_type) {
        match o.data {
            Some(d) => match bundle_lookup(d, "text/plain"@) {
                Some(v) => seq![output_header(), barred(shown_text(v))],
                None => Seq::empty(),
            },
            None => Seq::empty(),
        }
    } else if o.output_type == "stream"@ {
        match o.text {
            Some(t) => seq![output_header()] + barred_lines(t),
            None => Seq::empty(),
        }
    } else {
        Seq::empty()
    }
}

/// The lines of a sequence of outputs, in order.
pub open spec fn outputs_lines(os: Seq<OutputView>) -> Seq<Seq<char>>
    decreases os.len(),
{
    if os.len() == 0 {
        Seq::empty()
    } else {
        outputs_lines(os.drop_last()) + output_lines(os.last())
    }
}

/// The lines of one cell: header, source, outputs where it is a code cell, separator.
pub open spec fn cell_lines(c: CellView) -> Seq<Seq<char>> {
    seq![header(c.cell_type)] + barred_lines(c.source) + (if c.cell_type == "code"@ {
        outputs_lines(c.outputs)
    } else {
        Seq::empty()
    }) + seq![Seq::<char>::empty()]
}

/// The lines of a notebook: those of its cells, in order.
pub open spec fn notebook_lines(cells: Seq<CellView>) -> Seq<Seq<char>>
    decreases cells.len(),
{
    if cells.len() == 0 {
        Seq::empty()
    } else {
        notebook_lines(cells.drop_last()) + cell_lines(cells.last())
    }
}

proof fn lemma_barred_lines_step(s: Seq<Seq<char>>, i: int)
    requires
        0 <= i < s.len(),
    ensures
        barred_lines(s.subrange(0, i + 1)) == barred_lines(s.subrange(0, i)).push(barred(s[i])),
{
    assert(barred_lines(s.subrange(0, i + 1)) =~= barred_lines(s.subrange(0, i)).push(barred(s[i])));
}

/// Appends one line.
fn emit(out: &mut Vec<String>, line: String)
    ensures
        strings_view(final(out)@) == strings_view(old(out)@).push(line@),
{
    out.push(line);
    assert(strings_view(out@) =~= strings_view(old(out)@).push(line@));
}

/// The barred form of a line of text.
fn bar(line: &String) -> (r: String)
    ensures
        r@ == barred(line@),
{
    String::from_str("│ ").concat(line.as_str())
}

/// Appends each of `lines`, barred.
fn emit_barred(lines: &Vec<String>, out: &mut Vec<String>)
    ensures
        strings_view(final(out)@) == strings_view(old(out)@) + barred_lines(strings_view(lines@)),
{
    let ghost base = strings_view(out@);
    let ghost s = strings_view(lines@);
    let mut i: usize = 0;
    while i < lines.len()
        invariant
            i <= lines@.len(),
            s == strings_view(lines@),
            strings_view(out@) == base + barred_lines(s.subrange(0, i as int)),
        decreases lines.len() - i,
    {
        proof {
            lemma_barred_lines_step(s, i as int);
        }
        emit(out, bar(&lines[i]));
        assert(base + barred_lines(s.subrange(0, i + 1)) =~= (base + barred_lines(
            s.subrange(0, i as int),
        )).push(barred(lines@[i as int]@)));
        i = i + 1;
    }
    assert(s.subrange(0, s.len() as int) =~= s);
}

/// The `text/plain` representation of a bundle, as shown: the first entry under
/// that key, its text or the empty text.
fn plain_text(d: &Vec<(String, Option<String>)>) -> (r: Option<String>)
    ensures
        match bundle_lookup(crate::notebook::bundle_view(d@), "text/plain"@) {
            Some(v) => r matches Some(t) && t@ == shown_text(v),
            None => r is None,
        },
{
    let key = String::from_str("text/plain");
    let ghost b = crate::notebook::bundle_view(d@);
    let mut i: usize = 0;
    assert(b.subrange(0, b.len() as int) =~= b);
    while i < d.len()
        invariant
            i <= d@.len(),
            b == crate::notebook::bundle_view(d@),
            key@ == "text/plain"@,
            bundle_lookup(b, "text/plain"@) == bundle_lookup(b.subrange(i as int, b.len() as int), "text/plain"@),
        decreases d.len() - i,
    {
        let ghost rest = b.subrange(i as int, b.len() as int);
        assert(rest[0] == b[i as int]);
        if d[i].0 == key {
            let t = match &d[i].1 {
                Some(t) => t.clone(),
                None => String::new(),
            };
            return Some(t);
        }
        assert(rest.drop_first() =~= b.subrange(i + 1, b.len() as int));
        i = i + 1;
    }
    None
}

/// Appends the lines of one output of a code cell.
pub fn render_output(o: &Output, out: &mut Vec<String>)
    ensures
        strings_view(final(out)@) == strings_view(old(out)@) + output_lines(o@),
{
    let ghost base = strings_view(out@);
    let is_result = o.output_type == String::from_str("execute_result")
        || o.output_type == String::from_str("display_data");
    if is_result {
        match &o.data {
            Some(d) => match plain_text(d) {
                Some(t) => {
                    emit(out, String::from_str("│ Output:"));
                    emit(out, bar(&t));
                    assert(strings_view(out@) =~= base + output_lines(o@));
                },
                None => {
                    assert(strings_view(out@) =~= base + output_lines(o@));
                },
            },
            None => {
                assert(strings_view(out@) =~= base + output_lines(o@));
            },
        }
    } else if o.output_type == String::from_str("stream") {
        match &o.text {
            Some(t) => {
                emit(out, String::from_str("│ Output:"));
                emit_barred(t, out);
                assert(strings_view(out@) =~= base + output_lines(o@));
            },
            None => {
                assert(strings_view(out@) =~= base + output_lines(o@));
            },
        }
    } else {
        assert(strings_view(out@) =~= base + output_lines(o@));
    }
}

/// Appends the lines of one cell.
pub fn render_cell(c: &Cell, out: &mut Vec<String>)
    ensures
        strings_view(final(out)@) == strings_view(old(out)@) + cell_lines(c@),
{
    let ghost base = strings_view(out@);
    let head = String::from_str("─── ").concat(c.cell_type.as_str()).concat(" cell ───");
    emit(out, head);
    emit_barred(&c.source, out);
    let ghost before_outputs = strings_view(out@);
    if c.cell_type == String::from_str("code") {
        let mut i: usize = 0;
        while i < c.outputs.len()
            invariant
                i <= c.outputs@.len(),
                strings_view(out@) == before_outputs + outputs_lines(
                    c@.outputs.subrange(0, i as int),
                ),
            decreases c.outputs.len() - i,
        {
            render_output(&c.outputs[i], out);
            assert(c@.outputs.subrange(0, i + 1).drop_last() =~= c@.outputs.subrange(0, i as int));
            assert(strings_view(out@) =~= before_outputs + outputs_lines(c@.outputs.subrange(0, i + 1)));
            i = i + 1;
        }
        assert(c@.outputs.subrange(0, c@.outputs.len() as int) =~= c@.outputs);
    }
    emit(out, String::new());
    assert(strings_view(out@) =~= base + cell_lines(c@));
}

/// The lines of a whole notebook, cell after cell.
pub fn render(nb: &Notebook) -> (r: Vec<String>)
    ensures
        strings_view(r@) == notebook_lines(nb@),
{
    let mut out: Vec<String> = Vec::new();
    let mut i: usize = 0;
    while i < nb.cells.len()
        invariant
            i <= nb.cells@.len(),
            strings_view(out@) == notebook_lines(nb@.subrange(0, i as int)),
        decreases nb.cells.len() - i,
    {
        render_cell(&nb.cells[i], &mut out);
        assert(nb@.subrange(0, i + 1).drop_last() =~= nb@.subrange(0, i as int));
        i = i + 1;
    }
    assert(nb@.subrange(0, nb@.len() as int) =~= nb@);
    out
}

/// Rendering depends on the notebook alone: two renderings of one notebook
/// give the same lines.
pub proof fn lemma_render_deterministic(nb: Notebook, first: Vec<String>, second: Vec<String>)
    requires
        strings_view(first@) == notebook_lines(nb@),
        strings_view(second@) == notebook_lines(nb@),
    ensures
        first@.len() == second@.len(),
        forall|i: int| 0 <= i < first@.len() ==> #[trigger] first@[i]@ == second@[i]@,
{
    assert(strings_view(first@).len() == first@.len());
    assert(strings_view(second@).len() == second@.len());
    assert forall|i: int| 0 <= i < first@.len() implies #[trigger] first@[i]@ == second@[i]@ by {
        assert(strings_view(first@)[i] == first@[i]@);
        assert(strings_view(second@)[i] == second@[i]@);
    }
}

/// A cell with no source lines and no outputs renders as exactly two lines:
/// its header and the empty separator.
pub proof fn lemma_empty_cell_lines(c: CellView)
    requires
        c.source.len() == 0,
        c.outputs.len() == 0,
    ensures
        cell_lines(c) == seq![header(c.cell_type), Seq::<char>::empty()],
{
    assert(barred_lines(c.source) =~= Seq::empty());
    assert(cell_lines(c) =~= seq![header(c.cell_type), Seq::<char>::empty()]);
}

/// A cell that is not a code cell shows none of its outputs: its lines are its
/// header, its source lines and the separator, whatever its outputs hold.
pub proof fn lemma_non_code_cell_hides_outputs(c: CellView)
    requires
        c.cell_type != "code"@,
    ensures
        cell_lines(c) == seq![header(c.cell_type)] + barred_lines(c.source) + seq![
            Seq::<char>::empty(),
        ],
{
    assert(cell_lines(c) =~= seq![header(c.cell_type)] + barred_lines(c.source) + seq![
        Seq::<char>::empty(),
    ]);
}

/// An `execute_result` or `display_data` output whose bundle has no
/// `text/plain` entry renders as no line at all, not even the output header.
pub proof fn lemma_rich_output_without_plain_text(o: OutputView)
    requires
        is_rich(o.output_type),
        o.data matches Some(d) && bundle_lookup(d, "text/plain"@) is None,
    ensures
        output_lines(o) == Seq::<Seq<char>>::empty(),
{
}

} // verus!
