//! What the page shows for a configuration: one row per item, each with a
//! label and a text input, and the data pane below them.

use crate::json::{data_representation, pretty_json};
use crate::store::{Config, Pair};
use vstd::prelude::*;

verus! {

/// A text input bound to a value, with its "Empty" indicator.
#[derive(Debug)]
pub struct InputView {
    pub text: String,
    pub empty: bool,
}

/// One list entry: the key as label, and the input bound to the value.
#[derive(Debug)]
pub struct RowView {
    pub label: String,
    pub input: InputView,
}

/// The whole page: the list entries in order, and the text of the data pane.
#[derive(Debug)]
pub struct PageView {
    pub rows: Vec<RowView>,
    pub data: String,
}

/// The model of an input: its text and what its indicator says.
pub open spec fn input_of(value: Seq<char>) -> (Seq<char>, bool) {
    (value, value.len() == 0)
}

impl View for InputView {
    type V = (Seq<char>, bool);

    open spec fn view(&self) -> (Seq<char>, bool) {
        (self.text@, self.empty)
    }
}

impl RowView {
    /// This entry shows `pair`: the key as its label, the value in its input,
    /// and the indicator set exactly when the value has no characters.
    pub open spec fn shows(&self, pair: Pair) -> bool {
        self.label@ == pair.0 && self.input@ == input_of(pair.1)
    }
}

/// The entries show the rows, one for one and in the same order.
pub open spec fn rows_show(entries: Seq<RowView>, rows: Seq<Pair>) -> bool {
    &&& entries.len() == rows.len()
    &&& forall|i: int| 0 <= i < rows.len() ==> (#[trigger] entries[i]).shows(rows[i])
}

/// The input for a value: its text, and whether it is empty.
pub fn render_input(value: &str) -> (input: InputView)
    ensures
        input@ == input_of(value@),
{
    InputView { text: value.to_owned(), empty: value.is_empty() }
}

/// The list entries for a configuration.
pub fn render_rows(config: &Config) -> (entries: Vec<RowView>)
    ensures
        rows_show(entries@, config@),
{
    let mut entries: Vec<RowView> = Vec::new();
    let mut i: usize = 0;
    while i < config.schema.len()
        invariant
            i <= config.schema.len(),
            entries@.len() == i,
            forall|j: int| 0 <= j < i ==> (#[trigger] entries@[j]).shows(config@[j]),
        decreases config.schema.len() - i,
    {
        let item = &config.schema[i];
        let entry = RowView {
            label: item.key.clone(),
            input: render_input(item.value.as_str()),
        };
        entries.push(entry);
        i += 1;
    }
    entries
}

/// The page for a configuration.
pub fn render_page(config: &Config) -> (page: PageView)
    ensures
        rows_show(page.rows@, config@),
        page.data@ == pretty_json(config@),
{
    PageView { rows: render_rows(config), data: data_representation(config) }
}

/// An empty collection is shown without entries.
pub proof fn empty_collection_shows_no_rows(entries: Seq<RowView>)
    requires
        rows_show(entries, Seq::<Pair>::empty()),
    ensures
        entries.len() == 0,
{
}

/// After an edit of one row, the entries that show the collection differ from
/// those before in that row alone, whose indicator is set exactly when the
/// new text has no characters.
pub proof fn edit_shows_in_one_row(
    before: Seq<RowView>,
    after: Seq<RowView>,
    rows: Seq<Pair>,
    at: int,
    text: Seq<char>,
)
    requires
        0 <= at < rows.len(),
        rows_show(before, rows),
        rows_show(after, rows.update(at, (rows[at].0, text))),
    ensures
        after.len() == before.len(),
        after[at].label@ == before[at].label@,
        after[at].input.text@ == text,
        after[at].input.empty == (text.len() == 0),
        forall|j: int|
            0 <= j < rows.len() && j != at ==> {
                &&& (#[trigger] after[j]).label@ == before[j].label@
                &&& after[j].input@ == before[j].input@
            },
{
    let edited = rows.update(at, (rows[at].0, text));
    assert(after[at].shows(edited[at]));
    assert(before[at].shows(rows[at]));
    assert forall|j: int| 0 <= j < rows.len() && j != at implies {
        &&& (#[trigger] after[j]).label@ == before[j].label@
        &&& after[j].input@ == before[j].input@
    } by {
        assert(after[j].shows(edited[j]));
        assert(before[j].shows(rows[j]));
    }
}

} // verus!
