//! Choice lists: the entries of a panel as plain data, and the select view
//! of the terminal toolkit that is filled from them.

use vstd::prelude::*;
use cursive::views::SelectView;

verus! {

/// One entry of a choice list: `label` is shown, `value` is stored when the
/// entry is picked.
#[derive(Clone, Debug, PartialEq, Eq)]
pub struct SelectionOption {
    pub label: String,
    pub value: String,
}

impl View for SelectionOption {
    type V = (Seq<char>, Seq<char>);

    open spec fn view(&self) -> (Seq<char>, Seq<char>) {
        (self.label@, self.value@)
    }
}

impl SelectionOption {
    /// The entry with the given label and value.
    pub fn new(label: &str, value: &str) -> (option: SelectionOption)
        ensures
            option@ == (label@, value@),
    {
        SelectionOption { label: label.to_owned(), value: value.to_owned() }
    }
}

/// The (label, value) pairs of a list of entries, in order.
pub open spec fn option_pairs(options: Seq<SelectionOption>) -> Seq<(Seq<char>, Seq<char>)> {
    options.map_values(|option: SelectionOption| option@)
}

/// The entry that gets the focus when entry `index` is asked for in a list
/// of `len` entries: an index past the end resolves to the last entry, and
/// in an empty list to 0.
pub open spec fn clamped(index: int, len: int) -> int {
    if len <= 0 {
        0
    } else if index < len {
        index
    } else {
        len - 1
    }
}

/// `cursive::views::SelectView`, the choice widget of the terminal
/// toolkit. Nothing inside it is visible here: what it holds is spoken of
/// through `select_items` and `select_focus`.
#[verifier::external_type_specification]
#[verifier::external_body]
#[verifier::reject_recursive_types(T)]
pub struct ExSelectView<T>(SelectView<T>);

/// The entries of a select view as (label, value) pairs, in display order.
/// A label stands for its plain text.
pub uninterp spec fn select_items(view: SelectView<String>) -> Seq<(Seq<char>, Seq<char>)>;

/// The index that a select view keeps as its focus: the entry that is drawn
/// highlighted and is handed out on submit.
pub uninterp spec fn select_focus(view: SelectView<String>) -> int;

/// `SelectView::new`: the new view has no entry and its focus is 0.
#[verifier::external_body]
pub(crate) fn select_new() -> (view: SelectView<String>)
    ensures
        select_items(view) == Seq::<(Seq<char>, Seq<char>)>::empty(),
        select_focus(view) == 0,
{
    SelectView::new()
}

/// `SelectView::add_item`: the entry is appended behind the present ones,
/// its label as plain text; the focus stays where it was.
#[verifier::external_body]
pub(crate) fn select_add_item(view: &mut SelectView<String>, label: &str, value: String)
    ensures
        select_items(*final(view)) == select_items(*old(view)).push((label@, value@)),
        select_focus(*final(view)) == select_focus(*old(view)),
{
    view.add_item(label, value)
}

/// `SelectView::set_selection`: the focus moves to `index`, capped at the
/// last entry, or to 0 in an empty view; the entries stay as they were.
/// The callback that the call hands back is dropped, as the chainable
/// `selected` drops it.
#[verifier::external_body]
pub(crate) fn select_set_selection(view: &mut SelectView<String>, index: usize)
    ensures
        select_items(*final(view)) == select_items(*old(view)),
        select_focus(*final(view)) == clamped(index as int, select_items(*old(view)).len() as int),
{
    let _ = view.set_selection(index);
}

/// A panel of the wizard: the title of its dialog, the name under which
/// the dialog is registered, and the select view with its choices.
pub struct Panel {
    pub title: String,
    pub name: String,
    pub view: SelectView<String>,
}

/// Appends the entries `options[from..to]` to the view, in order, and
/// leaves the focus where it was.
pub fn push_options(
    view: &mut SelectView<String>,
    options: &Vec<SelectionOption>,
    from: usize,
    to: usize,
)
    requires
        from <= to <= options.len(),
    ensures
        select_items(*final(view)) == select_items(*old(view)) + option_pairs(options@).subrange(
            from as int,
            to as int,
        ),
        select_focus(*final(view)) == select_focus(*old(view)),
{
    let mut i: usize = from;
    while i < to
        invariant
            from <= i <= to <= options.len(),
            select_items(*view) == select_items(*old(view)) + option_pairs(options@).subrange(
                from as int,
                i as int,
            ),
            select_focus(*view) == select_focus(*old(view)),
        decreases to - i,
    {
        let option = &options[i];
        select_add_item(view, option.label.as_str(), option.value.clone());
        assert(option_pairs(options@).subrange(from as int, i + 1) =~= option_pairs(
            options@,
        ).subrange(from as int, i as int).push(options@[i as int]@));
        i += 1;
    }
}

} // verus!
