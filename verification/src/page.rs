//! What the window shows: the entry field with its button, and below it one
//! row for each item. The page says what is shown and which message each
//! control sends; how it is laid out and drawn is left to the caller.

use crate::todos::{Message, MessageView, Model, Todos};
use vstd::prelude::*;

verus! {

/// A button: what it is labelled, and the message that it sends when
/// pressed.
#[derive(Debug, PartialEq, Eq)]
pub struct Button {
    pub label: String,
    pub on_press: Message,
}

/// A button, as the contracts see it.
pub struct ButtonView {
    pub label: Seq<char>,
    pub on_press: MessageView,
}

impl View for Button {
    type V = ButtonView;

    open spec fn view(&self) -> ButtonView {
        ButtonView { label: self.label@, on_press: self.on_press@ }
    }
}

/// The entry field: what it shows while empty, the text it holds, and the
/// message that it sends when the text is entered. A change of its text is
/// sent as the message that `TextInput::on_input` makes of the new text.
#[derive(Debug, PartialEq, Eq)]
pub struct TextInput {
    pub placeholder: String,
    pub value: String,
    pub on_submit: Message,
}

/// The entry field, as the contracts see it.
pub struct TextInputView {
    pub placeholder: Seq<char>,
    pub value: Seq<char>,
    pub on_submit: MessageView,
}

impl View for TextInput {
    type V = TextInputView;

    open spec fn view(&self) -> TextInputView {
        TextInputView {
            placeholder: self.placeholder@,
            value: self.value@,
            on_submit: self.on_submit@,
        }
    }
}

impl TextInput {
    /// The message that tells that the entry field now holds `text`.
    pub fn on_input(text: String) -> (message: Message)
        ensures
            message@ == MessageView::TextInputChanged(text@),
    {
        Message::TextInputChanged(text)
    }
}

/// The row of one item: its text, and the button that removes it.
#[derive(Debug, PartialEq, Eq)]
pub struct TodoRow {
    pub text: String,
    pub delete: Button,
}

/// The row of one item, as the contracts see it.
pub struct TodoRowView {
    pub text: Seq<char>,
    pub delete: ButtonView,
}

impl View for TodoRow {
    type V = TodoRowView;

    open spec fn view(&self) -> TodoRowView {
        TodoRowView { text: self.text@, delete: self.delete@ }
    }
}

/// The whole page: the entry field, the button beside it, and the rows of
/// the items from top to bottom.
#[derive(Debug, PartialEq, Eq)]
pub struct Page {
    pub input: TextInput,
    pub add: Button,
    pub rows: Vec<TodoRow>,
}

/// The whole page, as the contracts see it.
pub struct PageView {
    pub input: TextInputView,
    pub add: ButtonView,
    pub rows: Seq<TodoRowView>,
}

impl View for Page {
    type V = PageView;

    open spec fn view(&self) -> PageView {
        PageView {
            input: self.input@,
            add: self.add@,
            rows: Seq::new(self.rows.len() as nat, |i: int| self.rows[i]@),
        }
    }
}

/// The row of the item at `index`: it shows the item's text, and its button
/// removes the item at that very position.
pub open spec fn row_of(model: Model, index: int) -> TodoRowView {
    TodoRowView {
        text: model.items[index],
        delete: ButtonView { label: "delete"@, on_press: MessageView::RemoveTodo(index) },
    }
}

/// The page of a state: the entry field holds the pending text and enters it
/// when submitted, as does the button beside it; the rows are those of the
/// items, in the order of the items.
pub open spec fn page_of(model: Model) -> PageView {
    PageView {
        input: TextInputView {
            placeholder: "New todo"@,
            value: model.pending_input,
            on_submit: MessageView::SubmitTodo,
        },
        add: ButtonView { label: "Add"@, on_press: MessageView::SubmitTodo },
        rows: Seq::new(model.items.len(), |i: int| row_of(model, i)),
    }
}

impl Todos {
    /// The page that shows this list.
    pub fn view(&self) -> (page: Page)
        ensures
            page@ == page_of(self.model()),
    {
        let items = self.items();
        let mut rows: Vec<TodoRow> = Vec::new();
        let mut i: usize = 0;
        while i < items.len()
            invariant
                i <= items.len(),
                items.deep_view() == self.model().items,
                rows.len() == i,
                forall|k: int| 0 <= k < i ==> (#[trigger] rows[k])@ == row_of(self.model(), k),
            decreases items.len() - i,
        {
            let row = TodoRow {
                text: items[i].clone(),
                delete: Button { label: "delete".to_string(), on_press: Message::RemoveTodo(i) },
            };
            assert(row@ == row_of(self.model(), i as int));
            rows.push(row);
            i += 1;
        }
        let page = Page {
            input: TextInput {
                placeholder: "New todo".to_string(),
                value: self.pending_input().to_string(),
                on_submit: Message::SubmitTodo(),
            },
            add: Button { label: "Add".to_string(), on_press: Message::SubmitTodo() },
            rows,
        };
        assert(page@.rows =~= page_of(self.model()).rows);
        page
    }
}

/// The entry field and the button beside it send a message that the state
/// of the page accepts, and both enter the pending text.
pub proof fn lemma_page_submits(model: Model)
    ensures
        page_of(model).input.on_submit == MessageView::SubmitTodo,
        page_of(model).add.on_press == MessageView::SubmitTodo,
        model.accepts(MessageView::SubmitTodo),
        page_of(model).rows.len() == model.items.len(),
{
}

/// The row at a position shows the item at that position, and its button
/// sends a message that the state of the page accepts and that removes this
/// item and no other.
pub proof fn lemma_row_removes_its_item(model: Model, index: int)
    requires
        0 <= index < model.items.len(),
    ensures
        page_of(model).rows[index].text == model.items[index],
        model.accepts(page_of(model).rows[index].delete.on_press),
        model.step(page_of(model).rows[index].delete.on_press).items == model.items.remove(
            index,
        ),
{
}

} // verus!
