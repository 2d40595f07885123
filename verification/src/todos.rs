//! The list itself: its state, the messages, and what each message does.

use crate::storage::{decode, decoding, encode, encoding};
use crate::text::{blank, lemma_trimmed_twice, trim, trimmed};
use vstd::prelude::*;

verus! {

/// What the user can do to the list.
#[derive(Debug, Clone, Hash, PartialEq, Eq)]
pub enum Message {
    /// Enter the text of the entry field as a new item.
    SubmitTodo(),
    /// Take out the item at this position.
    RemoveTodo(usize),
    /// The entry field now holds this text.
    TextInputChanged(String),
}

/// A message, as the contracts see it.
pub enum MessageView {
    SubmitTodo,
    RemoveTodo(int),
    TextInputChanged(Seq<char>),
}

impl View for Message {
    type V = MessageView;

    open spec fn view(&self) -> MessageView {
        match self {
            Message::SubmitTodo() => MessageView::SubmitTodo,
            Message::RemoveTodo(index) => MessageView::RemoveTodo(*index as int),
            Message::TextInputChanged(text) => MessageView::TextInputChanged(text@),
        }
    }
}

/// What `Todos::update` asks its caller to do.
#[derive(Debug, PartialEq, Eq)]
pub enum Command {
    /// Nothing is to be done.
    Nothing,
    /// Replace what is saved by these bytes, the saved form of all the
    /// items, then tell `Todos::save_finished` whether that failed.
    Save(Vec<u8>),
}

impl View for Command {
    type V = Option<Seq<u8>>;

    open spec fn view(&self) -> Option<Seq<u8>> {
        match self {
            Command::Nothing => None,
            Command::Save(bytes) => Some(bytes@),
        }
    }
}

/// The state of the list, as the contracts see it.
pub struct Model {
    /// The items, in the order in which they were entered.
    pub items: Seq<Seq<char>>,
    /// The text of the entry field.
    pub pending_input: Seq<char>,
    /// Whether the items may differ from what was last saved.
    pub dirty: bool,
}

impl Model {
    /// The state with these items, an empty entry field, and nothing unsaved.
    pub open spec fn loaded(items: Seq<Seq<char>>) -> Model {
        Model { items, pending_input: Seq::empty(), dirty: false }
    }

    /// No item is blank.
    pub open spec fn well_formed(self) -> bool {
        forall|i: int| 0 <= i < self.items.len() ==> !blank(#[trigger] self.items[i])
    }

    /// Whether `message` may be applied: a position to remove must hold an
    /// item.
    pub open spec fn accepts(self, message: MessageView) -> bool {
        match message {
            MessageView::RemoveTodo(index) => 0 <= index < self.items.len(),
            _ => true,
        }
    }

    /// The items once the pending text is entered: the trimmed text stands
    /// behind the others.
    pub open spec fn entered(self) -> Seq<Seq<char>> {
        self.items.push(trimmed(self.pending_input))
    }

    /// The state after `message`, before the outcome of any saving is known.
    /// Entering a text marks the list as unsaved where the items have no
    /// saved form, so that nothing can be saved; otherwise only a change of
    /// the entry field touches the flag.
    pub open spec fn step(self, message: MessageView) -> Model {
        match message {
            MessageView::SubmitTodo => if blank(self.pending_input) {
                self
            } else {
                Model {
                    items: self.entered(),
                    pending_input: Seq::empty(),
                    dirty: self.dirty || encoding(self.entered()).is_none(),
                }
            },
            MessageView::RemoveTodo(index) => Model {
                items: self.items.remove(index),
                pending_input: self.pending_input,
                dirty: self.dirty,
            },
            MessageView::TextInputChanged(text) => Model {
                items: self.items,
                pending_input: text,
                dirty: true,
            },
        }
    }

    /// The bytes to save after `message`, if it asks for saving: the saved
    /// form of all the items, after an item was entered. Nothing is asked
    /// where the items have no saved form.
    pub open spec fn command(self, message: MessageView) -> Option<Seq<u8>> {
        match message {
            MessageView::SubmitTodo => if blank(self.pending_input) {
                None
            } else {
                encoding(self.entered())
            },
            _ => None,
        }
    }

    /// The state once saving has ended: a save that failed marks the list as
    /// unsaved, one that succeeded leaves the flag as it was.
    pub open spec fn save_finished(self, failed: bool) -> Model {
        Model {
            items: self.items,
            pending_input: self.pending_input,
            dirty: self.dirty || failed,
        }
    }
}

/// The list: its items, the text of the entry field, and whether the items
/// may differ from what was last saved.
pub struct Todos {
    items: Vec<String>,
    pending_input: String,
    dirty: bool,
}

impl Default for Todos {
    /// The empty list, with an empty entry field and nothing unsaved.
    fn default() -> (todos: Todos)
        ensures
            todos.model() == Model::loaded(Seq::empty()),
            todos.model().well_formed(),
    {
        let items: Vec<String> = Vec::new();
        assert(items.deep_view() =~= Seq::empty());
        Todos::new(items)
    }
}

impl Todos {
    /// The state that this value stands for.
    pub closed spec fn model(&self) -> Model {
        Model {
            items: self.items.deep_view(),
            pending_input: self.pending_input@,
            dirty: self.dirty,
        }
    }

    /// The list of these items, with an empty entry field and nothing
    /// unsaved. The items are taken as they are, blank ones too.
    pub fn new(items: Vec<String>) -> (todos: Todos)
        ensures
            todos.model() == Model::loaded(items.deep_view()),
    {
        Todos { items, pending_input: String::new(), dirty: false }
    }

    /// The list as it was saved: the texts that `saved` holds, or the empty
    /// list where nothing could be read.
    pub fn restore(saved: Option<&[u8]>) -> (todos: Todos)
        ensures
            todos.model() == Model::loaded(
                match saved {
                    Some(bytes) => decoding(bytes@),
                    None => Seq::empty(),
                },
            ),
    {
        match saved {
            Some(bytes) => Todos::new(decode(bytes)),
            None => Todos::default(),
        }
    }

    /// Applies `message`. Entering trims the text of the entry field and, if
    /// anything is left, appends it to the items, empties the field and asks
    /// for all the items to be saved, or marks the list as unsaved where
    /// they have no saved form; removing takes out the item at the position;
    /// a change of the entry field is taken over and marks the list as
    /// unsaved.
    pub fn update(&mut self, message: Message) -> (command: Command)
        requires
            old(self).model().accepts(message@),
        ensures
            final(self).model() == old(self).model().step(message@),
            command@ == old(self).model().command(message@),
            old(self).model().well_formed() ==> final(self).model().well_formed(),
    {
        proof {
            if self.model().well_formed() {
                lemma_step_keeps_well_formed(self.model(), message@);
            }
        }
        match message {
            Message::SubmitTodo() => {
                let text = trim(self.pending_input.as_str());
                if !text.is_empty() {
                    let item = text.to_string();
                    let ghost before = self.items.deep_view();
                    self.items.push(item);
                    assert(self.items.deep_view() =~= before.push(item@));
                    self.pending_input = String::new();
                    match encode(&self.items) {
                        Some(bytes) => Command::Save(bytes),
                        None => {
                            self.dirty = true;
                            Command::Nothing
                        },
                    }
                } else {
                    Command::Nothing
                }
            },
            Message::RemoveTodo(index) => {
                let ghost before = self.items.deep_view();
                self.items.remove(index);
                assert(self.items.deep_view() =~= before.remove(index as int));
                Command::Nothing
            },
            Message::TextInputChanged(text) => {
                self.pending_input = text;
                self.dirty = true;
                Command::Nothing
            },
        }
    }

    /// Takes note of how the saving that `update` asked for has ended: a
    /// save that failed marks the list as unsaved, one that succeeded leaves
    /// the flag as it was.
    pub fn save_finished(&mut self, failed: bool)
        ensures
            final(self).model() == old(self).model().save_finished(failed),
    {
        if failed {
            self.dirty = true;
        }
    }

    /// The title of the window: it tells whether the list is unsaved.
    pub fn title(&self) -> (title: String)
        ensures
            title@ == if self.model().dirty {
                "Todos (*dirty*)"@
            } else {
                "Todos"@
            },
    {
        if self.dirty {
            "Todos (*dirty*)".to_string()
        } else {
            "Todos".to_string()
        }
    }

    /// The items, in the order in which they were entered.
    pub fn items(&self) -> (items: &Vec<String>)
        ensures
            items.deep_view() == self.model().items,
    {
        &self.items
    }

    /// The text of the entry field.
    pub fn pending_input(&self) -> (text: &str)
        ensures
            text@ == self.model().pending_input,
    {
        self.pending_input.as_str()
    }

    /// Whether the items may differ from what was last saved.
    pub fn is_dirty(&self) -> (dirty: bool)
        ensures
            dirty == self.model().dirty,
    {
        self.dirty
    }
}

/// Entering a text of which something is left after trimming adds exactly
/// one item, the trimmed text, behind the others, and empties the entry
/// field. The saved form of all the items is then to be saved; where they
/// have none, nothing is to be saved and the list is marked as unsaved.
pub proof fn lemma_submit_appends(model: Model)
    requires
        trimmed(model.pending_input).len() > 0,
    ensures
        model.step(MessageView::SubmitTodo).items.len() == model.items.len() + 1,
        model.step(MessageView::SubmitTodo).items == model.items.push(
            trimmed(model.pending_input),
        ),
        model.step(MessageView::SubmitTodo).pending_input.len() == 0,
        model.command(MessageView::SubmitTodo) == encoding(
            model.step(MessageView::SubmitTodo).items,
        ),
        model.step(MessageView::SubmitTodo).dirty == (model.dirty || model.command(
            MessageView::SubmitTodo,
        ).is_none()),
{
}

/// Whatever is saved, and however that ends, no item and nothing of the
/// entry field is taken back; a save that failed marks the list as unsaved,
/// and one that succeeded leaves the flag as it was.
pub proof fn lemma_save_finished(model: Model, failed: bool)
    ensures
        model.save_finished(failed).items == model.items,
        model.save_finished(failed).pending_input == model.pending_input,
        failed ==> model.save_finished(failed).dirty,
        !failed ==> model.save_finished(failed).dirty == model.dirty,
{
}

/// A list that is marked as unsaved stays so, whatever message follows and
/// however a save ends.
pub proof fn lemma_dirty_stays(model: Model, message: MessageView, failed: bool)
    requires
        model.dirty,
    ensures
        model.step(message).dirty,
        model.save_finished(failed).dirty,
{
}

/// Entering a text of which nothing is left after trimming changes neither
/// the items nor the entry field, nor anything else, and asks for no saving.
pub proof fn lemma_submit_blank_changes_nothing(model: Model)
    requires
        trimmed(model.pending_input).len() == 0,
    ensures
        model.step(MessageView::SubmitTodo) == model,
        model.command(MessageView::SubmitTodo).is_none(),
{
}

/// Removing the item at a position that holds one leaves one item fewer:
/// those before the position stay where they were, those behind it move up
/// by one, so the items that remain keep their order.
pub proof fn lemma_remove_keeps_order(model: Model, index: int)
    requires
        0 <= index < model.items.len(),
    ensures
        model.step(MessageView::RemoveTodo(index)).items.len() == model.items.len() - 1,
        forall|i: int|
            0 <= i < index ==> #[trigger] model.step(MessageView::RemoveTodo(index)).items[i]
                == model.items[i],
        forall|i: int|
            index <= i < model.items.len() - 1 ==> #[trigger] model.step(
                MessageView::RemoveTodo(index),
            ).items[i] == model.items[i + 1],
        model.step(MessageView::RemoveTodo(index)).pending_input == model.pending_input,
        model.step(MessageView::RemoveTodo(index)).dirty == model.dirty,
{
}

/// A change of the entry field marks the list as unsaved, whatever it was
/// before; the field then holds the new text and the items are as they were.
pub proof fn lemma_input_changed_marks_dirty(model: Model, text: Seq<char>)
    ensures
        model.step(MessageView::TextInputChanged(text)).dirty,
        model.step(MessageView::TextInputChanged(text)).pending_input == text,
        model.step(MessageView::TextInputChanged(text)).items == model.items,
{
}

/// A message that the state accepts leaves no blank item where there was
/// none.
pub proof fn lemma_step_keeps_well_formed(model: Model, message: MessageView)
    requires
        model.accepts(message),
        model.well_formed(),
    ensures
        model.step(message).well_formed(),
{
    match message {
        MessageView::SubmitTodo => {
            lemma_trimmed_twice(model.pending_input);
        },
        _ => {},
    }
}

} // verus!
