use todo_list::page::{Button, TextInput, TodoRow};
use todo_list::todos::{Message, Todos};

#[test]
fn the_page_of_the_empty_list_has_no_rows() {
    let page = Todos::default().view();
    assert!(page.rows.is_empty());
    assert_eq!(
        page.input,
        TextInput {
            placeholder: "New todo".to_string(),
            value: String::new(),
            on_submit: Message::SubmitTodo(),
        }
    );
    assert_eq!(page.add, Button { label: "Add".to_string(), on_press: Message::SubmitTodo() });
}

#[test]
fn the_entry_field_shows_the_pending_text() {
    let mut todos = Todos::default();
    todos.update(Message::TextInputChanged("Buy".to_string()));
    assert_eq!(todos.view().input.value, "Buy");
}

#[test]
fn the_rows_follow_the_items_and_remove_their_own_position() {
    let todos = Todos::new(vec!["a".to_string(), "b".to_string(), "a".to_string()]);
    let page = todos.view();
    let row = |text: &str, index: usize| TodoRow {
        text: text.to_string(),
        delete: Button { label: "delete".to_string(), on_press: Message::RemoveTodo(index) },
    };
    assert_eq!(page.rows, vec![row("a", 0), row("b", 1), row("a", 2)]);
}

#[test]
fn pressing_the_button_of_a_row_removes_its_item() {
    let mut todos = Todos::new(vec!["a".to_string(), "b".to_string(), "c".to_string()]);
    let mut page = todos.view();
    let row = page.rows.remove(1);
    assert_eq!(row.text, "b");
    todos.update(row.delete.on_press);
    assert_eq!(todos.items(), &vec!["a".to_string(), "c".to_string()]);
    let texts: Vec<String> = todos.view().rows.into_iter().map(|row| row.text).collect();
    assert_eq!(texts, vec!["a".to_string(), "c".to_string()]);
}

#[test]
fn submitting_through_the_page_adds_the_item() {
    let mut todos = Todos::default();
    todos.update(TextInput::on_input("Buy milk".to_string()));
    let page = todos.view();
    todos.update(page.input.on_submit);
    todos.update(TextInput::on_input("Call home".to_string()));
    let page = todos.view();
    todos.update(page.add.on_press);
    assert_eq!(todos.items(), &vec!["Buy milk".to_string(), "Call home".to_string()]);
}

#[test]
fn a_change_of_the_entry_field_is_sent_as_its_message() {
    assert_eq!(
        TextInput::on_input("a".to_string()),
        Message::TextInputChanged("a".to_string())
    );
}
