use bountui::appframework::UpdateResult;
use bountui::components::alert::Alert;
use bountui::components::alerts::Alerts;
use bountui::components::input_dialog::{Button, InputDialog, InputField, SelectedItem};
use bountui::components::navigation_input::{NavigationInput, MY_SESSIONS, SCOPE_TREE};
use bountui::components::table::action::{Action, Availability};
use bountui::components::table::commands::{
    Command, Commands, HasCommands, SessionCommands, TargetCommands,
};
use bountui::components::table::filter::{match_str, Filter};
use bountui::components::table::util::format_title_with_parent;
use bountui::components::text_input::TextInput;
use bountui::event_ext::{
    Event, EventExt, Key, KeyPress, MODIFIER_ALT, MODIFIER_CONTROL, MODIFIER_SHIFT,
};
use bountui::message::Message;

fn key(code: Key) -> Event {
    Event::Key(KeyPress::plain(code))
}

fn key_char(c: char) -> Event {
    key(Key::Char(c))
}

fn key_tab() -> Event {
    key(Key::Tab)
}

fn type_text(input: &mut TextInput, text: &str) {
    for c in text.chars() {
        input.handle_event(&key_char(c));
    }
}

#[test]
fn enter_and_stop_are_recognised() {
    assert!(key(Key::Enter).is_enter());
    assert!(Event::Key(KeyPress::control(Key::Enter)).is_enter());
    assert!(!key(Key::Esc).is_enter());
    assert!(!Event::Other.is_enter());
    assert!(Event::Key(KeyPress::control(Key::Char('c'))).is_stop());
    assert!(!key_char('c').is_stop());
    assert!(!Event::Key(KeyPress::control(Key::Char('d'))).is_stop());
    let both = KeyPress { code: Key::Char('c'), modifiers: MODIFIER_CONTROL | MODIFIER_SHIFT };
    assert!(!Event::Key(both).is_stop());
    assert!(!Event::Other.is_stop());
    assert_eq!(key(Key::Up).code(), Some(Key::Up));
    assert_eq!(Event::Other.code(), None);
}

#[test]
fn text_input_types_and_deletes() {
    let mut input = TextInput::empty();
    assert_eq!(input.value(), "");
    type_text(&mut input, "port");
    assert_eq!(input.value(), "port");
    assert_eq!(input.cursor(), 4);
    input.handle_event(&key(Key::Backspace));
    assert_eq!(input.value(), "por");
    input.handle_event(&key(Key::Left));
    input.handle_event(&key(Key::Left));
    input.handle_event(&key_char('X'));
    assert_eq!(input.value(), "pXor");
    assert_eq!(input.cursor(), 2);
    input.handle_event(&key(Key::Delete));
    assert_eq!(input.value(), "pXr");
    input.handle_event(&key(Key::Home));
    assert_eq!(input.cursor(), 0);
    input.handle_event(&key(Key::End));
    assert_eq!(input.cursor(), 3);
}

#[test]
fn text_input_knows_the_editing_chords() {
    let mut input = TextInput::new("hello world".to_string());
    assert_eq!(input.cursor(), 11);
    input.handle_event(&Event::Key(KeyPress::control(Key::Char('w'))));
    assert_eq!(input.value(), "hello ");
    input.handle_event(&Event::Key(KeyPress::control(Key::Char('u'))));
    assert_eq!(input.value(), "");
    let shifted = KeyPress { code: Key::Char('A'), modifiers: MODIFIER_SHIFT };
    input.handle_event(&Event::Key(shifted));
    assert_eq!(input.value(), "A");
    let alt = KeyPress { code: Key::Char('x'), modifiers: MODIFIER_ALT };
    input.handle_event(&Event::Key(alt));
    assert_eq!(input.value(), "A");
}

#[test]
fn text_input_ignores_what_is_not_typed() {
    let mut input = TextInput::new("abc".to_string());
    for code in [Key::Enter, Key::Esc, Key::Up, Key::Down, Key::PageUp, Key::PageDown, Key::Tab, Key::Other]
    {
        input.handle_event(&key(code));
    }
    input.handle_event(&Event::Other);
    assert_eq!(input.value(), "abc");
    assert_eq!(input.cursor(), 3);
}

#[test]
fn text_input_counts_characters_not_bytes() {
    let mut input = TextInput::new("héé".to_string());
    assert_eq!(input.cursor(), 3);
    input.handle_event(&key(Key::Backspace));
    assert_eq!(input.value(), "hé");
}

#[test]
fn alerts_consume_events_while_shown() {
    let mut alerts = Alerts::default();
    assert!(!alerts.handle_event(&key(Key::Enter)).handled());
    alerts.alert("Error".to_string(), "first".to_string());
    alerts.alert("Error".to_string(), "second".to_string());
    assert_eq!(alerts.first().unwrap().message(), "first");
    assert!(matches!(alerts.handle_event(&key_char('x')), UpdateResult::Handled(())));
    assert_eq!(alerts.first().unwrap().message(), "first");
    assert!(alerts.handle_event(&key(Key::Enter)).handled());
    assert_eq!(alerts.first().unwrap().message(), "first");
    assert!(alerts.handle_event(&key(Key::Enter)).handled());
    assert!(alerts.first().is_none());
    assert!(!alerts.handle_event(&key(Key::Enter)).handled());
}

#[test]
fn alert_keeps_title_and_message() {
    let alert = Alert::new("Clipboard Error".to_string(), "boom".to_string());
    assert_eq!(alert.title(), "Clipboard Error");
    assert_eq!(alert.message(), "boom");
}

#[test]
fn autocomplete_accepts_scope_tree_on_tab() {
    let mut nav = NavigationInput::new();
    for c in "sco".chars() {
        assert!(nav.handle_event(&key_char(c)).is_none());
    }
    assert_eq!(nav.matching_option(), Some("scope-tree"));
    assert!(nav.handle_event(&key_tab()).is_none());
    assert_eq!(nav.value(), "scope-tree");
    assert_eq!(nav.cursor(), 10);
}

#[test]
fn autocomplete_accepts_my_sessions_on_tab() {
    let mut nav = NavigationInput::new();
    for c in "my-".chars() {
        nav.handle_event(&key_char(c));
    }
    nav.handle_event(&key_tab());
    assert_eq!(nav.value(), "my-sessions");
}

#[test]
fn autocomplete_offers_nothing_without_a_match() {
    assert_eq!(NavigationInput::compute_matching_option(""), None);
    assert_eq!(NavigationInput::compute_matching_option("x"), None);
    assert_eq!(NavigationInput::compute_matching_option("scope-trees"), None);
    assert_eq!(NavigationInput::compute_matching_option("s"), Some(SCOPE_TREE));
    assert_eq!(NavigationInput::compute_matching_option("m"), Some(MY_SESSIONS));
    assert_eq!(NavigationInput::compute_matching_option("my-sessions"), Some("my-sessions"));
    assert_eq!(NavigationInput::compute_matching_option("S"), None);

    let mut nav = NavigationInput::new();
    nav.handle_event(&key_char('q'));
    nav.handle_event(&key_tab());
    assert_eq!(nav.value(), "q");
    assert_eq!(nav.matching_option(), None);
}

#[test]
fn confirming_a_place_navigates_there() {
    let mut nav = NavigationInput::new();
    for c in "scope-tree".chars() {
        nav.handle_event(&key_char(c));
    }
    assert!(matches!(nav.handle_event(&key(Key::Enter)), Some(Message::NavigateToScopeTree)));
    assert_eq!(nav.value(), "scope-tree");

    let mut nav = NavigationInput::new();
    for c in "my".chars() {
        nav.handle_event(&key_char(c));
    }
    assert!(nav.handle_event(&key(Key::Enter)).is_none());
    nav.handle_event(&key_tab());
    assert!(matches!(nav.handle_confirm(), Some(Message::NavigateToMySessions)));
}

#[derive(Debug, Clone, Copy, PartialEq, Eq)]
enum Field {
    Host,
    Port,
}

#[derive(Debug, Clone, Copy, PartialEq, Eq)]
enum Choice {
    Cancel,
    Apply,
}

fn dialog() -> InputDialog<Field, Choice> {
    InputDialog::new(
        "Create Target",
        vec![InputField::new(Field::Host, "Host", ""), InputField::new(Field::Port, "Listen Port", "8080")],
        vec![Button::new(Choice::Cancel, "Cancel"), Button::new(Choice::Apply, "Ok")],
    )
}

#[test]
fn dialog_starts_on_its_first_field() {
    let dialog = dialog();
    assert_eq!(dialog.title_text(), "Create Target");
    assert_eq!(dialog.selected_item(), SelectedItem::Field(0));
    assert_eq!(dialog.get_value(Field::Host), Some(""));
    assert_eq!(dialog.get_value(Field::Port), Some("8080"));
    assert_eq!(dialog.button_list()[1].label(), "Ok");
    assert_eq!(dialog.field_list()[1].title, "Listen Port");
}

#[test]
fn dialog_focus_moves_through_fields_and_buttons() {
    let mut dialog = dialog();
    assert_eq!(dialog.handle_event(&key(Key::Up)), None);
    assert_eq!(dialog.selected_item(), SelectedItem::Field(0));
    dialog.handle_event(&key(Key::Down));
    assert_eq!(dialog.selected_item(), SelectedItem::Field(1));
    dialog.handle_event(&key(Key::Tab));
    assert_eq!(dialog.selected_item(), SelectedItem::Button(0));
    dialog.handle_event(&key(Key::Left));
    assert_eq!(dialog.selected_item(), SelectedItem::Button(0));
    dialog.handle_event(&key(Key::Right));
    assert_eq!(dialog.selected_item(), SelectedItem::Button(1));
    dialog.handle_event(&key(Key::Right));
    assert_eq!(dialog.selected_item(), SelectedItem::Button(1));
    dialog.handle_event(&key(Key::Tab));
    assert_eq!(dialog.selected_item(), SelectedItem::Field(0));
    dialog.handle_event(&key(Key::Tab));
    dialog.handle_event(&key(Key::Tab));
    dialog.handle_event(&key(Key::Tab));
    assert_eq!(dialog.selected_item(), SelectedItem::Button(1));
    dialog.handle_event(&key(Key::Up));
    assert_eq!(dialog.selected_item(), SelectedItem::Field(1));
    dialog.handle_event(&key(Key::Up));
    assert_eq!(dialog.selected_item(), SelectedItem::Field(0));
    dialog.handle_event(&Event::Other);
    assert_eq!(dialog.selected_item(), SelectedItem::Field(0));
}

#[test]
fn dialog_types_into_the_focused_field() {
    let mut dialog = dialog();
    for c in "db".chars() {
        assert_eq!(dialog.handle_event(&key_char(c)), None);
    }
    dialog.handle_event(&key(Key::Down));
    dialog.handle_event(&key(Key::Backspace));
    dialog.handle_event(&key_char('1'));
    assert_eq!(dialog.get_value(Field::Host), Some("db"));
    assert_eq!(dialog.get_value(Field::Port), Some("8081"));
    // enter on a field presses nothing and types nothing
    assert_eq!(dialog.handle_event(&key(Key::Enter)), None);
    assert_eq!(dialog.get_value(Field::Port), Some("8081"));
}

#[test]
fn dialog_buttons_are_pressed_with_enter() {
    let mut dialog = dialog();
    dialog.handle_event(&key(Key::Tab));
    dialog.handle_event(&key(Key::Tab));
    assert_eq!(dialog.handle_event(&key(Key::Enter)), Some(Choice::Cancel));
    dialog.handle_event(&key(Key::Right));
    assert_eq!(dialog.handle_event(&key(Key::Enter)), Some(Choice::Apply));
    assert_eq!(dialog.handle_event(&key_char('x')), None);
    assert_eq!(dialog.get_value(Field::Host), Some(""));
}

#[test]
fn dialog_without_fields_or_buttons_stays_put() {
    let mut empty: InputDialog<Field, Choice> = InputDialog::new("Empty", vec![], vec![]);
    assert_eq!(empty.get_value(Field::Host), None);
    assert_eq!(empty.handle_event(&key_char('x')), None);
    assert_eq!(empty.handle_event(&key(Key::Down)), None);
    assert_eq!(empty.selected_item(), SelectedItem::Button(0));
    assert_eq!(empty.handle_event(&key(Key::Enter)), None);
    assert_eq!(empty.handle_event(&key(Key::Up)), None);
    assert_eq!(empty.selected_item(), SelectedItem::Field(0));
}

#[test]
fn titles_name_their_parent() {
    assert_eq!(format_title_with_parent("Scopes", None), "Scopes");
    assert_eq!(format_title_with_parent("Targets", Some("dev")), "Targets(dev)");
    assert_eq!(format_title_with_parent("", Some("")), "()");
}

#[test]
fn filter_matching_ignores_case() {
    assert!(match_str("Production Database", "database"));
    assert!(match_str("production", "PROD"));
    assert!(match_str("anything", ""));
    assert!(!match_str("prod", "production"));
    assert!(!match_str("", "x"));
    assert!(match_str("ÄPFEL", "äpf"));
}

#[test]
fn filter_states() {
    assert!(!Filter::Disabled.is_input());
    assert!(!Filter::Disabled.is_active());
    assert!(Filter::Input(TextInput::empty()).is_input());
    assert!(Filter::Input(TextInput::empty()).is_active());
    assert!(!Filter::Value("x".to_string()).is_input());
    assert!(Filter::Value("x".to_string()).is_active());
    assert!(!Filter::default().is_active());
}

#[test]
fn actions_are_enabled_by_their_rule() {
    let always = Action::new(1u8, "Quit".to_string(), "Ctrl + C".to_string(), Availability::Always);
    assert!(always.is_enabled(false, false));
    assert_eq!(always.name, "Quit");
    assert_eq!(always.shortcut, "Ctrl + C");
    assert_eq!(always.id, 1);
    let selected = Action::new(2u8, "Show".to_string(), "C".to_string(), Availability::WhenSelected);
    assert!(!selected.is_enabled(false, true));
    assert!(selected.is_enabled(true, false));
    let permitted = Action::new(3u8, "Connect".to_string(), "c".to_string(), Availability::WhenPermitted);
    assert!(!permitted.is_enabled(true, false));
    assert!(!permitted.is_enabled(false, true));
    assert!(permitted.is_enabled(true, true));
}

#[test]
fn rows_offer_their_commands() {
    let command = Command::new(Commands::ListScopes, "List scopes".to_string(), "x".to_string());
    assert_eq!(command.id, Commands::ListScopes);
    assert_eq!(command.name, "List scopes");
    assert_eq!(command.shortcut, "x");

    let scope_commands = <bountui::boundary::models::Scope as HasCommands>::commands();
    assert_eq!(scope_commands.len(), 2);
    assert_eq!(scope_commands[0].id, Commands::ListScopes);
    assert_eq!(scope_commands[1].name, "List targets");

    let target_commands = <bountui::boundary::models::Target as HasCommands>::commands();
    assert_eq!(target_commands[0].id, TargetCommands::Connect);
    assert_eq!(target_commands[1].shortcut, "Shift+C");

    let session_commands = <bountui::boundary::models::Session as HasCommands>::commands();
    assert_eq!(session_commands.len(), 1);
    assert_eq!(session_commands[0].id, SessionCommands::Stop);
    assert_eq!(session_commands[0].shortcut, "Ctrl+D");
}
