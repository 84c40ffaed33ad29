use listr::{
    add_item_to_list, add_list, deserialize, ensure_db_file_exists, handle_command,
    remove_item_from_list, remove_list, show_list, Command, FileAction, FileProbe, ListCollection,
    Reply, StoreError,
};

fn lists_in(text: &str) -> ListCollection {
    deserialize(text).unwrap()
}

fn words(items: &[&str]) -> Vec<String> {
    items.iter().map(|w| String::from(*w)).collect()
}

#[test]
fn present_file_is_left_alone() {
    assert_eq!(ensure_db_file_exists(FileProbe::Present), FileAction::Keep);
}

#[test]
fn missing_file_is_created_as_empty_object() {
    assert_eq!(
        ensure_db_file_exists(FileProbe::Missing),
        FileAction::Create(String::from("{}"))
    );
}

#[test]
fn other_failure_to_open_is_passed_on() {
    assert_eq!(ensure_db_file_exists(FileProbe::Unreadable), FileAction::Fail);
}

#[test]
fn created_file_holds_no_lists() {
    match ensure_db_file_exists(FileProbe::Missing) {
        FileAction::Create(text) => {
            assert_eq!(deserialize(&text), Ok(ListCollection::new()));
            assert_eq!(show_list(&text, "missing"), Ok(None));
        }
        other => panic!("{:?}", other),
    }
}

#[test]
fn show_of_a_missing_list_is_no_error() {
    assert_eq!(show_list("{}", "missing"), Ok(None));
    assert_eq!(show_list("{\"books\":[]}", "missing"), Ok(None));
}

#[test]
fn add_list_then_show_list_is_empty() {
    let text = add_list("{}", String::from("books")).unwrap();
    assert_eq!(text, "{\"books\":[]}");
    assert_eq!(show_list(&text, "books"), Ok(Some(Vec::new())));
}

#[test]
fn add_list_overwrites_the_items() {
    let text = add_list("{}", String::from("books")).unwrap();
    let text = add_item_to_list(&text, "books", String::from("eragon")).unwrap();
    assert_eq!(text, "{\"books\":[\"eragon\"]}");
    assert_eq!(show_list(&text, "books"), Ok(Some(words(&["eragon"]))));
    let text = add_list(&text, String::from("books")).unwrap();
    assert_eq!(text, "{\"books\":[]}");
    assert_eq!(show_list(&text, "books"), Ok(Some(Vec::new())));
}

#[test]
fn add_list_keeps_the_other_lists() {
    let text = add_list("{\"books\": [\"eragon\"]}", String::from("films")).unwrap();
    let mut expected = ListCollection::new();
    expected.add_list(String::from("books"));
    expected
        .add_item_to_list("books", String::from("eragon"))
        .unwrap();
    expected.add_list(String::from("films"));
    assert_eq!(lists_in(&text), expected);
}

#[test]
fn show_list_gives_the_items_in_order() {
    assert_eq!(
        show_list("{\"books\": [\"eragon\", \"eldest\", \"eragon\"]}", "books"),
        Ok(Some(words(&["eragon", "eldest", "eragon"])))
    );
}

#[test]
fn remove_list_deletes_the_key() {
    let text = remove_list("{\"books\":[\"eragon\"],\"films\":[]}", "books").unwrap();
    assert_eq!(text, "{\"films\":[]}");
    let text = remove_list(&text, "books").unwrap();
    assert_eq!(text, "{\"films\":[]}");
    let text = remove_list(&text, "films").unwrap();
    assert_eq!(text, "{}");
}

#[test]
fn add_item_needs_the_list() {
    assert_eq!(
        add_item_to_list("{}", "books", String::from("eragon")),
        Err(StoreError::NotFound(String::from("books")))
    );
    assert_eq!(
        add_item_to_list("{\"books\":[\"eragon\"]}", "books", String::from("eldest")),
        Ok(String::from("{\"books\":[\"eragon\",\"eldest\"]}"))
    );
}

#[test]
fn remove_item_takes_the_first_match() {
    assert_eq!(
        remove_item_from_list("{\"l\":[\"a\",\"b\",\"a\"]}", "l", "a"),
        Ok(String::from("{\"l\":[\"b\",\"a\"]}"))
    );
    assert_eq!(
        remove_item_from_list("{\"l\":[\"a\",\"b\",\"a\"]}", "l", "c"),
        Ok(String::from("{\"l\":[\"a\",\"b\",\"a\"]}"))
    );
    assert_eq!(
        remove_item_from_list("{\"l\":[\"a\",\"b\",\"a\"]}", "m", "a"),
        Err(StoreError::NotFound(String::from("m")))
    );
}

#[test]
fn corrupt_text_is_never_repaired() {
    for text in [" ", "{", "[]", "{\"books\": [1]}"] {
        assert!(matches!(
            add_list(text, String::from("books")),
            Err(StoreError::Serialization(_))
        ));
        assert!(matches!(
            remove_list(text, "books"),
            Err(StoreError::Serialization(_))
        ));
        assert!(matches!(
            add_item_to_list(text, "books", String::from("x")),
            Err(StoreError::Serialization(_))
        ));
        assert!(matches!(
            remove_item_from_list(text, "books", "x"),
            Err(StoreError::Serialization(_))
        ));
        assert!(matches!(
            show_list(text, "books"),
            Err(StoreError::Serialization(_))
        ));
    }
}

#[test]
fn help_does_not_read_the_text() {
    assert_eq!(handle_command(Command::Help, "{}"), Ok(Reply::Usage));
    assert_eq!(handle_command(Command::Help, ""), Ok(Reply::Usage));
    assert_eq!(handle_command(Command::Help, "no json"), Ok(Reply::Usage));
}

#[test]
fn show_command_replies_with_items_or_absence() {
    let text = "{\"books\": [\"eragon\"]}";
    assert_eq!(
        handle_command(Command::ShowList(String::from("books")), text),
        Ok(Reply::Items(String::from("books"), words(&["eragon"])))
    );
    assert_eq!(
        handle_command(Command::ShowList(String::from("films")), text),
        Ok(Reply::NoSuchList(String::from("films")))
    );
    assert!(matches!(
        handle_command(Command::ShowList(String::from("films")), "{"),
        Err(StoreError::Serialization(_))
    ));
}

#[test]
fn changing_commands_reply_with_the_text_to_write() {
    assert_eq!(
        handle_command(Command::AddList(String::from("books")), "{}"),
        Ok(Reply::Saved(String::from("{\"books\":[]}")))
    );
    assert_eq!(
        handle_command(
            Command::AddItemToList(String::from("books"), String::from("eragon")),
            "{\"books\":[]}"
        ),
        Ok(Reply::Saved(String::from("{\"books\":[\"eragon\"]}")))
    );
    assert_eq!(
        handle_command(
            Command::RemoveItemFromList(String::from("books"), String::from("eragon")),
            "{\"books\":[\"eragon\"]}"
        ),
        Ok(Reply::Saved(String::from("{\"books\":[]}")))
    );
    assert_eq!(
        handle_command(Command::RemoveList(String::from("books")), "{\"books\":[]}"),
        Ok(Reply::Saved(String::from("{}")))
    );
}

#[test]
fn commands_on_a_missing_list() {
    assert_eq!(
        handle_command(
            Command::AddItemToList(String::from("books"), String::from("eragon")),
            "{}"
        ),
        Err(StoreError::NotFound(String::from("books")))
    );
    assert_eq!(
        handle_command(
            Command::RemoveItemFromList(String::from("books"), String::from("eragon")),
            "{}"
        ),
        Err(StoreError::NotFound(String::from("books")))
    );
    assert_eq!(
        handle_command(Command::RemoveList(String::from("books")), "{}"),
        Ok(Reply::Saved(String::from("{}")))
    );
}

#[test]
fn a_session_of_commands() {
    let mut text = match ensure_db_file_exists(FileProbe::Missing) {
        FileAction::Create(text) => text,
        other => panic!("{:?}", other),
    };
    let commands = [
        Command::AddList(String::from("books")),
        Command::AddItemToList(String::from("books"), String::from("eragon")),
        Command::AddList(String::from("films")),
        Command::AddItemToList(String::from("books"), String::from("eldest")),
        Command::AddItemToList(String::from("films"), String::from("alien")),
        Command::RemoveItemFromList(String::from("books"), String::from("eragon")),
        Command::RemoveList(String::from("films")),
    ];
    for command in commands {
        match handle_command(command, &text) {
            Ok(Reply::Saved(next)) => text = next,
            other => panic!("{:?}", other),
        }
    }
    assert_eq!(text, "{\"books\":[\"eldest\"]}");
    assert_eq!(
        handle_command(Command::ShowList(String::from("books")), &text),
        Ok(Reply::Items(String::from("books"), words(&["eldest"])))
    );
    assert_eq!(
        handle_command(Command::ShowList(String::from("films")), &text),
        Ok(Reply::NoSuchList(String::from("films")))
    );
}

#[test]
fn empty_file_is_an_empty_store() {
    assert_eq!(show_list("", "books"), Ok(None));
    assert_eq!(
        handle_command(Command::ShowList(String::from("books")), ""),
        Ok(Reply::NoSuchList(String::from("books")))
    );
    assert_eq!(
        add_list("", String::from("books")),
        Ok(String::from("{\"books\":[]}"))
    );
    assert_eq!(remove_list("", "books"), Ok(String::from("{}")));
    assert_eq!(
        add_item_to_list("", "books", String::from("eragon")),
        Err(StoreError::NotFound(String::from("books")))
    );
    assert_eq!(
        remove_item_from_list("", "books", "eragon"),
        Err(StoreError::NotFound(String::from("books")))
    );
}

#[test]
fn changes_of_a_readable_text_succeed() {
    let text = "{\"quo\\\"te\":[\"new\\nline\",\"\u{e9}\"],\"\":[\"\"]}";
    let before = lists_in(text);
    let added = add_list(text, String::from("\u{1f600}")).unwrap();
    let mut expected = lists_in(text);
    expected.add_list(String::from("\u{1f600}"));
    assert_eq!(lists_in(&added), expected);
    let again = add_list(&added, String::from("\u{1f600}")).unwrap();
    assert_eq!(lists_in(&again), expected);
    let removed = remove_list(&again, "\u{1f600}").unwrap();
    assert_eq!(lists_in(&removed), before);
    let same = remove_item_from_list(&removed, "", "absent").unwrap();
    assert_eq!(lists_in(&same), before);
    let longer = add_item_to_list(&same, "", String::new()).unwrap();
    assert_eq!(
        show_list(&longer, ""),
        Ok(Some(vec![String::new(), String::new()]))
    );
}
