//! The store operations run against a store file held in memory, with the
//! text form produced and parsed by `serde_json`.

use note_store::notes::{
    set_default_file_name, Change, LoadStep, Note, StoreConfig, StoreError, StoreFile,
};
use serde_json::Value;

const TEST_FILE_NAME: &str = "test_notes.json";

fn encode(notes: &Vec<Note>) -> Result<String, String> {
    let mut items = Vec::new();
    for note in notes {
        let mut fields = serde_json::Map::new();
        fields.insert("id".to_string(), Value::String(note.id().to_string()));
        fields.insert("text".to_string(), Value::String(note.text().to_string()));
        fields.insert("date".to_string(), Value::String(note.date().to_string()));
        items.push(Value::Object(fields));
    }
    serde_json::to_string(&Value::Array(items)).map_err(|e| e.to_string())
}

fn field(item: &Value, name: &str) -> Result<String, String> {
    match item.get(name).and_then(|v| v.as_str()) {
        Some(text) => Ok(text.to_string()),
        None => Err(format!("missing field `{}`", name)),
    }
}

fn decode(data: &str) -> Result<Vec<Note>, String> {
    let value: Value = serde_json::from_str(data).map_err(|e| e.to_string())?;
    let items = match value.as_array() {
        Some(items) => items,
        None => return Err("expected a sequence".to_string()),
    };
    let mut notes = Vec::new();
    for item in items {
        notes.push(Note::new(field(item, "id")?, field(item, "text")?, field(item, "date")?));
    }
    Ok(notes)
}

fn take(file: &mut StoreFile) -> StoreFile {
    match file {
        StoreFile::Missing => StoreFile::Missing,
        StoreFile::Present(data) => StoreFile::Present(data.clone()),
    }
}

fn save(file: &mut StoreFile, notes: &Vec<Note>) -> Result<(), StoreError> {
    let content = Note::save_notes(encode(notes))?;
    *file = StoreFile::Present(content);
    Ok(())
}

fn load(file: &mut StoreFile) -> Result<Vec<Note>, StoreError> {
    match Note::load_notes(take(file)) {
        LoadStep::Create(notes) => {
            save(file, &notes)?;
            Ok(notes)
        }
        LoadStep::Done(notes) => Ok(notes),
        LoadStep::Parse(data) => Note::parsed(decode(&data)),
    }
}

fn apply(file: &mut StoreFile, change: Change) -> Result<(), StoreError> {
    match change {
        Change::Save(notes) => save(file, &notes),
        Change::Failed(error) => Err(error),
        Change::Fatal(error) => Err(error),
    }
}

fn write(file: &mut StoreFile, text: &str) -> Result<(), StoreError> {
    let loaded = load(file);
    apply(file, Note::write_note(loaded, text))
}

fn remove(file: &mut StoreFile, id: &str) -> Result<(), StoreError> {
    let loaded = load(file);
    apply(file, Note::remove_note_by_id(loaded, id.to_string()))
}

fn create_test_file_with_notes(notes_data: &Vec<Note>) -> StoreFile {
    let serialized_notes = encode(notes_data).expect("Failed to serialize notes");
    println!("File content after writing: {}", serialized_notes);
    assert!(!serialized_notes.is_empty(), "The content must not be empty");
    StoreFile::Present(serialized_notes)
}

fn two_notes() -> Vec<Note> {
    vec![
        Note::new("1".to_string(), "First note".to_string(), "2024-06-19 12:00:00".to_string()),
        Note::new("2".to_string(), "Second note".to_string(), "2024-06-19 13:00:00".to_string()),
    ]
}

#[test]
fn test_load_notes_no_file() {
    let mut config = StoreConfig::new();
    set_default_file_name(&mut config, TEST_FILE_NAME);
    assert_eq!(config.file_name(), TEST_FILE_NAME);

    let mut file = StoreFile::Missing;

    let notes = load(&mut file).expect("Feiled to laod notes");

    assert!(notes.is_empty(), "Notes should be empty when the file does not exist");
}

#[test]
fn test_load_notes_empty_file() {
    let mut file = StoreFile::Present(String::new());

    let notes = load(&mut file).expect("Failed to load notes from empty file");

    assert!(notes.is_empty(), "Notes should be empty when the file is empty");
}

#[test]
fn test_load_notes_nonempty_file() {
    let notes_data = two_notes();

    let mut file = create_test_file_with_notes(&notes_data);

    let loaded_notes = load(&mut file).expect("Failed to load notes from nonempty file");

    assert!(!loaded_notes.is_empty(), "Notes should not be empty when the file contains data");
    assert_eq!(loaded_notes.len(), 2, "There should be 2 notes in the file");

    assert_eq!(loaded_notes[0].id(), "1");
    assert_eq!(loaded_notes[0].text(), "First note");
    assert_eq!(loaded_notes[0].date(), "2024-06-19 12:00:00");

    assert_eq!(loaded_notes[1].id(), "2");
    assert_eq!(loaded_notes[1].text(), "Second note");
    assert_eq!(loaded_notes[1].date(), "2024-06-19 13:00:00");
}

#[test]
fn test_write_multiple_notes() {
    let mut file = StoreFile::Missing;

    write(&mut file, "First note").expect("Failed to write the first note");
    write(&mut file, "Second note").expect("Failed to write the second note");

    let file_content = match &file {
        StoreFile::Present(data) => data.clone(),
        StoreFile::Missing => panic!("Failed to open test file"),
    };

    let loaded_notes: Vec<Note> =
        decode(&file_content).expect("Failed to deserialize notes from test file");

    assert_eq!(loaded_notes.len(), 2, "There should be 2 notes in the file");
    assert_eq!(loaded_notes[0].text(), "First note", "First note text should match");
    assert_eq!(loaded_notes[1].text(), "Second note", "Second note text should match");
}

#[test]
fn test_remove_note_by_id_existing_id() {
    let notes_data = two_notes();
    let mut file = create_test_file_with_notes(&notes_data);

    remove(&mut file, "1").expect("Failed to remove the note");

    let loaded_notes = load(&mut file).expect("Failed to load notes after removal");

    assert_eq!(loaded_notes.len(), 1, "There should be 1 note remaining after removal");
    assert_eq!(loaded_notes[0].id(), "2", "Remaining note should have ID '2'");
}

#[test]
fn test_remove_note_by_id_non_existing_id() {
    let notes_data = two_notes();
    let mut file = create_test_file_with_notes(&notes_data);

    remove(&mut file, "3").expect("Failed to remove the note");

    let loaded_notes = load(&mut file).expect("Failed to load notes after removal");

    assert_eq!(loaded_notes.len(), 2, "All notes should remain unchanged");
    assert_eq!(loaded_notes, notes_data);
}

#[test]
fn test_save_notes() {
    let notes_data = two_notes();

    let mut file = create_test_file_with_notes(&notes_data);

    let result = save(&mut file, &notes_data);

    assert!(result.is_ok(), "Saving notes should succeed");

    let file_content = match &file {
        StoreFile::Present(data) => data.clone(),
        StoreFile::Missing => panic!("Failed to open test file"),
    };

    let loaded_notes: Vec<Note> =
        decode(&file_content).expect("Failed to deserialize notes from test file");

    assert_eq!(loaded_notes.len(), 2, "There should be 2 notes in the loaded file");
    assert_eq!(loaded_notes[0].id(), "1");
    assert_eq!(loaded_notes[0].text(), "First note");
    assert_eq!(loaded_notes[0].date(), "2024-06-19 12:00:00");
    assert_eq!(loaded_notes[1].id(), "2");
    assert_eq!(loaded_notes[1].text(), "Second note");
    assert_eq!(loaded_notes[1].date(), "2024-06-19 13:00:00");
}

#[test]
fn load_of_a_missing_file_orders_the_empty_collection_saved() {
    assert_eq!(Note::load_notes(StoreFile::Missing), LoadStep::Create(Vec::new()));

    let mut file = StoreFile::Missing;
    load(&mut file).expect("loading a missing file succeeds");
    assert_eq!(file, StoreFile::Present("[]".to_string()));
}

#[test]
fn load_of_a_zero_byte_file_parses_nothing() {
    assert_eq!(Note::load_notes(StoreFile::Present(String::new())), LoadStep::Done(Vec::new()));
}

#[test]
fn load_of_any_content_hands_it_to_the_parser() {
    assert_eq!(
        Note::load_notes(StoreFile::Present("[]".to_string())),
        LoadStep::Parse("[]".to_string())
    );
    assert_eq!(
        Note::load_notes(StoreFile::Present(" ".to_string())),
        LoadStep::Parse(" ".to_string())
    );
    assert_eq!(
        Note::load_notes(StoreFile::Present("not notes".to_string())),
        LoadStep::Parse("not notes".to_string())
    );
}

#[test]
fn load_of_foreign_content_is_a_data_format_error() {
    let mut file = StoreFile::Present("not notes".to_string());
    match load(&mut file) {
        Err(StoreError::DataFormat(message)) => assert!(!message.is_empty()),
        other => panic!("expected a data format error, got {:?}", other),
    }
    assert_eq!(file, StoreFile::Present("not notes".to_string()));
}

#[test]
fn parsed_keeps_the_notes_and_wraps_the_message() {
    assert_eq!(Note::parsed(Ok(two_notes())), Ok(two_notes()));
    assert_eq!(
        Note::parsed(Err("expected value at line 1 column 1".to_string())),
        Err(StoreError::DataFormat("expected value at line 1 column 1".to_string()))
    );
}

#[test]
fn save_hands_on_the_text_or_a_data_format_error() {
    assert_eq!(Note::save_notes(Ok("[]".to_string())), Ok("[]".to_string()));
    assert_eq!(
        Note::save_notes(Err("key must be a string".to_string())),
        Err(StoreError::DataFormat("key must be a string".to_string()))
    );
}

#[test]
fn save_replaces_the_whole_content() {
    let mut file = create_test_file_with_notes(&two_notes());
    let one = vec![Note::new("9".to_string(), "Only".to_string(), "2024-06-20 08:00:00".to_string())];
    save(&mut file, &one).expect("saving succeeds");
    assert_eq!(load(&mut file), Ok(one));
}

#[test]
fn saved_notes_load_back_field_for_field() {
    let notes = vec![
        Note::new("a-1".to_string(), "plain".to_string(), "2024-01-01 00:00:00".to_string()),
        Note::new("a-2".to_string(), "quote \" and \\ slash".to_string(), "d".to_string()),
        Note::new("a-3".to_string(), "line\nbreak\ttab".to_string(), String::new()),
        Note::new(String::new(), "caf\u{e9} \u{1f600}".to_string(), "x".to_string()),
    ];
    let mut file = StoreFile::Missing;
    save(&mut file, &notes).expect("saving succeeds");
    let loaded = load(&mut file).expect("loading succeeds");
    assert_eq!(loaded.len(), 4);
    for i in 0..4 {
        assert_eq!(loaded[i].id(), notes[i].id());
        assert_eq!(loaded[i].text(), notes[i].text());
        assert_eq!(loaded[i].date(), notes[i].date());
    }
}

#[test]
fn the_empty_collection_loads_back_from_its_text() {
    let mut file = StoreFile::Missing;
    save(&mut file, &Vec::new()).expect("saving succeeds");
    assert_eq!(load(&mut file), Ok(Vec::new()));
}

#[test]
fn the_file_name_is_the_default_until_it_is_set() {
    let mut config = StoreConfig::new();
    assert_eq!(config.file_name(), "notes.json");
    set_default_file_name(&mut config, "other.json");
    assert_eq!(config.file_name(), "other.json");
    set_default_file_name(&mut config, "");
    assert_eq!(config.file_name(), "");
}
