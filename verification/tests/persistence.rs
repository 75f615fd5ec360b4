use chrono::{DateTime, Utc};
use horeb::note::Note;
use horeb::shell::{Event, HorebApp, Loaded};
use horeb::timestamp::Timestamp;
use serde_json::Value;

fn time(secs: i64, nanos: u32) -> Timestamp {
    Timestamp::new(secs, nanos).expect("representable")
}

fn note(title: &str, content: &str, stamp: Timestamp) -> Note {
    Note::from_parts(title.to_string(), content.to_string(), stamp)
}

fn to_json(notes: &[Note]) -> String {
    let mut items = Vec::new();
    for note in notes {
        let stamp = note.last_modified();
        let when = DateTime::<Utc>::from_timestamp(stamp.secs(), stamp.nanos()).expect("in range");
        let mut fields = serde_json::Map::new();
        fields.insert("title".to_string(), Value::String(note.title().clone()));
        fields.insert("content".to_string(), Value::String(note.content().clone()));
        fields.insert("last_modified".to_string(), serde_json::to_value(when).expect("a string"));
        items.push(Value::Object(fields));
    }
    serde_json::to_string(&Value::Array(items)).expect("serializable")
}

fn from_json(text: &str) -> Loaded {
    let Ok(Value::Array(items)) = serde_json::from_str::<Value>(text) else {
        return Loaded::Malformed;
    };
    let mut notes = Vec::new();
    for item in items {
        let (Some(Value::String(title)), Some(Value::String(content)), Some(when)) =
            (item.get("title"), item.get("content"), item.get("last_modified"))
        else {
            return Loaded::Malformed;
        };
        let Ok(when) = serde_json::from_value::<DateTime<Utc>>(when.clone()) else {
            return Loaded::Malformed;
        };
        let Some(stamp) = Timestamp::new(when.timestamp(), when.timestamp_subsec_nanos()) else {
            return Loaded::Malformed;
        };
        notes.push(Note::from_parts(title.clone(), content.clone(), stamp));
    }
    Loaded::Notes(notes)
}

#[test]
fn saved_notes_load_as_they_were() {
    let notes = vec![
        note("Shopping", "milk, eggs", time(1_700_000_000, 123_456_789)),
        note("", "", time(0, 0)),
        note("quotes \" and \\ and \n", "caf\u{e9} \u{1F600}", time(-1, 1)),
        note("same title", "x", time(1_435_708_799, 1_999_999_999)),
        note("same title", "y", time(4_102_444_800, 500_000_000)),
    ];
    let text = to_json(&notes);
    let app = HorebApp::new(from_json(&text));
    assert_eq!(app.notes(), &notes);
    assert_eq!(app.selected_index(), None);
}

#[test]
fn saved_timestamps_are_utc_text() {
    let text = to_json(&[note("t", "c", time(1_431_648_000, 500_000_000))]);
    assert_eq!(
        text,
        "[{\"content\":\"c\",\"last_modified\":\"2015-05-15T00:00:00.500Z\",\"title\":\"t\"}]"
    );
}

#[test]
fn an_empty_list_is_saved_and_loaded() {
    let text = to_json(&[]);
    assert_eq!(text, "[]");
    let app = HorebApp::new(from_json(&text));
    assert!(app.notes().is_empty());
}

#[test]
fn text_that_is_no_list_of_notes_gives_an_empty_list() {
    for text in ["", "not json", "{}", "[1, 2]", "[{\"title\": \"t\"}]"] {
        let app = HorebApp::new(from_json(text));
        assert!(app.notes().is_empty(), "for {text:?}");
        assert_eq!(app.selected_index(), None);
    }
}

#[test]
fn shopping_list_from_an_empty_store() {
    let t0 = time(1_700_000_000, 0);
    let t1 = time(1_700_000_060, 250_000_000);
    let mut app = HorebApp::new(Loaded::Missing);
    assert!(app.notes().is_empty());

    app.update_at(Event::Add, t0);
    assert_eq!(app.notes(), &vec![note("New note", "", t0)]);
    assert_eq!(app.selected_index(), Some(0));

    app.update_at(Event::EditTitle("Shopping".to_string()), t0);
    app.update_at(Event::EditContent("milk, eggs".to_string()), t0);

    app.update_at(Event::Add, t1);
    assert_eq!(
        app.notes(),
        &vec![note("Shopping", "milk, eggs", t0), note("New note", "", t1)]
    );
    assert_eq!(app.selected_index(), Some(1));
    assert!(t0.at_or_before(&app.notes()[0].last_modified()));

    let text = to_json(app.notes());
    let again = HorebApp::new(from_json(&text));
    assert_eq!(again.notes().len(), 2);
    assert_eq!(again.notes(), app.notes());
}
