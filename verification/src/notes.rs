//! The note record, the collection of notes, and the operations on it.
//!
//! Every operation works on plain values. Reading and writing the store
//! file, and turning its text into notes and back, is the caller's part:
//! the caller hands over what it found and carries out what it is told.

use vstd::prelude::*;

verus! {

/// A single entry: an identifier, the text, and the time it was written.
#[derive(Debug, PartialEq, Eq)]
pub struct Note {
    id: String,
    text: String,
    date: String,
}

/// What a note is: its three fields as sequences of characters.
pub struct NoteView {
    pub id: Seq<char>,
    pub text: Seq<char>,
    pub date: Seq<char>,
}

impl View for Note {
    type V = NoteView;

    closed spec fn view(&self) -> NoteView {
        NoteView { id: self.id@, text: self.text@, date: self.date@ }
    }
}

impl DeepView for Note {
    type V = NoteView;

    open spec fn deep_view(&self) -> NoteView {
        self@
    }
}

/// Where the collection is kept: the name of the store file.
#[derive(Debug)]
pub struct StoreConfig {
    file_name: String,
}

impl View for StoreConfig {
    type V = Seq<char>;

    closed spec fn view(&self) -> Seq<char> {
        self.file_name@
    }
}

/// The name of the store file where no other was set.
pub open spec fn default_file_name() -> Seq<char> {
    "notes.json"@
}

impl StoreConfig {
    /// The configuration that names the default store file.
    pub fn new() -> (config: Self)
        ensures
            config@ == default_file_name(),
    {
        StoreConfig { file_name: String::from_str("notes.json") }
    }

    /// The name of the store file.
    pub fn file_name(&self) -> (name: &str)
        ensures
            name@ == self@,
    {
        self.file_name.as_str()
    }
}

/// Makes `new_name` the name of the store file for every operation that is
/// given this configuration afterwards.
pub fn set_default_file_name(config: &mut StoreConfig, new_name: &str)
    ensures
        final(config)@ == new_name@,
{
    config.file_name = new_name.to_owned();
}

/// Why the collection could not be loaded or saved. Each kind carries the
/// message of the failure that caused it.
#[derive(Debug, PartialEq, Eq)]
pub enum StoreError {
    /// The store file could not be created, opened, read or written.
    Io(String),
    /// The content of the store file is not a collection of notes, or the
    /// collection could not be turned into text.
    DataFormat(String),
}

impl StoreError {
    /// The message that the error carries.
    pub open spec fn text(self) -> Seq<char> {
        match self {
            StoreError::Io(message) => message@,
            StoreError::DataFormat(message) => message@,
        }
    }

    /// The message of the failure behind the error, to show to the user.
    pub fn message(&self) -> (message: &str)
        ensures
            message@ == self.text(),
    {
        match self {
            StoreError::Io(message) => message.as_str(),
            StoreError::DataFormat(message) => message.as_str(),
        }
    }
}

/// What the path of the store file holds when an operation begins.
#[derive(Debug, PartialEq, Eq)]
pub enum StoreFile {
    /// Nothing exists at the path.
    Missing,
    /// A file exists; this is its whole content.
    Present(String),
}

/// What loading asks of the caller, given what the path holds.
#[derive(Debug, PartialEq, Eq)]
pub enum LoadStep {
    /// There is no file yet. Create it, save this collection in it, and
    /// take this collection as the result.
    Create(Vec<Note>),
    /// The result is known without parsing anything.
    Done(Vec<Note>),
    /// The file has content: parse this text and hand the outcome to
    /// [`Note::parsed`].
    Parse(String),
}

/// What an operation that changes the collection asks of the caller.
#[derive(Debug, PartialEq, Eq)]
pub enum Change {
    /// Save this collection in place of the stored one.
    Save(Vec<Note>),
    /// Loading failed with this error. Report it and leave the store as it
    /// is; the process goes on.
    Failed(StoreError),
    /// Loading failed with this error. Report it and end the process with
    /// a failure status.
    Fatal(StoreError),
}

/// Whether some note of `notes` has the identifier `id`.
pub open spec fn has_id(notes: Seq<NoteView>, id: Seq<char>) -> bool {
    exists|k: int| 0 <= k < notes.len() && (#[trigger] notes[k]).id == id
}

/// Whether no two notes of `notes` share an identifier.
pub open spec fn ids_distinct(notes: Seq<NoteView>) -> bool {
    forall|i: int, j: int|
        0 <= i < j < notes.len() ==> (#[trigger] notes[i]).id != (#[trigger] notes[j]).id
}

/// Whether `after` is `before` with one more note at its end, and that
/// note carries `text`.
pub open spec fn written(before: Seq<NoteView>, after: Seq<NoteView>, text: Seq<char>) -> bool {
    &&& after.len() == before.len() + 1
    &&& after.drop_last() == before
    &&& after.last().text == text
}

/// The notes of `notes` whose identifier is not `id`, in their order.
pub open spec fn without_id(notes: Seq<NoteView>, id: Seq<char>) -> Seq<NoteView> {
    notes.filter(|note: NoteView| note.id != id)
}

/// The line that lists a note: identifier, date and text, each after its
/// label.
pub open spec fn line_of(note: NoteView) -> Seq<char> {
    "ID: "@ + note.id + ", Date: "@ + note.date + ", Text: "@ + note.text
}

/// The lines that list `notes`, one for each note, in their order.
pub open spec fn lines_of(notes: Seq<NoteView>) -> Seq<Seq<char>> {
    notes.map_values(|note: NoteView| line_of(note))
}

/// The notes of a sequence, each as its view.
spec fn views(notes: Seq<Note>) -> Seq<NoteView> {
    notes.map_values(|note: Note| note@)
}

impl Note {
    /// Builds a note from its three fields, taken as they are.
    pub fn new(id: String, text: String, date: String) -> (note: Self)
        ensures
            note@ == (NoteView { id: id@, text: text@, date: date@ }),
    {
        Note { id, text, date }
    }

    /// The note's identifier.
    pub fn id(&self) -> (id: &str)
        ensures
            id@ == self@.id,
    {
        self.id.as_str()
    }

    /// The note's text.
    pub fn text(&self) -> (text: &str)
        ensures
            text@ == self@.text,
    {
        self.text.as_str()
    }

    /// The time the note was written, as recorded.
    pub fn date(&self) -> (date: &str)
        ensures
            date@ == self@.date,
    {
        self.date.as_str()
    }

    /// The first half of loading: decides from what the path holds whether
    /// the collection is already known.
    ///
    /// A path that holds nothing yields the empty collection, together with
    /// the order to create the file and save that collection in it. A file
    /// of zero bytes yields the empty collection and is not parsed. Any
    /// other content has to be parsed.
    pub fn load_notes(file: StoreFile) -> (step: LoadStep)
        ensures
            match file {
                StoreFile::Missing => step matches LoadStep::Create(notes) && notes@.len() == 0,
                StoreFile::Present(data) => if data@.len() == 0 {
                    step matches LoadStep::Done(notes) && notes@.len() == 0
                } else {
                    step == LoadStep::Parse(data)
                },
            },
    {
        match file {
            StoreFile::Missing => LoadStep::Create(Vec::new()),
            StoreFile::Present(data) => {
                if data.as_str().is_empty() {
                    LoadStep::Done(Vec::new())
                } else {
                    LoadStep::Parse(data)
                }
            },
        }
    }

    /// The second half of loading: the collection that parsing gave, or the
    /// `DataFormat` error that carries the parser's message.
    pub fn parsed(outcome: Result<Vec<Note>, String>) -> (loaded: Result<Vec<Note>, StoreError>)
        ensures
            outcome matches Ok(notes) ==> loaded == Ok::<Vec<Note>, StoreError>(notes),
            outcome matches Err(message) ==> loaded == Err::<Vec<Note>, StoreError>(
                StoreError::DataFormat(message),
            ),
    {
        match outcome {
            Ok(notes) => Ok(notes),
            Err(message) => Err(StoreError::DataFormat(message)),
        }
    }

    /// Saving, up to the write: the text that replaces the whole content of
    /// the store file, or the `DataFormat` error that carries the message
    /// of the failure to produce that text.
    pub fn save_notes(encoded: Result<String, String>) -> (content: Result<String, StoreError>)
        ensures
            encoded matches Ok(text) ==> content == Ok::<String, StoreError>(text),
            encoded matches Err(message) ==> content == Err::<String, StoreError>(
                StoreError::DataFormat(message),
            ),
    {
        match encoded {
            Ok(text) => Ok(text),
            Err(message) => Err(StoreError::DataFormat(message)),
        }
    }

    /// The collection with one more note at its end, made of the given
    /// fields. The notes already there keep their places.
    pub fn appended(notes: Vec<Note>, id: String, text: &str, date: String) -> (stored: Vec<Note>)
        ensures
            stored.deep_view() == notes.deep_view().push(
                NoteView { id: id@, text: text@, date: date@ },
            ),
    {
        let mut stored = notes;
        stored.push(Note::new(id, text.to_owned(), date));
        assert(stored.deep_view() =~= notes.deep_view().push(
            NoteView { id: id@, text: text@, date: date@ },
        ));
        stored
    }

    /// Writing a note, between loading and saving.
    ///
    /// Where loading failed, the failure is fatal. Otherwise the collection
    /// to save is the loaded one with a new note at its end: the given
    /// text, a fresh random identifier, and the local time of the call in
    /// the form `YYYY-MM-DD HH:MM:SS`.
    pub fn write_note(loaded: Result<Vec<Note>, StoreError>, text: &str) -> (change: Change)
        ensures
            loaded matches Err(error) ==> change == Change::Fatal(error),
            loaded matches Ok(notes) ==> {
                &&& change matches Change::Save(stored)
                &&& written(notes.deep_view(), stored.deep_view(), text@)
                &&& crate::stamp::is_random_id(stored.deep_view().last().id)
                &&& crate::stamp::is_time_text(stored.deep_view().last().date)
            },
    {
        match loaded {
            Err(error) => Change::Fatal(error),
            Ok(notes) => {
                let id = crate::stamp::random_id_text();
                let date = crate::stamp::get_current_date();
                let stored = Note::appended(notes, id, text, date);
                assert(stored.deep_view().drop_last() =~= notes.deep_view());
                Change::Save(stored)
            },
        }
    }

    /// Removing by identifier, between loading and saving.
    ///
    /// Where loading failed, the failure is reported and nothing is saved.
    /// Otherwise the collection to save holds every loaded note whose
    /// identifier differs from `id`, in the order they had; it is saved
    /// also where no note was removed.
    pub fn remove_note_by_id(loaded: Result<Vec<Note>, StoreError>, id: String) -> (change: Change)
        ensures
            loaded matches Err(error) ==> change == Change::Failed(error),
            loaded matches Ok(notes) ==> change matches Change::Save(stored)
                && stored.deep_view() == without_id(notes.deep_view(), id@),
    {
        match loaded {
            Err(error) => Change::Failed(error),
            Ok(notes) => {
                let ghost all = notes@;
                let mut stored: Vec<Note> = Vec::new();
                proof {
                    reveal(Seq::filter);
                }
                for note in it: notes.into_iter()
                    invariant
                        it.seq() == all,
                        views(stored@) == without_id(views(all.take(it.index())), id@),
                {
                    proof {
                        reveal(Seq::filter);
                        let seen = views(all.take(it.index() + 1));
                        assert(seen.drop_last() =~= views(all.take(it.index())));
                        assert(seen.last() == note@);
                    }
                    if !(note.id == id) {
                        stored.push(note);
                    }
                }
                proof {
                    assert(all.take(all.len() as int) =~= all);
                    assert(notes.deep_view() =~= views(all));
                    assert(stored.deep_view() =~= views(stored@));
                }
                Change::Save(stored)
            },
        }
    }

    /// Listing, after loading: one line for each note, in stored order, or
    /// the error with which loading failed.
    pub fn show_notes(loaded: Result<Vec<Note>, StoreError>) -> (listing: Result<
        Vec<String>,
        StoreError,
    >)
        ensures
            loaded matches Err(error) ==> listing == Err::<Vec<String>, StoreError>(error),
            loaded matches Ok(notes) ==> listing matches Ok(lines) && lines.deep_view() == lines_of(
                notes.deep_view(),
            ),
    {
        match loaded {
            Err(error) => Err(error),
            Ok(notes) => {
                let mut lines: Vec<String> = Vec::new();
                let mut i: usize = 0;
                while i < notes.len()
                    invariant
                        i <= notes@.len(),
                        lines@.len() == i,
                        forall|k: int| 0 <= k < i ==> (#[trigger] lines@[k])@ == line_of(notes@[k]@),
                    decreases notes@.len() - i,
                {
                    lines.push(notes[i].line());
                    i += 1;
                }
                assert(lines.deep_view() =~= lines_of(notes.deep_view()));
                Ok(lines)
            },
        }
    }

    /// The line that lists this note.
    pub fn line(&self) -> (line: String)
        ensures
            line@ == line_of(self@),
    {
        let mut line = String::from_str("ID: ");
        line.append(self.id.as_str());
        line.append(", Date: ");
        line.append(self.date.as_str());
        line.append(", Text: ");
        line.append(self.text.as_str());
        line
    }
}

} // verus!
