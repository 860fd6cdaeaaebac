//! The two documents the application keeps, and the files they live in.

use vstd::prelude::*;

verus! {

/// One of the two documents kept in the data directory.
#[derive(Clone, Copy, Debug, PartialEq, Eq, Structural)]
pub enum Document {
    Notes,
    Tasks,
}

impl Document {
    /// The name of the file, inside the data directory, that holds the document.
    pub open spec fn file_name_spec(self) -> Seq<char> {
        match self {
            Document::Notes => "notes.json"@,
            Document::Tasks => "tasks.json"@,
        }
    }

    /// The word by which messages refer to the document.
    pub open spec fn label_spec(self) -> Seq<char> {
        match self {
            Document::Notes => "notes"@,
            Document::Tasks => "tasks"@,
        }
    }

    pub fn file_name(&self) -> (name: &'static str)
        ensures
            name@ == self.file_name_spec(),
    {
        match self {
            Document::Notes => "notes.json",
            Document::Tasks => "tasks.json",
        }
    }

    pub fn label(&self) -> (word: &'static str)
        ensures
            word@ == self.label_spec(),
    {
        match self {
            Document::Notes => "notes",
            Document::Tasks => "tasks",
        }
    }
}

/// Different documents live in different files.
pub proof fn law_file_names_differ(a: Document, b: Document)
    ensures
        a.file_name_spec() == b.file_name_spec() <==> a == b,
{
    reveal_strlit("notes.json");
    reveal_strlit("tasks.json");
    assert("notes.json"@[0] == 'n');
    assert("tasks.json"@[0] == 't');
}

} // verus!
