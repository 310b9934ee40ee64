//! The documents that an editor has open.
//!
//! The editor tells of every document that it opens, changes, saves or closes. The open documents
//! follow, and what is told decides what is to be compiled.

use vstd::prelude::*;

use crate::server::{apply_change, changed};
use crate::text_utils::{chars_before, Range};

verus! {

/// An open document.
#[derive(Debug)]
pub struct Document {
    pub uri: String,
    pub version: i32,
    pub text: String,
    pub path: String,
}

/// A change of a document: the text of a part, or of the whole.
#[derive(Debug)]
pub struct Change {
    pub range: Option<Range>,
    pub text: String,
}

/// What is to be done.
#[derive(Debug)]
pub enum Action {
    Nothing,
    /// The text of a file is compiled.
    Compile { path: String, text: String },
    /// A file is read and compiled.
    ReadAndCompile { path: String },
    /// The module of a file is closed.
    Close { path: String },
}

/// The place of a document among others, from some place on.
pub open spec fn place_from(documents: Seq<Document>, uri: Seq<char>, from: int) -> Option<int>
    decreases documents.len() - from,
{
    if from < 0 || from >= documents.len() {
        None
    } else if documents[from].uri@ == uri {
        Some(from)
    } else {
        place_from(documents, uri, from + 1)
    }
}

pub open spec fn place_of(documents: Seq<Document>, uri: Seq<char>) -> Option<int> {
    place_from(documents, uri, 0)
}

/// A text after the first of some changes.
pub open spec fn text_after(chars: Seq<char>, changes: Seq<Change>, count: nat) -> Seq<char>
    decreases count,
{
    if count == 0 {
        chars
    } else {
        let before = text_after(chars, changes, (count - 1) as nat);
        changed(before, changes[count - 1].range, changes[count - 1].text@)
    }
}

/// Whether a change replaces a part that does not end before it starts.
pub open spec fn orderly(chars: Seq<char>, change: Change) -> bool {
    match change.range {
        Some(part) => chars_before(chars, part.start) <= chars_before(chars, part.end),
        None => true,
    }
}

/// Whether all changes of a text are orderly, each in the text that those before it leave.
pub open spec fn all_orderly(chars: Seq<char>, changes: Seq<Change>) -> bool {
    forall|i: nat|
        i < changes.len() ==> orderly(
            #[trigger] text_after(chars, changes, i),
            changes[i as int],
        )
}

fn change_text(text: &mut String, changes: &Vec<Change>)
    requires
        all_orderly(old(text)@, changes@),
    ensures
        final(text)@ == text_after(old(text)@, changes@, changes@.len()),
{
    let ghost before = text@;
    let mut done: usize = 0;
    while done < changes.len()
        invariant
            done <= changes.len(),
            all_orderly(before, changes@),
            text@ == text_after(before, changes@, done as nat),
        decreases changes.len() - done,
    {
        assert(orderly(text_after(before, changes@, done as nat), changes@[done as int]));
        apply_change(text, changes[done].range, &changes[done].text);
        done = done + 1;
    }
}

/// The documents of an editor, and whether the editor is done.
#[derive(Debug)]
pub struct ServerState {
    pub documents: Vec<Document>,
    pub should_exit: bool,
}

impl ServerState {
    pub fn new() -> (state: ServerState)
        ensures
            state.documents@ == Seq::<Document>::empty(),
            !state.should_exit,
    {
        ServerState { documents: Vec::new(), should_exit: false }
    }

    fn find(&self, uri: &String) -> (place: Option<usize>)
        ensures
            match place {
                Some(found) => place_of(self.documents@, uri@) == Some(found as int) && found
                    < self.documents@.len(),
                None => place_of(self.documents@, uri@) is None,
            },
    {
        let mut place: usize = 0;
        while place < self.documents.len()
            invariant
                place <= self.documents@.len(),
                place_of(self.documents@, uri@) == place_from(self.documents@, uri@, place as int),
            decreases self.documents.len() - place,
        {
            if self.documents[place].uri == *uri {
                return Some(place);
            }
            place = place + 1;
        }
        None
    }

    /// A document is opened, in the place of one that is open under its name.
    pub fn opened(&mut self, uri: &String, version: i32, text: &String, path: &String) -> (action: Action)
        ensures
            ({
                let document = Document { uri: *uri, version, text: *text, path: *path };
                final(self).documents@ == match place_of(old(self).documents@, uri@) {
                    Some(place) => old(self).documents@.update(place, document),
                    None => old(self).documents@.push(document),
                }
            }),
            final(self).should_exit == old(self).should_exit,
            action == (Action::Compile { path: *path, text: *text }),
    {
        let document = Document {
            uri: uri.clone(),
            version,
            text: text.clone(),
            path: path.clone(),
        };
        match self.find(uri) {
            Some(place) => {
                self.documents.set(place, document);
            },
            None => {
                self.documents.push(document);
            },
        }
        Action::Compile { path: path.clone(), text: text.clone() }
    }

    /// A document is changed. Changes of a document that is not open are passed over.
    pub fn changed(&mut self, uri: &String, version: i32, changes: &Vec<Change>) -> (action: Action)
        requires
            match place_of(old(self).documents@, uri@) {
                Some(place) => all_orderly(old(self).documents@[place].text@, changes@),
                None => true,
            },
        ensures
            final(self).should_exit == old(self).should_exit,
            match place_of(old(self).documents@, uri@) {
                Some(place) => {
                    let before = old(self).documents@[place];
                    let after = final(self).documents@[place];
                    &&& final(self).documents@ == old(self).documents@.update(place, after)
                    &&& after.uri == before.uri
                    &&& after.path == before.path
                    &&& after.version == version
                    &&& after.text@ == text_after(before.text@, changes@, changes@.len())
                    &&& action == (Action::Compile { path: before.path, text: after.text })
                },
                None => *final(self) == *old(self) && action is Nothing,
            },
    {
        match self.find(uri) {
            None => Action::Nothing,
            Some(place) => {
                let mut text = self.documents[place].text.clone();
                change_text(&mut text, changes);
                let path = self.documents[place].path.clone();
                let document = Document {
                    uri: self.documents[place].uri.clone(),
                    version,
                    text: text.clone(),
                    path: path.clone(),
                };
                self.documents.set(place, document);
                Action::Compile { path, text }
            },
        }
    }

    /// A document is saved: what is on disk is compiled.
    pub fn saved(&self, uri: &String) -> (action: Action)
        ensures
            action == match place_of(self.documents@, uri@) {
                Some(place) => Action::ReadAndCompile { path: self.documents@[place].path },
                None => Action::Nothing,
            },
    {
        match self.find(uri) {
            Some(place) => Action::ReadAndCompile { path: self.documents[place].path.clone() },
            None => Action::Nothing,
        }
    }

    /// A document is closed.
    pub fn closed(&mut self, uri: &String) -> (action: Action)
        ensures
            final(self).should_exit == old(self).should_exit,
            match place_of(old(self).documents@, uri@) {
                Some(place) => {
                    &&& final(self).documents@ == old(self).documents@.remove(place)
                    &&& action == (Action::Close { path: old(self).documents@[place].path })
                },
                None => *final(self) == *old(self) && action is Nothing,
            },
    {
        match self.find(uri) {
            Some(place) => {
                let document = self.documents.remove(place);
                Action::Close { path: document.path }
            },
            None => Action::Nothing,
        }
    }

    /// The editor is done.
    pub fn exited(&mut self)
        ensures
            final(self).should_exit,
            final(self).documents == old(self).documents,
    {
        self.should_exit = true;
    }
}

} // verus!
