//! A list of edits to the text of a file, recorded in order and written out in one go.
use vstd::prelude::*;

verus! {

/// One edit of a file's text; byte positions refer to the text as read.
pub enum FileEdit {
    Replace { start: usize, end: usize, content: String },
    InsertAt { at: usize, content: String },
    InsertWithPreviousNewlineAt { at: usize, content: String },
    Append { content: String },
    AppendWithPreviousNewline { content: String },
}

/// What an edit holds.
pub enum FileEditView {
    Replace { start: usize, end: usize, content: Seq<char> },
    InsertAt { at: usize, content: Seq<char> },
    InsertWithPreviousNewlineAt { at: usize, content: Seq<char> },
    Append { content: Seq<char> },
    AppendWithPreviousNewline { content: Seq<char> },
}

impl View for FileEdit {
    type V = FileEditView;

    open spec fn view(&self) -> FileEditView {
        match self {
            FileEdit::Replace { start, end, content } => FileEditView::Replace {
                start: *start,
                end: *end,
                content: content@,
            },
            FileEdit::InsertAt { at, content } => FileEditView::InsertAt { at: *at, content: content@ },
            FileEdit::InsertWithPreviousNewlineAt { at, content } =>
                FileEditView::InsertWithPreviousNewlineAt { at: *at, content: content@ },
            FileEdit::Append { content } => FileEditView::Append { content: content@ },
            FileEdit::AppendWithPreviousNewline { content } =>
                FileEditView::AppendWithPreviousNewline { content: content@ },
        }
    }
}

/// The views of a sequence of edits.
pub open spec fn edit_views(v: Seq<FileEdit>) -> Seq<FileEditView> {
    v.map_values(|e: FileEdit| e@)
}

/// The edits to make to one file.
pub struct FileOverwriting {
    input_file: String,
    edits: Vec<FileEdit>,
}

impl FileOverwriting {
    pub closed spec fn spec_input_file(&self) -> Seq<char> {
        self.input_file@
    }

    /// The edits recorded so far, in order.
    pub closed spec fn spec_edits(&self) -> Seq<FileEditView> {
        edit_views(self.edits@)
    }

    /// No edits yet to the file at `path`.
    pub fn new(path: &str) -> (r: Self)
        ensures
            r.spec_input_file() == path@,
            r.spec_edits() == Seq::<FileEditView>::empty(),
    {
        let r = FileOverwriting { input_file: path.to_owned(), edits: Vec::new() };
        assert(r.spec_edits() =~= Seq::empty());
        r
    }

    /// No edits yet to the file at `path`.
    pub fn from_unchecked_path(path: &str) -> (r: Self)
        ensures
            r.spec_input_file() == path@,
            r.spec_edits() == Seq::<FileEditView>::empty(),
    {
        Self::new(path)
    }

    /// The file to edit.
    pub fn get_input_file(&self) -> (r: &str)
        ensures
            r@ == self.spec_input_file(),
    {
        self.input_file.as_str()
    }

    /// The edits recorded so far, in order.
    pub fn get_edits(&self) -> (r: &Vec<FileEdit>)
        ensures
            edit_views(r@) == self.spec_edits(),
    {
        &self.edits
    }

    fn record(&mut self, edit: FileEdit)
        ensures
            final(self).spec_edits() == old(self).spec_edits().push(edit@),
            final(self).spec_input_file() == old(self).spec_input_file(),
    {
        let ghost prev = self.edits@;
        self.edits.push(edit);
        assert(edit_views(self.edits@) =~= edit_views(prev).push(edit@));
    }

    /// Replaces the bytes from `start` to `end` with `content`.
    pub fn replace(&mut self, start: usize, end: usize, content: &str) -> (r: Result<(), String>)
        ensures
            r is Ok,
            final(self).spec_edits() == old(self).spec_edits().push(
                FileEditView::Replace { start, end, content: content@ },
            ),
            final(self).spec_input_file() == old(self).spec_input_file(),
    {
        self.record(FileEdit::Replace { start, end, content: content.to_owned() });
        Ok(())
    }

    /// Inserts `content` at the byte `at`.
    pub fn insert_content_at(&mut self, at: usize, content: &str) -> (r: Result<(), String>)
        ensures
            r is Ok,
            final(self).spec_edits() == old(self).spec_edits().push(
                FileEditView::InsertAt { at, content: content@ },
            ),
            final(self).spec_input_file() == old(self).spec_input_file(),
    {
        self.record(FileEdit::InsertAt { at, content: content.to_owned() });
        Ok(())
    }

    /// Inserts a newline and then `content` at the byte `at`.
    pub fn insert_content_with_previous_newline_at(&mut self, at: usize, content: &str) -> (r: Result<
        (),
        String,
    >)
        ensures
            r is Ok,
            final(self).spec_edits() == old(self).spec_edits().push(
                FileEditView::InsertWithPreviousNewlineAt { at, content: content@ },
            ),
            final(self).spec_input_file() == old(self).spec_input_file(),
    {
        self.record(FileEdit::InsertWithPreviousNewlineAt { at, content: content.to_owned() });
        Ok(())
    }

    /// Appends `content` at the end of the file.
    pub fn append(&mut self, content: &str)
        ensures
            final(self).spec_edits() == old(self).spec_edits().push(
                FileEditView::Append { content: content@ },
            ),
            final(self).spec_input_file() == old(self).spec_input_file(),
    {
        self.record(FileEdit::Append { content: content.to_owned() });
    }

    /// Appends a newline and then `content` at the end of the file.
    pub fn append_with_previous_newline(&mut self, content: &str)
        ensures
            final(self).spec_edits() == old(self).spec_edits().push(
                FileEditView::AppendWithPreviousNewline { content: content@ },
            ),
            final(self).spec_input_file() == old(self).spec_input_file(),
    {
        self.record(FileEdit::AppendWithPreviousNewline { content: content.to_owned() });
    }
}

} // verus!
