//! The native file pickers: what to show, and how the answer is reported.
//!
//! The shell shows the picker described by a [`DialogRequest`] and blocks
//! until the user answers. The answer is a chosen path or nothing; closing
//! the picker without choosing is an ordinary outcome, not an error.

use crate::text::opt_text;
use vstd::prelude::*;

verus! {

/// A named group of file extensions offered in a picker.
#[derive(Debug, PartialEq, Eq)]
pub struct FileFilter {
    pub name: String,
    pub extensions: Vec<String>,
}

/// Mathematical model of a [`FileFilter`].
pub struct FileFilterModel {
    pub name: Seq<char>,
    pub extensions: Seq<Seq<char>>,
}

impl View for FileFilter {
    type V = FileFilterModel;

    open spec fn view(&self) -> FileFilterModel {
        FileFilterModel {
            name: self.name@,
            extensions: self.extensions@.map_values(|e: String| e@),
        }
    }
}

/// What a picker is to show.
#[derive(Debug, PartialEq, Eq)]
pub struct DialogRequest {
    pub filters: Vec<FileFilter>,
    pub file_name: Option<String>,
}

/// Mathematical model of a [`DialogRequest`].
pub struct DialogRequestModel {
    pub filters: Seq<FileFilterModel>,
    pub file_name: Option<Seq<char>>,
}

impl View for DialogRequest {
    type V = DialogRequestModel;

    open spec fn view(&self) -> DialogRequestModel {
        DialogRequestModel {
            filters: self.filters@.map_values(|f: FileFilter| f@),
            file_name: opt_text(self.file_name),
        }
    }
}

/// The outcome of a picker.
#[derive(Debug, PartialEq, Eq)]
pub struct DialogResult {
    pub path: Option<String>,
    pub canceled: bool,
}

/// Mathematical model of a [`DialogResult`].
pub struct DialogResultModel {
    pub path: Option<Seq<char>>,
    pub canceled: bool,
}

impl View for DialogResult {
    type V = DialogResultModel;

    open spec fn view(&self) -> DialogResultModel {
        DialogResultModel { path: opt_text(self.path), canceled: self.canceled }
    }
}

impl DialogResult {
    /// A result is canceled exactly when it holds no path.
    pub open spec fn well_formed(&self) -> bool {
        self.canceled <==> self.path is None
    }
}

/// The plain-text filter, shared by both pickers.
pub open spec fn text_filter() -> FileFilterModel {
    FileFilterModel { name: "Text"@, extensions: seq!["txt"@] }
}

/// The filter that admits every file, shared by both pickers.
pub open spec fn all_files_filter() -> FileFilterModel {
    FileFilterModel { name: "All Files"@, extensions: seq!["*"@] }
}

/// The filters of the "open" picker: markdown in all its spellings, plain
/// text, all files.
pub open spec fn open_filters() -> Seq<FileFilterModel> {
    seq![
        FileFilterModel {
            name: "Markdown"@,
            extensions: seq!["md"@, "markdown"@, "mdown"@, "mkd"@],
        },
        text_filter(),
        all_files_filter(),
    ]
}

/// The filters of the "save" picker: markdown, plain text, all files.
pub open spec fn save_filters() -> Seq<FileFilterModel> {
    seq![
        FileFilterModel { name: "Markdown"@, extensions: seq!["md"@, "markdown"@] },
        text_filter(),
        all_files_filter(),
    ]
}

/// How a picker's answer is reported: the path if one was chosen, and
/// otherwise the canceled mark.
pub open spec fn dialog_report(picked: Option<String>) -> DialogResultModel {
    DialogResultModel { path: opt_text(picked), canceled: picked is None }
}

fn new_filter(name: &str, extensions: &[&str]) -> (filter: FileFilter)
    ensures
        filter@.name == name@,
        filter@.extensions == extensions@.map_values(|e: &str| e@),
{
    let mut list: Vec<String> = Vec::new();
    let mut i: usize = 0;
    while i < extensions.len()
        invariant
            i <= extensions.len(),
            list.len() == i,
            forall|k: int| 0 <= k < i ==> (#[trigger] list[k])@ == extensions[k]@,
        decreases extensions.len() - i,
    {
        list.push(extensions[i].to_owned());
        i = i + 1;
    }
    let filter = FileFilter { name: name.to_owned(), extensions: list };
    assert(filter@.extensions =~= extensions@.map_values(|e: &str| e@));
    filter
}

/// Describes the "open" picker.
pub fn open_dialog_request() -> (request: DialogRequest)
    ensures
        request@ == (DialogRequestModel { filters: open_filters(), file_name: None }),
{
    let mut filters: Vec<FileFilter> = Vec::new();
    filters.push(new_filter("Markdown", &["md", "markdown", "mdown", "mkd"]));
    filters.push(new_filter("Text", &["txt"]));
    filters.push(new_filter("All Files", &["*"]));
    let request = DialogRequest { filters, file_name: None };
    assert(request@.filters =~= open_filters()) by {
        assert(request@.filters[0].extensions =~= open_filters()[0].extensions);
        assert(request@.filters[1].extensions =~= open_filters()[1].extensions);
        assert(request@.filters[2].extensions =~= open_filters()[2].extensions);
    }
    request
}

/// Describes the "save" picker, pre-filled with `default_name` if there is
/// one.
pub fn save_dialog_request(default_name: Option<String>) -> (request: DialogRequest)
    ensures
        request@ == (DialogRequestModel {
            filters: save_filters(),
            file_name: opt_text(default_name),
        }),
{
    let mut filters: Vec<FileFilter> = Vec::new();
    filters.push(new_filter("Markdown", &["md", "markdown"]));
    filters.push(new_filter("Text", &["txt"]));
    filters.push(new_filter("All Files", &["*"]));
    let request = DialogRequest { filters, file_name: default_name };
    assert(request@.filters =~= save_filters()) by {
        assert(request@.filters[0].extensions =~= save_filters()[0].extensions);
        assert(request@.filters[1].extensions =~= save_filters()[1].extensions);
        assert(request@.filters[2].extensions =~= save_filters()[2].extensions);
    }
    request
}

/// Reports the answer of the "open" picker.
pub fn open_file_dialog(picked: Option<String>) -> (result: DialogResult)
    ensures
        result@ == dialog_report(picked),
        result.well_formed(),
{
    match picked {
        Some(path) => DialogResult { path: Some(path), canceled: false },
        None => DialogResult { path: None, canceled: true },
    }
}

/// Reports the answer of the "save" picker.
pub fn save_file_dialog(picked: Option<String>) -> (result: DialogResult)
    ensures
        result@ == dialog_report(picked),
        result.well_formed(),
{
    match picked {
        Some(path) => DialogResult { path: Some(path), canceled: false },
        None => DialogResult { path: None, canceled: true },
    }
}

} // verus!
