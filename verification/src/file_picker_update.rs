//! Picking a program: its source, its path, and the directories browsed on disk.
use vstd::prelude::*;
use crate::{ApplicationState, FilePickerRelatedData, ProgramPickerSource};

verus! {

/// A URL as text: its serialization, and the segments of its path (if its path is made of
/// segments).
pub type UrlParts = (Seq<char>, Option<Seq<Seq<char>>>);

/// A URL as the URL parser understands it: its serialization, and the segments of its path
/// (if it has a path made of segments).
#[derive(Clone, Debug)]
pub struct ParsedUrl {
    pub serialization: String,
    pub path_segments: Option<Vec<String>>,
}

impl ParsedUrl {
    /// The serialization and the path segments, as text.
    pub open spec fn view_parts(&self) -> UrlParts {
        (self.serialization@, self.path_segments.deep_view())
    }
}

/// Name for what the URL parser (`url::Url::parse`, re-exported by surf) makes of `input`:
/// nothing if it rejects the input, else the serialization of the URL and the segments of its
/// path (none for a URL whose path is not made of segments).
pub uninterp spec fn url_parse(input: Seq<char>) -> Option<UrlParts>;

/// Parses `input` with `surf::Url::parse` and keeps the URL's serialization (`as_str`) and the
/// segments of its path (`path_segments`). The contract claims only that the result is the
/// named outcome for that input.
#[verifier::external_body]
pub(crate) fn parse_url(input: &str) -> (url: Option<ParsedUrl>)
    ensures
        match url {
            Some(u) => url_parse(input@) == Some(u.view_parts()),
            None => url_parse(input@) is None,
        },
{
    surf::Url::parse(input).ok().map(|u| ParsedUrl {
        serialization: u.as_str().to_string(),
        path_segments: u.path_segments().map(|segments| segments.map(String::from).collect()),
    })
}

/// Name for the parent of a path (`std::path::Path::parent`), as text.
pub uninterp spec fn parent_path(path: Seq<char>) -> Option<Seq<char>>;

/// The parent of `path` by `std::path::Path::parent`, as text. The contract claims only that
/// the result is the named parent of that path.
#[verifier::external_body]
pub(crate) fn path_parent(path: &str) -> (parent: Option<String>)
    ensures
        parent.deep_view() == parent_path(path@),
{
    std::path::Path::new(path).parent().map(|p| p.to_string_lossy().into_owned())
}

/// Choose where programs are picked from.
pub fn set_program_picker_source(
    application_state: &mut ApplicationState,
    source: ProgramPickerSource,
)
    ensures
        *final(application_state) == (ApplicationState {
            file_picker_related_data: FilePickerRelatedData {
                program_source: source,
                ..old(application_state).file_picker_related_data
            },
            ..*old(application_state)
        }),
{
    application_state.file_picker_related_data.program_source = source;
}

/// Set the path or URL typed into the picker.
pub fn update_program_path(application_state: &mut ApplicationState, path: String)
    ensures
        *final(application_state) == (ApplicationState {
            file_picker_related_data: FilePickerRelatedData {
                program_path: path,
                ..old(application_state).file_picker_related_data
            },
            ..*old(application_state)
        }),
{
    application_state.file_picker_related_data.program_path = path;
}

/// Set the term by which the online programs are searched.
pub fn set_current_search_term(application_state: &mut ApplicationState, term: String)
    ensures
        *final(application_state) == (ApplicationState {
            file_picker_related_data: FilePickerRelatedData {
                current_search_term: term,
                ..old(application_state).file_picker_related_data
            },
            ..*old(application_state)
        }),
{
    application_state.file_picker_related_data.current_search_term = term;
}

/// Ask for a program at `url`: a URL that does not parse is ignored; otherwise fetching
/// starts. Returns whether the program is to be fetched.
pub fn load_program_from_online(application_state: &mut ApplicationState, url: &str) -> (fetch:
    bool)
    ensures
        fetch == (url_parse(url@) is Some),
        *final(application_state) == if fetch {
            ApplicationState {
                file_picker_related_data: FilePickerRelatedData {
                    fetching_data: true,
                    ..old(application_state).file_picker_related_data
                },
                ..*old(application_state)
            }
        } else {
            *old(application_state)
        },
{
    if parse_url(url).is_none() {
        return false;
    }
    application_state.file_picker_related_data.fetching_data = true;
    true
}

/// Enter the directory at `path`: its parent becomes the directory one level up. Its listing
/// is read by the caller.
pub fn enter_directory(application_state: &mut ApplicationState, path: &str)
    ensures
        *final(application_state) == (ApplicationState {
            file_picker_related_data: FilePickerRelatedData {
                parent_dir: final(application_state).file_picker_related_data.parent_dir,
                ..old(application_state).file_picker_related_data
            },
            ..*old(application_state)
        }),
        final(application_state).file_picker_related_data.parent_dir.deep_view() == parent_path(
            path@,
        ),
{
    application_state.file_picker_related_data.parent_dir = path_parent(path);
}

/// Show the listing of the directory entered.
pub fn update_directory_listing(
    application_state: &mut ApplicationState,
    current_dir: Vec<String>,
)
    ensures
        *final(application_state) == (ApplicationState {
            file_picker_related_data: FilePickerRelatedData {
                current_dir: current_dir,
                ..old(application_state).file_picker_related_data
            },
            ..*old(application_state)
        }),
{
    application_state.file_picker_related_data.current_dir = current_dir;
}

/// A program or a directory could not be read: fetching is over.
pub fn program_fetch_error(application_state: &mut ApplicationState)
    ensures
        *final(application_state) == (ApplicationState {
            file_picker_related_data: FilePickerRelatedData {
                fetching_data: false,
                ..old(application_state).file_picker_related_data
            },
            ..*old(application_state)
        }),
{
    application_state.file_picker_related_data.fetching_data = false;
}

} // verus!
