//! What the program picker shows: home-relative paths, the listing of a directory, and the
//! programs offered online.
use vstd::prelude::*;
use crate::file_picker_update::{parse_url, url_parse, ParsedUrl, UrlParts};
use crate::instruction::{chars_of, find_first, occurs_at};
use crate::{ApplicationState, ProgramPickerSource};

verus! {

/// The number of `~` characters at the start of `s`.
pub open spec fn leading_tildes(s: Seq<char>) -> nat
    decreases s.len(),
{
    if s.len() > 0 && s[0] == '~' {
        1 + leading_tildes(s.drop_first())
    } else {
        0
    }
}

/// A path typed as starting with `~` stands for the home directory followed by the rest of
/// the path (all leading `~` removed); any other path stands for itself.
pub open spec fn spec_expand_home(path: Seq<char>, home: Seq<char>) -> Seq<char> {
    if path.len() > 0 && path[0] == '~' {
        home + path.skip(leading_tildes(path) as int)
    } else {
        path
    }
}

/// The path that a typed path stands for, given the home directory.
pub fn expand_home(path: &str, home: &str) -> (expanded: String)
    ensures
        expanded@ == spec_expand_home(path@, home@),
{
    let n = path.unicode_len();
    let mut k: usize = 0;
    assert(path@.skip(0) =~= path@);
    while k < n && path.get_char(k) == '~'
        invariant
            n == path@.len(),
            k <= n,
            forall|j: int| 0 <= j < k ==> path@[j] == '~',
            leading_tildes(path@) == k + leading_tildes(path@.skip(k as int)),
        decreases n - k,
    {
        proof {
            assert(path@.skip(k as int).drop_first() =~= path@.skip(k + 1));
        }
        k = k + 1;
    }
    proof {
        assert(leading_tildes(path@.skip(k as int)) == 0);
    }
    if k == 0 {
        return String::from_str(path);
    }
    let rest = path.substring_char(k, n);
    assert(rest@ =~= path@.skip(k as int));
    String::from_str(home).concat(rest)
}

/// The label of an entry of a directory listing: its name (or `invalid` if it has none),
/// followed by `/` for a directory.
pub open spec fn spec_entry_label(file_name: Option<Seq<char>>, is_dir: bool) -> Seq<char> {
    let name = match file_name {
        Some(n) => n,
        None => "invalid"@,
    };
    if is_dir {
        name + "/"@
    } else {
        name
    }
}

/// The label of an entry of a directory listing.
pub fn entry_label(file_name: Option<String>, is_dir: bool) -> (label: String)
    ensures
        label@ == spec_entry_label(file_name.deep_view(), is_dir),
{
    let name = match file_name {
        Some(n) => n,
        None => String::from_str("invalid"),
    };
    if is_dir {
        name.concat("/")
    } else {
        name
    }
}

/// The indices `i < n` whose flag equals `want`, in increasing order.
pub open spec fn indices_with(flags: Seq<bool>, want: bool, n: int) -> Seq<usize>
    decreases n,
{
    if n <= 0 {
        Seq::empty()
    } else if flags[n - 1] == want {
        indices_with(flags, want, n - 1).push((n - 1) as usize)
    } else {
        indices_with(flags, want, n - 1)
    }
}

/// The order in which a directory listing is shown, given which entries are files: the
/// directories first, then the files, each group in the order of the listing (a stable sort
/// by "is a file").
pub open spec fn spec_dirs_first(is_file: Seq<bool>) -> Seq<usize> {
    indices_with(is_file, false, is_file.len() as int) + indices_with(
        is_file,
        true,
        is_file.len() as int,
    )
}

fn collect_indices(flags: &Vec<bool>, want: bool, out: &mut Vec<usize>)
    ensures
        final(out)@ == old(out)@ + indices_with(flags@, want, flags@.len() as int),
{
    let ghost start = out@;
    let mut i: usize = 0;
    while i < flags.len()
        invariant
            i <= flags@.len(),
            out@ == start + indices_with(flags@, want, i as int),
        decreases flags@.len() - i,
    {
        if flags[i] == want {
            out.push(i);
        }
        i = i + 1;
        assert(out@ =~= start + indices_with(flags@, want, i as int));
    }
}

/// The order in which a directory listing is shown: directories first, then files.
pub fn dirs_first(is_file: &Vec<bool>) -> (order: Vec<usize>)
    ensures
        order@ == spec_dirs_first(is_file@),
{
    let mut order: Vec<usize> = Vec::new();
    collect_indices(is_file, false, &mut order);
    collect_indices(is_file, true, &mut order);
    assert(order@ =~= spec_dirs_first(is_file@));
    order
}

/// The programs offered online when no list of them is found.
pub open spec fn spec_fallback_games() -> Seq<Seq<char>> {
    seq![
        "https://raw.githubusercontent.com/JohnEarnest/chip8Archive/refs/heads/master/roms/rockto.ch8"@,
        "https://raw.githubusercontent.com/Timendus/chip8-test-suite/refs/heads/main/bin/1-chip8-logo.ch8"@,
        "https://raw.githubusercontent.com/Timendus/chip8-test-suite/refs/heads/main/bin/2-ibm-logo.ch8"@,
        "https://raw.githubusercontent.com/Timendus/chip8-test-suite/refs/heads/main/bin/3-corax%2B.ch8"@,
        "https://raw.githubusercontent.com/Timendus/chip8-test-suite/refs/heads/main/bin/4-flags.ch8"@,
        "https://raw.githubusercontent.com/Timendus/chip8-test-suite/refs/heads/main/bin/5-quirks.ch8"@,
        "https://raw.githubusercontent.com/Timendus/chip8-test-suite/refs/heads/main/bin/6-keypad.ch8"@,
        "https://raw.githubusercontent.com/Timendus/chip8-test-suite/refs/heads/main/bin/7-beep.ch8"@,
        "https://raw.githubusercontent.com/Timendus/chip8-test-suite/refs/heads/main/bin/8-scrolling.ch8"@,
    ]
}

/// The programs offered online when no list of them is found.
pub fn fallback_games() -> (games: Vec<String>)
    ensures
        games.deep_view() == spec_fallback_games(),
{
    let games = vec![
        String::from_str("https://raw.githubusercontent.com/JohnEarnest/chip8Archive/refs/heads/master/roms/rockto.ch8"),
        String::from_str("https://raw.githubusercontent.com/Timendus/chip8-test-suite/refs/heads/main/bin/1-chip8-logo.ch8"),
        String::from_str("https://raw.githubusercontent.com/Timendus/chip8-test-suite/refs/heads/main/bin/2-ibm-logo.ch8"),
        String::from_str("https://raw.githubusercontent.com/Timendus/chip8-test-suite/refs/heads/main/bin/3-corax%2B.ch8"),
        String::from_str("https://raw.githubusercontent.com/Timendus/chip8-test-suite/refs/heads/main/bin/4-flags.ch8"),
        String::from_str("https://raw.githubusercontent.com/Timendus/chip8-test-suite/refs/heads/main/bin/5-quirks.ch8"),
        String::from_str("https://raw.githubusercontent.com/Timendus/chip8-test-suite/refs/heads/main/bin/6-keypad.ch8"),
        String::from_str("https://raw.githubusercontent.com/Timendus/chip8-test-suite/refs/heads/main/bin/7-beep.ch8"),
        String::from_str("https://raw.githubusercontent.com/Timendus/chip8-test-suite/refs/heads/main/bin/8-scrolling.ch8"),
    ];
    assert(games.deep_view() =~= spec_fallback_games());
    games
}

/// What the URL parser makes of each line, keeping only the lines that parse, in order.
pub open spec fn spec_parsed_urls(lines: Seq<Seq<char>>) -> Seq<UrlParts>
    decreases lines.len(),
{
    if lines.len() == 0 {
        Seq::empty()
    } else {
        let rest = spec_parsed_urls(lines.drop_last());
        match url_parse(lines.last()) {
            Some(u) => rest.push(u),
            None => rest,
        }
    }
}

/// The programs offered online: the lines of the list of programs that parse as URLs, or the
/// fallback programs when there is no list or none of its lines parses.
pub open spec fn spec_default_games(list: Option<Seq<Seq<char>>>) -> Seq<
    UrlParts,
> {
    match list {
        Some(lines) => if spec_parsed_urls(lines).len() > 0 {
            spec_parsed_urls(lines)
        } else {
            spec_parsed_urls(spec_fallback_games())
        },
        None => spec_parsed_urls(spec_fallback_games()),
    }
}

/// The parts of each parsed URL.
pub open spec fn url_parts(urls: Seq<ParsedUrl>) -> Seq<UrlParts> {
    urls.map_values(|u: ParsedUrl| u.view_parts())
}

/// The lines that parse as URLs, parsed, in order.
pub fn parse_urls(lines: &Vec<String>) -> (urls: Vec<ParsedUrl>)
    ensures
        url_parts(urls@) == spec_parsed_urls(lines.deep_view()),
{
    let mut urls: Vec<ParsedUrl> = Vec::new();
    let mut i: usize = 0;
    while i < lines.len()
        invariant
            i <= lines@.len(),
            url_parts(urls@) == spec_parsed_urls(lines.deep_view().take(i as int)),
        decreases lines@.len() - i,
    {
        let ghost before = urls@;
        let parsed = parse_url(lines[i].as_str());
        proof {
            assert(lines.deep_view().take(i + 1).drop_last() =~= lines.deep_view().take(i as int));
            assert(lines.deep_view().take(i + 1).last() == lines@[i as int]@);
        }
        if let Some(u) = parsed {
            urls.push(u);
            assert(url_parts(urls@) =~= url_parts(before).push(u.view_parts()));
        }
        i = i + 1;
    }
    assert(lines.deep_view().take(i as int) =~= lines.deep_view());
    urls
}

/// The programs offered online, given the lines of the list of programs if one was found.
pub fn default_games(list: Option<Vec<String>>) -> (games: Vec<ParsedUrl>)
    ensures
        url_parts(games@) == spec_default_games(list.deep_view()),
{
    match list {
        Some(lines) => {
            let games = parse_urls(&lines);
            if games.len() > 0 {
                games
            } else {
                parse_urls(&fallback_games())
            }
        },
        None => parse_urls(&fallback_games()),
    }
}

/// Name for what `urlencoding::decode` makes of `s`: nothing if the decoded bytes are not
/// UTF-8, else the decoded text.
pub uninterp spec fn url_decode(s: Seq<char>) -> Option<Seq<char>>;

/// Decodes percent-escapes with `urlencoding::decode`. The contract claims only that the
/// result is the named outcome for that input.
#[verifier::external_body]
pub(crate) fn percent_decode(s: &str) -> (decoded: Option<String>)
    ensures
        decoded.deep_view() == url_decode(s@),
{
    urlencoding::decode(s).ok().map(|d| d.into_owned())
}

/// Name for the lower-case form of a text by `str::to_lowercase`.
pub uninterp spec fn lowercase(s: Seq<char>) -> Seq<char>;

/// The lower-case form of `s` by `str::to_lowercase`. The contract claims that the result is
/// the named lower-case form of that text, and that the empty text stays empty; it states
/// nothing else of the Unicode case mapping.
#[verifier::external_body]
pub(crate) fn to_lowercase(s: &str) -> (lower: String)
    ensures
        lower@ == lowercase(s@),
        s@.len() == 0 ==> lower@.len() == 0,
{
    s.to_lowercase()
}

/// Whether `needle` occurs in `haystack`.
pub open spec fn spec_contains(haystack: Seq<char>, needle: Seq<char>) -> bool {
    exists|k: int| occurs_at(haystack, needle, k)
}

/// Whether `needle` occurs in `haystack`.
pub fn contains_text(haystack: &str, needle: &str) -> (found: bool)
    ensures
        found == spec_contains(haystack@, needle@),
{
    let h = chars_of(haystack);
    let n = chars_of(needle);
    match find_first(&h, &n) {
        Some(k) => true,
        None => {
            proof {
                reveal(crate::instruction::first_occurrence);
            }
            false
        },
    }
}

/// The name under which a program found online is shown: the last segment of its URL's path,
/// percent-decoded, or else the whole URL.
pub open spec fn spec_game_name(url: UrlParts) -> Seq<char> {
    match url.1 {
        Some(segments) => if segments.len() > 0 {
            match url_decode(segments.last()) {
                Some(name) => name,
                None => url.0,
            }
        } else {
            url.0
        },
        None => url.0,
    }
}

/// The name under which a program found online is shown.
pub fn game_name(url: &ParsedUrl) -> (name: String)
    ensures
        name@ == spec_game_name(url.view_parts()),
{
    match &url.path_segments {
        Some(segments) => if segments.len() > 0 {
            let last = &segments[segments.len() - 1];
            match percent_decode(last.as_str()) {
                Some(name) => name,
                None => url.serialization.clone(),
            }
        } else {
            url.serialization.clone()
        },
        None => url.serialization.clone(),
    }
}

/// A program offered online: the name it is shown under and the URL it is fetched from.
#[derive(Clone, Debug)]
pub struct GameEntry {
    pub name: String,
    pub url: String,
}

/// A program is shown when the lower-case form of its name contains the lower-case form of
/// the search term.
pub open spec fn spec_game_matches(url: UrlParts, search: Seq<char>) -> bool {
    spec_contains(lowercase(spec_game_name(url)), lowercase(search))
}

/// The programs shown for a search term, in the order of the list: the name and URL of each
/// program whose name matches.
pub open spec fn spec_visible_games(
    games: Seq<UrlParts>,
    search: Seq<char>,
) -> Seq<(Seq<char>, Seq<char>)>
    decreases games.len(),
{
    if games.len() == 0 {
        Seq::empty()
    } else {
        let rest = spec_visible_games(games.drop_last(), search);
        if spec_game_matches(games.last(), search) {
            rest.push((spec_game_name(games.last()), games.last().0))
        } else {
            rest
        }
    }
}

/// The name and URL of each entry.
pub open spec fn entry_parts(entries: Seq<GameEntry>) -> Seq<(Seq<char>, Seq<char>)> {
    entries.map_values(|e: GameEntry| (e.name@, e.url@))
}

/// The programs shown for a search term.
pub fn visible_games(games: &Vec<ParsedUrl>, search: &str) -> (shown: Vec<GameEntry>)
    ensures
        entry_parts(shown@) == spec_visible_games(url_parts(games@), search@),
        search@.len() == 0 ==> shown@.len() == games@.len(),
{
    let search_lower = to_lowercase(search);
    let mut shown: Vec<GameEntry> = Vec::new();
    let mut i: usize = 0;
    while i < games.len()
        invariant
            i <= games@.len(),
            search_lower@ == lowercase(search@),
            search@.len() == 0 ==> search_lower@.len() == 0,
            search@.len() == 0 ==> shown@.len() == i,
            entry_parts(shown@) == spec_visible_games(url_parts(games@).take(i as int), search@),
        decreases games@.len() - i,
    {
        let ghost before = shown@;
        let game = &games[i];
        let name = game_name(game);
        let name_lower = to_lowercase(name.as_str());
        proof {
            assert(url_parts(games@).take(i + 1).drop_last() =~= url_parts(games@).take(i as int));
            assert(url_parts(games@).take(i + 1).last() == games@[i as int].view_parts());
        }
        proof {
            if search_lower@.len() == 0 {
                assert(name_lower@.subrange(0, 0) =~= search_lower@);
                assert(occurs_at(name_lower@, search_lower@, 0));
            }
        }
        if contains_text(name_lower.as_str(), search_lower.as_str()) {
            let entry = GameEntry { name, url: game.serialization.clone() };
            shown.push(entry);
            assert(entry_parts(shown@) =~= entry_parts(before).push((entry.name@, entry.url@)));
        }
        i = i + 1;
    }
    assert(url_parts(games@).take(i as int) =~= url_parts(games@));
    shown
}

/// What submitting the picker's text does.
#[derive(Clone, Debug)]
pub enum PickerSubmit {
    /// Browse the directory at this path.
    EnterDirectory(String),
    /// Load the program file at this path.
    LoadProgram(String),
    /// Fetch the program at this URL.
    LoadProgramFromOnline(String),
}

/// The path that the typed text stands for on disk.
pub open spec fn spec_disk_path(state: ApplicationState, home: Seq<char>) -> Seq<char> {
    spec_expand_home(state.file_picker_related_data.program_path@, home)
}

/// What submitting the picker's text does: on disk, the typed path (a leading `~` standing for
/// the home directory) is browsed if it is a directory and loaded otherwise; online, the text
/// is fetched as a URL, as typed. `is_dir` tells whether the disk path is a directory.
pub open spec fn spec_picker_submit(state: ApplicationState, home: Seq<char>, is_dir: bool)
    -> (int, Seq<char>) {
    match state.file_picker_related_data.program_source {
        ProgramPickerSource::Disk => if is_dir {
            (0, spec_disk_path(state, home))
        } else {
            (1, spec_disk_path(state, home))
        },
        ProgramPickerSource::Online => (2, state.file_picker_related_data.program_path@),
    }
}

impl PickerSubmit {
    /// The kind of action (0: enter a directory, 1: load a file, 2: fetch online) and its text.
    pub open spec fn view_parts(&self) -> (int, Seq<char>) {
        match self {
            PickerSubmit::EnterDirectory(p) => (0, p@),
            PickerSubmit::LoadProgram(p) => (1, p@),
            PickerSubmit::LoadProgramFromOnline(u) => (2, u@),
        }
    }
}

/// What submitting the picker's text does; `disk_path_is_dir` tells whether the path that the
/// text stands for on disk (see [`expand_home`]) is a directory.
pub fn picker_submit(application_state: &ApplicationState, home: &str, disk_path_is_dir: bool)
    -> (action: PickerSubmit)
    ensures
        action.view_parts() == spec_picker_submit(*application_state, home@, disk_path_is_dir),
{
    let data = &application_state.file_picker_related_data;
    match data.program_source {
        ProgramPickerSource::Disk => {
            let path = expand_home(data.program_path.as_str(), home);
            if disk_path_is_dir {
                PickerSubmit::EnterDirectory(path)
            } else {
                PickerSubmit::LoadProgram(path)
            }
        },
        ProgramPickerSource::Online => PickerSubmit::LoadProgramFromOnline(data.program_path.clone()),
    }
}

/// How the picker is shown: the hint in its text field, and whether it takes input (it does
/// not while a program is being fetched).
#[derive(Clone, Debug)]
pub struct PickerInput {
    pub hint: String,
    pub accepts_input: bool,
}

/// How the picker is shown: the hint is "File or Dir" on disk and "URL" online; the text
/// field, the submit button and the online programs take no input while fetching.
pub fn picker_input(application_state: &ApplicationState) -> (input: PickerInput)
    ensures
        input.hint@ == match application_state.file_picker_related_data.program_source {
            ProgramPickerSource::Disk => "File or Dir"@,
            ProgramPickerSource::Online => "URL"@,
        },
        input.accepts_input == !application_state.file_picker_related_data.fetching_data,
{
    let hint = match application_state.file_picker_related_data.program_source {
        ProgramPickerSource::Disk => String::from_str("File or Dir"),
        ProgramPickerSource::Online => String::from_str("URL"),
    };
    PickerInput { hint, accepts_input: !application_state.file_picker_related_data.fetching_data }
}

} // verus!
