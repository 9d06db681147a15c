//! The blacklist: a set of known weak passwords, loaded once from a text with
//! one password per line, and asked without regard to case.
//!
//! The store is an ordinary value. Whoever owns it arranges the sharing: a
//! shared reference is enough to ask, and only an exclusive one can load.
//! Reading the file is the caller's part; what the read came to is handed in
//! as a [`BlacklistSource`].

use crate::text::chars_of;
use crate::text::is_blank;
use crate::text::lemma_texts_push;
use crate::text::lowercase;
use crate::text::text_is_blank;
use crate::text::text_of;
use crate::text::texts;
use crate::text::to_lowercase;
use crate::text::trim;
use crate::text::trim_bounds;
use vstd::hash_set::StringHashSet;
use vstd::prelude::*;

verus! {

/// `std::io::Error`, which is carried from the failed read to the error
/// without a look inside.
#[verifier::external_type_specification]
#[verifier::external_body]
pub struct ExIoError(std::io::Error);

/// Why the blacklist could not be loaded.
#[derive(Debug)]
pub enum BlacklistError {
    /// There is no file at the path.
    FileNotFound(String),
    /// The file is there but could not be read; the cause is kept.
    ReadError(std::io::Error),
    /// The file holds nothing but whitespace.
    EmptyFile,
}

/// A blacklist error with its path as a sequence of characters.
pub enum BlacklistErrorView {
    /// There is no file at the path.
    FileNotFound(Seq<char>),
    /// The file could not be read, for this cause.
    ReadError(std::io::Error),
    /// The file holds nothing but whitespace.
    EmptyFile,
}

impl View for BlacklistError {
    type V = BlacklistErrorView;

    open spec fn view(&self) -> BlacklistErrorView {
        match *self {
            BlacklistError::FileNotFound(path) => BlacklistErrorView::FileNotFound(path@),
            BlacklistError::ReadError(cause) => BlacklistErrorView::ReadError(cause),
            BlacklistError::EmptyFile => BlacklistErrorView::EmptyFile,
        }
    }
}

/// What reading the blacklist file came to.
#[derive(Debug)]
pub enum BlacklistSource {
    /// There is no file at the path.
    Missing,
    /// The file is there but reading it failed.
    Unreadable(std::io::Error),
    /// The whole content of the file.
    Content(String),
}

/// A loaded blacklist: its entries, each held once.
pub struct Blacklist {
    words: Vec<String>,
    index: StringHashSet,
}

impl View for Blacklist {
    type V = Set<Seq<char>>;

    closed spec fn view(&self) -> Set<Seq<char>> {
        self.index@
    }
}

/// The place of the blacklist, which holds no blacklist until one is loaded.
pub struct BlacklistStore {
    loaded: Option<Blacklist>,
}

impl View for BlacklistStore {
    type V = Option<Set<Seq<char>>>;

    closed spec fn view(&self) -> Option<Set<Seq<char>>> {
        match self.loaded {
            Some(blacklist) => Some(blacklist@),
            None => None,
        }
    }
}

/// Whether `text[start..end]` is a whole line of `text`: it begins at the
/// start of the text or after a line feed, ends at the end of the text or
/// before a line feed, and holds no line feed.
pub open spec fn is_line(text: Seq<char>, start: int, end: int) -> bool {
    &&& 0 <= start <= end <= text.len()
    &&& (start == 0 || text[start - 1] == '\n')
    &&& (end == text.len() || text[end] == '\n')
    &&& forall|i: int| start <= i < end ==> #[trigger] text[i] != '\n'
}

/// The blacklist entry that a line stands for: the line trimmed, in lower
/// case.
pub open spec fn entry_of(line: Seq<char>) -> Seq<char> {
    lowercase(trim(line))
}

/// The blacklist that `text` holds: the entries of its lines, without the
/// empty ones. Lines that stand for the same entry count once.
pub open spec fn blacklist_entries(text: Seq<char>) -> Set<Seq<char>> {
    Set::new(
        |entry: Seq<char>|
            entry.len() > 0 && exists|start: int, end: int|
                #[trigger] is_line(text, start, end) && entry == entry_of(
                    text.subrange(start, end),
                ),
    )
}

/// The entries that the lines of `text` ending before `bound` stand for.
spec fn entries_before(text: Seq<char>, bound: int) -> Set<Seq<char>> {
    Set::new(
        |entry: Seq<char>|
            entry.len() > 0 && exists|start: int, end: int|
                #[trigger] is_line(text, start, end) && end < bound && entry == entry_of(
                    text.subrange(start, end),
                ),
    )
}

/// Whether `password` is blacklisted: a set is loaded and holds the password
/// in lower case.
pub open spec fn is_member(entries: Option<Set<Seq<char>>>, password: Seq<char>) -> bool {
    match entries {
        Some(set) => set.contains(lowercase(password)),
        None => false,
    }
}

/// The path taken when none is configured.
pub open spec fn default_path() -> Seq<char> {
    "./assets/blacklist.txt"@
}

/// The configured path if there is one, else the default path.
pub open spec fn resolved_path(configured: Option<String>) -> Seq<char> {
    match configured {
        Some(path) => path@,
        None => default_path(),
    }
}

/// What an initialization returns: the size of the set already loaded, or
/// else what the source gives.
pub open spec fn init_result(
    before: Option<Set<Seq<char>>>,
    path: Seq<char>,
    source: BlacklistSource,
) -> Result<nat, BlacklistErrorView> {
    match before {
        Some(entries) => Ok(entries.len()),
        None => match source {
            BlacklistSource::Missing => Err(BlacklistErrorView::FileNotFound(path)),
            BlacklistSource::Unreadable(cause) => Err(BlacklistErrorView::ReadError(cause)),
            BlacklistSource::Content(text) => if is_blank(text@) {
                Err(BlacklistErrorView::EmptyFile)
            } else {
                Ok(blacklist_entries(text@).len())
            },
        },
    }
}

/// What an initialization leaves in the store: a loaded set stays as it is,
/// and an empty store takes the entries of a source that is not blank.
pub open spec fn init_state(before: Option<Set<Seq<char>>>, source: BlacklistSource) -> Option<
    Set<Seq<char>>,
> {
    match before {
        Some(_) => before,
        None => match source {
            BlacklistSource::Content(text) => if is_blank(text@) {
                None
            } else {
                Some(blacklist_entries(text@))
            },
            _ => None,
        },
    }
}

/// Whether `result` is the executable form of `expected`.
pub open spec fn reports(
    result: Result<usize, BlacklistError>,
    expected: Result<nat, BlacklistErrorView>,
) -> bool {
    match result {
        Ok(count) => expected == Ok::<nat, BlacklistErrorView>(count as nat),
        Err(error) => expected == Err::<nat, BlacklistErrorView>(error@),
    }
}

/// A line that ends within another line is that line.
pub proof fn lemma_line_is_unique(text: Seq<char>, start: int, end: int, a: int, b: int)
    requires
        is_line(text, start, end),
        is_line(text, a, b),
        start <= b <= end,
    ensures
        a == start,
        b == end,
{
}

/// The lines that end before `end + 1` are those that end before `start` and
/// the line from `start` to `end`.
proof fn lemma_entries_grow_by_line(text: Seq<char>, start: int, end: int)
    requires
        is_line(text, start, end),
    ensures
        entries_before(text, end + 1) == if entry_of(text.subrange(start, end)).len() > 0 {
            entries_before(text, start).insert(entry_of(text.subrange(start, end)))
        } else {
            entries_before(text, start)
        },
{
    let entry = entry_of(text.subrange(start, end));
    let before = entries_before(text, start);
    let after = entries_before(text, end + 1);
    let expected = if entry.len() > 0 {
        before.insert(entry)
    } else {
        before
    };
    assert forall|e: Seq<char>| after.contains(e) implies expected.contains(e) by {
        let (a, b) = choose|a: int, b: int|
            #[trigger] is_line(text, a, b) && b < end + 1 && e == entry_of(text.subrange(a, b));
        if b >= start {
            lemma_line_is_unique(text, start, end, a, b);
        }
    }
}

/// Every line ends before the position after the end of the text.
proof fn lemma_entries_before_the_end(text: Seq<char>)
    ensures
        entries_before(text, text.len() as int + 1) == blacklist_entries(text),
{
}

/// The name of the environment variable that may hold the path of the
/// blacklist file.
pub fn blacklist_path_variable() -> (name: &'static str)
    ensures
        name@ == "PWD_BLACKLIST_PATH"@,
{
    "PWD_BLACKLIST_PATH"
}

/// The path of the blacklist file: the configured one if there is one, else
/// `./assets/blacklist.txt`.
pub fn get_blacklist_path(configured: Option<String>) -> (path: String)
    ensures
        path@ == resolved_path(configured),
{
    match configured {
        Some(path) => path,
        None => "./assets/blacklist.txt".to_owned(),
    }
}

impl Blacklist {
    #[verifier::type_invariant]
    spec fn consistent(self) -> bool {
        &&& self.index@ == texts(self.words@).to_set()
        &&& texts(self.words@).no_duplicates()
    }

    /// The number of entries.
    pub fn len(&self) -> (count: usize)
        ensures
            count == self@.len(),
    {
        self.index.len()
    }

    /// Whether `word` is an entry, letter for letter.
    pub fn contains(&self, word: &str) -> (found: bool)
        ensures
            found == self@.contains(word@),
    {
        self.index.contains(word)
    }

    /// The entries, each once, in the order in which the lines gave them.
    pub fn words(&self) -> (words: &Vec<String>)
        ensures
            texts(words@).to_set() == self@,
            texts(words@).no_duplicates(),
            words.len() == self@.len(),
    {
        proof {
            use_type_invariant(self);
            texts(self.words@).unique_seq_to_set();
        }
        &self.words
    }
}

/// Reads the blacklist out of the content of a file.
pub fn parse_blacklist(content: &str) -> (blacklist: Blacklist)
    ensures
        blacklist@ == blacklist_entries(content@),
{
    let chars = chars_of(content);
    let n = chars.len();
    let mut words: Vec<String> = Vec::new();
    let mut index = StringHashSet::new();
    let mut start: usize = 0;
    let mut done = false;
    while !done
        invariant
            n == chars.len(),
            chars@ == content@,
            start <= n,
            start == 0 || chars@[start - 1] == '\n',
            index@ == entries_before(
                content@,
                if done {
                    n + 1
                } else {
                    start as int
                },
            ),
            index@ == texts(words@).to_set(),
            texts(words@).no_duplicates(),
        decreases
                if done {
                    0
                } else {
                    n - start + 1
                },
    {
        let mut end: usize = start;
        while end < n && chars[end] != '\n'
            invariant
                n == chars.len(),
                start <= end <= n,
                forall|i: int| start <= i < end ==> #[trigger] chars@[i] != '\n',
            decreases n - end,
        {
            end += 1;
        }
        let (from, to) = trim_bounds(&chars, start, end);
        let trimmed = text_of(&chars, from, to);
        let entry = to_lowercase(trimmed.as_str());
        proof {
            lemma_entries_grow_by_line(content@, start as int, end as int);
        }
        if !entry.as_str().is_empty() && !index.contains(entry.as_str()) {
            proof {
                lemma_texts_push(words@, entry);
                texts(words@).lemma_push_to_set_commute(entry@);
            }
            words.push(entry.clone());
            index.insert(entry);
        }
        if end == n {
            done = true;
        } else {
            start = end + 1;
        }
    }
    proof {
        lemma_entries_before_the_end(content@);
    }
    Blacklist { words, index }
}

impl BlacklistStore {
    /// A store that has not been loaded.
    pub fn new() -> (store: BlacklistStore)
        ensures
            store@ is None,
    {
        BlacklistStore { loaded: None }
    }

    /// Whether a set has been loaded. While this holds, an initialization
    /// looks at no source, so none need be read.
    pub fn is_loaded(&self) -> (loaded: bool)
        ensures
            loaded == (self@ is Some),
    {
        self.loaded.is_some()
    }
}

/// Loads the blacklist into a store that holds none yet, and reports how many
/// entries the store holds.
///
/// A store that is already loaded is left as it is and reports its size,
/// whatever the source. Otherwise a missing file, an unreadable file and a
/// blank content each give their error and leave the store empty, and any
/// other content is parsed and kept.
pub fn init_blacklist_from_path(
    store: &mut BlacklistStore,
    path: &str,
    source: BlacklistSource,
) -> (result: Result<usize, BlacklistError>)
    ensures
        reports(result, init_result(old(store)@, path@, source)),
        final(store)@ == init_state(old(store)@, source),
{
    match &store.loaded {
        Some(blacklist) => {
            return Ok(blacklist.len());
        },
        None => {},
    }
    match source {
        BlacklistSource::Missing => Err(BlacklistError::FileNotFound(path.to_owned())),
        BlacklistSource::Unreadable(cause) => Err(BlacklistError::ReadError(cause)),
        BlacklistSource::Content(text) => {
            if text_is_blank(text.as_str()) {
                Err(BlacklistError::EmptyFile)
            } else {
                let blacklist = parse_blacklist(text.as_str());
                let count = blacklist.len();
                store.loaded = Some(blacklist);
                Ok(count)
            }
        },
    }
}

/// Loads the blacklist from the file at the configured path, or at the default
/// path where none is configured.
pub fn init_blacklist(
    store: &mut BlacklistStore,
    configured: Option<String>,
    source: BlacklistSource,
) -> (result: Result<usize, BlacklistError>)
    ensures
        reports(result, init_result(old(store)@, resolved_path(configured), source)),
        final(store)@ == init_state(old(store)@, source),
{
    let path = get_blacklist_path(configured);
    init_blacklist_from_path(store, path.as_str(), source)
}

/// The loaded blacklist, if there is one.
pub fn get_blacklist(store: &BlacklistStore) -> (blacklist: Option<&Blacklist>)
    ensures
        match blacklist {
            Some(loaded) => store@ == Some(loaded@),
            None => store@ is None,
        },
{
    store.loaded.as_ref()
}

/// Whether `password` is in the blacklist, without regard to case. A store
/// that was never loaded holds no password.
pub fn is_blacklisted(store: &BlacklistStore, password: &str) -> (listed: bool)
    ensures
        listed == is_member(store@, password@),
{
    match &store.loaded {
        Some(blacklist) => {
            let lowered = to_lowercase(password);
            blacklist.contains(lowered.as_str())
        },
        None => false,
    }
}

/// Empties the store, so that a test can load it again.
pub fn reset_blacklist_for_testing(store: &mut BlacklistStore)
    ensures
        final(store)@ is None,
{
    store.loaded = None;
}

} // verus!
