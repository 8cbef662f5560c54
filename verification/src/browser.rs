//! The browser for the files that can be imported.

use crate::app::{FileEntry, FileEntryView};
use crate::listing::{row_above, row_below, select_next, select_previous};
use crate::order::{lemma_stable_sorted, sort_by_keys, stable_sorted, text_less};
use crate::text::{chars_of, ends_with, has_suffix, lowercase_of};
use vstd::prelude::*;

verus! {

/// Whether a file browser lists an entry: every directory, and the files
/// whose name ends in `.xml`, whatever the case of the letters.
pub open spec fn listed_in_browser(entry: FileEntryView) -> bool {
    entry.is_dir || has_suffix(lowercase_of(entry.name), ".xml"@)
}

/// Whether a file browser lists `a` above `b`: directories above files, and
/// among entries of one kind by the name in lowercase.
pub open spec fn entry_before(a: FileEntryView, b: FileEntryView) -> bool {
    if a.is_dir != b.is_dir {
        a.is_dir
    } else {
        text_less(lowercase_of(a.name), lowercase_of(b.name))
    }
}

/// The text by which a file browser sorts an entry: a mark that puts
/// directories first, then the name in lowercase.
pub open spec fn browser_key(entry: FileEntryView) -> Seq<char> {
    seq![if entry.is_dir {
        '0'
    } else {
        '1'
    }] + lowercase_of(entry.name)
}

/// The order of the keys is the order of the entries.
pub proof fn lemma_browser_key_orders(a: FileEntryView, b: FileEntryView)
    ensures
        text_less(browser_key(a), browser_key(b)) == entry_before(a, b),
{
    let x = browser_key(a);
    let y = browser_key(b);
    assert(x.drop_first() =~= lowercase_of(a.name));
    assert(y.drop_first() =~= lowercase_of(b.name));
}

/// The positions below `n` of the entries that a file browser lists, in
/// rising order.
pub open spec fn listed_within(entries: Seq<FileEntryView>, n: int) -> Seq<usize>
    decreases n,
{
    if n <= 0 {
        Seq::empty()
    } else if listed_in_browser(entries[n - 1]) {
        listed_within(entries, n - 1).push((n - 1) as usize)
    } else {
        listed_within(entries, n - 1)
    }
}

/// The keys of the entries, position by position.
pub open spec fn browser_keys(entries: Seq<FileEntryView>) -> Seq<Seq<char>> {
    Seq::new(entries.len(), |i: int| browser_key(entries[i]))
}

/// The positions of the entries that a file browser lists, in the order in
/// which it lists them.
pub open spec fn browser_order(entries: Seq<FileEntryView>) -> Seq<usize> {
    stable_sorted(listed_within(entries, entries.len() as int), browser_keys(entries), false)
}

/// The entry that leads to the directory above.
pub open spec fn parent_entry(path: Seq<char>) -> FileEntryView {
    FileEntryView { name: ".."@, path, is_dir: true }
}

/// What a file browser lists for a directory with these entries: the way up
/// first, where there is one, then the directories and the importable files
/// in their order.
pub open spec fn browser_entries(parent: Option<Seq<char>>, found: Seq<FileEntryView>) -> Seq<
    FileEntryView,
> {
    let sorted = Seq::new(
        browser_order(found).len(),
        |i: int| found[browser_order(found)[i] as int],
    );
    match parent {
        Some(path) => seq![parent_entry(path)] + sorted,
        None => sorted,
    }
}

/// Whether a file browser lists an entry.
pub fn is_listed(entry: &FileEntry) -> (listed: bool)
    ensures
        listed == listed_in_browser(entry@),
{
    if entry.is_dir {
        true
    } else {
        let lowered = entry.name.as_str().to_lowercase();
        ends_with(&chars_of(lowered.as_str()), &chars_of(".xml"))
    }
}

/// The text by which a file browser sorts an entry.
pub fn key_of_entry(entry: &FileEntry) -> (key: Vec<char>)
    ensures
        key@ == browser_key(entry@),
{
    let lowered = entry.name.as_str().to_lowercase();
    let name = chars_of(lowered.as_str());
    let mut key: Vec<char> = Vec::new();
    key.push(if entry.is_dir {
        '0'
    } else {
        '1'
    });
    let mut i: usize = 0;
    while i < name.len()
        invariant
            i <= name.len(),
            key@ =~= seq![if entry.is_dir {
                '0'
            } else {
                '1'
            }] + name@.take(i as int),
        decreases name.len() - i,
    {
        key.push(name[i]);
        i += 1;
    }
    key
}

/// What a file browser lists for a directory with these entries.
pub fn list_entries(parent: Option<&str>, found: &Vec<FileEntry>) -> (entries: Vec<FileEntry>)
    ensures
        entries.deep_view() == browser_entries(
            match parent {
                Some(path) => Some(path@),
                None => None,
            },
            found.deep_view(),
        ),
{
    let mut kept: Vec<usize> = Vec::new();
    let mut keys: Vec<Vec<char>> = Vec::new();
    let mut i: usize = 0;
    while i < found.len()
        invariant
            i <= found.len(),
            keys.len() == i,
            kept@ == listed_within(found.deep_view(), i as int),
            forall|k: int| 0 <= k < kept.len() ==> kept[k] < i,
            forall|k: int| 0 <= k < i ==> (#[trigger] keys[k])@ == browser_key(found[k]@),
        decreases found.len() - i,
    {
        if is_listed(&found[i]) {
            kept.push(i);
        }
        keys.push(key_of_entry(&found[i]));
        i += 1;
    }
    assert(keys.deep_view() =~~= browser_keys(found.deep_view()));
    let order = sort_by_keys(&kept, &keys, false);
    proof {
        lemma_stable_sorted(kept@, keys.deep_view(), false);
    }
    let mut entries: Vec<FileEntry> = Vec::new();
    match parent {
        Some(path) => {
            entries.push(
                FileEntry { name: String::from_str(".."), path: String::from_str(path), is_dir: true },
            );
        },
        None => {},
    }
    let ghost lead = entries.deep_view();
    let mut j: usize = 0;
    while j < order.len()
        invariant
            j <= order.len(),
            order@ == browser_order(found.deep_view()),
            forall|k: int| 0 <= k < order.len() ==> #[trigger] order[k] < found.len(),
            entries.deep_view() =~= lead + Seq::new(
                j as nat,
                |k: int| found.deep_view()[order[k] as int],
            ),
        decreases order.len() - j,
    {
        let ghost before = entries.deep_view();
        let entry = found[order[j]].clone();
        entries.push(entry);
        assert(entries.deep_view() =~= before.push(entry@));
        j += 1;
    }
    assert(entries.deep_view() =~= browser_entries(
        match parent {
            Some(path) => Some(path@),
            None => None,
        },
        found.deep_view(),
    ));
    entries
}

/// A browser for the files that can be imported: the directory it shows,
/// what it lists there, and the row that is selected.
#[derive(Debug, PartialEq)]
pub struct FileBrowser {
    pub current_dir: String,
    pub entries: Vec<FileEntry>,
    pub selected: usize,
}

/// The mathematical value of a [`FileBrowser`].
pub struct FileBrowserView {
    pub current_dir: Seq<char>,
    pub entries: Seq<FileEntryView>,
    pub selected: usize,
}

impl View for FileBrowser {
    type V = FileBrowserView;

    open spec fn view(&self) -> FileBrowserView {
        FileBrowserView {
            current_dir: self.current_dir@,
            entries: self.entries.deep_view(),
            selected: self.selected,
        }
    }
}

/// What choosing the selected row of a file browser means.
#[derive(Debug, PartialEq)]
pub enum BrowserChoice {
    /// Nothing is selected.
    Nothing,
    /// A directory: the browser is to show it.
    Open(String),
    /// A file: it is the one to import.
    Pick(String),
}

/// The mathematical value of a [`BrowserChoice`].
pub enum ChoiceView {
    Nothing,
    Open(Seq<char>),
    Pick(Seq<char>),
}

impl View for BrowserChoice {
    type V = ChoiceView;

    open spec fn view(&self) -> ChoiceView {
        match self {
            BrowserChoice::Nothing => ChoiceView::Nothing,
            BrowserChoice::Open(path) => ChoiceView::Open(path@),
            BrowserChoice::Pick(path) => ChoiceView::Pick(path@),
        }
    }
}

/// What choosing the selected row of a file browser means.
pub open spec fn choice_of(browser: FileBrowserView) -> ChoiceView {
    if browser.selected >= browser.entries.len() {
        ChoiceView::Nothing
    } else if browser.entries[browser.selected as int].is_dir {
        ChoiceView::Open(browser.entries[browser.selected as int].path)
    } else {
        ChoiceView::Pick(browser.entries[browser.selected as int].path)
    }
}

impl FileBrowser {
    /// A browser that shows the directory `current_dir`, in which `found` was
    /// found and from which `parent` leads up; the first row is selected.
    pub fn new(current_dir: &str, parent: Option<&str>, found: &Vec<FileEntry>) -> (browser: Self)
        ensures
            browser@ == (FileBrowserView {
                current_dir: current_dir@,
                entries: browser_entries(
                    match parent {
                        Some(path) => Some(path@),
                        None => None,
                    },
                    found.deep_view(),
                ),
                selected: 0,
            }),
    {
        FileBrowser {
            current_dir: String::from_str(current_dir),
            entries: list_entries(parent, found),
            selected: 0,
        }
    }

    /// Shows the directory `current_dir` and selects the first row.
    pub fn refresh(&mut self, current_dir: &str, parent: Option<&str>, found: &Vec<FileEntry>)
        ensures
            final(self)@ == (FileBrowserView {
                current_dir: current_dir@,
                entries: browser_entries(
                    match parent {
                        Some(path) => Some(path@),
                        None => None,
                    },
                    found.deep_view(),
                ),
                selected: 0,
            }),
    {
        self.current_dir = String::from_str(current_dir);
        self.entries = list_entries(parent, found);
        self.selected = 0;
    }

    /// Selects the row below, and the first row after the last.
    pub fn next(&mut self)
        ensures
            final(self)@ == (FileBrowserView {
                selected: row_below(old(self).selected, old(self).entries.len()),
                ..old(self)@
            }),
    {
        self.selected = select_next(self.selected, self.entries.len());
    }

    /// Selects the row above, and the last row before the first.
    pub fn previous(&mut self)
        ensures
            final(self)@ == (FileBrowserView {
                selected: if old(self).entries.len() == 0 {
                    old(self).selected
                } else {
                    row_above(old(self).selected, old(self).entries.len())
                },
                ..old(self)@
            }),
    {
        if self.entries.len() > 0 {
            self.selected = select_previous(self.selected, self.entries.len());
        }
    }

    /// What choosing the selected row means.
    pub fn enter(&self) -> (choice: BrowserChoice)
        ensures
            choice@ == choice_of(self@),
    {
        if self.selected >= self.entries.len() {
            BrowserChoice::Nothing
        } else if self.entries[self.selected].is_dir {
            BrowserChoice::Open(self.entries[self.selected].path.clone())
        } else {
            BrowserChoice::Pick(self.entries[self.selected].path.clone())
        }
    }
}

} // verus!
