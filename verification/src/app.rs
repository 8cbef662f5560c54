//! The state of the interactive screen that needs no terminal: which screen
//! is shown, how the list is sorted, and what a file browser lists.

use crate::browser::{
    choice_of, BrowserChoice, ChoiceView, FileBrowser, FileBrowserView,
};
use crate::config::{merged_profiles, Config, ConfigView, ProfileView, VpnProfile};
use crate::form::{
    FORM_FIELDS, field_after, field_before, filled, form_from_profile, form_of_profile, next_field,
    previous_field, profile_from_form, profile_of_form,
};
use crate::listing::{
    get_filtered_profiles_indices, page_above, page_below, row_above, row_after_delete,
    row_below, select_after_delete, select_next, select_page_down, select_page_up,
    select_previous, shown_positions,
};
use crate::notes::{add_log, is_refresh_due, log_line, log_line_of, log_with, refresh_due};
use crate::text::{
    decimal_digits, push_decimal, text_or_empty, trim, trimmed, without_last, without_last_of,
};
use crate::vpn::{RecordView, VpnConnection};
use vstd::prelude::*;

verus! {


/// The screens of the program.
#[derive(Debug, Clone, Copy, PartialEq, Eq, Structural)]
pub enum Screen {
    Main,
    AddProfile,
    EditProfile,
    ImportXml,
    FileBrowser,
    Help,
    DeleteConfirmation,
    Search,
    AliasModal,
}

/// An entry that a file browser lists: a directory, or a file that can be
/// imported. The path is kept as text.
#[derive(Debug, PartialEq)]
pub struct FileEntry {
    pub name: String,
    pub path: String,
    pub is_dir: bool,
}

/// The mathematical value of a [`FileEntry`].
pub struct FileEntryView {
    pub name: Seq<char>,
    pub path: Seq<char>,
    pub is_dir: bool,
}

impl View for FileEntry {
    type V = FileEntryView;

    open spec fn view(&self) -> FileEntryView {
        FileEntryView { name: self.name@, path: self.path@, is_dir: self.is_dir }
    }
}

impl DeepView for FileEntry {
    type V = FileEntryView;

    open spec fn deep_view(&self) -> FileEntryView {
        self@
    }
}

impl Clone for FileEntry {
    fn clone(&self) -> (copy: Self)
        ensures
            copy@ == self@,
    {
        FileEntry { name: self.name.clone(), path: self.path.clone(), is_dir: self.is_dir }
    }
}

/// Whether keys move about or are typed into a field.
#[derive(Debug, Clone, Copy, PartialEq, Eq, Structural)]
pub enum InputMode {
    Normal,
    Editing,
}

/// The column by which the list of profiles is sorted.
#[derive(Debug, Clone, Copy, PartialEq, Eq, Structural)]
pub enum SortColumn {
    Name,
    Category,
    Status,
}

/// The direction in which the list of profiles is sorted.
#[derive(Debug, Clone, Copy, PartialEq, Eq, Structural)]
pub enum SortDirection {
    Asc,
    Desc,
}

/// The sorting that follows `(column, direction)` when the user asks for the
/// next one: each column first ascending, then descending, and after the
/// last column the first again.
pub open spec fn next_sort(column: SortColumn, direction: SortDirection) -> (
    SortColumn,
    SortDirection,
) {
    match direction {
        SortDirection::Asc => (column, SortDirection::Desc),
        SortDirection::Desc => (
            match column {
                SortColumn::Name => SortColumn::Category,
                SortColumn::Category => SortColumn::Status,
                SortColumn::Status => SortColumn::Name,
            },
            SortDirection::Asc,
        ),
    }
}

/// The sorting that follows `(column, direction)` when the user asks for the
/// next one.
pub fn cycle_sort(column: SortColumn, direction: SortDirection) -> (next: (
    SortColumn,
    SortDirection,
))
    ensures
        next == next_sort(column, direction),
{
    match direction {
        SortDirection::Asc => (column, SortDirection::Desc),
        SortDirection::Desc => {
            let following = match column {
                SortColumn::Name => SortColumn::Category,
                SortColumn::Category => SortColumn::Status,
                SortColumn::Status => SortColumn::Name,
            };
            (following, SortDirection::Asc)
        },
    }
}

/// The seconds between two checks of the status while the screen is idle.
pub const REFRESH_SECONDS: u64 = 5;

/// A key of the keyboard, as far as the screen tells keys apart.
#[derive(Debug, Clone, Copy, PartialEq, Eq, Structural)]
pub enum Key {
    Char(char),
    Up,
    Down,
    PageUp,
    PageDown,
    Enter,
    Esc,
    Tab,
    BackTab,
    Backspace,
    /// A function key, by its number.
    Function(u8),
    /// Any other key.
    Other,
}

/// What the event loop hands to the screen.
#[derive(Debug, PartialEq)]
pub enum AppEvent {
    /// A key was pressed.
    Input(Key),
    /// Time has passed.
    Tick,
    /// The state of a connection has changed.
    VpnStatusUpdated,
    /// Something is to be told to the user.
    Notification(String),
}

/// The mathematical value of an [`AppEvent`].
pub enum AppEventView {
    Input(Key),
    Tick,
    VpnStatusUpdated,
    Notification(Seq<char>),
}

impl View for AppEvent {
    type V = AppEventView;

    open spec fn view(&self) -> AppEventView {
        match self {
            AppEvent::Input(key) => AppEventView::Input(*key),
            AppEvent::Tick => AppEventView::Tick,
            AppEvent::VpnStatusUpdated => AppEventView::VpnStatusUpdated,
            AppEvent::Notification(text) => AppEventView::Notification(text@),
        }
    }
}

/// What the caller is to do after the screen has taken an event in.
#[derive(Debug, PartialEq)]
pub enum Command {
    /// Nothing.
    Nothing,
    /// End the program.
    Quit,
    /// Connect the selected profile, or disconnect it if it is connected.
    ToggleConnection,
    /// Reconcile the cache and hand the screen a copy of it.
    RefreshStatus,
    /// Write the configuration to its file.
    SaveConfig,
    /// Read the file at this path and hand its profiles to the screen.
    ImportFile(String),
    /// List the working directory and hand the screen a browser for it.
    OpenFileBrowser,
    /// List this directory and have the browser show it.
    OpenDirectory(String),
    /// List the directory above the one that the browser shows, and have the
    /// browser show it.
    OpenParent,
}

/// The mathematical value of a [`Command`].
pub enum CommandView {
    Nothing,
    Quit,
    ToggleConnection,
    RefreshStatus,
    SaveConfig,
    ImportFile(Seq<char>),
    OpenFileBrowser,
    OpenDirectory(Seq<char>),
    OpenParent,
}

impl View for Command {
    type V = CommandView;

    open spec fn view(&self) -> CommandView {
        match self {
            Command::Nothing => CommandView::Nothing,
            Command::Quit => CommandView::Quit,
            Command::ToggleConnection => CommandView::ToggleConnection,
            Command::RefreshStatus => CommandView::RefreshStatus,
            Command::SaveConfig => CommandView::SaveConfig,
            Command::ImportFile(path) => CommandView::ImportFile(path@),
            Command::OpenFileBrowser => CommandView::OpenFileBrowser,
            Command::OpenDirectory(path) => CommandView::OpenDirectory(path@),
            Command::OpenParent => CommandView::OpenParent,
        }
    }
}

/// How the reading of a file that was to be imported ended.
#[derive(Debug, PartialEq)]
pub enum ImportOutcome {
    /// The file held these profiles.
    Imported(Vec<VpnProfile>),
    /// The file was read and not understood, for this reason.
    Rejected(String),
    /// The file could not be read, for this reason.
    Unreadable(String),
}

/// The mathematical value of an [`ImportOutcome`].
pub enum ImportOutcomeView {
    Imported(Seq<ProfileView>),
    Rejected(Seq<char>),
    Unreadable(Seq<char>),
}

impl View for ImportOutcome {
    type V = ImportOutcomeView;

    open spec fn view(&self) -> ImportOutcomeView {
        match self {
            ImportOutcome::Imported(profiles) => ImportOutcomeView::Imported(profiles.deep_view()),
            ImportOutcome::Rejected(reason) => ImportOutcomeView::Rejected(reason@),
            ImportOutcome::Unreadable(reason) => ImportOutcomeView::Unreadable(reason@),
        }
    }
}

/// The state of the interactive screen.
#[derive(Debug)]
pub struct App {
    pub config: Config,
    pub screen: Screen,
    pub input_mode: InputMode,
    pub selected_profile: usize,
    pub scroll_offset: usize,
    pub input_buffer: String,
    pub input_field: usize,
    /// The last message and the moment it was set, in milliseconds since the
    /// Unix epoch.
    pub status_message: Option<(String, i64)>,
    pub show_logs: bool,
    pub logs: Vec<String>,
    pub auto_reconnect: bool,
    pub connections: Vec<VpnConnection>,
    /// The moment of the last check of the status, in milliseconds since the
    /// Unix epoch.
    pub last_update: i64,
    pub file_browser: Option<FileBrowser>,
    pub search_query: String,
    pub add_profile_data: Vec<String>,
    pub sort_column: SortColumn,
    pub sort_direction: SortDirection,
    pub alias_input: String,
}

/// The mathematical value of an [`App`].
pub struct AppView {
    pub config: ConfigView,
    pub screen: Screen,
    pub input_mode: InputMode,
    pub selected_profile: usize,
    pub scroll_offset: usize,
    pub input_buffer: Seq<char>,
    pub input_field: usize,
    pub status_message: Option<(Seq<char>, i64)>,
    pub show_logs: bool,
    pub logs: Seq<Seq<char>>,
    pub auto_reconnect: bool,
    pub connections: Seq<RecordView>,
    pub last_update: i64,
    pub file_browser: Option<FileBrowserView>,
    pub search_query: Seq<char>,
    pub add_profile_data: Seq<Seq<char>>,
    pub sort_column: SortColumn,
    pub sort_direction: SortDirection,
    pub alias_input: Seq<char>,
}

impl View for App {
    type V = AppView;

    open spec fn view(&self) -> AppView {
        AppView {
            config: self.config@,
            screen: self.screen,
            input_mode: self.input_mode,
            selected_profile: self.selected_profile,
            scroll_offset: self.scroll_offset,
            input_buffer: self.input_buffer@,
            input_field: self.input_field,
            status_message: match self.status_message {
                Some((text, at)) => Some((text@, at)),
                None => None,
            },
            show_logs: self.show_logs,
            logs: self.logs.deep_view(),
            auto_reconnect: self.auto_reconnect,
            connections: self.connections.deep_view(),
            last_update: self.last_update,
            file_browser: match self.file_browser {
                Some(browser) => Some(browser@),
                None => None,
            },
            search_query: self.search_query@,
            add_profile_data: self.add_profile_data.deep_view(),
            sort_column: self.sort_column,
            sort_direction: self.sort_direction,
            alias_input: self.alias_input@,
        }
    }
}

/// The screen as it is when the program starts at the moment `now`.
pub open spec fn initial_app(config: ConfigView, now: i64) -> AppView {
    AppView {
        config,
        screen: Screen::Main,
        input_mode: InputMode::Normal,
        selected_profile: 0,
        scroll_offset: 0,
        input_buffer: Seq::empty(),
        input_field: 0,
        status_message: None,
        show_logs: false,
        logs: Seq::empty(),
        auto_reconnect: false,
        connections: Seq::empty(),
        last_update: now,
        file_browser: None,
        search_query: Seq::empty(),
        add_profile_data: empty_form(),
        sort_column: SortColumn::Name,
        sort_direction: SortDirection::Asc,
        alias_input: Seq::empty(),
    }
}

/// The texts of a form that nothing was typed into.
pub open spec fn empty_form() -> Seq<Seq<char>> {
    Seq::new(FORM_FIELDS as nat, |i: int| Seq::<char>::empty())
}

/// The positions of the profiles that the list shows, in its order.
pub open spec fn rows_of(app: AppView) -> Seq<usize> {
    shown_positions(
        app.config.profiles,
        app.connections,
        app.search_query,
        app.sort_column,
        app.sort_direction,
    )
}

/// The position of the selected profile among the profiles of the
/// configuration, if a row is selected that the list shows.
pub open spec fn selected_position(app: AppView) -> Option<int> {
    if app.selected_profile < rows_of(app).len() && rows_of(app)[app.selected_profile as int]
        < app.config.profiles.len() {
        Some(rows_of(app)[app.selected_profile as int] as int)
    } else {
        None
    }
}

/// The screen with `text` as its message, set at `now`.
pub open spec fn saying(app: AppView, text: Seq<char>, now: i64) -> AppView {
    AppView { status_message: Some((text, now)), ..app }
}

/// The screen back on the main screen, with keys moving about.
pub open spec fn at_main(app: AppView) -> AppView {
    AppView { screen: Screen::Main, input_mode: InputMode::Normal, ..app }
}

/// The text of a field of the form; empty for a field that is not there.
pub open spec fn field_text(app: AppView, field: int) -> Seq<char> {
    if 0 <= field < app.add_profile_data.len() {
        app.add_profile_data[field]
    } else {
        Seq::empty()
    }
}

/// The name of a column.
pub open spec fn column_name(column: SortColumn) -> Seq<char> {
    match column {
        SortColumn::Name => "Name"@,
        SortColumn::Category => "Category"@,
        SortColumn::Status => "Status"@,
    }
}

/// The name of a direction.
pub open spec fn direction_name(direction: SortDirection) -> Seq<char> {
    match direction {
        SortDirection::Asc => "Asc"@,
        SortDirection::Desc => "Desc"@,
    }
}

/// What a key does on the main screen.
pub open spec fn main_key(app: AppView, key: Key, now: i64) -> (AppView, CommandView) {
    let rows = rows_of(app).len() as usize;
    let selected = app.selected_profile;
    match key {
        Key::Char('q') => (app, CommandView::Quit),
        Key::Up | Key::Char('k') => (
            AppView { selected_profile: row_above(selected, rows), ..app },
            CommandView::Nothing,
        ),
        Key::Down | Key::Char('j') => (
            AppView { selected_profile: row_below(selected, rows), ..app },
            CommandView::Nothing,
        ),
        Key::PageUp => (
            AppView { selected_profile: page_above(selected, rows), ..app },
            CommandView::Nothing,
        ),
        Key::PageDown => (
            AppView { selected_profile: page_below(selected, rows), ..app },
            CommandView::Nothing,
        ),
        Key::Enter | Key::Char(' ') => (app, CommandView::ToggleConnection),
        Key::Char('n') => (
            AppView {
                screen: Screen::AddProfile,
                input_mode: InputMode::Editing,
                add_profile_data: empty_form(),
                input_field: 0,
                ..app
            },
            CommandView::Nothing,
        ),
        Key::Char('e') => if app.config.profiles.len() > 0 {
            (
                AppView {
                    screen: Screen::EditProfile,
                    input_mode: InputMode::Editing,
                    add_profile_data: match selected_position(app) {
                        Some(at) => form_of_profile(app.config.profiles[at]),
                        None => app.add_profile_data,
                    },
                    input_field: 1,
                    ..app
                },
                CommandView::Nothing,
            )
        } else {
            (app, CommandView::Nothing)
        },
        Key::Char('x') => if rows > 0 {
            (AppView { screen: Screen::DeleteConfirmation, ..app }, CommandView::Nothing)
        } else {
            (app, CommandView::Nothing)
        },
        Key::Char('/') => (
            AppView { screen: Screen::Search, input_mode: InputMode::Editing, ..app },
            CommandView::Nothing,
        ),
        Key::Char('i') => (
            AppView {
                screen: Screen::ImportXml,
                input_mode: InputMode::Editing,
                input_buffer: Seq::empty(),
                input_field: 0,
                ..app
            },
            CommandView::Nothing,
        ),
        Key::Char('r') => (app, CommandView::RefreshStatus),
        Key::Char('l') => (AppView { show_logs: !app.show_logs, ..app }, CommandView::Nothing),
        Key::Char('s') => {
            let next = next_sort(app.sort_column, app.sort_direction);
            (
                saying(
                    AppView { sort_column: next.0, sort_direction: next.1, ..app },
                    "Sorting by "@ + column_name(next.0) + " ("@ + direction_name(next.1) + ")"@,
                    now,
                ),
                CommandView::Nothing,
            )
        },
        Key::Char('a') => match selected_position(app) {
            Some(at) => (
                AppView {
                    alias_input: text_or_empty(app.config.profiles[at].aliases),
                    screen: Screen::AliasModal,
                    input_mode: InputMode::Editing,
                    ..app
                },
                CommandView::Nothing,
            ),
            None => (app, CommandView::Nothing),
        },
        Key::Char('h') | Key::Function(1) => (
            AppView { screen: Screen::Help, ..app },
            CommandView::Nothing,
        ),
        Key::Char('R') => (
            saying(
                AppView { auto_reconnect: !app.auto_reconnect, ..app },
                if !app.auto_reconnect {
                    "Auto-reconnect: ON"@
                } else {
                    "Auto-reconnect: OFF"@
                },
                now,
            ),
            CommandView::Nothing,
        ),
        _ => (app, CommandView::Nothing),
    }
}

/// The screen after the form was sent off. Without a name nothing is saved.
/// A new profile is added behind the others; an edited profile takes the
/// place of the selected one.
pub open spec fn form_saved(app: AppView, now: i64) -> (AppView, CommandView) {
    match profile_of_form(
        field_text(app, 0),
        field_text(app, 1),
        field_text(app, 2),
        field_text(app, 3),
        field_text(app, 4),
        field_text(app, 5),
    ) {
        None => (saying(app, "Name cannot be empty"@, now), CommandView::Nothing),
        Some(profile) => {
            let editing = app.screen == Screen::EditProfile;
            let profiles = if editing {
                match selected_position(app) {
                    Some(at) => app.config.profiles.update(at, profile),
                    None => app.config.profiles,
                }
            } else {
                app.config.profiles.push(profile)
            };
            (
                saying(
                    at_main(AppView { config: ConfigView { profiles, ..app.config }, ..app }),
                    if editing {
                        "Profile updated"@
                    } else {
                        "Profile added"@
                    },
                    now,
                ),
                CommandView::SaveConfig,
            )
        },
    }
}

/// What a key does on the form that adds or edits a profile. While a
/// profile is edited, its name cannot be typed into.
pub open spec fn form_key(app: AppView, key: Key, now: i64) -> (AppView, CommandView) {
    let editing = app.screen == Screen::EditProfile;
    let open = !(editing && app.input_field == 0) && app.input_field < app.add_profile_data.len();
    match key {
        Key::Esc => (at_main(app), CommandView::Nothing),
        Key::Enter => form_saved(app, now),
        Key::Tab => (
            AppView { input_field: field_after(app.input_field, editing), ..app },
            CommandView::Nothing,
        ),
        Key::BackTab => (
            AppView { input_field: field_before(app.input_field, editing), ..app },
            CommandView::Nothing,
        ),
        Key::Char(c) => if open {
            (
                AppView {
                    add_profile_data: app.add_profile_data.update(
                        app.input_field as int,
                        app.add_profile_data[app.input_field as int].push(c),
                    ),
                    ..app
                },
                CommandView::Nothing,
            )
        } else {
            (app, CommandView::Nothing)
        },
        Key::Backspace => if open {
            (
                AppView {
                    add_profile_data: app.add_profile_data.update(
                        app.input_field as int,
                        without_last_of(app.add_profile_data[app.input_field as int]),
                    ),
                    ..app
                },
                CommandView::Nothing,
            )
        } else {
            (app, CommandView::Nothing)
        },
        _ => (app, CommandView::Nothing),
    }
}

/// What a key does on the screen that asks for a file to import.
pub open spec fn import_key(app: AppView, key: Key) -> (AppView, CommandView) {
    match key {
        Key::Esc => (
            AppView { input_buffer: Seq::empty(), ..at_main(app) },
            CommandView::Nothing,
        ),
        Key::Enter => if trimmed(app.input_buffer).len() == 0 {
            (app, CommandView::Nothing)
        } else {
            (app, CommandView::ImportFile(trimmed(app.input_buffer)))
        },
        Key::Char(c) => if c == 'f' && app.input_buffer.len() == 0 {
            (app, CommandView::OpenFileBrowser)
        } else {
            (AppView { input_buffer: app.input_buffer.push(c), ..app }, CommandView::Nothing)
        },
        Key::Backspace => (
            AppView { input_buffer: without_last_of(app.input_buffer), ..app },
            CommandView::Nothing,
        ),
        _ => (app, CommandView::Nothing),
    }
}

/// What a key does in the file browser.
pub open spec fn browser_key(app: AppView, key: Key) -> (AppView, CommandView) {
    match app.file_browser {
        None => (AppView { screen: Screen::ImportXml, ..app }, CommandView::Nothing),
        Some(browser) => match key {
            Key::Esc => (AppView { screen: Screen::ImportXml, ..app }, CommandView::Nothing),
            Key::Up | Key::Char('k') => (
                AppView {
                    file_browser: Some(
                        FileBrowserView {
                            selected: if browser.entries.len() == 0 {
                                browser.selected
                            } else {
                                row_above(browser.selected, browser.entries.len() as usize)
                            },
                            ..browser
                        },
                    ),
                    ..app
                },
                CommandView::Nothing,
            ),
            Key::Down | Key::Char('j') => (
                AppView {
                    file_browser: Some(
                        FileBrowserView {
                            selected: row_below(browser.selected, browser.entries.len() as usize),
                            ..browser
                        },
                    ),
                    ..app
                },
                CommandView::Nothing,
            ),
            Key::Enter => match choice_of(browser) {
                ChoiceView::Nothing => (app, CommandView::Nothing),
                ChoiceView::Open(path) => (app, CommandView::OpenDirectory(path)),
                ChoiceView::Pick(path) => (
                    AppView { input_buffer: path, screen: Screen::ImportXml, ..app },
                    CommandView::Nothing,
                ),
            },
            Key::Backspace => (app, CommandView::OpenParent),
            _ => (app, CommandView::Nothing),
        },
    }
}

/// What a key does while a search is typed: every change of the query
/// selects the first row.
pub open spec fn search_key(app: AppView, key: Key) -> (AppView, CommandView) {
    match key {
        Key::Esc | Key::Enter => (at_main(app), CommandView::Nothing),
        Key::Char(c) => (
            AppView { search_query: app.search_query.push(c), selected_profile: 0, ..app },
            CommandView::Nothing,
        ),
        Key::Backspace => (
            AppView {
                search_query: without_last_of(app.search_query),
                selected_profile: 0,
                ..app
            },
            CommandView::Nothing,
        ),
        _ => (app, CommandView::Nothing),
    }
}

/// What a key does while an alias is typed.
pub open spec fn alias_key(app: AppView, key: Key, now: i64) -> (AppView, CommandView) {
    match key {
        Key::Esc => (at_main(app), CommandView::Nothing),
        Key::Enter => match selected_position(app) {
            Some(at) => (
                saying(
                    at_main(
                        AppView {
                            config: ConfigView {
                                profiles: app.config.profiles.update(
                                    at,
                                    ProfileView {
                                        aliases: filled(app.alias_input),
                                        ..app.config.profiles[at]
                                    },
                                ),
                                ..app.config
                            },
                            ..app
                        },
                    ),
                    "Alias updated"@,
                    now,
                ),
                CommandView::SaveConfig,
            ),
            None => (at_main(app), CommandView::Nothing),
        },
        Key::Backspace => (
            AppView { alias_input: without_last_of(app.alias_input), ..app },
            CommandView::Nothing,
        ),
        Key::Char(c) => (
            AppView { alias_input: app.alias_input.push(c), ..app },
            CommandView::Nothing,
        ),
        _ => (app, CommandView::Nothing),
    }
}

/// The screen after the selected profile was deleted: the selection stays
/// where it was, or moves to the last row that is left.
pub open spec fn profile_deleted(app: AppView, now: i64) -> (AppView, CommandView) {
    match selected_position(app) {
        Some(at) => {
            let without = AppView {
                config: ConfigView { profiles: app.config.profiles.remove(at), ..app.config },
                ..app
            };
            (
                saying(
                    AppView {
                        selected_profile: row_after_delete(
                            app.selected_profile,
                            rows_of(without).len() as usize,
                        ),
                        screen: Screen::Main,
                        ..without
                    },
                    "Deleted profile: "@ + app.config.profiles[at].name,
                    now,
                ),
                CommandView::SaveConfig,
            )
        },
        None => (AppView { screen: Screen::Main, ..app }, CommandView::Nothing),
    }
}

/// What a key does when a deletion is to be confirmed.
pub open spec fn delete_key(app: AppView, key: Key, now: i64) -> (AppView, CommandView) {
    match key {
        Key::Char('y') | Key::Char('Y') | Key::Enter => profile_deleted(app, now),
        Key::Char('n') | Key::Char('N') | Key::Esc => (
            AppView { screen: Screen::Main, ..app },
            CommandView::Nothing,
        ),
        _ => (app, CommandView::Nothing),
    }
}

/// What a key does on the help screen.
pub open spec fn help_key(app: AppView, key: Key) -> (AppView, CommandView) {
    match key {
        Key::Esc | Key::Char('h') => (
            AppView { screen: Screen::Main, ..app },
            CommandView::Nothing,
        ),
        _ => (app, CommandView::Nothing),
    }
}

/// What a key that is pressed at `now` does to the screen, and what it asks
/// of the caller.
pub open spec fn key_step(app: AppView, key: Key, now: i64) -> (AppView, CommandView) {
    match app.screen {
        Screen::Main => main_key(app, key, now),
        Screen::AddProfile => form_key(app, key, now),
        Screen::EditProfile => form_key(app, key, now),
        Screen::ImportXml => import_key(app, key),
        Screen::FileBrowser => browser_key(app, key),
        Screen::Search => search_key(app, key),
        Screen::AliasModal => alias_key(app, key, now),
        Screen::DeleteConfirmation => delete_key(app, key, now),
        Screen::Help => help_key(app, key),
    }
}

/// The screen after `text` was told to the user at `now`: it is the message
/// and, with the time of day, the newest line of the log.
pub open spec fn notified(app: AppView, text: Seq<char>, now: i64, time_of_day: Seq<char>) -> AppView {
    saying(AppView { logs: log_with(app.logs, log_line_of(time_of_day, text)), ..app }, text, now)
}

/// What an event that arrives at `now` does to the screen, and what it asks
/// of the caller. A tick asks for a refresh when `REFRESH_SECONDS` have
/// passed since the last one.
pub open spec fn event_step(
    app: AppView,
    event: AppEventView,
    now: i64,
    time_of_day: Seq<char>,
) -> (AppView, CommandView) {
    match event {
        AppEventView::Input(key) => key_step(app, key, now),
        AppEventView::Tick => if refresh_due(app.last_update, now, REFRESH_SECONDS) {
            (AppView { last_update: now, ..app }, CommandView::RefreshStatus)
        } else {
            (app, CommandView::Nothing)
        },
        AppEventView::VpnStatusUpdated => (app, CommandView::RefreshStatus),
        AppEventView::Notification(text) => (
            notified(app, text, now, time_of_day),
            CommandView::Nothing,
        ),
    }
}

/// The text `"Imported "`, a number and `" profiles"`.
pub open spec fn imported_message(count: nat) -> Seq<char> {
    "Imported "@ + decimal_digits(count) + " profiles"@
}

/// The screen after the file at `path` was read for its profiles. Profiles
/// whose name is new are taken in, and the configuration is to be saved;
/// a file that gave none is told of.
pub open spec fn import_step(
    app: AppView,
    path: Seq<char>,
    outcome: ImportOutcomeView,
    now: i64,
    time_of_day: Seq<char>,
) -> (AppView, CommandView) {
    match outcome {
        ImportOutcomeView::Imported(profiles) => {
            let merged = at_main(
                AppView {
                    config: ConfigView {
                        profiles: merged_profiles(app.config.profiles, profiles),
                        ..app.config
                    },
                    ..app
                },
            );
            let told = saying(merged, imported_message(profiles.len()), now);
            (
                AppView {
                    logs: log_with(
                        told.logs,
                        log_line_of(
                            time_of_day,
                            "Successfully imported "@ + decimal_digits(profiles.len())
                                + " profiles from "@ + path,
                        ),
                    ),
                    ..told
                },
                CommandView::SaveConfig,
            )
        },
        ImportOutcomeView::Rejected(reason) => {
            let told = saying(app, "Import error: "@ + reason, now);
            (
                AppView {
                    logs: log_with(
                        told.logs,
                        log_line_of(
                            time_of_day,
                            "Error parsing XML from "@ + path + ": "@ + reason,
                        ),
                    ),
                    ..told
                },
                CommandView::Nothing,
            )
        },
        ImportOutcomeView::Unreadable(reason) => {
            let told = saying(app, "File error: "@ + reason, now);
            (
                AppView {
                    logs: log_with(
                        told.logs,
                        log_line_of(time_of_day, "Error reading file "@ + path + ": "@ + reason),
                    ),
                    ..told
                },
                CommandView::Nothing,
            )
        },
    }
}

/// The texts of a form that nothing was typed into.
pub fn new_form() -> (fields: Vec<String>)
    ensures
        fields.deep_view() == empty_form(),
{
    let mut fields: Vec<String> = Vec::new();
    let mut i: usize = 0;
    while i < FORM_FIELDS
        invariant
            i <= FORM_FIELDS,
            fields.len() == i,
            forall|k: int| 0 <= k < i ==> (#[trigger] fields[k])@ == Seq::<char>::empty(),
        decreases FORM_FIELDS - i,
    {
        fields.push(String::new());
        i += 1;
    }
    fields
}

/// The name of a column.
fn name_of_column(column: SortColumn) -> (name: &'static str)
    ensures
        name@ == column_name(column),
{
    match column {
        SortColumn::Name => "Name",
        SortColumn::Category => "Category",
        SortColumn::Status => "Status",
    }
}

/// The name of a direction.
fn name_of_direction(direction: SortDirection) -> (name: &'static str)
    ensures
        name@ == direction_name(direction),
{
    match direction {
        SortDirection::Asc => "Asc",
        SortDirection::Desc => "Desc",
    }
}

impl App {
    /// The screen as it is when the program starts at the moment `now`.
    pub fn new(config: Config, now: i64) -> (app: Self)
        ensures
            app@ == initial_app(config@, now),
    {
        let app = App {
            config,
            screen: Screen::Main,
            input_mode: InputMode::Normal,
            selected_profile: 0,
            scroll_offset: 0,
            input_buffer: String::new(),
            input_field: 0,
            status_message: None,
            show_logs: false,
            logs: Vec::new(),
            auto_reconnect: false,
            connections: Vec::new(),
            last_update: now,
            file_browser: None,
            search_query: String::new(),
            add_profile_data: new_form(),
            sort_column: SortColumn::Name,
            sort_direction: SortDirection::Asc,
            alias_input: String::new(),
        };
        assert(app.logs.deep_view() =~= Seq::empty());
        assert(app.connections.deep_view() =~= Seq::empty());
        app
    }

    /// The positions of the profiles that the list shows, in its order.
    pub fn get_filtered_profiles_indices(&self) -> (rows: Vec<usize>)
        ensures
            rows@ == rows_of(self@),
            forall|i: int| 0 <= i < rows.len() ==> rows[i] < self.config.profiles.len(),
    {
        get_filtered_profiles_indices(
            &self.config.profiles,
            &self.connections,
            self.search_query.as_str(),
            self.sort_column,
            self.sort_direction,
        )
    }

    /// The position of the selected profile among the profiles of the
    /// configuration, if a row is selected that the list shows.
    pub fn selected_index(&self) -> (at: Option<usize>)
        ensures
            match at {
                Some(i) => selected_position(self@) == Some(i as int) && i
                    < self.config.profiles.len(),
                None => selected_position(self@) is None,
            },
    {
        let rows = self.get_filtered_profiles_indices();
        if self.selected_profile < rows.len() {
            Some(rows[self.selected_profile])
        } else {
            None
        }
    }

    /// A copy of the connections that the screen shows.
    pub fn get_connections(&self) -> (copy: Vec<VpnConnection>)
        ensures
            copy.deep_view() == self@.connections,
    {
        let mut copy: Vec<VpnConnection> = Vec::new();
        let mut i: usize = 0;
        while i < self.connections.len()
            invariant
                i <= self.connections.len(),
                copy.len() == i,
                forall|k: int| 0 <= k < i ==> (#[trigger] copy[k])@ == self.connections[k]@,
            decreases self.connections.len() - i,
        {
            copy.push(self.connections[i].clone());
            i += 1;
        }
        copy
    }

    /// Shows these connections.
    pub fn set_connections(&mut self, connections: Vec<VpnConnection>)
        ensures
            final(self)@ == (AppView { connections: connections.deep_view(), ..old(self)@ }),
    {
        self.connections = connections;
    }

    /// Makes `text` the message, set at `now`.
    pub fn set_status_message(&mut self, text: String, now: i64)
        ensures
            final(self)@ == saying(old(self)@, text@, now),
    {
        self.status_message = Some((text, now));
    }

    /// Adds a line with the time of day and `text` to the log.
    pub fn add_log(&mut self, text: &str, time_of_day: &str)
        ensures
            final(self)@ == (AppView {
                logs: log_with(old(self)@.logs, log_line_of(time_of_day@, text@)),
                ..old(self)@
            }),
    {
        add_log(&mut self.logs, log_line(time_of_day, text));
    }

    /// Tells `text` to the user: as the message and in the log.
    pub fn notify(&mut self, text: String, now: i64, time_of_day: &str)
        ensures
            final(self)@ == notified(old(self)@, text@, now, time_of_day@),
    {
        self.add_log(text.as_str(), time_of_day);
        self.set_status_message(text, now);
    }

    /// Shows `browser` on the file browser's screen.
    pub fn show_browser(&mut self, browser: FileBrowser)
        ensures
            final(self)@ == (AppView {
                file_browser: Some(browser@),
                screen: Screen::FileBrowser,
                ..old(self)@
            }),
    {
        self.file_browser = Some(browser);
        self.screen = Screen::FileBrowser;
    }

    /// Whether a status refresh is due at `now`; if it is, `now` counts as
    /// the moment of the last refresh.
    pub fn update(&mut self, now: i64) -> (due: bool)
        ensures
            due == refresh_due(old(self).last_update, now, REFRESH_SECONDS),
            final(self)@ == if due {
                AppView { last_update: now, ..old(self)@ }
            } else {
                old(self)@
            },
    {
        if is_refresh_due(self.last_update, now, REFRESH_SECONDS) {
            self.last_update = now;
            true
        } else {
            false
        }
    }

    /// Goes back to the main screen.
    fn go_to_main(&mut self)
        ensures
            final(self)@ == at_main(old(self)@),
    {
        self.screen = Screen::Main;
        self.input_mode = InputMode::Normal;
    }

    /// Takes a key in on the main screen.
    fn handle_main_screen_key(&mut self, key: Key, now: i64) -> (command: Command)
        ensures
            (final(self)@, command@) == main_key(old(self)@, key, now),
    {
        let rows = self.get_filtered_profiles_indices();
        let len = rows.len();
        match key {
            Key::Char('q') => Command::Quit,
            Key::Up | Key::Char('k') => {
                self.selected_profile = select_previous(self.selected_profile, len);
                Command::Nothing
            },
            Key::Down | Key::Char('j') => {
                self.selected_profile = select_next(self.selected_profile, len);
                Command::Nothing
            },
            Key::PageUp => {
                self.selected_profile = select_page_up(self.selected_profile, len);
                Command::Nothing
            },
            Key::PageDown => {
                self.selected_profile = select_page_down(self.selected_profile, len);
                Command::Nothing
            },
            Key::Enter | Key::Char(' ') => Command::ToggleConnection,
            Key::Char('n') => {
                self.screen = Screen::AddProfile;
                self.input_mode = InputMode::Editing;
                self.add_profile_data = new_form();
                self.input_field = 0;
                Command::Nothing
            },
            Key::Char('e') => {
                if self.config.profiles.len() > 0 {
                    match self.selected_index() {
                        Some(at) => {
                            self.add_profile_data = form_from_profile(&self.config.profiles[at]);
                        },
                        None => {},
                    }
                    self.screen = Screen::EditProfile;
                    self.input_mode = InputMode::Editing;
                    self.input_field = 1;
                }
                Command::Nothing
            },
            Key::Char('x') => {
                if len > 0 {
                    self.screen = Screen::DeleteConfirmation;
                }
                Command::Nothing
            },
            Key::Char('/') => {
                self.screen = Screen::Search;
                self.input_mode = InputMode::Editing;
                Command::Nothing
            },
            Key::Char('i') => {
                self.screen = Screen::ImportXml;
                self.input_mode = InputMode::Editing;
                self.input_buffer = String::new();
                self.input_field = 0;
                Command::Nothing
            },
            Key::Char('r') => Command::RefreshStatus,
            Key::Char('l') => {
                self.show_logs = !self.show_logs;
                Command::Nothing
            },
            Key::Char('s') => {
                let next = cycle_sort(self.sort_column, self.sort_direction);
                self.sort_column = next.0;
                self.sort_direction = next.1;
                let mut text = String::from_str("Sorting by ");
                text.append(name_of_column(next.0));
                text.append(" (");
                text.append(name_of_direction(next.1));
                text.append(")");
                self.set_status_message(text, now);
                Command::Nothing
            },
            Key::Char('a') => {
                match self.selected_index() {
                    Some(at) => {
                        self.alias_input = match &self.config.profiles[at].aliases {
                            Some(alias) => alias.clone(),
                            None => String::new(),
                        };
                        self.screen = Screen::AliasModal;
                        self.input_mode = InputMode::Editing;
                    },
                    None => {},
                }
                Command::Nothing
            },
            Key::Char('h') | Key::Function(1) => {
                self.screen = Screen::Help;
                Command::Nothing
            },
            Key::Char('R') => {
                self.auto_reconnect = !self.auto_reconnect;
                let text = if self.auto_reconnect {
                    String::from_str("Auto-reconnect: ON")
                } else {
                    String::from_str("Auto-reconnect: OFF")
                };
                self.set_status_message(text, now);
                Command::Nothing
            },
            _ => Command::Nothing,
        }
    }

    /// The text of a field of the form; empty for a field that is not there.
    fn field(&self, field: usize) -> (text: &str)
        ensures
            text@ == field_text(self@, field as int),
    {
        if field < self.add_profile_data.len() {
            self.add_profile_data[field].as_str()
        } else {
            proof {
                reveal_strlit("");
            }
            ""
        }
    }

    /// Sends the form off.
    fn save_new_profile(&mut self, now: i64) -> (command: Command)
        ensures
            (final(self)@, command@) == form_saved(old(self)@, now),
    {
        let made = profile_from_form(
            self.field(0),
            self.field(1),
            self.field(2),
            self.field(3),
            self.field(4),
            self.field(5),
        );
        match made {
            None => {
                self.set_status_message(String::from_str("Name cannot be empty"), now);
                Command::Nothing
            },
            Some(profile) => {
                let editing = self.screen == Screen::EditProfile;
                let ghost before = self.config.profiles.deep_view();
                if editing {
                    match self.selected_index() {
                        Some(at) => {
                            self.config.profiles.set(at, profile);
                            assert(self.config.profiles.deep_view() =~= before.update(
                                at as int,
                                profile@,
                            ));
                        },
                        None => {},
                    }
                } else {
                    self.config.profiles.push(profile);
                    assert(self.config.profiles.deep_view() =~= before.push(profile@));
                }
                self.go_to_main();
                let text = if editing {
                    String::from_str("Profile updated")
                } else {
                    String::from_str("Profile added")
                };
                self.set_status_message(text, now);
                Command::SaveConfig
            },
        }
    }

    /// Takes a key in on the form that adds or edits a profile.
    fn handle_add_profile_key(&mut self, key: Key, now: i64) -> (command: Command)
        ensures
            (final(self)@, command@) == form_key(old(self)@, key, now),
    {
        let editing = self.screen == Screen::EditProfile;
        let field = self.input_field;
        let open = !(editing && field == 0) && field < self.add_profile_data.len();
        match key {
            Key::Esc => {
                self.go_to_main();
                Command::Nothing
            },
            Key::Enter => self.save_new_profile(now),
            Key::Tab => {
                self.input_field = next_field(field, editing);
                Command::Nothing
            },
            Key::BackTab => {
                self.input_field = previous_field(field, editing);
                Command::Nothing
            },
            Key::Char(c) => {
                if open {
                    let ghost before = self.add_profile_data.deep_view();
                    let mut text = self.add_profile_data[field].clone();
                    text.push(c);
                    self.add_profile_data.set(field, text);
                    assert(self.add_profile_data.deep_view() =~= before.update(
                        field as int,
                        before[field as int].push(c),
                    ));
                }
                Command::Nothing
            },
            Key::Backspace => {
                if open {
                    let ghost before = self.add_profile_data.deep_view();
                    let text = without_last(self.add_profile_data[field].as_str());
                    self.add_profile_data.set(field, text);
                    assert(self.add_profile_data.deep_view() =~= before.update(
                        field as int,
                        without_last_of(before[field as int]),
                    ));
                }
                Command::Nothing
            },
            _ => Command::Nothing,
        }
    }

    /// Takes a key in on the screen that asks for a file to import.
    fn handle_import_xml_key(&mut self, key: Key) -> (command: Command)
        ensures
            (final(self)@, command@) == import_key(old(self)@, key),
    {
        match key {
            Key::Esc => {
                self.go_to_main();
                self.input_buffer = String::new();
                Command::Nothing
            },
            Key::Enter => {
                let path = trim(self.input_buffer.as_str());
                if path.as_str().unicode_len() == 0 {
                    Command::Nothing
                } else {
                    Command::ImportFile(path)
                }
            },
            Key::Char(c) => {
                if c == 'f' && self.input_buffer.as_str().unicode_len() == 0 {
                    Command::OpenFileBrowser
                } else {
                    self.input_buffer.push(c);
                    Command::Nothing
                }
            },
            Key::Backspace => {
                self.input_buffer = without_last(self.input_buffer.as_str());
                Command::Nothing
            },
            _ => Command::Nothing,
        }
    }

    /// Takes a key in in the file browser.
    fn handle_file_browser_key(&mut self, key: Key) -> (command: Command)
        ensures
            (final(self)@, command@) == browser_key(old(self)@, key),
    {
        let taken = self.file_browser.take();
        match taken {
            None => {
                self.screen = Screen::ImportXml;
                Command::Nothing
            },
            Some(browser) => {
                let mut browser = browser;
                let command = match key {
                    Key::Esc => {
                        self.screen = Screen::ImportXml;
                        Command::Nothing
                    },
                    Key::Up | Key::Char('k') => {
                        browser.previous();
                        Command::Nothing
                    },
                    Key::Down | Key::Char('j') => {
                        browser.next();
                        Command::Nothing
                    },
                    Key::Enter => match browser.enter() {
                        BrowserChoice::Nothing => Command::Nothing,
                        BrowserChoice::Open(path) => Command::OpenDirectory(path),
                        BrowserChoice::Pick(path) => {
                            self.input_buffer = path;
                            self.screen = Screen::ImportXml;
                            Command::Nothing
                        },
                    },
                    Key::Backspace => Command::OpenParent,
                    _ => Command::Nothing,
                };
                self.file_browser = Some(browser);
                command
            },
        }
    }

    /// Takes a key in while a search is typed.
    fn handle_search_key(&mut self, key: Key) -> (command: Command)
        ensures
            (final(self)@, command@) == search_key(old(self)@, key),
    {
        match key {
            Key::Esc | Key::Enter => {
                self.go_to_main();
            },
            Key::Char(c) => {
                self.search_query.push(c);
                self.selected_profile = 0;
            },
            Key::Backspace => {
                self.search_query = without_last(self.search_query.as_str());
                self.selected_profile = 0;
            },
            _ => {},
        }
        Command::Nothing
    }

    /// Takes a key in while an alias is typed.
    fn handle_alias_modal_key(&mut self, key: Key, now: i64) -> (command: Command)
        ensures
            (final(self)@, command@) == alias_key(old(self)@, key, now),
    {
        match key {
            Key::Esc => {
                self.go_to_main();
                Command::Nothing
            },
            Key::Enter => {
                match self.selected_index() {
                    Some(at) => {
                        let ghost before = self.config.profiles.deep_view();
                        let mut profile = self.config.profiles[at].clone();
                        profile.aliases = if self.alias_input.as_str().unicode_len() == 0 {
                            None
                        } else {
                            Some(self.alias_input.clone())
                        };
                        self.config.profiles.set(at, profile);
                        assert(self.config.profiles.deep_view() =~= before.update(
                            at as int,
                            profile@,
                        ));
                        self.go_to_main();
                        self.set_status_message(String::from_str("Alias updated"), now);
                        Command::SaveConfig
                    },
                    None => {
                        self.go_to_main();
                        Command::Nothing
                    },
                }
            },
            Key::Backspace => {
                self.alias_input = without_last(self.alias_input.as_str());
                Command::Nothing
            },
            Key::Char(c) => {
                self.alias_input.push(c);
                Command::Nothing
            },
            _ => Command::Nothing,
        }
    }

    /// Deletes the selected profile.
    fn delete_selected_profile(&mut self, now: i64) -> (command: Command)
        ensures
            (final(self)@, command@) == profile_deleted(old(self)@, now),
    {
        match self.selected_index() {
            Some(at) => {
                let ghost before = self.config.profiles.deep_view();
                let removed = self.config.profiles.remove(at);
                assert(self.config.profiles.deep_view() =~= before.remove(at as int));
                let left = self.get_filtered_profiles_indices().len();
                self.selected_profile = select_after_delete(self.selected_profile, left);
                self.screen = Screen::Main;
                let mut text = String::from_str("Deleted profile: ");
                text.append(removed.name.as_str());
                self.set_status_message(text, now);
                Command::SaveConfig
            },
            None => {
                self.screen = Screen::Main;
                Command::Nothing
            },
        }
    }

    /// Takes a key in when a deletion is to be confirmed.
    fn handle_delete_confirmation_key(&mut self, key: Key, now: i64) -> (command: Command)
        ensures
            (final(self)@, command@) == delete_key(old(self)@, key, now),
    {
        match key {
            Key::Char('y') | Key::Char('Y') | Key::Enter => self.delete_selected_profile(now),
            Key::Char('n') | Key::Char('N') | Key::Esc => {
                self.screen = Screen::Main;
                Command::Nothing
            },
            _ => Command::Nothing,
        }
    }

    /// Takes a key in that was pressed at `now`, and says what the caller is
    /// to do.
    pub fn handle_key(&mut self, key: Key, now: i64) -> (command: Command)
        ensures
            (final(self)@, command@) == key_step(old(self)@, key, now),
    {
        match self.screen {
            Screen::Main => self.handle_main_screen_key(key, now),
            Screen::AddProfile => self.handle_add_profile_key(key, now),
            Screen::EditProfile => self.handle_add_profile_key(key, now),
            Screen::ImportXml => self.handle_import_xml_key(key),
            Screen::FileBrowser => self.handle_file_browser_key(key),
            Screen::Search => self.handle_search_key(key),
            Screen::AliasModal => self.handle_alias_modal_key(key, now),
            Screen::DeleteConfirmation => self.handle_delete_confirmation_key(key, now),
            Screen::Help => {
                match key {
                    Key::Esc | Key::Char('h') => {
                        self.screen = Screen::Main;
                    },
                    _ => {},
                }
                Command::Nothing
            },
        }
    }

    /// Takes an event in that arrived at `now`, and says what the caller is
    /// to do.
    pub fn handle_event(&mut self, event: AppEvent, now: i64, time_of_day: &str) -> (command:
        Command)
        ensures
            (final(self)@, command@) == event_step(old(self)@, event@, now, time_of_day@),
    {
        match event {
            AppEvent::Input(key) => self.handle_key(key, now),
            AppEvent::Tick => {
                if self.update(now) {
                    Command::RefreshStatus
                } else {
                    Command::Nothing
                }
            },
            AppEvent::VpnStatusUpdated => Command::RefreshStatus,
            AppEvent::Notification(text) => {
                self.notify(text, now, time_of_day);
                Command::Nothing
            },
        }
    }

    /// Takes in what the reading of the file at `path` gave.
    pub fn import_finished(
        &mut self,
        path: &str,
        outcome: ImportOutcome,
        now: i64,
        time_of_day: &str,
    ) -> (command: Command)
        ensures
            (final(self)@, command@) == import_step(
                old(self)@,
                path@,
                outcome@,
                now,
                time_of_day@,
            ),
    {
        match outcome {
            ImportOutcome::Imported(profiles) => {
                let count = profiles.len() as u64;
                let _ = self.config.merge_profiles(profiles);
                self.go_to_main();
                let mut text = String::from_str("Imported ");
                push_decimal(&mut text, count);
                text.append(" profiles");
                self.set_status_message(text, now);
                let mut line = String::from_str("Successfully imported ");
                push_decimal(&mut line, count);
                line.append(" profiles from ");
                line.append(path);
                self.add_log(line.as_str(), time_of_day);
                Command::SaveConfig
            },
            ImportOutcome::Rejected(reason) => {
                let mut text = String::from_str("Import error: ");
                text.append(reason.as_str());
                self.set_status_message(text, now);
                let mut line = String::from_str("Error parsing XML from ");
                line.append(path);
                line.append(": ");
                line.append(reason.as_str());
                self.add_log(line.as_str(), time_of_day);
                Command::Nothing
            },
            ImportOutcome::Unreadable(reason) => {
                let mut text = String::from_str("File error: ");
                text.append(reason.as_str());
                self.set_status_message(text, now);
                let mut line = String::from_str("Error reading file ");
                line.append(path);
                line.append(": ");
                line.append(reason.as_str());
                self.add_log(line.as_str(), time_of_day);
                Command::Nothing
            },
        }
    }
}

} // verus!
