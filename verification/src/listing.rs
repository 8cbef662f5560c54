//! The list of profiles on the main screen: which profiles it shows, in
//! which order, and how the selection moves.

use crate::app::{SortColumn, SortDirection};
use crate::config::{ProfileView, VpnProfile};
use crate::order::{is_sorted, lemma_stable_sorted, sort_by_keys, stable_sorted};
use crate::text::{chars_of, contains, has_substring, lowercase_of};
use crate::vpn::{status_label, RecordView, VpnConnection};
use vstd::prelude::*;

verus! {

/// The number of rows that a page key moves the selection by.
pub const PAGE_ROWS: usize = 10;

/// The row above `selected` in a list of `len` rows; from the first row the
/// selection wraps to the last.
pub open spec fn row_above(selected: usize, len: usize) -> usize {
    if selected > 0 {
        (selected - 1) as usize
    } else if len > 0 {
        (len - 1) as usize
    } else {
        selected
    }
}

/// The row below `selected` in a list of `len` rows; from the last row the
/// selection wraps to the first.
pub open spec fn row_below(selected: usize, len: usize) -> usize {
    if len > 0 {
        ((selected + 1) % (len as int)) as usize
    } else {
        selected
    }
}

/// The row a page above `selected`, the first row at most.
pub open spec fn page_above(selected: usize, len: usize) -> usize {
    if len == 0 {
        selected
    } else if selected >= PAGE_ROWS {
        (selected - PAGE_ROWS) as usize
    } else {
        0
    }
}

/// The row a page below `selected`, the last row at most.
pub open spec fn page_below(selected: usize, len: usize) -> usize {
    if len == 0 {
        selected
    } else if selected + PAGE_ROWS <= len - 1 {
        (selected + PAGE_ROWS) as usize
    } else {
        (len - 1) as usize
    }
}

/// The row that is selected after a row was deleted and `len` rows are
/// left: the same row, or the last one if that row is gone.
pub open spec fn row_after_delete(selected: usize, len: usize) -> usize {
    if len == 0 {
        0
    } else if selected >= len {
        (len - 1) as usize
    } else {
        selected
    }
}

/// The row above `selected`.
pub fn select_previous(selected: usize, len: usize) -> (row: usize)
    ensures
        row == row_above(selected, len),
{
    if selected > 0 {
        selected - 1
    } else if len > 0 {
        len - 1
    } else {
        selected
    }
}

/// The row below `selected`.
pub fn select_next(selected: usize, len: usize) -> (row: usize)
    ensures
        row == row_below(selected, len),
        len > 0 ==> row < len,
{
    if len > 0 {
        let within: usize = selected % len;
        proof {
            let n = len as int;
            vstd::arithmetic::div_mod::lemma_add_mod_noop(selected as int, 1, n);
            if n > 1 {
                vstd::arithmetic::div_mod::lemma_small_mod(1, n as nat);
                if within + 1 == n {
                    vstd::arithmetic::div_mod::lemma_mod_self_0(n);
                } else {
                    vstd::arithmetic::div_mod::lemma_small_mod((within + 1) as nat, n as nat);
                }
            }
        }
        if within + 1 == len {
            0
        } else {
            within + 1
        }
    } else {
        selected
    }
}

/// The row a page above `selected`.
pub fn select_page_up(selected: usize, len: usize) -> (row: usize)
    ensures
        row == page_above(selected, len),
{
    if len == 0 {
        selected
    } else if selected >= PAGE_ROWS {
        selected - PAGE_ROWS
    } else {
        0
    }
}

/// The row a page below `selected`.
pub fn select_page_down(selected: usize, len: usize) -> (row: usize)
    ensures
        row == page_below(selected, len),
{
    if len == 0 {
        selected
    } else if selected <= len - 1 && len - 1 - selected >= PAGE_ROWS {
        selected + PAGE_ROWS
    } else {
        len - 1
    }
}

/// The row that is selected after a row was deleted and `len` rows are left.
pub fn select_after_delete(selected: usize, len: usize) -> (row: usize)
    ensures
        row == row_after_delete(selected, len),
{
    if len == 0 {
        0
    } else if selected >= len {
        len - 1
    } else {
        selected
    }
}

/// Whether a profile with these texts, all in lowercase, answers a search:
/// its name, its category or its alias holds the query.
pub open spec fn query_matches(
    name: Seq<char>,
    category: Seq<char>,
    alias: Option<Seq<char>>,
    query: Seq<char>,
) -> bool {
    ||| has_substring(name, query)
    ||| has_substring(category, query)
    ||| (alias is Some && has_substring(alias->0, query))
}

/// Whether a profile is listed for a search: always for the empty query, and
/// otherwise if its name, category or alias holds the query, whatever the
/// case of the letters.
pub open spec fn profile_shown(profile: ProfileView, query: Seq<char>) -> bool {
    query.len() == 0 || query_matches(
        lowercase_of(profile.name),
        lowercase_of(profile.category),
        match profile.aliases {
            Some(alias) => Some(lowercase_of(alias)),
            None => None,
        },
        lowercase_of(query),
    )
}

/// The positions below `n` of the profiles that are listed for a search, in
/// rising order.
pub open spec fn shown_within(profiles: Seq<ProfileView>, query: Seq<char>, n: int) -> Seq<usize>
    decreases n,
{
    if n <= 0 {
        Seq::empty()
    } else if profile_shown(profiles[n - 1], query) {
        shown_within(profiles, query, n - 1).push((n - 1) as usize)
    } else {
        shown_within(profiles, query, n - 1)
    }
}

/// The status text under which a profile is sorted: that of the last
/// connection with its name, and `Disconnected` where there is none.
pub open spec fn status_text_for(connections: Seq<RecordView>, name: Seq<char>) -> Seq<char>
    decreases connections.len(),
{
    if connections.len() == 0 {
        "Disconnected"@
    } else if connections.last().profile_name == name {
        status_label(connections.last().status)
    } else {
        status_text_for(connections.drop_last(), name)
    }
}

/// The text by which a profile is sorted in a column: name and category in
/// lowercase, the status as it is shown.
pub open spec fn sort_key(profile: ProfileView, connections: Seq<RecordView>, column: SortColumn) -> Seq<
    char,
> {
    match column {
        SortColumn::Name => lowercase_of(profile.name),
        SortColumn::Category => lowercase_of(profile.category),
        SortColumn::Status => status_text_for(connections, profile.name),
    }
}

/// The texts by which the profiles are sorted, position by position.
pub open spec fn sort_keys(
    profiles: Seq<ProfileView>,
    connections: Seq<RecordView>,
    column: SortColumn,
) -> Seq<Seq<char>> {
    Seq::new(profiles.len(), |i: int| sort_key(profiles[i], connections, column))
}

/// The positions of the profiles that the list shows, in the order in which
/// it shows them: those that answer the search, sorted by the column in the
/// direction; profiles that are sorted alike stay in the order of the
/// configuration.
pub open spec fn shown_positions(
    profiles: Seq<ProfileView>,
    connections: Seq<RecordView>,
    query: Seq<char>,
    column: SortColumn,
    direction: SortDirection,
) -> Seq<usize> {
    stable_sorted(
        shown_within(profiles, query, profiles.len() as int),
        sort_keys(profiles, connections, column),
        direction == SortDirection::Desc,
    )
}

/// Every position that a search lists is a position of a profile.
pub proof fn lemma_shown_within_bounds(profiles: Seq<ProfileView>, query: Seq<char>, n: int)
    requires
        0 <= n <= profiles.len(),
        n <= usize::MAX,
    ensures
        shown_within(profiles, query, n).len() <= n,
        forall|i: int|
            0 <= i < shown_within(profiles, query, n).len() ==> {
                &&& (#[trigger] shown_within(profiles, query, n)[i]) < n
                &&& profile_shown(profiles[shown_within(profiles, query, n)[i] as int], query)
            },
    decreases n,
{
    if n > 0 {
        lemma_shown_within_bounds(profiles, query, n - 1);
    }
}

/// Whether a profile with these texts, all in lowercase, answers a search.
pub fn matches_query(name: &str, category: &str, alias: Option<&str>, query: &str) -> (found: bool)
    ensures
        found == query_matches(
            name@,
            category@,
            match alias {
                Some(a) => Some(a@),
                None => None,
            },
            query@,
        ),
{
    let wanted = chars_of(query);
    if contains(&chars_of(name), &wanted) || contains(&chars_of(category), &wanted) {
        true
    } else {
        match alias {
            Some(a) => contains(&chars_of(a), &wanted),
            None => false,
        }
    }
}

/// Whether a profile is listed for a search.
pub fn is_shown(profile: &VpnProfile, query: &str) -> (shown: bool)
    ensures
        shown == profile_shown(profile@, query@),
{
    if query.unicode_len() == 0 {
        return true;
    }
    let name = profile.name.as_str().to_lowercase();
    let category = profile.category.as_str().to_lowercase();
    let wanted = query.to_lowercase();
    match &profile.aliases {
        Some(alias) => {
            let lowered = alias.as_str().to_lowercase();
            matches_query(name.as_str(), category.as_str(), Some(lowered.as_str()), wanted.as_str())
        },
        None => matches_query(name.as_str(), category.as_str(), None, wanted.as_str()),
    }
}

/// The status text under which a profile is sorted.
pub fn status_text_of_profile(connections: &Vec<VpnConnection>, name: &String) -> (text: String)
    ensures
        text@ == status_text_for(connections.deep_view(), name@),
{
    let mut i: usize = connections.len();
    assert(connections.deep_view().take(i as int) =~= connections.deep_view());
    while i > 0
        invariant
            i <= connections.len(),
            status_text_for(connections.deep_view(), name@) == status_text_for(
                connections.deep_view().take(i as int),
                name@,
            ),
        decreases i,
    {
        let ghost front = connections.deep_view().take(i as int);
        assert(front.drop_last() =~= connections.deep_view().take(i - 1));
        if connections[i - 1].profile_name == *name {
            return connections[i - 1].status.as_str();
        }
        i -= 1;
    }
    String::from_str("Disconnected")
}

/// The texts by which the profiles are sorted, position by position.
pub fn keys_of(profiles: &Vec<VpnProfile>, connections: &Vec<VpnConnection>, column: SortColumn) -> (keys:
    Vec<Vec<char>>)
    ensures
        keys.deep_view() == sort_keys(profiles.deep_view(), connections.deep_view(), column),
{
    let mut keys: Vec<Vec<char>> = Vec::new();
    let mut i: usize = 0;
    while i < profiles.len()
        invariant
            i <= profiles.len(),
            keys.len() == i,
            forall|k: int|
                0 <= k < i ==> (#[trigger] keys[k])@ == sort_key(
                    profiles[k]@,
                    connections.deep_view(),
                    column,
                ),
        decreases profiles.len() - i,
    {
        let key = match column {
            SortColumn::Name => profiles[i].name.as_str().to_lowercase(),
            SortColumn::Category => profiles[i].category.as_str().to_lowercase(),
            SortColumn::Status => status_text_of_profile(connections, &profiles[i].name),
        };
        keys.push(chars_of(key.as_str()));
        i += 1;
    }
    assert(keys.deep_view() =~~= sort_keys(profiles.deep_view(), connections.deep_view(), column));
    keys
}

/// The positions of the profiles that are listed for a search.
pub fn shown_indices(profiles: &Vec<VpnProfile>, query: &str) -> (shown: Vec<usize>)
    ensures
        shown@ == shown_within(profiles.deep_view(), query@, profiles.len() as int),
        forall|i: int| 0 <= i < shown.len() ==> shown[i] < profiles.len(),
{
    let mut shown: Vec<usize> = Vec::new();
    let mut i: usize = 0;
    while i < profiles.len()
        invariant
            i <= profiles.len(),
            shown@ == shown_within(profiles.deep_view(), query@, i as int),
            forall|k: int| 0 <= k < shown.len() ==> shown[k] < i,
        decreases profiles.len() - i,
    {
        if is_shown(&profiles[i], query) {
            shown.push(i);
        }
        i += 1;
    }
    shown
}

/// The positions of the profiles that the list shows, in the order in which
/// it shows them.
pub fn get_filtered_profiles_indices(
    profiles: &Vec<VpnProfile>,
    connections: &Vec<VpnConnection>,
    search_query: &str,
    sort_column: SortColumn,
    sort_direction: SortDirection,
) -> (indices: Vec<usize>)
    ensures
        indices@ == shown_positions(
            profiles.deep_view(),
            connections.deep_view(),
            search_query@,
            sort_column,
            sort_direction,
        ),
        is_sorted(
            indices@,
            sort_keys(profiles.deep_view(), connections.deep_view(), sort_column),
            sort_direction == SortDirection::Desc,
        ),
        indices@.to_multiset() == shown_within(
            profiles.deep_view(),
            search_query@,
            profiles.len() as int,
        ).to_multiset(),
        forall|i: int| 0 <= i < indices.len() ==> indices[i] < profiles.len(),
{
    let shown = shown_indices(profiles, search_query);
    let keys = keys_of(profiles, connections, sort_column);
    proof {
        lemma_stable_sorted(
            shown@,
            keys.deep_view(),
            sort_direction == SortDirection::Desc,
        );
    }
    sort_by_keys(&shown, &keys, sort_direction == SortDirection::Desc)
}

} // verus!
