//! The configured profiles and the settings of the program.

use crate::text::{clone_text, optional_text};
use vstd::prelude::*;

verus! {

/// A named VPN endpoint: where it is, and how to reach it.
#[derive(Debug, PartialEq)]
pub struct VpnProfile {
    pub name: String,
    pub gateway_address: String,
    pub category: String,
    pub cert_path: Option<String>,
    pub username: Option<String>,
    pub aliases: Option<String>,
    pub protocol: String,
    pub auto_connect: bool,
}

/// The mathematical value of a [`VpnProfile`].
pub struct ProfileView {
    pub name: Seq<char>,
    pub gateway_address: Seq<char>,
    pub category: Seq<char>,
    pub cert_path: Option<Seq<char>>,
    pub username: Option<Seq<char>>,
    pub aliases: Option<Seq<char>>,
    pub protocol: Seq<char>,
    pub auto_connect: bool,
}

impl View for VpnProfile {
    type V = ProfileView;

    open spec fn view(&self) -> ProfileView {
        ProfileView {
            name: self.name@,
            gateway_address: self.gateway_address@,
            category: self.category@,
            cert_path: optional_text(self.cert_path),
            username: optional_text(self.username),
            aliases: optional_text(self.aliases),
            protocol: self.protocol@,
            auto_connect: self.auto_connect,
        }
    }
}

impl DeepView for VpnProfile {
    type V = ProfileView;

    open spec fn deep_view(&self) -> ProfileView {
        self@
    }
}

impl Clone for VpnProfile {
    fn clone(&self) -> (copy: Self)
        ensures
            copy@ == self@,
    {
        VpnProfile {
            name: self.name.clone(),
            gateway_address: self.gateway_address.clone(),
            category: self.category.clone(),
            cert_path: clone_text(&self.cert_path),
            username: clone_text(&self.username),
            aliases: clone_text(&self.aliases),
            protocol: self.protocol.clone(),
            auto_connect: self.auto_connect,
        }
    }
}

/// The names of a list of profiles, in the list's order.
pub open spec fn profile_names(profiles: Seq<ProfileView>) -> Seq<Seq<char>> {
    Seq::new(profiles.len(), |i: int| profiles[i].name)
}

/// The names of a list of profiles, in the list's order.
pub fn names_of(profiles: &Vec<VpnProfile>) -> (names: Vec<String>)
    ensures
        names.deep_view() == profile_names(profiles.deep_view()),
{
    let mut names: Vec<String> = Vec::new();
    let mut i: usize = 0;
    while i < profiles.len()
        invariant
            i <= profiles.len(),
            names.len() == i,
            forall|k: int| 0 <= k < i ==> (#[trigger] names[k])@ == profiles[k].name@,
        decreases profiles.len() - i,
    {
        names.push(profiles[i].name.clone());
        i += 1;
    }
    names
}

/// The category of a profile that names none.
pub fn default_category() -> (category: String)
    ensures
        category@ == "Uncategorized"@,
{
    String::from_str("Uncategorized")
}

/// The settings of the program.
#[derive(Debug, PartialEq)]
pub struct Settings {
    pub auto_reconnect: bool,
    pub reconnect_delay_seconds: u64,
    pub status_check_interval_seconds: u64,
    pub log_level: String,
}

/// The mathematical value of [`Settings`].
pub struct SettingsView {
    pub auto_reconnect: bool,
    pub reconnect_delay_seconds: u64,
    pub status_check_interval_seconds: u64,
    pub log_level: Seq<char>,
}

impl View for Settings {
    type V = SettingsView;

    open spec fn view(&self) -> SettingsView {
        SettingsView {
            auto_reconnect: self.auto_reconnect,
            reconnect_delay_seconds: self.reconnect_delay_seconds,
            status_check_interval_seconds: self.status_check_interval_seconds,
            log_level: self.log_level@,
        }
    }
}

/// The settings of a program that was never configured.
pub open spec fn default_settings() -> SettingsView {
    SettingsView {
        auto_reconnect: false,
        reconnect_delay_seconds: 30,
        status_check_interval_seconds: 5,
        log_level: "info"@,
    }
}

impl Clone for Settings {
    fn clone(&self) -> (copy: Self)
        ensures
            copy@ == self@,
    {
        Settings {
            auto_reconnect: self.auto_reconnect,
            reconnect_delay_seconds: self.reconnect_delay_seconds,
            status_check_interval_seconds: self.status_check_interval_seconds,
            log_level: self.log_level.clone(),
        }
    }
}

impl Default for Settings {
    fn default() -> (settings: Self)
        ensures
            settings@ == default_settings(),
    {
        Settings {
            auto_reconnect: false,
            reconnect_delay_seconds: 30,
            status_check_interval_seconds: 5,
            log_level: String::from_str("info"),
        }
    }
}

/// The configuration: the profiles, in the order in which they are shown,
/// and the settings.
#[derive(Debug, PartialEq)]
pub struct Config {
    pub profiles: Vec<VpnProfile>,
    pub settings: Settings,
}

/// The mathematical value of a [`Config`].
pub struct ConfigView {
    pub profiles: Seq<ProfileView>,
    pub settings: SettingsView,
}

impl View for Config {
    type V = ConfigView;

    open spec fn view(&self) -> ConfigView {
        ConfigView { profiles: self.profiles.deep_view(), settings: self.settings@ }
    }
}

/// The profile that a fresh configuration shows as an example.
pub open spec fn example_profile() -> ProfileView {
    ProfileView {
        name: "Azure VPN Example"@,
        gateway_address: "vpn-gateway.azure.com"@,
        category: "prod"@,
        cert_path: Some("/path/to/cert.pem"@),
        username: Some("user@example.com"@),
        aliases: Some("example"@),
        protocol: "IKEv2"@,
        auto_connect: false,
    }
}

/// The configuration of a program that was never configured.
pub open spec fn default_config() -> ConfigView {
    ConfigView { profiles: seq![example_profile()], settings: default_settings() }
}

/// A copy of a list of profiles.
pub fn copy_profiles(profiles: &Vec<VpnProfile>) -> (copy: Vec<VpnProfile>)
    ensures
        copy.deep_view() == profiles.deep_view(),
{
    let mut copy: Vec<VpnProfile> = Vec::new();
    let mut i: usize = 0;
    while i < profiles.len()
        invariant
            i <= profiles.len(),
            copy.len() == i,
            forall|k: int| 0 <= k < i ==> (#[trigger] copy[k])@ == profiles[k]@,
        decreases profiles.len() - i,
    {
        copy.push(profiles[i].clone());
        i += 1;
    }
    copy
}

impl Clone for Config {
    fn clone(&self) -> (copy: Self)
        ensures
            copy@ == self@,
    {
        Config { profiles: copy_profiles(&self.profiles), settings: self.settings.clone() }
    }
}

impl Default for Config {
    fn default() -> (config: Self)
        ensures
            config@ == default_config(),
    {
        let example = VpnProfile {
            name: String::from_str("Azure VPN Example"),
            gateway_address: String::from_str("vpn-gateway.azure.com"),
            category: String::from_str("prod"),
            cert_path: Some(String::from_str("/path/to/cert.pem")),
            username: Some(String::from_str("user@example.com")),
            aliases: Some(String::from_str("example")),
            protocol: String::from_str("IKEv2"),
            auto_connect: false,
        };
        let mut profiles: Vec<VpnProfile> = Vec::new();
        profiles.push(example);
        let config = Config { profiles, settings: Settings::default() };
        assert(config@.profiles =~= seq![example_profile()]);
        config
    }
}

/// `profiles` holds a profile of this name.
pub open spec fn has_profile(profiles: Seq<ProfileView>, name: Seq<char>) -> bool {
    exists|i: int| 0 <= i < profiles.len() && #[trigger] profiles[i].name == name
}

/// The profiles after `incoming` was taken in: each incoming profile, in
/// order, is added at the end unless a profile of its name is there already.
pub open spec fn merged_profiles(profiles: Seq<ProfileView>, incoming: Seq<ProfileView>) -> Seq<
    ProfileView,
>
    decreases incoming.len(),
{
    if incoming.len() == 0 {
        profiles
    } else {
        let before = merged_profiles(profiles, incoming.drop_last());
        if has_profile(before, incoming.last().name) {
            before
        } else {
            before.push(incoming.last())
        }
    }
}

/// Whether `key` names a profile: by its name, or by its whole alias.
pub open spec fn answers_to(profile: ProfileView, key: Seq<char>) -> bool {
    profile.name == key || profile.aliases == Some(key)
}

/// The position of the first profile that `key` names, if any does.
pub open spec fn answering_position(profiles: Seq<ProfileView>, key: Seq<char>) -> Option<int>
    decreases profiles.len(),
{
    if profiles.len() == 0 {
        None
    } else if answers_to(profiles.last(), key) && answering_position(profiles.drop_last(), key)
        is None {
        Some(profiles.len() - 1)
    } else {
        answering_position(profiles.drop_last(), key)
    }
}

/// The name that a key stands for: that of the first profile that the key
/// names, and the key itself where it names none.
pub open spec fn target_name_of(profiles: Seq<ProfileView>, key: Seq<char>) -> Seq<char> {
    match answering_position(profiles, key) {
        Some(at) => profiles[at].name,
        None => key,
    }
}

/// The answering position is the first position whose profile the key names.
pub proof fn lemma_answering_position(profiles: Seq<ProfileView>, key: Seq<char>)
    ensures
        match answering_position(profiles, key) {
            Some(at) => 0 <= at < profiles.len() && answers_to(profiles[at], key) && forall|
                k: int,
            | 0 <= k < at ==> !answers_to(#[trigger] profiles[k], key),
            None => forall|k: int|
                0 <= k < profiles.len() ==> !answers_to(#[trigger] profiles[k], key),
        },
    decreases profiles.len(),
{
    if profiles.len() > 0 {
        let front = profiles.drop_last();
        lemma_answering_position(front, key);
        assert(forall|k: int| 0 <= k < front.len() ==> front[k] == profiles[k]);
    }
}

/// Merging only ever adds profiles at the end.
pub proof fn lemma_merged_extends(profiles: Seq<ProfileView>, incoming: Seq<ProfileView>)
    ensures
        merged_profiles(profiles, incoming).len() >= profiles.len(),
        merged_profiles(profiles, incoming).take(profiles.len() as int) == profiles,
    decreases incoming.len(),
{
    if incoming.len() > 0 {
        lemma_merged_extends(profiles, incoming.drop_last());
        let before = merged_profiles(profiles, incoming.drop_last());
        assert(before.push(incoming.last()).take(profiles.len() as int) =~= before.take(
            profiles.len() as int,
        ));
    }
}

/// The names of `profiles` differ pairwise.
pub open spec fn names_differ(profiles: Seq<ProfileView>) -> bool {
    forall|i: int, j: int| 0 <= i < j < profiles.len() ==> profiles[i].name != profiles[j].name
}

/// Merging never gives two profiles one name: where the names differed
/// before, they differ after; and every incoming name is there afterwards.
pub proof fn lemma_merged_names(profiles: Seq<ProfileView>, incoming: Seq<ProfileView>)
    requires
        names_differ(profiles),
    ensures
        names_differ(merged_profiles(profiles, incoming)),
        forall|i: int|
            0 <= i < incoming.len() ==> has_profile(
                merged_profiles(profiles, incoming),
                (#[trigger] incoming[i]).name,
            ),
        forall|i: int|
            0 <= i < profiles.len() ==> has_profile(
                merged_profiles(profiles, incoming),
                (#[trigger] profiles[i]).name,
            ),
    decreases incoming.len(),
{
    let merged = merged_profiles(profiles, incoming);
    if incoming.len() > 0 {
        let front = incoming.drop_last();
        let before = merged_profiles(profiles, front);
        lemma_merged_names(profiles, front);
        let last = incoming.last();
        assert forall|i: int| 0 <= i < incoming.len() implies has_profile(
            merged,
            (#[trigger] incoming[i]).name,
        ) by {
            if i < front.len() {
                assert(front[i] == incoming[i]);
                let at = choose|at: int|
                    0 <= at < before.len() && #[trigger] before[at].name == front[i].name;
                assert(merged[at].name == incoming[i].name);
            } else if !has_profile(before, last.name) {
                assert(merged[before.len() as int].name == last.name);
            }
        }
        assert forall|i: int| 0 <= i < profiles.len() implies has_profile(
            merged,
            (#[trigger] profiles[i]).name,
        ) by {
            let at = choose|at: int|
                0 <= at < before.len() && #[trigger] before[at].name == profiles[i].name;
            assert(merged[at].name == profiles[i].name);
        }
        if !has_profile(before, last.name) {
            assert forall|i: int, j: int| 0 <= i < j < merged.len() implies merged[i].name
                != merged[j].name by {
                if j == before.len() {
                    assert(before[i].name != last.name);
                }
            }
        }
    } else {
        assert forall|i: int| 0 <= i < profiles.len() implies has_profile(
            merged,
            (#[trigger] profiles[i]).name,
        ) by {
            assert(merged[i].name == profiles[i].name);
        }
    }
}

/// Whether `profiles` holds a profile of this name.
pub fn contains_profile(profiles: &Vec<VpnProfile>, name: &String) -> (found: bool)
    ensures
        found == has_profile(profiles.deep_view(), name@),
{
    let mut i: usize = 0;
    while i < profiles.len()
        invariant
            i <= profiles.len(),
            forall|k: int| 0 <= k < i ==> profiles[k].name@ != name@,
        decreases profiles.len() - i,
    {
        if profiles[i].name == *name {
            assert(profiles.deep_view()[i as int].name == name@);
            return true;
        }
        i += 1;
    }
    false
}

/// The first profile that `key` names, by its name or by its alias.
pub fn resolve_profile(profiles: &Vec<VpnProfile>, key: &str) -> (found: Option<usize>)
    ensures
        match found {
            Some(at) => at < profiles.len() && answering_position(profiles.deep_view(), key@)
                == Some(at as int),
            None => answering_position(profiles.deep_view(), key@) is None,
        },
        match found {
            Some(at) => at < profiles.len() && answers_to(profiles[at as int]@, key@)
                && forall|k: int| 0 <= k < at ==> !answers_to(profiles[k]@, key@),
            None => forall|k: int| 0 <= k < profiles.len() ==> !answers_to(profiles[k]@, key@),
        },
{
    let wanted = String::from_str(key);
    let mut i: usize = 0;
    while i < profiles.len()
        invariant
            i <= profiles.len(),
            wanted@ == key@,
            forall|k: int| 0 <= k < i ==> !answers_to(profiles[k]@, key@),
        decreases profiles.len() - i,
    {
        let by_alias = match &profiles[i].aliases {
            Some(alias) => *alias == wanted,
            None => false,
        };
        if profiles[i].name == wanted || by_alias {
            proof {
                lemma_answering_position(profiles.deep_view(), key@);
                assert(answers_to(profiles.deep_view()[i as int], key@));
                assert(forall|k: int|
                    0 <= k < i ==> profiles.deep_view()[k] == (#[trigger] profiles[k])@);
            }
            return Some(i);
        }
        i += 1;
    }
    proof {
        lemma_answering_position(profiles.deep_view(), key@);
        assert(forall|k: int|
            0 <= k < profiles.len() ==> profiles.deep_view()[k] == (#[trigger] profiles[k])@);
    }
    None
}

/// The name that a key stands for: that of the first profile that the key
/// names by its name or its alias, and the key itself where it names none.
pub fn target_name(profiles: &Vec<VpnProfile>, key: &str) -> (name: String)
    ensures
        name@ == target_name_of(profiles.deep_view(), key@),
{
    match resolve_profile(profiles, key) {
        Some(at) => profiles[at].name.clone(),
        None => String::from_str(key),
    }
}

impl Config {
    /// Takes in the profiles of `incoming` whose name is new, in order, and
    /// says how many these were.
    pub fn merge_profiles(&mut self, incoming: Vec<VpnProfile>) -> (added: usize)
        ensures
            final(self)@.profiles == merged_profiles(old(self)@.profiles, incoming.deep_view()),
            final(self)@.settings == old(self)@.settings,
            added == final(self)@.profiles.len() - old(self)@.profiles.len(),
    {
        let mut incoming = incoming;
        let ghost all = incoming.deep_view();
        let ghost start = self@.profiles;
        let mut added: usize = 0;
        let mut taken: usize = 0;
        let total = incoming.len();
        while incoming.len() > 0
            invariant
                taken + incoming.len() == total,
                total == all.len(),
                incoming.deep_view() =~= all.skip(taken as int),
                self@.profiles == merged_profiles(start, all.take(taken as int)),
                self@.settings == old(self)@.settings,
                added == self@.profiles.len() - start.len(),
                added <= taken,
            decreases incoming.len(),
        {
            let ghost rest = incoming.deep_view();
            let ghost done = all.take(taken + 1);
            assert(done.drop_last() =~= all.take(taken as int));
            let profile = incoming.remove(0);
            assert(profile@ == rest[0]);
            assert(incoming.deep_view() =~= rest.drop_first());
            if !contains_profile(&self.profiles, &profile.name) {
                self.profiles.push(profile);
                added += 1;
            }
            taken += 1;
        }
        assert(all.take(total as int) =~= all);
        added
    }

    /// Takes in the profiles that were found in the import directories, in
    /// the order in which they were found; a profile whose name is known
    /// already is passed over. Says whether any profile was new, and the
    /// configuration is therefore to be saved.
    pub fn auto_import_profiles(&mut self, found: Vec<VpnProfile>) -> (imported_any: bool)
        ensures
            final(self)@.profiles == merged_profiles(old(self)@.profiles, found.deep_view()),
            final(self)@.settings == old(self)@.settings,
            imported_any == (final(self)@.profiles.len() > old(self)@.profiles.len()),
    {
        self.merge_profiles(found) > 0
    }
}

} // verus!
