//! Profiles from exported XML.
//!
//! An export is read in two ways. Where it has one of the known shapes, the
//! caller reads it as structured data and hands over what it found. Where
//! that gives nothing, the text is searched for profile sections, and each
//! section for a name, a server and a protocol.

use crate::config::{Config, ProfileView, VpnProfile};
use crate::text::{chars_of, contains, filter_map, has_substring, optional_text, same_text};
use vstd::prelude::*;

verus! {

/// The texts of the matches of a regular expression in a text, one after the
/// other and without overlap, as `regex::Regex::find_iter` yields them; no
/// match for a pattern that is no regular expression.
pub uninterp spec fn regex_matches(pattern: Seq<char>, text: Seq<char>) -> Seq<Seq<char>>;

/// What the first group of a regular expression captured in its first match
/// in a text, as `regex::Regex::captures` reports it; nothing where there is
/// no match, where the group took no part, or for a pattern that is no
/// regular expression.
pub uninterp spec fn regex_first_group(pattern: Seq<char>, text: Seq<char>) -> Option<Seq<char>>;

/// Compiles `pattern` with `regex::Regex::new` and collects the texts of the
/// matches that `Regex::find_iter` yields for `text`. A pattern that does not
/// compile gives no match. The result depends on the pattern and the text
/// alone.
#[verifier::external_body]
fn find_all(pattern: &str, text: &str) -> (found: Vec<String>)
    ensures
        found.deep_view() == regex_matches(pattern@, text@),
{
    match regex::Regex::new(pattern) {
        Ok(re) => re.find_iter(text).map(|m| m.as_str().to_string()).collect(),
        Err(_) => Vec::new(),
    }
}

/// Compiles `pattern` with `regex::Regex::new` and returns what group 1
/// holds in the captures that `Regex::captures` finds in `text`. A pattern
/// that does not compile captures nothing. The result depends on the pattern
/// and the text alone.
#[verifier::external_body]
fn first_group(pattern: &str, text: &str) -> (group: Option<String>)
    ensures
        group.deep_view() == regex_first_group(pattern@, text@),
{
    match regex::Regex::new(pattern) {
        Ok(re) => re.captures(text).and_then(|c| c.get(1)).map(|m| m.as_str().to_string()),
        Err(_) => None,
    }
}

/// The regular expression of a profile section: an element `AzVpnProfile` or
/// `VpnProfile`, with or without a namespace, from its opening to the next
/// closing tag.
pub open spec fn section_pattern() -> Seq<char> {
    "(?s)<(?:\\w+:)?(?:AzVpnProfile|VpnProfile).*?>.*?</(?:\\w+:)?(?:AzVpnProfile|VpnProfile)>"@
}

/// The regular expression of a profile's name within a section.
pub open spec fn name_pattern() -> Seq<char> {
    "<(?:\\w+:)?(?:Name|name)>(.*?)</(?:\\w+:)?(?:Name|name)>"@
}

/// The regular expression of a profile's server within a section.
pub open spec fn server_pattern() -> Seq<char> {
    "<(?:\\w+:)?(?:Server|fqdn|displayname)>(.*?)</(?:\\w+:)?(?:Server|fqdn|displayname)>"@
}

/// The regular expression of a profile's protocol within a section.
pub open spec fn protocol_pattern() -> Seq<char> {
    "<(?:\\w+:)?(?:Protocol|transportprotocol)>(.*?)</(?:\\w+:)?(?:Protocol|transportprotocol)>"@
}

/// The shape of an export, told by the first of these tags that its text
/// holds.
#[derive(Debug, Clone, Copy, PartialEq, Eq, Structural)]
pub enum XmlFormat {
    /// The text holds `<AzVpnProfile`: a list of profiles of the Azure
    /// client or, failing that, one profile.
    AzVpnProfile,
    /// The text holds `<VpnSettings`: a list of profiles.
    VpnSettings,
    /// The text holds `<VpnProfile`: one profile.
    VpnProfile,
    /// None of these.
    Other,
}

/// The shape of an export.
pub open spec fn format_of(xml: Seq<char>) -> XmlFormat {
    if has_substring(xml, "<AzVpnProfile"@) {
        XmlFormat::AzVpnProfile
    } else if has_substring(xml, "<VpnSettings"@) {
        XmlFormat::VpnSettings
    } else if has_substring(xml, "<VpnProfile"@) {
        XmlFormat::VpnProfile
    } else {
        XmlFormat::Other
    }
}

/// A way of reading an export as structured data.
#[derive(Debug, Clone, Copy, PartialEq, Eq, Structural)]
pub enum XmlReading {
    /// As an element that holds a list of `VpnProfile` elements.
    ProfileList,
    /// As one profile.
    SingleProfile,
}

/// The ways in which an export of a shape is read as structured data, in the
/// order in which they are tried; the first that succeeds counts.
pub open spec fn readings_of(format: XmlFormat) -> Seq<XmlReading> {
    match format {
        XmlFormat::AzVpnProfile => seq![XmlReading::ProfileList, XmlReading::SingleProfile],
        XmlFormat::VpnSettings => seq![XmlReading::ProfileList],
        XmlFormat::VpnProfile => seq![XmlReading::SingleProfile],
        XmlFormat::Other => Seq::empty(),
    }
}

/// The ways in which an export of a shape is read as structured data.
pub fn readings_for(format: XmlFormat) -> (readings: Vec<XmlReading>)
    ensures
        readings@ == readings_of(format),
{
    let mut readings: Vec<XmlReading> = Vec::new();
    match format {
        XmlFormat::AzVpnProfile => {
            readings.push(XmlReading::ProfileList);
            readings.push(XmlReading::SingleProfile);
        },
        XmlFormat::VpnSettings => {
            readings.push(XmlReading::ProfileList);
        },
        XmlFormat::VpnProfile => {
            readings.push(XmlReading::SingleProfile);
        },
        XmlFormat::Other => {},
    }
    readings
}

/// A profile as a structured export gives it: each field may be missing.
#[derive(Debug, PartialEq)]
pub struct XmlProfile {
    /// The element `Name`.
    pub name: Option<String>,
    /// The element `name`.
    pub name_lower: Option<String>,
    /// The element `Server`.
    pub server: Option<String>,
    /// The element `fqdn`.
    pub fqdn: Option<String>,
    /// The element `Protocol`.
    pub protocol: Option<String>,
}

/// The mathematical value of an [`XmlProfile`].
pub struct XmlProfileView {
    pub name: Option<Seq<char>>,
    pub name_lower: Option<Seq<char>>,
    pub server: Option<Seq<char>>,
    pub fqdn: Option<Seq<char>>,
    pub protocol: Option<Seq<char>>,
}

impl View for XmlProfile {
    type V = XmlProfileView;

    open spec fn view(&self) -> XmlProfileView {
        XmlProfileView {
            name: optional_text(self.name),
            name_lower: optional_text(self.name_lower),
            server: optional_text(self.server),
            fqdn: optional_text(self.fqdn),
            protocol: optional_text(self.protocol),
        }
    }
}

impl DeepView for XmlProfile {
    type V = XmlProfileView;

    open spec fn deep_view(&self) -> XmlProfileView {
        self@
    }
}

/// Why an export gave no profiles.
#[derive(Debug, Clone, Copy, PartialEq, Eq, Structural)]
pub enum ImportError {
    /// The text has no known shape and holds no profile section.
    Unsupported,
}

/// The text that tells a user of an import error.
pub open spec fn import_error_message(error: ImportError) -> Seq<char> {
    "Unsupported XML format or parsing error"@
}

impl ImportError {
    /// The text that tells a user of this error.
    pub fn message(&self) -> (text: String)
        ensures
            text@ == import_error_message(*self),
    {
        String::from_str("Unsupported XML format or parsing error")
    }
}

/// The first of two optional texts that is there, or `fallback`.
pub open spec fn first_of(first: Option<Seq<char>>, second: Option<Seq<char>>, fallback: Seq<char>) -> Seq<
    char,
> {
    match first {
        Some(text) => text,
        None => match second {
            Some(text) => text,
            None => fallback,
        },
    }
}

/// An imported profile: uncategorized, without certificate, user name or
/// alias, and not connected automatically.
pub open spec fn imported_profile(name: Seq<char>, server: Seq<char>, protocol: Seq<char>) -> ProfileView {
    ProfileView {
        name,
        gateway_address: server,
        category: "Uncategorized"@,
        cert_path: None,
        username: None,
        aliases: None,
        protocol,
        auto_connect: false,
    }
}

/// The profile that a structured export's entry stands for. A missing name
/// is `Unnamed`, a missing server `unknown`, a missing protocol `IKEv2`.
pub open spec fn profile_of_xml(raw: XmlProfileView) -> ProfileView {
    imported_profile(
        first_of(raw.name, raw.name_lower, "Unnamed"@),
        first_of(raw.server, raw.fqdn, "unknown"@),
        first_of(raw.protocol, None, "IKEv2"@),
    )
}

/// The profile that a section stands for in which these fields were found:
/// none without a name or without a server; a missing protocol is `IKEv2`.
pub open spec fn profile_of_fields(
    name: Option<Seq<char>>,
    server: Option<Seq<char>>,
    protocol: Option<Seq<char>>,
) -> Option<ProfileView> {
    match (name, server) {
        (Some(name), Some(server)) => Some(
            imported_profile(name, server, first_of(protocol, None, "IKEv2"@)),
        ),
        _ => None,
    }
}

/// The profile that a section of the text stands for.
pub open spec fn profile_of_section(section: Seq<char>) -> Option<ProfileView> {
    profile_of_fields(
        regex_first_group(name_pattern(), section),
        regex_first_group(server_pattern(), section),
        regex_first_group(protocol_pattern(), section),
    )
}

/// The profiles that a search of the text finds: one for each section that
/// holds a name and a server.
pub open spec fn searched_profiles(xml: Seq<char>) -> Seq<ProfileView> {
    filter_map(
        regex_matches(section_pattern(), xml),
        |section: Seq<char>| profile_of_section(section),
    )
}

/// What an import gives, from what the structured reading found and what
/// the search found. A text of no known shape gives what the search found,
/// and is unsupported where that is nothing. A text of a known shape gives
/// what the structured reading found; but where that is nothing and the text
/// mentions a profile, what the search found comes first if it is anything.
pub open spec fn import_result(
    format: XmlFormat,
    mentions_profile: bool,
    structured: Seq<XmlProfileView>,
    searched: Seq<ProfileView>,
) -> Result<Seq<ProfileView>, ImportError> {
    if format == XmlFormat::Other {
        if searched.len() > 0 {
            Ok(searched)
        } else {
            Err(ImportError::Unsupported)
        }
    } else if structured.len() == 0 && mentions_profile && searched.len() > 0 {
        Ok(searched)
    } else {
        Ok(Seq::new(structured.len(), |i: int| profile_of_xml(structured[i])))
    }
}

/// What the import of a text gives, with `structured` as what the
/// structured reading of the text found.
pub open spec fn imported(xml: Seq<char>, structured: Seq<XmlProfileView>) -> Result<
    Seq<ProfileView>,
    ImportError,
> {
    import_result(
        format_of(xml),
        has_substring(xml, "VpnProfile"@) || has_substring(xml, "AzVpnProfile"@),
        structured,
        searched_profiles(xml),
    )
}

/// The mathematical value of an import's result.
pub open spec fn import_view(result: Result<Vec<VpnProfile>, ImportError>) -> Result<
    Seq<ProfileView>,
    ImportError,
> {
    match result {
        Ok(profiles) => Ok(profiles.deep_view()),
        Err(error) => Err(error),
    }
}

/// The shape of an export.
pub fn xml_format(xml_content: &str) -> (format: XmlFormat)
    ensures
        format == format_of(xml_content@),
{
    let text = chars_of(xml_content);
    if contains(&text, &chars_of("<AzVpnProfile")) {
        XmlFormat::AzVpnProfile
    } else if contains(&text, &chars_of("<VpnSettings")) {
        XmlFormat::VpnSettings
    } else if contains(&text, &chars_of("<VpnProfile")) {
        XmlFormat::VpnProfile
    } else {
        XmlFormat::Other
    }
}

/// An imported profile.
fn new_profile(name: String, server: String, protocol: String) -> (profile: VpnProfile)
    ensures
        profile@ == imported_profile(name@, server@, protocol@),
{
    VpnProfile {
        name,
        gateway_address: server,
        category: String::from_str("Uncategorized"),
        cert_path: None,
        username: None,
        aliases: None,
        protocol,
        auto_connect: false,
    }
}

/// The first of two optional texts that is there, or `fallback`.
fn first_text(first: Option<String>, second: Option<String>, fallback: &str) -> (text: String)
    ensures
        text@ == first_of(optional_text(first), optional_text(second), fallback@),
{
    match first {
        Some(text) => text,
        None => match second {
            Some(text) => text,
            None => String::from_str(fallback),
        },
    }
}

/// The profile that a structured export's entry stands for.
pub fn profile_from_xml(raw: XmlProfile) -> (profile: VpnProfile)
    ensures
        profile@ == profile_of_xml(raw@),
{
    let XmlProfile { name, name_lower, server, fqdn, protocol } = raw;
    new_profile(
        first_text(name, name_lower, "Unnamed"),
        first_text(server, fqdn, "unknown"),
        first_text(protocol, None, "IKEv2"),
    )
}

/// The profile that a section stands for in which these fields were found.
pub fn profile_from_fields(name: Option<String>, server: Option<String>, protocol: Option<String>) -> (profile:
    Option<VpnProfile>)
    ensures
        profile.deep_view() == profile_of_fields(
            optional_text(name),
            optional_text(server),
            optional_text(protocol),
        ),
{
    match (name, server) {
        (Some(name), Some(server)) => Some(
            new_profile(name, server, first_text(protocol, None, "IKEv2")),
        ),
        _ => None,
    }
}

/// The profiles that a search of the text finds.
pub fn search_profiles(xml_content: &str) -> (found: Vec<VpnProfile>)
    ensures
        found.deep_view() == searched_profiles(xml_content@),
{
    let sections = find_all(
        "(?s)<(?:\\w+:)?(?:AzVpnProfile|VpnProfile).*?>.*?</(?:\\w+:)?(?:AzVpnProfile|VpnProfile)>",
        xml_content,
    );
    let ghost read = |section: Seq<char>| profile_of_section(section);
    let mut found: Vec<VpnProfile> = Vec::new();
    let mut i: usize = 0;
    while i < sections.len()
        invariant
            i <= sections.len(),
            read == |section: Seq<char>| profile_of_section(section),
            found.deep_view() =~= filter_map(sections.deep_view().take(i as int), read),
        decreases sections.len() - i,
    {
        let ghost seen = sections.deep_view().take(i + 1);
        assert(seen.drop_last() =~= sections.deep_view().take(i as int));
        let section = sections[i].as_str();
        let name = first_group("<(?:\\w+:)?(?:Name|name)>(.*?)</(?:\\w+:)?(?:Name|name)>", section);
        let server = first_group(
            "<(?:\\w+:)?(?:Server|fqdn|displayname)>(.*?)</(?:\\w+:)?(?:Server|fqdn|displayname)>",
            section,
        );
        let protocol = first_group(
            "<(?:\\w+:)?(?:Protocol|transportprotocol)>(.*?)</(?:\\w+:)?(?:Protocol|transportprotocol)>",
            section,
        );
        match profile_from_fields(name, server, protocol) {
            Some(profile) => {
                found.push(profile);
            },
            None => {},
        }
        i += 1;
    }
    assert(sections.deep_view().take(sections.len() as int) =~= sections.deep_view());
    found
}

/// The profiles that the entries of a structured export stand for.
pub fn profiles_from_xml(structured: Vec<XmlProfile>) -> (profiles: Vec<VpnProfile>)
    ensures
        profiles.deep_view() == Seq::new(
            structured.len() as nat,
            |i: int| profile_of_xml(structured.deep_view()[i]),
        ),
{
    let mut structured = structured;
    let ghost all = structured.deep_view();
    let mut profiles: Vec<VpnProfile> = Vec::new();
    while structured.len() > 0
        invariant
            profiles.len() + structured.len() == all.len(),
            structured.deep_view() =~= all.skip(profiles.len() as int),
            forall|k: int| 0 <= k < profiles.len() ==> (#[trigger] profiles[k])@ == profile_of_xml(all[k]),
        decreases structured.len(),
    {
        let ghost rest = structured.deep_view();
        let raw = structured.remove(0);
        assert(raw@ == rest[0]);
        assert(structured.deep_view() =~= rest.drop_first());
        profiles.push(profile_from_xml(raw));
    }
    profiles
}

/// Decides what an import gives, from what the structured reading found and
/// what the search found.
pub fn choose_import(
    format: XmlFormat,
    mentions_profile: bool,
    structured: Vec<XmlProfile>,
    searched: Vec<VpnProfile>,
) -> (result: Result<Vec<VpnProfile>, ImportError>)
    ensures
        import_view(result) == import_result(
            format,
            mentions_profile,
            structured.deep_view(),
            searched.deep_view(),
        ),
{
    if format == XmlFormat::Other {
        if searched.len() > 0 {
            Ok(searched)
        } else {
            Err(ImportError::Unsupported)
        }
    } else if structured.len() == 0 && mentions_profile && searched.len() > 0 {
        Ok(searched)
    } else {
        Ok(profiles_from_xml(structured))
    }
}

impl Config {
    /// The profiles of an export. `structured` is what reading the text as
    /// structured data found: the profiles of the list that the shape of the
    /// text names, or the single profile, and nothing where the text could
    /// not be read so.
    pub fn import_from_xml(xml_content: &str, structured: Vec<XmlProfile>) -> (result: Result<
        Vec<VpnProfile>,
        ImportError,
    >)
        ensures
            import_view(result) == imported(xml_content@, structured.deep_view()),
    {
        let text = chars_of(xml_content);
        let mentions_profile = contains(&text, &chars_of("VpnProfile")) || contains(
            &text,
            &chars_of("AzVpnProfile"),
        );
        let format = xml_format(xml_content);
        let searched = if format == XmlFormat::Other || (structured.len() == 0
            && mentions_profile) {
            search_profiles(xml_content)
        } else {
            Vec::new()
        };
        choose_import(format, mentions_profile, structured, searched)
    }
}

/// Whether a file with this extension is looked at when profiles are
/// imported from a directory.
pub open spec fn importable_extension(extension: Seq<char>) -> bool {
    extension == "xml"@ || extension == "ovpn"@ || extension == "azvpn"@
}

/// Whether a file with this extension is looked at when profiles are
/// imported from a directory.
pub fn is_importable_extension(extension: &str) -> (importable: bool)
    ensures
        importable == importable_extension(extension@),
{
    same_text(extension, "xml") || same_text(extension, "ovpn") || same_text(extension, "azvpn")
}

} // verus!
