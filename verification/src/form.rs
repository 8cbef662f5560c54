//! The form that adds or edits a profile.

use crate::config::{ProfileView, VpnProfile};
use crate::text::{optional_text, text_or_empty};
use vstd::prelude::*;

verus! {

/// The number of fields of the form.
pub const FORM_FIELDS: usize = 6;

/// The field of the form that follows `field`. While a profile is edited its
/// name cannot be changed, and the first field is passed over.
pub open spec fn field_after(field: usize, editing: bool) -> usize {
    let next = ((field + 1) % (FORM_FIELDS as int)) as usize;
    if editing && next == 0 {
        1
    } else {
        next
    }
}

/// The field of the form that precedes `field`.
pub open spec fn field_before(field: usize, editing: bool) -> usize {
    let previous = if field == 0 {
        (FORM_FIELDS - 1) as usize
    } else {
        (field - 1) as usize
    };
    if editing && previous == 0 {
        (FORM_FIELDS - 1) as usize
    } else {
        previous
    }
}

/// The field of the form that follows `field`.
pub fn next_field(field: usize, editing: bool) -> (next: usize)
    ensures
        next == field_after(field, editing),
        next < FORM_FIELDS,
{
    let within: usize = field % FORM_FIELDS;
    let next: usize = if within + 1 == FORM_FIELDS {
        0
    } else {
        within + 1
    };
    if editing && next == 0 {
        1
    } else {
        next
    }
}

/// The field of the form that precedes `field`.
pub fn previous_field(field: usize, editing: bool) -> (previous: usize)
    ensures
        previous == field_before(field, editing),
{
    let previous: usize = if field == 0 {
        FORM_FIELDS - 1
    } else {
        field - 1
    };
    if editing && previous == 0 {
        FORM_FIELDS - 1
    } else {
        previous
    }
}

/// A text of the form as an optional value: none where it is empty.
pub open spec fn filled(text: Seq<char>) -> Option<Seq<char>> {
    if text.len() == 0 {
        None
    } else {
        Some(text)
    }
}

/// The profile that a filled form stands for; none while the name is empty.
pub open spec fn profile_of_form(
    name: Seq<char>,
    gateway_address: Seq<char>,
    category: Seq<char>,
    cert_path: Seq<char>,
    username: Seq<char>,
    aliases: Seq<char>,
) -> Option<ProfileView> {
    if name.len() == 0 {
        None
    } else {
        Some(
            ProfileView {
                name,
                gateway_address,
                category,
                cert_path: filled(cert_path),
                username: filled(username),
                aliases: filled(aliases),
                protocol: "IKEv2"@,
                auto_connect: false,
            },
        )
    }
}

/// The texts that the form shows for a profile, field by field.
pub open spec fn form_of_profile(profile: ProfileView) -> Seq<Seq<char>> {
    seq![
        profile.name,
        profile.gateway_address,
        profile.category,
        text_or_empty(profile.cert_path),
        text_or_empty(profile.username),
        text_or_empty(profile.aliases),
    ]
}

/// A text of the form as an optional value.
fn optional(text: &str) -> (value: Option<String>)
    ensures
        optional_text(value) == filled(text@),
{
    if text.unicode_len() == 0 {
        None
    } else {
        Some(String::from_str(text))
    }
}

/// The text of an optional value, empty where there is none.
fn shown(value: &Option<String>) -> (text: String)
    ensures
        text@ == text_or_empty(optional_text(*value)),
{
    match value {
        Some(text) => text.clone(),
        None => String::new(),
    }
}

/// The profile that a filled form stands for.
pub fn profile_from_form(
    name: &str,
    gateway_address: &str,
    category: &str,
    cert_path: &str,
    username: &str,
    aliases: &str,
) -> (profile: Option<VpnProfile>)
    ensures
        profile.deep_view() == profile_of_form(
            name@,
            gateway_address@,
            category@,
            cert_path@,
            username@,
            aliases@,
        ),
{
    if name.unicode_len() == 0 {
        None
    } else {
        Some(
            VpnProfile {
                name: String::from_str(name),
                gateway_address: String::from_str(gateway_address),
                category: String::from_str(category),
                cert_path: optional(cert_path),
                username: optional(username),
                aliases: optional(aliases),
                protocol: String::from_str("IKEv2"),
                auto_connect: false,
            },
        )
    }
}

/// The texts that the form shows for a profile.
pub fn form_from_profile(profile: &VpnProfile) -> (fields: Vec<String>)
    ensures
        fields.deep_view() == form_of_profile(profile@),
{
    let mut fields: Vec<String> = Vec::new();
    fields.push(profile.name.clone());
    fields.push(profile.gateway_address.clone());
    fields.push(profile.category.clone());
    fields.push(shown(&profile.cert_path));
    fields.push(shown(&profile.username));
    fields.push(shown(&profile.aliases));
    fields
}

} // verus!
