//! The system probe: the commands that ask the control surface for ground
//! truth, and the reading of what they print.
//!
//! Reading is best effort. A line that is not understood is passed over, and
//! an output that says nothing of a profile leaves it `Disconnected`.

use crate::command::{CommandLine, CommandView, Platform};
use crate::text::{
    chars_of, contains, filter_map, has_prefix, has_substring, lemma_index_of_char_is,
    lemma_split_on_is_exact, lines, lines_of, lowercase_of, occurs_at, same_chars, split, split_on,
    starts_with, string_of, words, words_of,
};
use crate::vpn::{ActiveList, StatusView, VpnManager, VpnStatus};
use vstd::prelude::*;

verus! {

/// The command that lists the active connections.
pub open spec fn list_command_line(platform: Platform) -> CommandView {
    match platform {
        Platform::Linux => CommandView {
            program: "nmcli"@,
            args: seq![
                "-t"@,
                "-f"@,
                "NAME,TYPE,STATE,IP4.ADDRESS"@,
                "connection"@,
                "show"@,
                "--active"@,
            ],
        },
        Platform::MacOs => CommandView { program: "scutil"@, args: seq!["--nc"@, "list"@] },
        Platform::Windows => CommandView { program: "rasdial"@, args: Seq::empty() },
    }
}

/// The command that asks for the state of the connection `name`, where the
/// platform has one.
pub open spec fn status_command_line(platform: Platform, name: Seq<char>) -> Option<CommandView> {
    match platform {
        Platform::Linux => Some(
            CommandView {
                program: "nmcli"@,
                args: seq!["-t"@, "-f"@, "NAME,STATE"@, "connection"@, "show"@, "--active"@],
            },
        ),
        Platform::MacOs => Some(
            CommandView { program: "scutil"@, args: seq!["--nc"@, "status"@, name] },
        ),
        Platform::Windows => None,
    }
}

/// The command whose output shows the addresses of the tunnel interfaces,
/// where the list of active connections does not show them.
pub open spec fn address_command_line(platform: Platform) -> Option<CommandView> {
    match platform {
        Platform::MacOs => Some(CommandView { program: "ifconfig"@, args: Seq::empty() }),
        _ => None,
    }
}

/// What a line of `nmcli`'s terse list says: fields between colons, the name
/// first, then the type, the state and the address. A line counts if it has
/// three fields or more and its type holds `vpn`; an empty or missing address
/// is no address.
pub open spec fn nmcli_entry(line: Seq<char>) -> Option<(Seq<char>, Option<Seq<char>>)> {
    let fields = split_on(line, ':');
    if fields.len() >= 3 && has_substring(fields[1], "vpn"@) {
        Some(
            (
                fields[0],
                if fields.len() > 3 && fields[3].len() > 0 {
                    Some(fields[3])
                } else {
                    None
                },
            ),
        )
    } else {
        None
    }
}

/// What a line of `rasdial` says: a line that holds `Connected` names a
/// connection by its first word.
pub open spec fn rasdial_entry(line: Seq<char>) -> Option<(Seq<char>, Option<Seq<char>>)> {
    if has_substring(line, "Connected"@) && words_of(line).len() > 0 {
        Some((words_of(line)[0], None))
    } else {
        None
    }
}

/// What a line of `scutil --nc list` says: a line that holds `Connected`
/// names a connection between its first two double quotes.
pub open spec fn scutil_entry(line: Seq<char>) -> Option<(Seq<char>, Option<Seq<char>>)> {
    if has_substring(line, "Connected"@) && split_on(line, '"').len() >= 2 {
        Some((split_on(line, '"')[1], None))
    } else {
        None
    }
}

/// What one line of the list of active connections says on `platform`.
pub open spec fn active_entry(platform: Platform, line: Seq<char>) -> Option<
    (Seq<char>, Option<Seq<char>>),
> {
    match platform {
        Platform::Linux => nmcli_entry(line),
        Platform::MacOs => scutil_entry(line),
        Platform::Windows => rasdial_entry(line),
    }
}

/// The active connections that the output of the list command shows on
/// `platform`, in the output's order.
pub open spec fn active_vpns(platform: Platform, output: Seq<char>) -> ActiveList {
    filter_map(lines_of(output), |line: Seq<char>| active_entry(platform, line))
}

/// The address of the first tunnel interface in the lines of `ifconfig`,
/// read with `interface` as the interface that the lines before spoke of. A
/// line that does not begin with a tab names an interface, up to its first
/// colon. A line that begins with a tab, under an interface whose name begins
/// with `utun`, and that holds `inet ` gives the address as its second word.
pub open spec fn tunnel_address_from(lines: Seq<Seq<char>>, interface: Option<Seq<char>>) -> Option<
    Seq<char>,
>
    decreases lines.len(),
{
    if lines.len() == 0 {
        None
    } else {
        let line = lines[0];
        if !has_prefix(line, seq!['\t']) {
            tunnel_address_from(lines.drop_first(), Some(split_on(line, ':')[0]))
        } else if interface is Some && has_prefix(interface->0, "utun"@) && has_substring(
            line,
            "inet "@,
        ) && words_of(line).len() >= 2 {
            Some(words_of(line)[1])
        } else {
            tunnel_address_from(lines.drop_first(), interface)
        }
    }
}

/// The address of the first tunnel interface that the output of `ifconfig`
/// shows.
pub open spec fn tunnel_address(output: Seq<char>) -> Option<Seq<char>> {
    tunnel_address_from(lines_of(output), None)
}

/// What the first line of `scutil --nc status` says of a connection.
pub open spec fn scutil_status(output: Seq<char>) -> StatusView {
    let first = if lines_of(output).len() > 0 {
        lines_of(output)[0]
    } else {
        Seq::empty()
    };
    if has_substring(first, "Connected"@) && !has_substring(first, "Disconnected"@) {
        StatusView::Connected
    } else if has_substring(first, "Connecting"@) {
        StatusView::Connecting
    } else if has_substring(first, "Disconnecting"@) {
        StatusView::Disconnecting
    } else {
        StatusView::Disconnected
    }
}

/// A text of one line is its own first line.
proof fn lemma_one_line(text: Seq<char>)
    requires
        text.len() > 0,
        forall|k: int| 0 <= k < text.len() ==> text[k] != '\n',
    ensures
        lines_of(text) == seq![text],
{
    lemma_index_of_char_is(text, '\n', text.len() as int);
}

/// `scutil` says `Connected` of a connection that is up.
pub proof fn lemma_scutil_connected()
    ensures
        scutil_status("Connected"@) == StatusView::Connected,
{
    reveal_strlit("Connected");
    reveal_strlit("Disconnected");
    let up = "Connected"@;
    lemma_one_line(up);
    assert(occurs_at(up, up, 0));
    assert(!has_substring(up, "Disconnected"@));
}

/// `scutil` says `Connecting` of a connection that is coming up.
pub proof fn lemma_scutil_connecting()
    ensures
        scutil_status("Connecting"@) == StatusView::Connecting,
{
    reveal_strlit("Connected");
    reveal_strlit("Connecting");
    let up = "Connected"@;
    let rising = "Connecting"@;
    lemma_one_line(rising);
    assert(occurs_at(rising, rising, 0));
    assert forall|at: int| !occurs_at(rising, up, at) by {
        if 0 <= at <= 1 {
            assert(rising.subrange(at, at + 9)[7] == rising[at + 7]);
            assert(up[7] == 'e');
        }
    }
}

/// A text without a capital `C` holds nothing that begins with one.
proof fn lemma_no_capital_c(hay: Seq<char>, needle: Seq<char>)
    requires
        needle.len() > 0,
        needle[0] == 'C',
        forall|k: int| 0 <= k < hay.len() ==> hay[k] != 'C',
    ensures
        !has_substring(hay, needle),
{
    assert forall|at: int| !occurs_at(hay, needle, at) by {
        if 0 <= at && at + needle.len() <= hay.len() {
            assert(hay.subrange(at, at + needle.len())[0] == hay[at]);
        }
    }
}

/// `scutil` says `Disconnecting` of a connection that is going down.
pub proof fn lemma_scutil_disconnecting()
    ensures
        scutil_status("Disconnecting"@) == StatusView::Disconnecting,
{
    reveal_strlit("Connected");
    reveal_strlit("Connecting");
    reveal_strlit("Disconnecting");
    let falling = "Disconnecting"@;
    lemma_one_line(falling);
    assert(occurs_at(falling, falling, 0));
    lemma_no_capital_c(falling, "Connected"@);
    lemma_no_capital_c(falling, "Connecting"@);
}

/// `scutil` says `Disconnected` of a connection that is down.
pub proof fn lemma_scutil_disconnected()
    ensures
        scutil_status("Disconnected"@) == StatusView::Disconnected,
{
    reveal_strlit("Connected");
    reveal_strlit("Connecting");
    reveal_strlit("Disconnecting");
    reveal_strlit("Disconnected");
    let down = "Disconnected"@;
    lemma_one_line(down);
    lemma_no_capital_c(down, "Connected"@);
    lemma_no_capital_c(down, "Connecting"@);
    assert(!has_substring(down, "Disconnecting"@));
}

/// What a state of NetworkManager, in lowercase, says of a connection: it
/// is up where the state holds `activated` and not `deactivated`, going down
/// where it holds `deactivating`, coming up where it holds `activating`
/// otherwise, and nothing is said where it holds none of these.
pub open spec fn nmcli_state(state: Seq<char>) -> Option<StatusView> {
    if has_substring(state, "activated"@) && !has_substring(state, "deactivated"@) {
        Some(StatusView::Connected)
    } else if has_substring(state, "deactivating"@) {
        Some(StatusView::Disconnecting)
    } else if has_substring(state, "activating"@) {
        Some(StatusView::Connecting)
    } else {
        None
    }
}

/// The four states that NetworkManager reports are told apart.
pub proof fn lemma_nmcli_states_are_told_apart()
    ensures
        nmcli_state("activated"@) == Some(StatusView::Connected),
        nmcli_state("activating"@) == Some(StatusView::Connecting),
        nmcli_state("deactivating"@) == Some(StatusView::Disconnecting),
        nmcli_state("deactivated"@) == None::<StatusView>,
{
    reveal_strlit("activated");
    reveal_strlit("activating");
    reveal_strlit("deactivating");
    reveal_strlit("deactivated");
    let up = "activated"@;
    let rising = "activating"@;
    let falling = "deactivating"@;
    let down = "deactivated"@;
    assert(occurs_at(up, up, 0));
    assert(occurs_at(rising, rising, 0));
    assert(occurs_at(falling, falling, 0));
    assert(occurs_at(down, down, 0));
    assert(occurs_at(down, up, 2));
    assert(!has_substring(up, down));
    assert(!has_substring(rising, up)) by {
        assert forall|at: int| !occurs_at(rising, up, at) by {
            if 0 <= at <= 1 {
                assert(rising.subrange(at, at + 9)[7] == rising[at + 7]);
                assert(up[7] == 'e');
            }
        }
    }
    assert(!has_substring(rising, falling));
    assert(!has_substring(falling, up)) by {
        assert forall|at: int| !occurs_at(falling, up, at) by {
            if 0 <= at <= 3 {
                assert(falling.subrange(at, at + 9)[8] == falling[at + 8]);
                assert(up[8] == 'd');
            }
        }
    }
    assert(!has_substring(down, falling));
    assert(!has_substring(down, rising)) by {
        assert forall|at: int| !occurs_at(down, rising, at) by {
            if 0 <= at <= 1 {
                assert(down.subrange(at, at + 10)[9] == down[at + 9]);
                assert(rising[9] == 'g');
            }
        }
    }
}

/// What a line of `nmcli`'s terse list of names and states says of the
/// connection `name`.
pub open spec fn nmcli_line_status(line: Seq<char>, name: Seq<char>) -> Option<StatusView> {
    let fields = split_on(line, ':');
    if fields.len() >= 2 && fields[0] == name {
        nmcli_state(lowercase_of(fields[1]))
    } else {
        None
    }
}

/// What `nmcli`'s list of names and states says of the connection `name`:
/// what the first line says that says anything of it.
pub open spec fn nmcli_status(output: Seq<char>, name: Seq<char>) -> StatusView {
    let said = filter_map(lines_of(output), |line: Seq<char>| nmcli_line_status(line, name));
    if said.len() > 0 {
        said[0]
    } else {
        StatusView::Disconnected
    }
}

/// The state of the connection `name` that the output of the status command
/// shows on `platform`.
pub open spec fn system_status(platform: Platform, name: Seq<char>, output: Seq<char>) -> StatusView {
    match platform {
        Platform::Linux => nmcli_status(output, name),
        Platform::MacOs => scutil_status(output),
        Platform::Windows => StatusView::Disconnected,
    }
}

/// The mathematical value of an entry of the list of active connections.
pub open spec fn entry_view(entry: Option<(String, Option<String>)>) -> Option<
    (Seq<char>, Option<Seq<char>>),
> {
    match entry {
        Some((name, Some(ip))) => Some((name@, Some(ip@))),
        Some((name, None)) => Some((name@, None)),
        None => None,
    }
}

/// The command that lists the active connections.
pub fn list_command(platform: Platform) -> (line: CommandLine)
    ensures
        line@ == list_command_line(platform),
{
    let line = match platform {
        Platform::Linux => CommandLine::new("nmcli").arg("-t").arg("-f").arg(
            "NAME,TYPE,STATE,IP4.ADDRESS",
        ).arg("connection").arg("show").arg("--active"),
        Platform::MacOs => CommandLine::new("scutil").arg("--nc").arg("list"),
        Platform::Windows => CommandLine::new("rasdial"),
    };
    assert(line@.args =~= list_command_line(platform).args);
    line
}

/// The command that asks for the state of the connection `name`, where the
/// platform has one.
pub fn status_command(platform: Platform, name: &str) -> (line: Option<CommandLine>)
    ensures
        line.deep_view() == status_command_line(platform, name@),
{
    match platform {
        Platform::Linux => {
            let line = CommandLine::new("nmcli").arg("-t").arg("-f").arg("NAME,STATE").arg(
                "connection",
            ).arg("show").arg("--active");
            assert(line@.args =~= status_command_line(platform, name@)->0.args);
            Some(line)
        },
        Platform::MacOs => {
            let line = CommandLine::new("scutil").arg("--nc").arg("status").arg(name);
            assert(line@.args =~= status_command_line(platform, name@)->0.args);
            Some(line)
        },
        Platform::Windows => None,
    }
}

/// The command whose output shows the addresses of the tunnel interfaces,
/// where the list of active connections does not show them.
pub fn address_command(platform: Platform) -> (line: Option<CommandLine>)
    ensures
        line.deep_view() == address_command_line(platform),
{
    match platform {
        Platform::MacOs => Some(CommandLine::new("ifconfig")),
        _ => None,
    }
}

/// Reads a line of `nmcli`'s terse list of active connections.
pub fn read_nmcli_entry(line: &Vec<char>) -> (entry: Option<(String, Option<String>)>)
    ensures
        entry_view(entry) == nmcli_entry(line@),
{
    let fields = split(line, ':');
    if fields.len() >= 3 && contains(&fields[1], &chars_of("vpn")) {
        let name = string_of(&fields[0]);
        let ip = if fields.len() > 3 && fields[3].len() > 0 {
            Some(string_of(&fields[3]))
        } else {
            None
        };
        assert(fields.deep_view()[1] =~= fields[1]@);
        Some((name, ip))
    } else {
        assert(fields.len() >= 3 ==> fields.deep_view()[1] =~= fields[1]@);
        None
    }
}

/// Reads a line of `rasdial`.
pub fn read_rasdial_entry(line: &Vec<char>) -> (entry: Option<(String, Option<String>)>)
    ensures
        entry_view(entry) == rasdial_entry(line@),
{
    if contains(line, &chars_of("Connected")) {
        let found = words(line);
        if found.len() > 0 {
            return Some((string_of(&found[0]), None));
        }
    }
    None
}

/// Reads a line of `scutil --nc list`.
pub fn read_scutil_entry(line: &Vec<char>) -> (entry: Option<(String, Option<String>)>)
    ensures
        entry_view(entry) == scutil_entry(line@),
{
    if contains(line, &chars_of("Connected")) {
        let pieces = split(line, '"');
        if pieces.len() >= 2 {
            return Some((string_of(&pieces[1]), None));
        }
    }
    None
}

/// Reads one line of the list of active connections on `platform`.
pub fn read_active_entry(platform: Platform, line: &Vec<char>) -> (entry: Option<
    (String, Option<String>),
>)
    ensures
        entry_view(entry) == active_entry(platform, line@),
{
    match platform {
        Platform::Linux => read_nmcli_entry(line),
        Platform::MacOs => read_scutil_entry(line),
        Platform::Windows => read_rasdial_entry(line),
    }
}

/// Reads a state of NetworkManager that is already in lowercase.
pub fn read_nmcli_state(state: &Vec<char>) -> (status: Option<VpnStatus>)
    ensures
        status.deep_view() == nmcli_state(state@),
{
    if contains(state, &chars_of("activated")) && !contains(state, &chars_of("deactivated")) {
        Some(VpnStatus::Connected)
    } else if contains(state, &chars_of("deactivating")) {
        Some(VpnStatus::Disconnecting)
    } else if contains(state, &chars_of("activating")) {
        Some(VpnStatus::Connecting)
    } else {
        None
    }
}

/// Reads what a line of `nmcli`'s list of names and states says of the
/// connection `name`.
pub fn read_nmcli_line_status(line: &Vec<char>, name: &Vec<char>) -> (status: Option<VpnStatus>)
    ensures
        status.deep_view() == nmcli_line_status(line@, name@),
{
    let fields = split(line, ':');
    if fields.len() >= 2 && same_chars(&fields[0], name) {
        assert(fields.deep_view()[0] =~= fields[0]@);
        assert(fields.deep_view()[1] =~= fields[1]@);
        let state = string_of(&fields[1]).as_str().to_lowercase();
        read_nmcli_state(&chars_of(state.as_str()))
    } else {
        assert(fields.len() >= 2 ==> fields.deep_view()[0] =~= fields[0]@);
        None
    }
}

/// Reads what `nmcli`'s list of names and states says of the connection
/// `name`.
pub fn read_nmcli_status(output: &str, name: &str) -> (status: VpnStatus)
    ensures
        status@ == nmcli_status(output@, name@),
{
    let text = chars_of(output);
    let all = lines(&text);
    let target = chars_of(name);
    let ghost read = |line: Seq<char>| nmcli_line_status(line, name@);
    let mut status: Option<VpnStatus> = None;
    let mut i: usize = 0;
    while i < all.len()
        invariant
            i <= all.len(),
            target@ == name@,
            read == |line: Seq<char>| nmcli_line_status(line, name@),
            match status {
                Some(found) => filter_map(all.deep_view().take(i as int), read).len() > 0
                    && filter_map(all.deep_view().take(i as int), read)[0] == found@,
                None => filter_map(all.deep_view().take(i as int), read).len() == 0,
            },
        decreases all.len() - i,
    {
        let ghost seen = all.deep_view().take(i + 1);
        assert(seen.drop_last() =~= all.deep_view().take(i as int));
        assert(seen.last() =~= all[i as int]@);
        if status.is_none() {
            status = read_nmcli_line_status(&all[i], &target);
        }
        i += 1;
    }
    assert(all.deep_view().take(all.len() as int) =~= all.deep_view());
    match status {
        Some(found) => found,
        None => VpnStatus::Disconnected,
    }
}

/// Reads what the first line of `scutil --nc status` says of a connection.
pub fn read_scutil_status(output: &str) -> (status: VpnStatus)
    ensures
        status@ == scutil_status(output@),
{
    let text = chars_of(output);
    let all = lines(&text);
    let first: Vec<char> = if all.len() > 0 {
        assert(all.deep_view()[0] =~= all[0]@);
        all[0].clone()
    } else {
        Vec::new()
    };
    if contains(&first, &chars_of("Connected")) && !contains(&first, &chars_of("Disconnected")) {
        VpnStatus::Connected
    } else if contains(&first, &chars_of("Connecting")) {
        VpnStatus::Connecting
    } else if contains(&first, &chars_of("Disconnecting")) {
        VpnStatus::Disconnecting
    } else {
        VpnStatus::Disconnected
    }
}

/// Reads the address of the first tunnel interface from the output of
/// `ifconfig`.
pub fn read_tunnel_address(output: &str) -> (address: Option<String>)
    ensures
        address.deep_view() == tunnel_address(output@),
{
    let text = chars_of(output);
    let all = lines(&text);
    let tab: Vec<char> = vec!['\t'];
    let mut interface: Option<Vec<char>> = None;
    let mut i: usize = 0;
    assert(all.deep_view().skip(0) =~= all.deep_view());
    while i < all.len()
        invariant
            i <= all.len(),
            tab@ == seq!['\t'],
            tunnel_address(output@) == tunnel_address_from(
                all.deep_view().skip(i as int),
                interface.deep_view(),
            ),
            all.deep_view() == lines_of(output@),
        decreases all.len() - i,
    {
        let ghost rest = all.deep_view().skip(i as int);
        assert(rest[0] =~= all[i as int]@);
        assert(rest.drop_first() =~= all.deep_view().skip(i + 1));
        let line = &all[i];
        if !starts_with(line, &tab) {
            let fields = split(line, ':');
            proof {
                lemma_split_on_is_exact(line@, ':');
            }
            interface = Some(fields[0].clone());
        } else {
            let under_tunnel = match &interface {
                Some(name) => {
                    starts_with(name, &chars_of("utun"))
                },
                None => false,
            };
            if under_tunnel && contains(line, &chars_of("inet ")) {
                let found = words(line);
                if found.len() >= 2 {
                    return Some(string_of(&found[1]));
                }
            }
        }
        i += 1;
    }
    None
}

impl VpnManager {
    /// The active connections that the output of the list command shows on
    /// `platform`, each with its address where the output gives one. Lines
    /// that are not understood are passed over.
    pub fn get_active_vpns(&self, platform: Platform, output: &str) -> (active: Vec<
        (String, Option<String>),
    >)
        ensures
            active.deep_view() == active_vpns(platform, output@),
    {
        let text = chars_of(output);
        let all = lines(&text);
        let ghost read = |line: Seq<char>| active_entry(platform, line);
        let mut active: Vec<(String, Option<String>)> = Vec::new();
        let mut i: usize = 0;
        while i < all.len()
            invariant
                i <= all.len(),
                read == |line: Seq<char>| active_entry(platform, line),
                active.deep_view() =~= filter_map(all.deep_view().take(i as int), read),
            decreases all.len() - i,
        {
            let ghost seen = all.deep_view().take(i + 1);
            assert(seen.drop_last() =~= all.deep_view().take(i as int));
            assert(seen.last() =~= all[i as int]@);
            match read_active_entry(platform, &all[i]) {
                Some(entry) => {
                    active.push(entry);
                },
                None => {},
            }
            i += 1;
        }
        assert(all.deep_view().take(all.len() as int) =~= all.deep_view());
        active
    }

    /// The state of the connection `profile_name` that the output of the
    /// status command shows on `platform`; `Disconnected` where the output
    /// says nothing that is understood, as an empty output does.
    pub fn get_system_status(&self, platform: Platform, profile_name: &str, output: &str) -> (status:
        VpnStatus)
        ensures
            status@ == system_status(platform, profile_name@, output@),
    {
        match platform {
            Platform::Linux => read_nmcli_status(output, profile_name),
            Platform::MacOs => read_scutil_status(output),
            Platform::Windows => VpnStatus::Disconnected,
        }
    }
}

} // verus!
