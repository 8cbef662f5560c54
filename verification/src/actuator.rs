//! The actuator: the commands that ask the control surface to bring a
//! connection up or down, and the reading of how such a command ended.
//!
//! Nothing here retries or waits: one request, one answer.

use crate::command::{CommandLine, CommandOutput, CommandView, Platform};
use crate::config::VpnProfile;
use crate::text::{chars_of, contains, has_substring, lowercase_of, text_or_empty};
use vstd::prelude::*;

verus! {

/// The script that redials a connection on Windows: it hangs up, then dials
/// with the user name and an empty password.
pub open spec fn redial_script(name: Seq<char>, username: Option<Seq<char>>) -> Seq<char> {
    "rasdial '"@ + name + "' /disconnect; rasdial '"@ + name + "' '"@ + text_or_empty(username)
        + "' ''"@
}

/// The command that brings the connection `name` up.
pub open spec fn connect_command_line(
    platform: Platform,
    name: Seq<char>,
    username: Option<Seq<char>>,
) -> CommandView {
    match platform {
        Platform::Linux => CommandView {
            program: "nmcli"@,
            args: seq!["connection"@, "up"@, name],
        },
        Platform::MacOs => CommandView {
            program: "scutil"@,
            args: seq!["--nc"@, "start"@, name],
        },
        Platform::Windows => CommandView {
            program: "powershell"@,
            args: seq!["-Command"@, redial_script(name, username)],
        },
    }
}

/// The command that brings the connection `name` down.
pub open spec fn disconnect_command_line(platform: Platform, name: Seq<char>) -> CommandView {
    match platform {
        Platform::Linux => CommandView {
            program: "nmcli"@,
            args: seq!["connection"@, "down"@, name],
        },
        Platform::MacOs => CommandView {
            program: "scutil"@,
            args: seq!["--nc"@, "stop"@, name],
        },
        Platform::Windows => CommandView {
            program: "rasdial"@,
            args: seq![name, "/disconnect"@],
        },
    }
}

/// What is said when the system knows no service of the connection's name.
pub open spec fn missing_service_message(name: Seq<char>) -> Seq<char> {
    "No system VPN service found for '"@ + name
        + "'.\n- If this is an Azure profile, import the .azvpn/.xml file into the 'Azure VPN Client' App (e.g.: open -a 'Azure VPN Client' /path/to/profile.azvpn).\n- Alternatively, open Azure VPN Client and create/import a profile with the same name.\n- Then try again from remipn."@
}

/// What is said when the connection waits for the user to sign in.
pub open spec fn authentication_message(name: Seq<char>) -> Seq<char> {
    "Azure VPN authentication required. Check system pop-ups or run: scutil --nc start '"@ + name
        + "'"@
}

/// Everything a command wrote: its output, a line feed, its error stream.
pub open spec fn combined_streams(stdout: Seq<char>, stderr: Seq<char>) -> Seq<char> {
    stdout + "\n"@ + stderr
}

/// Why a connect command that reported failure failed. `lowered` is all that
/// the command wrote, in lowercase. On macOS two causes are told apart by
/// what the command wrote; any other failure is reported with the error
/// stream as it is.
pub open spec fn connect_failure_message(
    platform: Platform,
    name: Seq<char>,
    stdout: Seq<char>,
    stderr: Seq<char>,
    lowered: Seq<char>,
) -> Seq<char> {
    let combined = combined_streams(stdout, stderr);
    if platform != Platform::MacOs {
        "Failed to connect: "@ + stderr
    } else if has_substring(combined, "No service"@) || has_substring(
        combined,
        "No such service"@,
    ) {
        missing_service_message(name)
    } else if has_substring(lowered, "authentication"@) || has_substring(lowered, "login"@) {
        authentication_message(name)
    } else {
        "Failed to connect: "@ + stderr
    }
}

/// How a connect command ended: well, or with the reason of its failure.
pub open spec fn connect_outcome(
    platform: Platform,
    name: Seq<char>,
    success: bool,
    stdout: Seq<char>,
    stderr: Seq<char>,
) -> Result<(), Seq<char>> {
    if success {
        Ok(())
    } else {
        Err(
            connect_failure_message(
                platform,
                name,
                stdout,
                stderr,
                lowercase_of(combined_streams(stdout, stderr)),
            ),
        )
    }
}

/// How a disconnect command ended: well, or with its error stream as the
/// reason.
pub open spec fn disconnect_outcome(success: bool, stderr: Seq<char>) -> Result<(), Seq<char>> {
    if success {
        Ok(())
    } else {
        Err("Failed to disconnect: "@ + stderr)
    }
}

/// The mathematical value of an actuator's answer.
pub open spec fn outcome_view(outcome: Result<(), String>) -> Result<(), Seq<char>> {
    match outcome {
        Ok(_) => Ok(()),
        Err(message) => Err(message@),
    }
}

/// The command that brings the connection of `profile` up.
pub fn connect_command(platform: Platform, profile: &VpnProfile) -> (line: CommandLine)
    ensures
        line@ == connect_command_line(platform, profile@.name, profile@.username),
{
    let name = profile.name.as_str();
    let line = match platform {
        Platform::Linux => CommandLine::new("nmcli").arg("connection").arg("up").arg(name),
        Platform::MacOs => CommandLine::new("scutil").arg("--nc").arg("start").arg(name),
        Platform::Windows => {
            let mut script = String::from_str("rasdial '");
            script.append(name);
            script.append("' /disconnect; rasdial '");
            script.append(name);
            script.append("' '");
            match &profile.username {
                Some(username) => {
                    script.append(username.as_str());
                },
                None => {
                },
            }
            script.append("' ''");
            CommandLine::new("powershell").arg("-Command").arg(script.as_str())
        },
    };
    assert(line@.args =~= connect_command_line(platform, profile@.name, profile@.username).args);
    line
}

/// The command that brings the connection `profile_name` down.
pub fn disconnect_command(platform: Platform, profile_name: &str) -> (line: CommandLine)
    ensures
        line@ == disconnect_command_line(platform, profile_name@),
{
    let line = match platform {
        Platform::Linux => CommandLine::new("nmcli").arg("connection").arg("down").arg(
            profile_name,
        ),
        Platform::MacOs => CommandLine::new("scutil").arg("--nc").arg("stop").arg(profile_name),
        Platform::Windows => CommandLine::new("rasdial").arg(profile_name).arg("/disconnect"),
    };
    assert(line@.args =~= disconnect_command_line(platform, profile_name@).args);
    line
}

/// The text `"Failed to connect: "` followed by the error stream.
fn plain_connect_failure(stderr: &str) -> (message: String)
    ensures
        message@ == "Failed to connect: "@ + stderr@,
{
    let mut message = String::from_str("Failed to connect: ");
    message.append(stderr);
    message
}

/// Says why a connect command that reported failure failed. `lowered` is all
/// that the command wrote, in lowercase.
pub fn explain_connect_failure(
    platform: Platform,
    profile_name: &str,
    output: &CommandOutput,
    lowered: &str,
) -> (message: String)
    ensures
        message@ == connect_failure_message(
            platform,
            profile_name@,
            output.stdout@,
            output.stderr@,
            lowered@,
        ),
{
    match platform {
        Platform::MacOs => {
            let mut combined = output.stdout.clone();
            combined.append("\n");
            combined.append(output.stderr.as_str());
            let written = chars_of(combined.as_str());
            let small = chars_of(lowered);
            if contains(&written, &chars_of("No service")) || contains(
                &written,
                &chars_of("No such service"),
            ) {
                let mut message = String::from_str("No system VPN service found for '");
                message.append(profile_name);
                message.append(
                    "'.\n- If this is an Azure profile, import the .azvpn/.xml file into the 'Azure VPN Client' App (e.g.: open -a 'Azure VPN Client' /path/to/profile.azvpn).\n- Alternatively, open Azure VPN Client and create/import a profile with the same name.\n- Then try again from remipn.",
                );
                message
            } else if contains(&small, &chars_of("authentication")) || contains(
                &small,
                &chars_of("login"),
            ) {
                let mut message = String::from_str(
                    "Azure VPN authentication required. Check system pop-ups or run: scutil --nc start '",
                );
                message.append(profile_name);
                message.append("'");
                message
            } else {
                plain_connect_failure(output.stderr.as_str())
            }
        },
        _ => plain_connect_failure(output.stderr.as_str()),
    }
}

/// Reads how a connect command ended: well, or with the reason of its
/// failure.
pub fn read_connect_outcome(platform: Platform, profile_name: &str, output: &CommandOutput) -> (outcome:
    Result<(), String>)
    ensures
        outcome_view(outcome) == connect_outcome(
            platform,
            profile_name@,
            output.success,
            output.stdout@,
            output.stderr@,
        ),
{
    if output.success {
        Ok(())
    } else {
        let mut combined = output.stdout.clone();
        combined.append("\n");
        combined.append(output.stderr.as_str());
        let lowered = combined.as_str().to_lowercase();
        Err(explain_connect_failure(platform, profile_name, output, lowered.as_str()))
    }
}

/// Reads how a disconnect command ended: well, or with its error stream as
/// the reason.
pub fn read_disconnect_outcome(output: &CommandOutput) -> (outcome: Result<(), String>)
    ensures
        outcome_view(outcome) == disconnect_outcome(output.success, output.stderr@),
{
    if output.success {
        Ok(())
    } else {
        let mut message = String::from_str("Failed to disconnect: ");
        message.append(output.stderr.as_str());
        Err(message)
    }
}

} // verus!
