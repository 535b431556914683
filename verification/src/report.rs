//! How replies are shown.

use vstd::prelude::*;

verus! {

/// The form in which a reply is printed.
#[derive(Clone, Copy, Debug, PartialEq, Eq, Structural)]
pub enum Format {
    /// One line of JSON.
    Json,
    /// An indented debug rendering.
    Pretty,
}

/// The form that the `--as-json` switch asks for.
pub open spec fn format_for(as_json: bool) -> Format {
    if as_json {
        Format::Json
    } else {
        Format::Pretty
    }
}

/// The form that the `--as-json` switch asks for.
pub fn dump(as_json: bool) -> (format: Format)
    ensures
        format == format_for(as_json),
{
    if as_json {
        Format::Json
    } else {
        Format::Pretty
    }
}

/// How a state that may be unknown is shown.
pub open spec fn display_text(state: Option<bool>) -> Seq<char> {
    match state {
        Some(true) => "enabled"@,
        Some(false) => "disabled"@,
        None => "unknown"@,
    }
}

/// How a state that may be unknown is shown.
pub fn optional_bool_to_display(state: Option<bool>) -> (text: &'static str)
    ensures
        text@ == display_text(state),
{
    match state {
        Some(true) => "enabled",
        Some(false) => "disabled",
        None => "unknown",
    }
}

/// A label, a value and the end of the line.
pub open spec fn labelled(label: Seq<char>, value: Seq<char>) -> Seq<char> {
    label + value + "\n"@
}

/// The lines that are printed of the system's state.
pub open spec fn sysinfo_text(
    ghaf_version: Seq<char>,
    secure_boot: Option<bool>,
    disk_encrypted: Option<bool>,
) -> Seq<char> {
    labelled("Ghaf Version: "@, ghaf_version) + labelled(
        "Secure Boot: "@,
        display_text(secure_boot),
    ) + labelled("Disk Encryption: "@, display_text(disk_encrypted))
}

fn add_line(text: &mut String, label: &str, value: &str)
    ensures
        final(text)@ == old(text)@ + labelled(label@, value@),
{
    text.append(label);
    text.append(value);
    text.append("\n");
    assert(text@ =~= old(text)@ + labelled(label@, value@));
}

/// The lines that are printed of the system's state.
pub fn sysinfo(
    ghaf_version: &str,
    secure_boot: Option<bool>,
    disk_encrypted: Option<bool>,
) -> (text: String)
    ensures
        text@ == sysinfo_text(ghaf_version@, secure_boot, disk_encrypted),
{
    let mut text: String = String::new();
    add_line(&mut text, "Ghaf Version: ", ghaf_version);
    add_line(&mut text, "Secure Boot: ", optional_bool_to_display(secure_boot));
    add_line(&mut text, "Disk Encryption: ", optional_bool_to_display(disk_encrypted));
    assert(text@ =~= sysinfo_text(ghaf_version@, secure_boot, disk_encrypted));
    text
}

/// The three states are told apart by their text.
pub proof fn law_states_are_told_apart(one: Option<bool>, other: Option<bool>)
    ensures
        display_text(one) == display_text(other) ==> one == other,
{
    reveal_strlit("enabled");
    reveal_strlit("disabled");
    reveal_strlit("unknown");
    if one != other {
        assert("enabled"@[0] == 'e' && "disabled"@[0] == 'd' && "unknown"@[0] == 'u');
    }
}

/// The switch decides between JSON and the indented rendering, and nothing else does.
pub proof fn law_switch_decides_the_form(as_json: bool)
    ensures
        format_for(as_json) == Format::Json <==> as_json,
        format_for(as_json) == Format::Pretty <==> !as_json,
{
}

/// A state is shown as enabled, disabled or unknown.
pub proof fn law_states_are_shown()
    ensures
        display_text(Some(true)) == "enabled"@,
        display_text(Some(false)) == "disabled"@,
        display_text(None) == "unknown"@,
{
}

/// The system's state is three lines, in this order: the version as it is, and the two states.
pub proof fn law_sysinfo_is_three_lines(
    version: Seq<char>,
    secure_boot: Option<bool>,
    disk_encrypted: Option<bool>,
)
    ensures
        sysinfo_text(version, secure_boot, disk_encrypted) == "Ghaf Version: "@ + version + "\n"@
            + "Secure Boot: "@ + display_text(secure_boot) + "\n"@ + "Disk Encryption: "@
            + display_text(disk_encrypted) + "\n"@,
{
    assert(sysinfo_text(version, secure_boot, disk_encrypted) =~= "Ghaf Version: "@ + version
        + "\n"@ + "Secure Boot: "@ + display_text(secure_boot) + "\n"@ + "Disk Encryption: "@
        + display_text(disk_encrypted) + "\n"@);
}

} // verus!
