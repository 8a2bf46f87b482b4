//! Shell-completion support: which shell a name denotes, and the
//! installation instructions shown for each. Generating the completion
//! script itself is done by the completion generator outside the library.

use vstd::prelude::*;

use crate::error::CliError;
use crate::error::CliResult;
use crate::request::ascii_lower;
use crate::request::to_ascii_lower;
use crate::strutil::str_eq;

verus! {

/// The shells completions can be generated for.
#[derive(Debug, Clone, Copy, PartialEq, Eq, Structural)]
pub enum Shell {
    Bash,
    Zsh,
    Fish,
    PowerShell,
    Elvish,
}

/// The shell a lowered name denotes; `ps` abbreviates PowerShell.
pub open spec fn shell_for(t: Seq<char>) -> Option<Shell> {
    if t == "bash"@ {
        Some(Shell::Bash)
    } else if t == "zsh"@ {
        Some(Shell::Zsh)
    } else if t == "fish"@ {
        Some(Shell::Fish)
    } else if t == "powershell"@ || t == "ps"@ {
        Some(Shell::PowerShell)
    } else if t == "elvish"@ {
        Some(Shell::Elvish)
    } else {
        None
    }
}

/// Parses a shell name.
pub fn parse_shell(s: &str) -> (r: CliResult<Shell>)
    ensures
        match shell_for(ascii_lower(s@)) {
            Some(sh) => r == Ok::<Shell, CliError>(sh),
            None => r matches Err(e) && (e matches CliError::Other(m) && m@
                == "Unknown shell '"@ + s@ + "'. Supported: bash, zsh, fish, powershell, elvish"@),
        },
{
    let low = to_ascii_lower(s);
    if str_eq(low.as_str(), "bash") {
        Ok(Shell::Bash)
    } else if str_eq(low.as_str(), "zsh") {
        Ok(Shell::Zsh)
    } else if str_eq(low.as_str(), "fish") {
        Ok(Shell::Fish)
    } else if str_eq(low.as_str(), "powershell") || str_eq(low.as_str(), "ps") {
        Ok(Shell::PowerShell)
    } else if str_eq(low.as_str(), "elvish") {
        Ok(Shell::Elvish)
    } else {
        Err(
            CliError::Other(
                String::from_str("Unknown shell '").concat(s).concat(
                    "'. Supported: bash, zsh, fish, powershell, elvish",
                ),
            ),
        )
    }
}

/// The installation instructions for each shell's completions.
pub open spec fn instructions_text(s: Shell) -> Seq<char> {
    match s {
        Shell::Bash => "# Add to ~/.bashrc or ~/.bash_profile:\neval \"$(allscreenshots completions bash)\"\n\n# Or save to a file:\nallscreenshots completions bash > /etc/bash_completion.d/allscreenshots"@,
        Shell::Zsh => "# Add to ~/.zshrc:\neval \"$(allscreenshots completions zsh)\"\n\n# Or save to completions directory:\nallscreenshots completions zsh > ~/.zsh/completions/_allscreenshots\n\n# Make sure completions are enabled in ~/.zshrc:\nautoload -Uz compinit && compinit"@,
        Shell::Fish => "# Save to fish completions directory:\nallscreenshots completions fish > ~/.config/fish/completions/allscreenshots.fish"@,
        Shell::PowerShell => "# Add to your PowerShell profile:\nallscreenshots completions powershell | Out-String | Invoke-Expression\n\n# Or add to $PROFILE:\nallscreenshots completions powershell >> $PROFILE"@,
        Shell::Elvish => "# Add to ~/.elvish/rc.elv:\neval (allscreenshots completions elvish | slurp)"@,
    }
}

/// The installation instructions shown for a shell's completions.
pub fn completion_instructions(shell: Shell) -> (r: &'static str)
    ensures
        r@ == instructions_text(shell),
{
    match shell {
        Shell::Bash => "# Add to ~/.bashrc or ~/.bash_profile:\neval \"$(allscreenshots completions bash)\"\n\n# Or save to a file:\nallscreenshots completions bash > /etc/bash_completion.d/allscreenshots",
        Shell::Zsh => "# Add to ~/.zshrc:\neval \"$(allscreenshots completions zsh)\"\n\n# Or save to completions directory:\nallscreenshots completions zsh > ~/.zsh/completions/_allscreenshots\n\n# Make sure completions are enabled in ~/.zshrc:\nautoload -Uz compinit && compinit",
        Shell::Fish => "# Save to fish completions directory:\nallscreenshots completions fish > ~/.config/fish/completions/allscreenshots.fish",
        Shell::PowerShell => "# Add to your PowerShell profile:\nallscreenshots completions powershell | Out-String | Invoke-Expression\n\n# Or add to $PROFILE:\nallscreenshots completions powershell >> $PROFILE",
        Shell::Elvish => "# Add to ~/.elvish/rc.elv:\neval (allscreenshots completions elvish | slurp)",
    }
}

/// The name used when asking the generator for this shell's script.
pub open spec fn shell_name_text(s: Shell) -> Seq<char> {
    match s {
        Shell::Bash => "bash"@,
        Shell::Zsh => "zsh"@,
        Shell::Fish => "fish"@,
        Shell::PowerShell => "powershell"@,
        Shell::Elvish => "elvish"@,
    }
}

/// The canonical name of the shell.
pub fn shell_name(s: Shell) -> (r: &'static str)
    ensures
        r@ == shell_name_text(s),
{
    match s {
        Shell::Bash => "bash",
        Shell::Zsh => "zsh",
        Shell::Fish => "fish",
        Shell::PowerShell => "powershell",
        Shell::Elvish => "elvish",
    }
}

} // verus!
