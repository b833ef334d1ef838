//! Choosing the programs that copy to and paste from the system clipboard,
//! by the programs installed and the display the terminal runs under.

use vstd::prelude::*;

use crate::config::Command;

verus! {

/// What the environment offers for the clipboard: the programs found on the
/// path, and whether a Wayland or an X display is set.
#[derive(Debug, Clone, Copy, PartialEq, Eq, Structural)]
pub struct ClipboardEnvironment {
    pub pbcopy: bool,
    pub pbpaste: bool,
    pub wl_copy: bool,
    pub wl_paste: bool,
    pub xclip: bool,
    pub xsel: bool,
    pub wayland_display: bool,
    pub display: bool,
}

/// The programs that copy and paste.
#[derive(Debug, Clone)]
pub struct CommandProvider {
    pub copy_command: Command,
    pub paste_command: Command,
}

/// The clipboard tools available: macOS's, then Wayland's, then X's `xclip`,
/// then X's `xsel`.
pub enum ClipboardTool {
    Pasteboard,
    Wayland,
    Xclip,
    Xsel,
}

/// The tool chosen in `env`, if any: the first of the order above whose
/// programs are installed and whose display (for Wayland and X) is set.
pub open spec fn chosen_tool(env: ClipboardEnvironment) -> Option<ClipboardTool> {
    if env.pbcopy && env.pbpaste {
        Some(ClipboardTool::Pasteboard)
    } else if env.wayland_display && env.wl_copy && env.wl_paste {
        Some(ClipboardTool::Wayland)
    } else if env.display && env.xclip {
        Some(ClipboardTool::Xclip)
    } else if env.display && env.xsel {
        Some(ClipboardTool::Xsel)
    } else {
        None
    }
}

/// The program and arguments of `c`, as text.
pub open spec fn command_text(c: Command) -> (Seq<char>, Seq<Seq<char>>) {
    (c.command@, c.args@.map_values(|a: String| a@))
}

/// The copy command of a tool.
pub open spec fn copy_command_of(t: ClipboardTool) -> (Seq<char>, Seq<Seq<char>>) {
    match t {
        ClipboardTool::Pasteboard => ("pbcopy"@, seq![]),
        ClipboardTool::Wayland => ("wl-copy"@, seq!["--type"@, "text/plain"@]),
        ClipboardTool::Xclip => ("xclip"@, seq!["-i"@, "-selection"@, "clipboard"@]),
        ClipboardTool::Xsel => ("xsel"@, seq!["--nodetach"@, "-i"@, "-b"@]),
    }
}

/// The paste command of a tool.
pub open spec fn paste_command_of(t: ClipboardTool) -> (Seq<char>, Seq<Seq<char>>) {
    match t {
        ClipboardTool::Pasteboard => ("pbpaste"@, seq![]),
        ClipboardTool::Wayland => ("wl-paste"@, seq!["--no-newline"@]),
        ClipboardTool::Xclip => ("xclip"@, seq!["-o"@, "-selection"@, "clipboard"@]),
        ClipboardTool::Xsel => ("xsel"@, seq!["-o"@, "-b"@]),
    }
}

/// A command running `program` with `args`.
fn command_of(program: &str, args: &[&str]) -> (r: Command)
    ensures
        command_text(r) == (program@, args@.map_values(|a: &str| a@)),
{
    let mut out: Vec<String> = Vec::new();
    let mut i: usize = 0;
    while i < args.len()
        invariant
            i <= args@.len(),
            out@.map_values(|a: String| a@) == args@.take(i as int).map_values(|a: &str| a@),
        decreases args@.len() - i,
    {
        let ghost before = out@.map_values(|a: String| a@);
        out.push(String::from_str(args[i]));
        assert(out@.map_values(|a: String| a@) =~= before.push(args@[i as int]@));
        assert(args@.take(i + 1).map_values(|a: &str| a@) =~= args@.take(i as int).map_values(
            |a: &str| a@,
        ).push(args@[i as int]@));
        i = i + 1;
    }
    assert(args@.take(i as int) =~= args@);
    Command { command: String::from_str(program), args: out }
}

/// The copy and paste programs for `env`: none when no tool is available,
/// and the clipboard then does nothing.
pub fn get_clipboard_provider(env: ClipboardEnvironment) -> (r: Option<CommandProvider>)
    ensures
        match chosen_tool(env) {
            Some(t) => r matches Some(p) && command_text(p.copy_command) == copy_command_of(t)
                && command_text(p.paste_command) == paste_command_of(t),
            None => r is None,
        },
{
    if env.pbcopy && env.pbpaste {
        let none: [&str; 0] = [];
        let p = CommandProvider {
            paste_command: command_of("pbpaste", &none),
            copy_command: command_of("pbcopy", &none),
        };
        assert(command_text(p.copy_command).1 =~= seq![]);
        assert(command_text(p.paste_command).1 =~= seq![]);
        Some(p)
    } else if env.wayland_display && env.wl_copy && env.wl_paste {
        let p = CommandProvider {
            paste_command: command_of("wl-paste", &["--no-newline"]),
            copy_command: command_of("wl-copy", &["--type", "text/plain"]),
        };
        assert(command_text(p.copy_command).1 =~= seq!["--type"@, "text/plain"@]);
        assert(command_text(p.paste_command).1 =~= seq!["--no-newline"@]);
        Some(p)
    } else if env.display && env.xclip {
        let p = CommandProvider {
            paste_command: command_of("xclip", &["-o", "-selection", "clipboard"]),
            copy_command: command_of("xclip", &["-i", "-selection", "clipboard"]),
        };
        assert(command_text(p.copy_command).1 =~= seq!["-i"@, "-selection"@, "clipboard"@]);
        assert(command_text(p.paste_command).1 =~= seq!["-o"@, "-selection"@, "clipboard"@]);
        Some(p)
    } else if env.display && env.xsel {
        let p = CommandProvider {
            paste_command: command_of("xsel", &["-o", "-b"]),
            copy_command: command_of("xsel", &["--nodetach", "-i", "-b"]),
        };
        assert(command_text(p.copy_command).1 =~= seq!["--nodetach"@, "-i"@, "-b"@]);
        assert(command_text(p.paste_command).1 =~= seq!["-o"@, "-b"@]);
        Some(p)
    } else {
        None
    }
}

} // verus!
