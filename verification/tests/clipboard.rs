use spotify_player::clipboard::{get_clipboard_provider, ClipboardEnvironment};

fn nothing() -> ClipboardEnvironment {
    ClipboardEnvironment {
        pbcopy: false,
        pbpaste: false,
        wl_copy: false,
        wl_paste: false,
        xclip: false,
        xsel: false,
        wayland_display: false,
        display: false,
    }
}

#[test]
fn macos_pasteboard_comes_first() {
    let env = ClipboardEnvironment { pbcopy: true, pbpaste: true, xclip: true, display: true, ..nothing() };
    let p = get_clipboard_provider(env).unwrap();
    assert_eq!(p.copy_command.command, "pbcopy");
    assert!(p.copy_command.args.is_empty());
    assert_eq!(p.paste_command.command, "pbpaste");
}

#[test]
fn wayland_needs_its_display() {
    let env = ClipboardEnvironment { wl_copy: true, wl_paste: true, wayland_display: true, ..nothing() };
    let p = get_clipboard_provider(env).unwrap();
    assert_eq!(p.copy_command.command, "wl-copy");
    assert_eq!(p.copy_command.args, vec!["--type", "text/plain"]);
    assert_eq!(p.paste_command.args, vec!["--no-newline"]);
    let env = ClipboardEnvironment { wl_copy: true, wl_paste: true, ..nothing() };
    assert!(get_clipboard_provider(env).is_none());
}

#[test]
fn x_prefers_xclip_to_xsel() {
    let env = ClipboardEnvironment { xclip: true, xsel: true, display: true, ..nothing() };
    let p = get_clipboard_provider(env).unwrap();
    assert_eq!(p.copy_command.command, "xclip");
    assert_eq!(p.copy_command.args, vec!["-i", "-selection", "clipboard"]);
    assert_eq!(p.paste_command.args, vec!["-o", "-selection", "clipboard"]);
    let env = ClipboardEnvironment { xsel: true, display: true, ..nothing() };
    let p = get_clipboard_provider(env).unwrap();
    assert_eq!(p.copy_command.args, vec!["--nodetach", "-i", "-b"]);
    assert_eq!(p.paste_command.args, vec!["-o", "-b"]);
}

#[test]
fn no_tool_gives_no_provider() {
    assert!(get_clipboard_provider(nothing()).is_none());
    let env = ClipboardEnvironment { pbcopy: true, xclip: true, ..nothing() };
    assert!(get_clipboard_provider(env).is_none());
}
