use rustkeyboard::startup::{
    disable_startup_commands, enable_startup_commands, is_startup_enabled, registry_value_present,
    remove_run_value_command, run_key_query_command, set_run_value_command,
};

#[test]
fn query_command_text() {
    assert_eq!(
        run_key_query_command("HKLM"),
        "Get-ItemProperty -Path 'HKLM:\\Software\\Microsoft\\Windows\\CurrentVersion\\Run' -Name 'RustKeyboardGUI' -ErrorAction SilentlyContinue | Select-Object -ExpandProperty RustKeyboardGUI -ErrorAction SilentlyContinue"
    );
}

#[test]
fn set_command_escapes_quotes() {
    assert_eq!(
        set_run_value_command("HKCU", "C:\\O'Brien\\kb.exe"),
        "Set-ItemProperty -Path 'HKCU:\\Software\\Microsoft\\Windows\\CurrentVersion\\Run' -Name 'RustKeyboardGUI' -Value '\"C:\\O''Brien\\kb.exe\"'"
    );
}

#[test]
fn remove_command_text() {
    assert_eq!(
        remove_run_value_command("HKLM"),
        "Remove-ItemProperty -Path 'HKLM:\\Software\\Microsoft\\Windows\\CurrentVersion\\Run' -Name 'RustKeyboardGUI' -ErrorAction SilentlyContinue"
    );
}

#[test]
fn enable_and_disable_commands() {
    let (m, u) = enable_startup_commands("C:\\kb.exe");
    assert!(m.starts_with("Set-ItemProperty -Path 'HKLM:"));
    assert!(u.starts_with("Set-ItemProperty -Path 'HKCU:"));
    assert!(m.ends_with("-Value '\"C:\\kb.exe\"'"));
    let (m, u) = disable_startup_commands();
    assert_eq!(m, remove_run_value_command("HKLM"));
    assert_eq!(u, remove_run_value_command("HKCU"));
}

#[test]
fn value_present_means_non_blank_output() {
    assert!(!registry_value_present(None));
    assert!(!registry_value_present(Some("")));
    assert!(!registry_value_present(Some("  \r\n\t")));
    assert!(!registry_value_present(Some("\u{a0}\u{3000}")));
    assert!(registry_value_present(Some("\"C:\\kb.exe\"\r\n")));
}

#[test]
fn startup_enabled_in_either_hive() {
    assert!(!is_startup_enabled(None, None));
    assert!(is_startup_enabled(Some("x"), None));
    assert!(is_startup_enabled(Some(" "), Some("\"C:\\kb.exe\"")));
    assert!(!is_startup_enabled(Some(" "), Some("\n")));
}

fn read_single_quoted(t: &str) -> String {
    let chars: Vec<char> = t.chars().collect();
    let mut out = String::new();
    let mut i = 0;
    while i < chars.len() {
        if chars[i] == '\'' && i + 1 < chars.len() && chars[i + 1] == '\'' {
            out.push('\'');
            i += 2;
        } else {
            out.push(chars[i]);
            i += 1;
        }
    }
    out
}

#[test]
fn escaped_path_reads_back() {
    for p in ["C:\\kb.exe", "C:\\O'Brien\\kb.exe", "'''", "a''b'", ""] {
        let escaped = rustkeyboard::text::escape_single_quotes(p);
        assert_eq!(read_single_quoted(&escaped), p);
    }
}
