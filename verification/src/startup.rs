//! "Start on Boot": the PowerShell commands that read, write and remove the
//! application's entry under the registry's Run key, and how their output
//! is read.

use vstd::prelude::*;

use crate::text::{concat3, escape_single_quotes, is_blank, is_blank_spec, quote_doubled};

verus! {

/// Registry hive for all users (needs administrator rights).
pub const HIVE_MACHINE: &'static str = "HKLM";

/// Registry hive for the current user.
pub const HIVE_USER: &'static str = "HKCU";

/// The part of a command that names the Run key and the entry, after the hive.
pub const RUN_KEY_TAIL: &'static str = ":\\Software\\Microsoft\\Windows\\CurrentVersion\\Run' -Name 'RustKeyboardGUI'";

/// The command that prints the Run entry of the application in a hive.
pub open spec fn query_command_spec(hive: Seq<char>) -> Seq<char> {
    "Get-ItemProperty -Path '"@ + hive + RUN_KEY_TAIL@
        + " -ErrorAction SilentlyContinue | Select-Object -ExpandProperty RustKeyboardGUI -ErrorAction SilentlyContinue"@
}

/// The command that writes the Run entry of the application in a hive,
/// pointing at the quoted executable path.
pub open spec fn set_command_spec(hive: Seq<char>, exe_path: Seq<char>) -> Seq<char> {
    "Set-ItemProperty -Path '"@ + hive + RUN_KEY_TAIL@ + " -Value '\""@ + quote_doubled(exe_path)
        + "\"'"@
}

/// The command that removes the Run entry of the application from a hive.
pub open spec fn remove_command_spec(hive: Seq<char>) -> Seq<char> {
    "Remove-ItemProperty -Path '"@ + hive + RUN_KEY_TAIL@ + " -ErrorAction SilentlyContinue"@
}

/// The command that prints the Run entry of the application in a hive.
pub fn run_key_query_command(hive: &str) -> (r: String)
    ensures
        r@ == query_command_spec(hive@),
{
    let mut s = concat3("Get-ItemProperty -Path '", hive, RUN_KEY_TAIL);
    s.append(
        " -ErrorAction SilentlyContinue | Select-Object -ExpandProperty RustKeyboardGUI -ErrorAction SilentlyContinue",
    );
    s
}

/// The command that writes the Run entry of the application in a hive; the
/// single quotes of the path are doubled so that PowerShell reads it whole.
pub fn set_run_value_command(hive: &str, exe_path: &str) -> (r: String)
    ensures
        r@ == set_command_spec(hive@, exe_path@),
{
    let escaped = escape_single_quotes(exe_path);
    let mut s = concat3("Set-ItemProperty -Path '", hive, RUN_KEY_TAIL);
    s.append(" -Value '\"");
    s.append(escaped.as_str());
    s.append("\"'");
    s
}

/// The command that removes the Run entry of the application from a hive.
pub fn remove_run_value_command(hive: &str) -> (r: String)
    ensures
        r@ == remove_command_spec(hive@),
{
    let mut s = concat3("Remove-ItemProperty -Path '", hive, RUN_KEY_TAIL);
    s.append(" -ErrorAction SilentlyContinue");
    s
}

/// Whether a query printed a value: it ran (`Some`) and its output is not
/// blank once trimmed.
pub open spec fn value_present_spec(output: Option<Seq<char>>) -> bool {
    match output {
        Some(o) => !is_blank_spec(o),
        None => false,
    }
}

/// Whether a Run-key query found the entry, given its output (`None` when
/// PowerShell could not be run).
pub fn registry_value_present(output: Option<&str>) -> (r: bool)
    ensures
        r == value_present_spec(
            match output {
                Some(o) => Some(o@),
                None => None,
            },
        ),
{
    match output {
        Some(o) => !is_blank(o),
        None => false,
    }
}

/// Check if "Start on Boot" is enabled, given the outputs of the query in
/// the machine hive and in the user hive: enabled when either holds it.
pub fn is_startup_enabled(hklm_output: Option<&str>, hkcu_output: Option<&str>) -> (r: bool)
    ensures
        r == (value_present_spec(
            match hklm_output {
                Some(o) => Some(o@),
                None => None,
            },
        ) || value_present_spec(
            match hkcu_output {
                Some(o) => Some(o@),
                None => None,
            },
        )),
{
    registry_value_present(hklm_output) || registry_value_present(hkcu_output)
}

/// The commands that enable start on boot: write the entry for all users,
/// and, only if that fails (no administrator rights), for the current user.
pub fn enable_startup_commands(exe_path: &str) -> (r: (String, String))
    ensures
        r.0@ == set_command_spec(HIVE_MACHINE@, exe_path@),
        r.1@ == set_command_spec(HIVE_USER@, exe_path@),
{
    (set_run_value_command(HIVE_MACHINE, exe_path), set_run_value_command(HIVE_USER, exe_path))
}

/// The commands that disable start on boot: remove the entry from both hives.
pub fn disable_startup_commands() -> (r: (String, String))
    ensures
        r.0@ == remove_command_spec(HIVE_MACHINE@),
        r.1@ == remove_command_spec(HIVE_USER@),
{
    (remove_run_value_command(HIVE_MACHINE), remove_run_value_command(HIVE_USER))
}

/// Doubling the single quotes lengthens a text by exactly its number of
/// single quotes.
pub proof fn lemma_quote_doubled_len(s: Seq<char>)
    ensures
        quote_doubled(s).len() == s.len() + s.filter(|c: char| c == '\'').len(),
    decreases s.len(),
{
    reveal_with_fuel(Seq::<_>::filter, 1);
    if s.len() > 0 {
        lemma_quote_doubled_len(s.drop_last());
    }
}

/// A path without single quotes is written unchanged.
pub proof fn lemma_quote_free_unchanged(s: Seq<char>)
    requires
        forall|i: int| 0 <= i < s.len() ==> #[trigger] s[i] != '\'',
    ensures
        quote_doubled(s) == s,
    decreases s.len(),
{
    if s.len() > 0 {
        assert forall|i: int| 0 <= i < s.drop_last().len() implies #[trigger] s.drop_last()[i] != '\'' by {
            assert(s.drop_last()[i] == s[i]);
        }
        lemma_quote_free_unchanged(s.drop_last());
        assert(s.drop_last().push(s.last()) =~= s);
    }
}

/// How PowerShell reads the body of a single-quoted string: from the left,
/// a pair of single quotes stands for one quote.
pub open spec fn read_single_quoted(t: Seq<char>) -> Seq<char>
    decreases t.len(),
{
    if t.len() == 0 {
        Seq::empty()
    } else if t.len() >= 2 && t[0] == '\'' && t[1] == '\'' {
        seq!['\''] + read_single_quoted(t.skip(2))
    } else {
        seq![t[0]] + read_single_quoted(t.skip(1))
    }
}

/// Doubling quotes works piece by piece.
proof fn lemma_quote_doubled_concat(a: Seq<char>, b: Seq<char>)
    ensures
        quote_doubled(a + b) == quote_doubled(a) + quote_doubled(b),
    decreases b.len(),
{
    if b.len() == 0 {
        assert(a + b =~= a);
        assert(quote_doubled(a) + quote_doubled(b) =~= quote_doubled(a));
    } else {
        lemma_quote_doubled_concat(a, b.drop_last());
        assert((a + b).drop_last() =~= a + b.drop_last());
        assert((a + b).last() == b.last());
        if b.last() == '\'' {
            assert(quote_doubled(a) + quote_doubled(b) =~= quote_doubled(a) + quote_doubled(b.drop_last()) + seq!['\'', '\'']);
            assert(quote_doubled(a + b) =~= quote_doubled(a + b.drop_last()) + seq!['\'', '\'']);
        } else {
            assert(quote_doubled(a) + quote_doubled(b) =~= (quote_doubled(a) + quote_doubled(b.drop_last())).push(b.last()));
            assert(quote_doubled(a + b) =~= quote_doubled(a + b.drop_last()).push(b.last()));
        }
    }
}

/// PowerShell reads back exactly the executable path that the set command
/// wrote, whatever quotes it holds.
pub proof fn lemma_escaped_path_reads_back(s: Seq<char>)
    ensures
        read_single_quoted(quote_doubled(s)) == s,
    decreases s.len(),
{
    if s.len() > 0 {
        let head = seq![s[0]];
        let rest = s.skip(1);
        assert(s =~= head + rest);
        lemma_quote_doubled_concat(head, rest);
        assert(head.drop_last() =~= Seq::<char>::empty());
        assert(quote_doubled(head.drop_last()) =~= Seq::<char>::empty());
        assert(head.last() == s[0]);
        lemma_escaped_path_reads_back(rest);
        let t = quote_doubled(s);
        if s[0] == '\'' {
            assert(quote_doubled(head) =~= seq!['\'', '\'']);
            assert(t.skip(2) =~= quote_doubled(rest));
            assert(read_single_quoted(t) =~= seq!['\''] + rest);
        } else {
            assert(quote_doubled(head) =~= seq![s[0]]);
            assert(t.skip(1) =~= quote_doubled(rest));
            assert(read_single_quoted(t) =~= seq![s[0]] + rest);
        }
        assert(seq![s[0]] + rest =~= s);
    }
}

} // verus!
