//! The `bash` tool: screens a shell command, then reports what running it gave.
use vstd::prelude::*;
use crate::text::{
    char_is_whitespace, chars_eq, chars_of, concat2, concat3, contains_chars, contains_seq,
    ends_with_chars, ends_with_seq, extend_chars, has, is_white_space, starts_with_chars,
    starts_with_seq,
};
use crate::tool_call::function_type::ToolFunctionType;
use crate::tool_call::tool::{
    arguments_error_message, arguments_error_spec, schema_spec, tool_schema_of, FunctionTool,
    SchemaView, ToolSchema,
};

verus! {

/// Runs a shell command.
#[derive(Debug)]
pub struct BashTool;

impl FunctionTool for BashTool {
    open spec fn kind(&self) -> ToolFunctionType {
        ToolFunctionType::Bash
    }

    open spec fn schema(&self) -> SchemaView {
        schema_spec(ToolFunctionType::Bash)
    }

    fn tool_type(&self) -> (t: ToolFunctionType) {
        ToolFunctionType::Bash
    }

    fn tool_schema(&self) -> (s: ToolSchema) {
        tool_schema_of(ToolFunctionType::Bash)
    }
}

/// `w` stands as a word of `cmd`: the whole command, its first word
/// (followed by any white space), a word between spaces, its last word, or a
/// word ended by `;`.
pub open spec fn word_blocked(cmd: Seq<char>, w: Seq<char>) -> bool {
    ||| cmd == w
    ||| (starts_with_seq(cmd, w) && cmd.len() > w.len() && is_white_space(cmd[w.len() as int]))
    ||| contains_seq(cmd, seq![' '] + w + seq![' '])
    ||| ends_with_seq(cmd, seq![' '] + w)
    ||| contains_seq(cmd, seq![' '] + w + seq![';'])
}

/// The commands the tool refuses to run: those that use `sudo`, `shutdown`,
/// `reboot`, `halt` or `poweroff` as a word; a recursive `rm` aimed at a path
/// from the root; and writes straight to a disk device.
pub open spec fn is_dangerous(cmd: Seq<char>) -> bool {
    ||| word_blocked(cmd, "sudo"@)
    ||| word_blocked(cmd, "shutdown"@)
    ||| word_blocked(cmd, "reboot"@)
    ||| word_blocked(cmd, "halt"@)
    ||| word_blocked(cmd, "poweroff"@)
    ||| (contains_seq(cmd, "rm "@) && (contains_seq(cmd, " -rf "@) || contains_seq(cmd, " -r "@))
        && (contains_seq(cmd, " /"@) || contains_seq(cmd, "/*"@)))
    ||| (contains_seq(cmd, "dd if="@) && contains_seq(cmd, " of=/dev/"@))
    ||| (contains_seq(cmd, "mkfs."@) && contains_seq(cmd, " /dev/"@))
    ||| contains_seq(cmd, "> /dev/sd"@)
}

/// The refused commands, stated piece by piece: a blocked word as the whole
/// command, as its first word before any white space, between spaces, last
/// after a space, or before `;`; any recursive `rm` (`-rf` or `-r`) whose
/// command holds ` /` or `/*`; `dd` writing to a device; `mkfs.` on a
/// device; and a redirect into `/dev/sd`.
pub proof fn law_refused_commands(cmd: Seq<char>, w: Seq<char>)
    ensures
        (w == "sudo"@ || w == "shutdown"@ || w == "reboot"@ || w == "halt"@ || w == "poweroff"@)
            ==> ((cmd == w || (starts_with_seq(cmd, w) && cmd.len() > w.len() && is_white_space(
            cmd[w.len() as int],
        )) || contains_seq(cmd, seq![' '] + w + seq![' ']) || ends_with_seq(cmd, seq![' '] + w)
            || contains_seq(cmd, seq![' '] + w + seq![';'])) ==> is_dangerous(cmd)),
        contains_seq(cmd, "rm "@) && (contains_seq(cmd, " -rf "@) || contains_seq(cmd, " -r "@))
            && contains_seq(cmd, "/*"@) ==> is_dangerous(cmd),
        contains_seq(cmd, "rm "@) && (contains_seq(cmd, " -rf "@) || contains_seq(cmd, " -r "@))
            && contains_seq(cmd, " /"@) ==> is_dangerous(cmd),
        contains_seq(cmd, "dd if="@) && contains_seq(cmd, " of=/dev/"@) ==> is_dangerous(cmd),
        contains_seq(cmd, "mkfs."@) && contains_seq(cmd, " /dev/"@) ==> is_dangerous(cmd),
        contains_seq(cmd, "> /dev/sd"@) ==> is_dangerous(cmd),
{
}

/// The answer to a refused command.
pub open spec fn blocked_message(cmd: Seq<char>) -> Seq<char> {
    "Error: Dangerous command blocked: "@ + cmd
}

/// Whether `w` stands as a word of `cmd`.
fn word_blocked_exec(cmd: &[char], w: &str) -> (r: bool)
    ensures
        r == word_blocked(cmd@, w@),
{
    let wc = chars_of(w);
    let mut inner: Vec<char> = Vec::new();
    inner.push(' ');
    extend_chars(&mut inner, wc.as_slice());
    let mut last: Vec<char> = Vec::new();
    last.push(' ');
    extend_chars(&mut last, wc.as_slice());
    let mut semi: Vec<char> = Vec::new();
    semi.push(' ');
    extend_chars(&mut semi, wc.as_slice());
    inner.push(' ');
    semi.push(';');
    proof {
        assert(inner@ =~= seq![' '] + wc@ + seq![' ']);
        assert(last@ =~= seq![' '] + wc@);
        assert(semi@ =~= seq![' '] + wc@ + seq![';']);
    }
    let first = starts_with_chars(cmd, wc.as_slice()) && cmd.len() > wc.len()
        && char_is_whitespace(cmd[wc.len()]);
    chars_eq(cmd, wc.as_slice()) || first || contains_chars(
        cmd,
        inner.as_slice(),
    ) || ends_with_chars(cmd, last.as_slice()) || contains_chars(cmd, semi.as_slice())
}

/// Screens a shell command: `Some` with the refusal when the command is
/// dangerous, `None` when it may run.
pub fn check_dangerous(command: &str) -> (r: Option<String>)
    ensures
        r is Some <==> is_dangerous(command@),
        r matches Some(m) ==> m@ == blocked_message(command@),
{
    let cmd = chars_of(command);
    let c = cmd.as_slice();
    let word = word_blocked_exec(c, "sudo") || word_blocked_exec(c, "shutdown")
        || word_blocked_exec(c, "reboot") || word_blocked_exec(c, "halt") || word_blocked_exec(
        c,
        "poweroff",
    );
    let rm = has(c, "rm ") && (has(c, " -rf ") || has(c, " -r ")) && (has(c, " /") || has(c, "/*"));
    let device = has(c, "dd if=") && has(c, " of=/dev/") || has(c, "mkfs.") && has(c, " /dev/")
        || has(c, "> /dev/sd");
    if word || rm || device {
        Some(concat2("Error: Dangerous command blocked: ", command))
    } else {
        None
    }
}

/// The report of a finished command: its output, with the error output and
/// the exit status added as they matter.
pub open spec fn format_output_spec(
    success: bool,
    status: Seq<char>,
    stdout: Seq<char>,
    stderr: Seq<char>,
) -> Seq<char> {
    if success {
        if stderr.len() == 0 {
            stdout
        } else {
            stdout + "\nstderr:\n"@ + stderr
        }
    } else {
        "exit code: "@ + status + "\nstdout:\n"@ + stdout + "\nstderr:\n"@ + stderr
    }
}

/// What a report says: a failed run always opens with `exit code: ` and the
/// exit status, then shows the output and the error output, each after its
/// heading, the error output last; a successful run opens with its output,
/// and is exactly its output when there is no error output, otherwise ends
/// with the error output after its heading.
pub proof fn law_report_shows_outcome(
    success: bool,
    status: Seq<char>,
    stdout: Seq<char>,
    stderr: Seq<char>,
)
    ensures
        ({
            let r = format_output_spec(success, status, stdout, stderr);
            &&& !success ==> starts_with_seq(r, "exit code: "@ + status + "\nstdout:\n"@ + stdout)
            &&& !success ==> ends_with_seq(r, "\nstderr:\n"@ + stderr)
            &&& !success ==> r.len() == 11 + status.len() + 9 + stdout.len() + 9 + stderr.len()
            &&& success ==> starts_with_seq(r, stdout)
            &&& success && stderr.len() == 0 ==> r == stdout
            &&& success && stderr.len() > 0 ==> ends_with_seq(r, "\nstderr:\n"@ + stderr)
                && r.len() == stdout.len() + 9 + stderr.len()
        }),
{
    reveal_strlit("exit code: ");
    reveal_strlit("\nstdout:\n");
    reveal_strlit("\nstderr:\n");
    let r = format_output_spec(success, status, stdout, stderr);
    let h = "\nstderr:\n"@ + stderr;
    if !success {
        let a = "exit code: "@ + status + "\nstdout:\n"@ + stdout;
        assert(r =~= a + h);
        assert(r.take(a.len() as int) =~= a);
        assert(r.skip(r.len() - h.len()) =~= h);
    } else if stderr.len() > 0 {
        assert(r =~= stdout + h);
        assert(r.take(stdout.len() as int) =~= stdout);
        assert(r.skip(r.len() - h.len()) =~= h);
    } else {
        assert(r.take(stdout.len() as int) =~= stdout);
    }
}

/// Joins the output of a finished command; `status` is how the exit status
/// reads (`exit status: 1`).
pub fn format_output(success: bool, status: &str, stdout: &str, stderr: &str) -> (r: String)
    ensures
        r@ == format_output_spec(success, status@, stdout@, stderr@),
{
    if success {
        if stderr.is_empty() {
            String::from_str(stdout)
        } else {
            concat3(stdout, "\nstderr:\n", stderr)
        }
    } else {
        let a = concat3("exit code: ", status, "\nstdout:\n");
        let b = concat3(a.as_str(), stdout, "\nstderr:\n");
        concat2(b.as_str(), stderr)
    }
}

/// What the tool does next with its arguments.
pub enum BashStep {
    /// Answer at once with this text.
    Reply(String),
    /// Run this command.
    Run(String),
}

/// What happened when the tool tried to run the command.
pub enum CommandRun {
    /// The working directory could not be found (the error's text).
    NoWorkingDir(String),
    /// The shell could not be started (the error's text).
    SpawnFailed(String),
    /// The command ran to its end.
    Exited { success: bool, status: String, stdout: String, stderr: String },
}

impl BashTool {
    /// Decides what to do with the tool's arguments: the command, or the text
    /// of the error that stopped reading them.
    pub fn plan(&self, args: Result<String, String>) -> (r: BashStep)
        ensures
            match args {
                Err(e) => r matches BashStep::Reply(m) && m@ == arguments_error_spec(e@),
                Ok(cmd) => if is_dangerous(cmd@) {
                    r matches BashStep::Reply(m) && m@ == blocked_message(cmd@)
                } else {
                    r matches BashStep::Run(c) && c@ == cmd@
                },
            },
    {
        match args {
            Err(e) => BashStep::Reply(arguments_error_message(e.as_str())),
            Ok(cmd) => match check_dangerous(cmd.as_str()) {
                Some(m) => BashStep::Reply(m),
                None => BashStep::Run(cmd),
            },
        }
    }

    /// The tool's answer once the command has run, or failed to.
    pub fn finish(&self, run: &CommandRun) -> (r: String)
        ensures
            match run {
                CommandRun::NoWorkingDir(e) => r@ == "Error failed to get current directory: "@
                    + e@,
                CommandRun::SpawnFailed(e) => r@ == "Error: failed to execute command: "@ + e@,
                CommandRun::Exited { success, status, stdout, stderr } => r@ == format_output_spec(
                    *success,
                    status@,
                    stdout@,
                    stderr@,
                ),
            },
    {
        match run {
            CommandRun::NoWorkingDir(e) => concat2(
                "Error failed to get current directory: ",
                e.as_str(),
            ),
            CommandRun::SpawnFailed(e) => concat2("Error: failed to execute command: ", e.as_str()),
            CommandRun::Exited { success, status, stdout, stderr } => format_output(
                *success,
                status.as_str(),
                stdout.as_str(),
                stderr.as_str(),
            ),
        }
    }
}

} // verus!
