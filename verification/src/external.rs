//! What the engine makes of the outcome of external work: the output of a
//! command that ran to its end, the first bytes of a file, the length of a
//! piece of media.
use crate::text::{
    append_decimal, decimal, optional_strings, split_lines, strings_view, text_lines, trim, trimmed,
};
use vstd::prelude::*;

verus! {

/// How a command that was run to its end came back.
pub struct ProcessExit {
    /// Whether the exit status reports success.
    pub success: bool,
    /// The exit code, where the process ended with one.
    pub code: Option<i32>,
    /// What the process wrote to its standard output, as text.
    pub stdout: String,
}

/// Why an external tool gave no result.
pub enum ExternalToolFailure {
    /// The tool ran and ended with this code, -1 where it had none.
    ExitCode(i32),
    /// The tool could not be started, or its answer could not be used; the
    /// text says why.
    Unavailable(String),
}

/// The mathematical value of an [`ExternalToolFailure`].
pub enum ExternalToolFailureView {
    ExitCode(int),
    Unavailable(Seq<char>),
}

impl View for ExternalToolFailure {
    type V = ExternalToolFailureView;

    open spec fn view(&self) -> ExternalToolFailureView {
        match self {
            ExternalToolFailure::ExitCode(code) => ExternalToolFailureView::ExitCode(*code as int),
            ExternalToolFailure::Unavailable(why) => ExternalToolFailureView::Unavailable(why@),
        }
    }
}

/// The text that reports a failure.
pub open spec fn failure_message(failure: ExternalToolFailureView) -> Seq<char> {
    match failure {
        ExternalToolFailureView::ExitCode(code) => "Executing external command failed with code: "@
            + decimal(code),
        ExternalToolFailureView::Unavailable(why) => why,
    }
}

impl ExternalToolFailure {
    /// The text that reports this failure.
    pub fn message(&self) -> (text: String)
        ensures
            text@ == failure_message(self@),
    {
        match self {
            ExternalToolFailure::ExitCode(code) => {
                let mut text = String::from_str("Executing external command failed with code: ");
                append_decimal(&mut text, *code);
                text
            },
            ExternalToolFailure::Unavailable(why) => why.clone(),
        }
    }
}

/// What came of the attempt to run a command to its end.
pub enum CommandReport {
    /// The command could not be run; the text is the system's reason.
    Failed(String),
    /// The command ran and ended.
    Exited(ProcessExit),
}

/// The mathematical value of a [`CommandReport`].
pub enum CommandReportView {
    Failed(Seq<char>),
    Exited { success: bool, code: Option<i32>, stdout: Seq<char> },
}

impl View for CommandReport {
    type V = CommandReportView;

    open spec fn view(&self) -> CommandReportView {
        match self {
            CommandReport::Failed(why) => CommandReportView::Failed(why@),
            CommandReport::Exited(exit) => CommandReportView::Exited {
                success: exit.success,
                code: exit.code,
                stdout: exit.stdout@,
            },
        }
    }
}

/// What a report amounts to: the lines of a command that ran with
/// success, or the failure.
pub open spec fn report_result(report: CommandReportView) -> Result<
    Option<Seq<Seq<char>>>,
    ExternalToolFailureView,
> {
    match report {
        CommandReportView::Failed(why) => Err(ExternalToolFailureView::Unavailable(why)),
        CommandReportView::Exited { success, code, stdout } => command_lines(
            success,
            code,
            stdout,
        ),
    }
}

/// The lines that a report holds: none where the command printed nothing,
/// and nothing at all where it failed.
pub open spec fn report_lines(report: CommandReportView) -> Option<Seq<Seq<char>>> {
    match report_result(report) {
        Ok(Some(lines)) => Some(lines),
        Ok(None) => Some(Seq::empty()),
        Err(_) => None,
    }
}

/// Every line of `lines` without its leading and trailing white space.
pub open spec fn trimmed_lines(lines: Seq<Seq<char>>) -> Seq<Seq<char>> {
    lines.map_values(|line: Seq<char>| trimmed(line))
}

/// What the outcome of a command amounts to, given the lines that it
/// printed: a failure with the exit code, or -1 where it has none, when
/// the status is not success; otherwise the lines, or nothing when there
/// is none.
pub open spec fn output_lines(success: bool, code: Option<i32>, lines: Seq<Seq<char>>) -> Result<
    Option<Seq<Seq<char>>>,
    ExternalToolFailureView,
> {
    if !success {
        Err(
            ExternalToolFailureView::ExitCode(
                match code {
                    Some(c) => c as int,
                    None => -1,
                },
            ),
        )
    } else if lines.len() == 0 {
        Ok(None)
    } else {
        Ok(Some(lines))
    }
}

/// What the outcome of a command amounts to, given what it printed: the
/// lines are those of its output, each without the white space around it.
pub open spec fn command_lines(success: bool, code: Option<i32>, stdout: Seq<char>) -> Result<
    Option<Seq<Seq<char>>>,
    ExternalToolFailureView,
> {
    output_lines(success, code, trimmed_lines(text_lines(stdout)))
}

/// The value of the result of [`run_external_command`].
pub open spec fn command_result_view(
    result: Result<Option<Vec<String>>, ExternalToolFailure>,
) -> Result<Option<Seq<Seq<char>>>, ExternalToolFailureView> {
    match result {
        Ok(Some(lines)) => Ok(Some(strings_view(lines@))),
        Ok(None) => Ok(None),
        Err(failure) => Err(failure@),
    }
}

/// Judges the outcome of a command by its exit status and the lines that
/// it printed.
pub fn output_of(success: bool, code: Option<i32>, lines: Vec<String>) -> (result: Result<
    Option<Vec<String>>,
    ExternalToolFailure,
>)
    ensures
        command_result_view(result) == output_lines(success, code, strings_view(lines@)),
{
    if !success {
        let code = match code {
            Some(c) => c,
            None => -1,
        };
        Err(ExternalToolFailure::ExitCode(code))
    } else if lines.len() == 0 {
        Ok(None)
    } else {
        Ok(Some(lines))
    }
}

/// Reads the outcome of a command that was run to its end.
pub fn run_external_command(exit: &ProcessExit) -> (result: Result<
    Option<Vec<String>>,
    ExternalToolFailure,
>)
    ensures
        command_result_view(result) == command_lines(exit.success, exit.code, exit.stdout@),
{
    let lines = split_lines(exit.stdout.as_str());
    let mut content: Vec<String> = Vec::new();
    let mut i: usize = 0;
    while i < lines.len()
        invariant
            i <= lines.len(),
            strings_view(content@) == trimmed_lines(strings_view(lines@)).take(i as int),
        decreases lines.len() - i,
    {
        let ghost before = content@;
        content.push(trim(lines[i].as_str()));
        proof {
            assert(strings_view(content@) =~= strings_view(before).push(trimmed(lines[i as int]@)));
            assert(strings_view(content@) =~= trimmed_lines(strings_view(lines@)).take(i + 1));
        }
        i += 1;
    }
    proof {
        assert(trimmed_lines(strings_view(lines@)).take(i as int) =~= trimmed_lines(
            strings_view(lines@),
        ));
    }
    output_of(exit.success, exit.code, content)
}

/// Reads the report of an attempt to run a command.
pub fn read_report(report: CommandReport) -> (result: Result<
    Option<Vec<String>>,
    ExternalToolFailure,
>)
    ensures
        command_result_view(result) == report_result(report@),
{
    match report {
        CommandReport::Failed(why) => Err(ExternalToolFailure::Unavailable(why)),
        CommandReport::Exited(exit) => run_external_command(&exit),
    }
}

/// The lines that a report holds: none where the command printed nothing,
/// and nothing at all where it failed.
pub fn lines_of_report(report: CommandReport) -> (lines: Option<Vec<String>>)
    ensures
        optional_strings(lines) == report_lines(report@),
{
    match read_report(report) {
        Ok(Some(lines)) => Some(lines),
        Ok(None) => {
            let lines: Vec<String> = Vec::new();
            proof {
                assert(strings_view(lines@) =~= Seq::<Seq<char>>::empty());
            }
            Some(lines)
        },
        Err(_) => None,
    }
}

/// How many leading bytes of a file are looked at to tell text from binary.
pub const SNIFF_LIMIT: usize = 1024;

/// The leading bytes that are looked at.
pub open spec fn sniffed(head: Seq<u8>) -> Seq<u8> {
    if head.len() <= SNIFF_LIMIT {
        head
    } else {
        head.take(SNIFF_LIMIT as int)
    }
}

/// Calls `std::str::from_utf8`. Believed, not proved: it accepts exactly
/// the byte strings that are well-formed UTF-8.
#[verifier::external_body]
fn is_utf8(bytes: &[u8]) -> (ok: bool)
    ensures
        ok == vstd::utf8::valid_utf8(bytes@),
{
    std::str::from_utf8(bytes).is_ok()
}

/// Tells whether the first kilobyte of a file, given by its leading bytes
/// `head`, is well-formed UTF-8.
pub fn probably_valid_utf(head: &[u8]) -> (valid: bool)
    ensures
        valid == vstd::utf8::valid_utf8(sniffed(head@)),
{
    if head.len() <= SNIFF_LIMIT {
        is_utf8(head)
    } else {
        let leading = vstd::slice::slice_subrange(head, 0, SNIFF_LIMIT);
        proof {
            assert(leading@ =~= head@.take(SNIFF_LIMIT as int));
        }
        is_utf8(leading)
    }
}

/// The IEEE 754 single-precision bit pattern of 1.5, the length in seconds
/// above which media counts as long.
pub const LONG_MEDIA_BITS: u32 = 0x3FC0_0000;

/// The bit pattern of positive infinity in IEEE 754 single precision.
pub const INFINITY_BITS: u32 = 0x7F80_0000;

/// Media is long when its length in seconds, given by its IEEE 754
/// single-precision bit pattern, is a number greater than 1.5: for patterns
/// with a clear sign bit, numbers ascend with their patterns up to
/// infinity, and the patterns above infinity are no numbers.
pub open spec fn is_long_media_spec(seconds_bits: u32) -> bool {
    LONG_MEDIA_BITS < seconds_bits <= INFINITY_BITS
}

/// Tells whether media of the given length takes over the terminal.
pub fn is_long_media(seconds_bits: u32) -> (long: bool)
    ensures
        long == is_long_media_spec(seconds_bits),
{
    LONG_MEDIA_BITS < seconds_bits && seconds_bits <= INFINITY_BITS
}

} // verus!
