//! System commands as plain data: what to run, and what came back.
use crate::text::{contains, starts_with, str_contains, str_starts_with, trim, trim_str};
use vstd::prelude::*;
use vstd::utf8::{decode_utf8, valid_utf8};

verus! {

/// How a command is started.
#[derive(PartialEq, Eq, Structural, Clone, Copy, Debug)]
pub enum Launch {
    /// Run to completion and collect its exit status and standard output.
    Output,
    /// Start it and do not wait for it.
    Spawn,
}

/// A program to run, with its arguments.
#[derive(Clone, Debug)]
pub struct CommandSpec {
    pub program: String,
    pub args: Vec<String>,
    pub launch: Launch,
}

/// The model of a command: program, arguments, and how it is started.
pub struct CommandView {
    pub program: Seq<char>,
    pub args: Seq<Seq<char>>,
    pub launch: Launch,
}

impl View for CommandSpec {
    type V = CommandView;

    open spec fn view(&self) -> CommandView {
        CommandView { program: self.program@, args: self.args.deep_view(), launch: self.launch }
    }
}

/// A command that ran: whether it exited successfully, and what it printed
/// on standard output. A command that could not be started at all is
/// reported as `None` in place of an outcome.
#[derive(Clone, Debug)]
pub struct CommandOutcome {
    pub success: bool,
    pub stdout: Vec<u8>,
}

/// The model of a command's outcome.
pub struct OutcomeView {
    pub success: bool,
    pub stdout: Seq<u8>,
}

impl View for CommandOutcome {
    type V = OutcomeView;

    open spec fn view(&self) -> OutcomeView {
        OutcomeView { success: self.success, stdout: self.stdout@ }
    }
}

/// The model of a reply: `None` when the command could not be started.
pub open spec fn reply_view(reply: Option<CommandOutcome>) -> Option<OutcomeView> {
    match reply {
        Some(o) => Some(o@),
        None => None,
    }
}

/// A command built from its parts.
pub open spec fn command(program: Seq<char>, args: Seq<Seq<char>>, launch: Launch) -> CommandView {
    CommandView { program, args, launch }
}

/// The command ran and exited successfully.
pub open spec fn succeeded(reply: Option<OutcomeView>) -> bool {
    match reply {
        Some(o) => o.success,
        None => false,
    }
}

/// The characters that `String::from_utf8_lossy` makes of `bytes`, where
/// each ill-formed UTF-8 sequence becomes U+FFFD.
pub uninterp spec fn utf8_lossy(bytes: Seq<u8>) -> Seq<char>;

/// The text that lenient decoding makes of `bytes`: the decoded text when
/// they are well-formed UTF-8, else `utf8_lossy(bytes)`.
pub open spec fn lossy_text(bytes: Seq<u8>) -> Seq<char> {
    if valid_utf8(bytes) {
        decode_utf8(bytes)
    } else {
        utf8_lossy(bytes)
    }
}

/// The command ran, and its standard output, decoded leniently and
/// trimmed, is exactly `expected`.
pub open spec fn output_trimmed_is(reply: Option<OutcomeView>, expected: Seq<char>) -> bool {
    match reply {
        Some(o) => trim(lossy_text(o.stdout)) == expected,
        None => false,
    }
}

/// The command ran, and its standard output, decoded leniently and
/// trimmed, starts with `prefix`.
pub open spec fn output_trimmed_starts_with(reply: Option<OutcomeView>, prefix: Seq<char>) -> bool {
    match reply {
        Some(o) => starts_with(trim(lossy_text(o.stdout)), prefix),
        None => false,
    }
}

/// The command ran, and its standard output, decoded leniently, holds `needle`.
pub open spec fn output_contains(reply: Option<OutcomeView>, needle: Seq<char>) -> bool {
    match reply {
        Some(o) => contains(lossy_text(o.stdout), needle),
        None => false,
    }
}

/// The standard output of a reply as text: the empty text when the command
/// could not be started or printed bytes that are not UTF-8.
pub open spec fn output_text(reply: Option<OutcomeView>) -> Seq<char> {
    match reply {
        Some(o) => if valid_utf8(o.stdout) {
            decode_utf8(o.stdout)
        } else {
            Seq::empty()
        },
        None => Seq::empty(),
    }
}

/// `String::from_utf8(bytes.to_vec()).ok()`: the text that `bytes` encode
/// when they are well-formed UTF-8, else `None`. The contract restates the
/// documented behaviour of `String::from_utf8` over vstd's UTF-8 model.
#[verifier::external_body]
fn decode_utf8_exact(bytes: &[u8]) -> (r: Option<String>)
    ensures
        r is Some <==> valid_utf8(bytes@),
        r matches Some(s) ==> s@ == decode_utf8(bytes@),
{
    String::from_utf8(bytes.to_vec()).ok()
}

/// `String::from_utf8_lossy(bytes)`, as an owned `String`: the result is
/// `utf8_lossy(bytes)`, and for well-formed UTF-8 it is the decoded text
/// itself (the documentation says the input is then returned unchanged).
/// Which replacement characters stand for ill-formed input is left unsaid.
#[verifier::external_body]
fn decode_utf8_lossy(bytes: &[u8]) -> (r: String)
    ensures
        r@ == utf8_lossy(bytes@),
        valid_utf8(bytes@) ==> r@ == decode_utf8(bytes@),
{
    String::from_utf8_lossy(bytes).into_owned()
}

/// Whether the command ran and exited successfully.
pub fn command_succeeded(reply: &Option<CommandOutcome>) -> (b: bool)
    ensures
        b == succeeded(reply_view(*reply)),
{
    match reply {
        Some(o) => o.success,
        None => false,
    }
}

/// The standard output of a reply as text (see `output_text`).
pub fn reply_text(reply: &Option<CommandOutcome>) -> (s: String)
    ensures
        s@ == output_text(reply_view(*reply)),
{
    match reply {
        Some(o) => match decode_utf8_exact(o.stdout.as_slice()) {
            Some(s) => s,
            None => String::new(),
        },
        None => String::new(),
    }
}

/// Whether the command ran and its trimmed, leniently decoded output is `expected`.
pub fn reply_trimmed_is(reply: &Option<CommandOutcome>, expected: &str) -> (b: bool)
    ensures
        b == output_trimmed_is(reply_view(*reply), expected@),
{
    match reply {
        Some(o) => {
            let text = decode_utf8_lossy(o.stdout.as_slice());
            let t = trim_str(text.as_str());
            t == String::from_str(expected)
        },
        None => false,
    }
}

/// Whether the command ran and its leniently decoded output contains `needle`.
pub fn reply_contains(reply: &Option<CommandOutcome>, needle: &str) -> (b: bool)
    ensures
        b == output_contains(reply_view(*reply), needle@),
{
    match reply {
        Some(o) => {
            let text = decode_utf8_lossy(o.stdout.as_slice());
            str_contains(text.as_str(), needle)
        },
        None => false,
    }
}

/// Whether the command ran and its trimmed, leniently decoded output starts with `prefix`.
pub fn reply_trimmed_starts_with(reply: &Option<CommandOutcome>, prefix: &str) -> (b: bool)
    ensures
        b == output_trimmed_starts_with(reply_view(*reply), prefix@),
{
    match reply {
        Some(o) => {
            let text = decode_utf8_lossy(o.stdout.as_slice());
            let t = trim_str(text.as_str());
            str_starts_with(t.as_str(), prefix)
        },
        None => false,
    }
}

/// A command succeeded exactly when it could be started and exited
/// successfully; its output text is empty unless it ran and printed
/// well-formed UTF-8, which is then decoded as it stands.
pub proof fn law_reply_reading(reply: Option<OutcomeView>)
    ensures
        succeeded(reply) <==> (reply matches Some(o) && o.success),
        output_text(reply) == (match reply {
            Some(o) => if valid_utf8(o.stdout) { decode_utf8(o.stdout) } else { Seq::<char>::empty() },
            None => Seq::<char>::empty(),
        }),
        forall|b: Seq<u8>| valid_utf8(b) ==> #[trigger] lossy_text(b) == decode_utf8(b),
{
}

} // verus!
