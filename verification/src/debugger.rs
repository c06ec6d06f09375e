//! What a debugger needs of the library: the view that a processor and
//! a memory offer to an observer, the language of the commands that
//! drive an emulator from a prompt, and the text that shows commands and
//! instructions.

pub mod commands;
pub mod disasm;
pub mod display;
pub mod hexdump;
pub mod numerals;
pub mod session;
pub mod text;

use vstd::prelude::*;
use vstd::string::StringSliceAdditionalSpecFns;
use vstd::utf8::{decode_utf8, encode_utf8, is_char_boundary};
use vstd::utf8::{encode_utf8_decode_utf8, encode_utf8_valid_utf8, valid_utf8_split};
use crate::cpu::{CpuRegisters, EmulationState};
use crate::cpu::machine::CpuError;
use crate::cpu::instructions::{Instruction, Operand};
use crate::debugger::numerals::{decimal, push_number};
use crate::debugger::text::{decimal_u32, first_match, has_match, trimmed};

verus! {

/// A processor that lets itself be observed.
pub trait CpuDebugger {
    /// The registers.
    fn get_cpu_regs(&self) -> &CpuRegisters;

    /// The registers, to be changed in place, if the processor allows
    /// that now.
    fn get_cup_regs_mut(&mut self) -> Option<&mut CpuRegisters>;

    /// Tick counters, the boundary flag and the interrupt latch.
    fn get_emulation_state(&self) -> &EmulationState;

    /// Entry and operand of the instruction in progress, each as far as
    /// it is known.
    fn get_decoded_instruction(&self) -> (Option<&Instruction>, Option<&Operand>);

    /// The bytes of the instruction in progress, once it is decoded.
    fn get_raw_instruction(&self) -> Option<Vec<u8>>;
}

/// A memory that lets itself be observed and changed.
pub trait MemDebugger {
    /// The memory's bytes.
    fn get_mem(&self) -> &[u8];

    /// The memory's bytes, to be changed in place.
    fn get_mem_mut(&mut self) -> &mut [u8];
}

/// The regular expression that finds an unsigned number.
pub const ARG_UINT: &'static str = "\\d+";

/// An argument of a command.
#[derive(Debug, Clone, PartialEq, Eq)]
pub enum Arg {
    UInt(u32),
    String(String),
}

/// What an argument holds.
pub enum ArgView {
    UInt(u32),
    String(Seq<char>),
}

impl View for Arg {
    type V = ArgView;

    open spec fn view(&self) -> ArgView {
        match self {
            Arg::UInt(value) => ArgView::UInt(*value),
            Arg::String(text) => ArgView::String(text@),
        }
    }
}

impl Arg {
    /// The argument as it is shown: a number in base ten, a string as it
    /// is.
    pub open spec fn text(self) -> Seq<char> {
        match self@ {
            ArgView::UInt(value) => decimal(value as nat),
            ArgView::String(text) => text,
        }
    }

    /// Shows the argument.
    pub fn to_text(&self) -> (text: String)
        ensures
            text@ == self.text(),
    {
        match self {
            Arg::UInt(value) => {
                let mut text = String::new();
                push_number(&mut text, *value);
                assert(text@ =~= decimal(*value as nat));
                text
            },
            Arg::String(text) => text.clone(),
        }
    }

    /// A copy of the argument.
    pub fn duplicate(&self) -> (copy: Arg)
        ensures
            copy@ == self@,
    {
        match self {
            Arg::UInt(value) => Arg::UInt(*value),
            Arg::String(text) => Arg::String(text.clone()),
        }
    }

    /// The argument that `token` denotes. A token in which the
    /// expression for a number finds nothing is a string. Every other
    /// token has to be an unsigned number as a whole, or it denotes
    /// nothing.
    pub open spec fn of(token: Seq<char>) -> Option<ArgView> {
        if has_match(ARG_UINT@, token) {
            match decimal_u32(token) {
                Some(value) => Some(ArgView::UInt(value)),
                None => None,
            }
        } else {
            Some(ArgView::String(token))
        }
    }

    /// Reads an argument.
    pub fn parse(s: &str) -> (arg: Option<Arg>)
        ensures
            match Arg::of(s@) {
                Some(view) => arg matches Some(a) && a@ == view,
                None => arg is None,
            },
    {
        if text::is_match(ARG_UINT, s) {
            match text::parse_u32(s) {
                Some(value) => Some(Arg::UInt(value)),
                None => None,
            }
        } else {
            Some(Arg::String(s.to_owned()))
        }
    }
}

/// What a command does.
#[derive(Debug, Clone, Copy, PartialEq, Eq, Structural)]
pub enum CommandDelegate {
    /// Advances the emulator by ticks.
    Cycle,
    /// Advances the emulator by instructions.
    Step,
    /// Lets the emulator run until it is interrupted.
    Run,
}

impl CommandDelegate {
    /// The regular expression that finds the command's name.
    #[verifier::allow_in_spec]
    pub fn pattern(self) -> &'static str
        returns
            (match self {
                CommandDelegate::Cycle => "c(?:ycle)?",
                CommandDelegate::Step => "s(?:tep)?",
                CommandDelegate::Run => "r(?:un)?",
            }),
    {
        match self {
            CommandDelegate::Cycle => "c(?:ycle)?",
            CommandDelegate::Step => "s(?:tep)?",
            CommandDelegate::Run => "r(?:un)?",
        }
    }

    /// The number of arguments that the command takes at most.
    #[verifier::allow_in_spec]
    pub fn argnum(self) -> usize
        returns
            (match self {
                CommandDelegate::Cycle => 1usize,
                CommandDelegate::Step => 1usize,
                CommandDelegate::Run => 0usize,
            }),
    {
        match self {
            CommandDelegate::Cycle => 1,
            CommandDelegate::Step => 1,
            CommandDelegate::Run => 0,
        }
    }
}

/// Why a line of commands was not understood.
#[derive(Debug, Clone, Copy, PartialEq, Eq, Structural)]
pub enum CommandParseError {
    /// The line is empty.
    EmptyInput,
    /// A command names none of the known ones.
    UnknownCommand,
    /// The argument at `index` denotes nothing.
    InvalidArgument { index: usize },
    /// A command that takes `expected` arguments has a `got`-th.
    InvalidArgumentNum { expected: usize, got: usize },
}

/// Why a command did not run, or not to its end.
#[derive(Debug, Clone, PartialEq, Eq)]
pub enum CommandRunError {
    /// The argument at the given index should have been of the kind of
    /// the first of the two arguments and was the second.
    InvalidArgumentType(usize, Arg, Arg),
    /// The processor could not carry a tick out.
    Fault(CpuError),
}

/// How often a command that counts is to act. Without an argument it
/// acts once; with a number as its first argument it acts that often;
/// with anything else as its first argument it does not run.
pub open spec fn repetitions_of(args: Seq<ArgView>) -> Option<u32> {
    if args.len() == 0 {
        Some(1)
    } else {
        match args[0] {
            ArgView::UInt(count) => Some(count),
            ArgView::String(_) => None,
        }
    }
}

/// How often a command that counts, cycle or step, is to act on the
/// arguments `args`. The error tells that the first argument should have
/// been a number and hands it back.
pub fn repetitions(args: &Vec<Arg>) -> (r: Result<u32, CommandRunError>)
    ensures
        match repetitions_of(arg_views(args@)) {
            Some(count) => r matches Ok(n) && n == count,
            None => r matches Err(CommandRunError::InvalidArgumentType(index, expected, got))
                && index == 0 && expected@ == ArgView::UInt(0) && got@ == args@[0]@,
        },
{
    if args.len() == 0 {
        Ok(1)
    } else {
        match &args[0] {
            Arg::UInt(count) => Ok(*count),
            other => Err(CommandRunError::InvalidArgumentType(0, Arg::UInt(0), other.duplicate())),
        }
    }
}

/// A command: its name as it was typed, what it does, and its
/// arguments.
#[derive(Debug, Clone, PartialEq, Eq)]
pub struct Command {
    pub cmd: String,
    pub delegate: CommandDelegate,
    pub args: Vec<Arg>,
}

/// What a command holds.
pub struct CommandView {
    pub cmd: Seq<char>,
    pub delegate: CommandDelegate,
    pub args: Seq<ArgView>,
}

/// What the arguments hold.
pub open spec fn arg_views(args: Seq<Arg>) -> Seq<ArgView> {
    Seq::new(args.len(), |i: int| args[i]@)
}

/// What the commands hold.
pub open spec fn command_views(commands: Seq<Command>) -> Seq<CommandView> {
    Seq::new(commands.len(), |i: int| commands[i]@)
}

impl View for Command {
    type V = CommandView;

    open spec fn view(&self) -> CommandView {
        CommandView { cmd: self.cmd@, delegate: self.delegate, args: arg_views(self.args@) }
    }
}

/// The part of `text` between two byte offsets into its UTF-8 encoding.
pub open spec fn slice(text: Seq<char>, start: int, end: int) -> Seq<char> {
    decode_utf8(encode_utf8(text).subrange(start, end))
}

/// Whether `c` is one of the five ASCII characters that separate
/// arguments: space, tab, line feed, form feed and carriage return.
#[verifier::allow_in_spec]
pub fn is_ascii_space(c: char) -> bool
    returns
        (c == ' ' || c == '\t' || c == '\n' || c == '\x0C' || c == '\r'),
{
    c == ' ' || c == '\t' || c == '\n' || c == '\x0C' || c == '\r'
}

/// The length of the token that `text` starts with: of its longest
/// prefix without a separator.
pub open spec fn token_len(text: Seq<char>) -> nat
    decreases text.len(),
{
    if text.len() == 0 || is_ascii_space(text.first()) {
        0
    } else {
        1 + token_len(text.drop_first())
    }
}

/// The length of the command that `text` starts with: of its longest
/// prefix without a semicolon.
pub open spec fn segment_len(text: Seq<char>) -> nat
    decreases text.len(),
{
    if text.len() == 0 || text.first() == ';' {
        0
    } else {
        1 + segment_len(text.drop_first())
    }
}

/// A token is no longer than its text, and not empty where the text
/// starts with something else than a separator; likewise a segment.
pub proof fn prefix_lengths(text: Seq<char>)
    ensures
        token_len(text) <= text.len(),
        segment_len(text) <= text.len(),
        text.len() > 0 && !is_ascii_space(text.first()) ==> token_len(text) >= 1,
    decreases text.len(),
{
    if text.len() > 0 {
        prefix_lengths(text.drop_first());
    }
}

/// `first` in front of what `rest` holds, or the error of `rest`.
pub open spec fn prepend<T>(first: T, rest: Result<Seq<T>, CommandParseError>) -> Result<
    Seq<T>,
    CommandParseError,
> {
    match rest {
        Ok(others) => Ok(seq![first] + others),
        Err(e) => Err(e),
    }
}

/// `done` in front of what `rest` holds, or the error of `rest`.
pub open spec fn after<T>(done: Seq<T>, rest: Result<Seq<T>, CommandParseError>) -> Result<
    Seq<T>,
    CommandParseError,
> {
    match rest {
        Ok(others) => Ok(done + others),
        Err(e) => Err(e),
    }
}

/// The arguments that `text` holds, for a command that takes `argnum`
/// of them and has `index` already. The tokens of `text` are read from
/// left to right; the first that is one too many or denotes nothing is
/// the error.
pub open spec fn parse_args(text: Seq<char>, argnum: usize, index: nat) -> Result<
    Seq<ArgView>,
    CommandParseError,
>
    decreases text.len(),
{
    if text.len() == 0 {
        Ok(Seq::empty())
    } else if is_ascii_space(text.first()) {
        parse_args(text.drop_first(), argnum, index)
    } else if index >= argnum {
        Err(
            CommandParseError::InvalidArgumentNum {
                expected: argnum,
                got: #[verifier::truncate] ((index + 1) as usize),
            },
        )
    } else {
        proof {
            prefix_lengths(text);
        }
        match Arg::of(text.take(token_len(text) as int)) {
            None => Err(
                CommandParseError::InvalidArgument {
                    index: #[verifier::truncate] (index as usize),
                },
            ),
            Some(arg) => prepend(
                arg,
                parse_args(text.skip(token_len(text) as int), argnum, index + 1),
            ),
        }
    }
}

/// The command whose name is found in `text`, with the byte offsets of
/// the name: the first of cycle, step and run whose expression matches
/// anywhere.
pub open spec fn select(text: Seq<char>) -> Option<(CommandDelegate, usize, usize)> {
    if let Some((start, end)) = first_match(CommandDelegate::Cycle.pattern()@, text) {
        Some((CommandDelegate::Cycle, start, end))
    } else if let Some((start, end)) = first_match(CommandDelegate::Step.pattern()@, text) {
        Some((CommandDelegate::Step, start, end))
    } else if let Some((start, end)) = first_match(CommandDelegate::Run.pattern()@, text) {
        Some((CommandDelegate::Run, start, end))
    } else {
        None
    }
}

/// The command that `segment` holds: white space around it is ignored,
/// its name is what the expression of the selected command matches, and
/// its arguments are what follows the name.
pub open spec fn parse_command(segment: Seq<char>) -> Result<CommandView, CommandParseError> {
    let text = trimmed(segment);
    match select(text) {
        None => Err(CommandParseError::UnknownCommand),
        Some((delegate, start, end)) => match parse_args(
            slice(text, end as int, encode_utf8(text).len() as int),
            delegate.argnum(),
            0,
        ) {
            Ok(args) => Ok(
                CommandView { cmd: slice(text, start as int, end as int), delegate, args },
            ),
            Err(e) => Err(e),
        },
    }
}

/// The commands that `text` holds, separated by semicolons. They are
/// read from left to right, and the first error is the error.
pub open spec fn parse_commands(text: Seq<char>) -> Result<Seq<CommandView>, CommandParseError>
    decreases text.len(),
{
    let n = segment_len(text) as int;
    match parse_command(text.take(n)) {
        Err(e) => Err(e),
        Ok(command) => if n >= text.len() {
            Ok(seq![command])
        } else {
            prepend(command, parse_commands(text.skip(n + 1)))
        },
    }
}

/// The commands that the line `input` holds. An empty line holds none,
/// which is an error of its own.
pub open spec fn parse_line(input: Seq<char>) -> Result<Seq<CommandView>, CommandParseError> {
    if input.len() == 0 {
        Err(CommandParseError::EmptyInput)
    } else {
        parse_commands(input)
    }
}

/// The token at `from` ends at `to` where no separator lies between
/// and one follows or the text ends.
proof fn token_ends(text: Seq<char>, from: int, to: int)
    requires
        0 <= from <= to <= text.len(),
        forall|k: int| from <= k < to ==> !is_ascii_space(#[trigger] text[k]),
        to < text.len() ==> is_ascii_space(text[to]),
    ensures
        token_len(text.skip(from)) == to - from,
    decreases to - from,
{
    if from < to {
        token_ends(text, from + 1, to);
        assert(text.skip(from).drop_first() =~= text.skip(from + 1));
    }
}

/// The segment at `from` ends at `to` where no semicolon lies between
/// and one follows or the text ends.
proof fn segment_ends(text: Seq<char>, from: int, to: int)
    requires
        0 <= from <= to <= text.len(),
        forall|k: int| from <= k < to ==> #[trigger] text[k] != ';',
        to < text.len() ==> text[to] == ';',
    ensures
        segment_len(text.skip(from)) == to - from,
    decreases to - from,
{
    if from < to {
        segment_ends(text, from + 1, to);
        assert(text.skip(from).drop_first() =~= text.skip(from + 1));
    }
}

/// The arguments as they are shown, each behind a blank.
pub open spec fn args_text(args: Seq<Arg>) -> Seq<char>
    decreases args.len(),
{
    if args.len() == 0 {
        Seq::empty()
    } else {
        args_text(args.drop_last()) + seq![' '] + args.last().text()
    }
}

/// The prompt: the last command in brackets, where there is one, and
/// `>> `.
pub open spec fn prompt(last_command: Option<Command>) -> Seq<char> {
    match last_command {
        Some(command) => "["@ + command.text() + "] >> "@,
        None => ">> "@,
    }
}

/// Makes the prompt.
pub fn format_prompt(last_command: Option<&Command>) -> (text: String)
    ensures
        text@ == prompt(
            match last_command {
                Some(command) => Some(*command),
                None => None,
            },
        ),
{
    match last_command {
        Some(command) => {
            let mut text = String::new();
            text.append("[");
            text.append(command.to_text().as_str());
            text.append("] >> ");
            assert(text@ =~= "["@ + command.text() + "] >> "@);
            text
        },
        None => {
            let mut text = String::new();
            text.append(">> ");
            assert(text@ =~= ">> "@);
            text
        },
    }
}

impl Command {
    /// The command as it is shown: its name and its arguments, with
    /// blanks between.
    pub open spec fn text(self) -> Seq<char> {
        self.cmd@ + args_text(self.args@)
    }

    /// Shows the command.
    pub fn to_text(&self) -> (text: String)
        ensures
            text@ == self.text(),
    {
        let mut text = self.cmd.clone();
        let mut i: usize = 0;
        assert(self.args@.take(0) =~= Seq::empty());
        assert(text@ =~= self.cmd@ + args_text(self.args@.take(0)));
        while i < self.args.len()
            invariant
                i <= self.args.len(),
                text@ == self.cmd@ + args_text(self.args@.take(i as int)),
            decreases self.args.len() - i,
        {
            text.append(" ");
            text.append(self.args[i].to_text().as_str());
            proof {
                reveal_strlit(" ");
                assert(" "@ =~= seq![' ']);
                assert(self.args@.take(i + 1).drop_last() =~= self.args@.take(i as int));
                assert(text@ =~= self.cmd@ + args_text(self.args@.take(i + 1)));
            }
            i = i + 1;
        }
        assert(self.args@.take(self.args.len() as int) =~= self.args@);
        text
    }

    /// Reads the arguments of a command that takes `argnum` of them.
    fn parse_arguments(text: &str, argnum: usize) -> (r: Result<Vec<Arg>, CommandParseError>)
        ensures
            match parse_args(text@, argnum, 0) {
                Ok(views) => r matches Ok(args) && arg_views(args@) == views,
                Err(e) => r == Err::<Vec<Arg>, CommandParseError>(e),
            },
    {
        let len = text.unicode_len();
        let mut args: Vec<Arg> = Vec::new();
        let mut i: usize = 0;
        assert(text@.skip(0) =~= text@);
        assert(arg_views(args@) =~= Seq::empty());
        while i < len
            invariant
                i <= len == text@.len(),
                args@.len() <= i,
                parse_args(text@, argnum, 0) == after(
                    arg_views(args@),
                    parse_args(text@.skip(i as int), argnum, args@.len()),
                ),
            decreases len - i,
        {
            let ghost rest = text@.skip(i as int);
            if is_ascii_space(text.get_char(i)) {
                assert(rest.drop_first() =~= text@.skip(i + 1));
                i = i + 1;
            } else {
                let mut j: usize = i + 1;
                while j < len && !is_ascii_space(text.get_char(j))
                    invariant
                        i < j <= len == text@.len(),
                        forall|k: int| i <= k < j ==> !is_ascii_space(#[trigger] text@[k]),
                    decreases len - j,
                {
                    j = j + 1;
                }
                proof {
                    token_ends(text@, i as int, j as int);
                    assert(rest.take(j - i) =~= text@.subrange(i as int, j as int));
                    assert(rest.skip(j - i) =~= text@.skip(j as int));
                }
                if args.len() >= argnum {
                    return Err(
                        CommandParseError::InvalidArgumentNum {
                            expected: argnum,
                            got: args.len() + 1,
                        },
                    );
                }
                match Arg::parse(text.substring_char(i, j)) {
                    Some(arg) => {
                        let ghost before = args@;
                        args.push(arg);
                        proof {
                            assert(arg_views(args@) =~= arg_views(before) + seq![arg@]);
                            let more = parse_args(text@.skip(j as int), argnum, args@.len());
                            if let Ok(others) = more {
                                assert(arg_views(before) + (seq![arg@] + others) =~= arg_views(
                                    args@,
                                ) + others);
                            }
                        }
                    },
                    None => {
                        return Err(CommandParseError::InvalidArgument { index: args.len() });
                    },
                }
                i = j;
            }
        }
        assert(arg_views(args@) + Seq::<ArgView>::empty() =~= arg_views(args@));
        Ok(args)
    }

    /// Looks for the name of a command in `text`.
    fn find_name(text: &str) -> (found: Option<(CommandDelegate, usize, usize)>)
        ensures
            found == select(text@),
            found matches Some((_, start, end)) ==> {
                &&& start <= end <= encode_utf8(text@).len()
                &&& is_char_boundary(encode_utf8(text@), start as int)
                &&& is_char_boundary(encode_utf8(text@), end as int)
            },
    {
        if let Some((start, end)) = text::find(CommandDelegate::Cycle.pattern(), text) {
            Some((CommandDelegate::Cycle, start, end))
        } else if let Some((start, end)) = text::find(CommandDelegate::Step.pattern(), text) {
            Some((CommandDelegate::Step, start, end))
        } else if let Some((start, end)) = text::find(CommandDelegate::Run.pattern(), text) {
            Some((CommandDelegate::Run, start, end))
        } else {
            None
        }
    }

    /// Reads one command.
    fn parse_one(segment: &str) -> (r: Result<Command, CommandParseError>)
        ensures
            match parse_command(segment@) {
                Ok(view) => r matches Ok(command) && command@ == view,
                Err(e) => r matches Err(error) && error == e,
            },
    {
        let text = text::trim(segment);
        let Some((delegate, start, end)) = Self::find_name(text) else {
            return Err(CommandParseError::UnknownCommand);
        };
        let ghost bytes = encode_utf8(text@);
        proof {
            encode_utf8_valid_utf8(text@);
            valid_utf8_split(bytes, end as int);
        }
        let (head, rest) = text.split_at(end);
        proof {
            encode_utf8_decode_utf8(head@);
            encode_utf8_decode_utf8(rest@);
            assert(head.spec_bytes() == bytes.subrange(0, end as int));
            assert(rest@ == slice(text@, end as int, bytes.len() as int));
            boundary_in_prefix(bytes, start as int, end as int);
        }
        let (_, name) = head.split_at(start);
        proof {
            encode_utf8_decode_utf8(name@);
            assert(bytes.subrange(0, end as int).subrange(start as int, end as int)
                =~= bytes.subrange(start as int, end as int));
            assert(name@ == slice(text@, start as int, end as int));
        }
        match Self::parse_arguments(rest, delegate.argnum()) {
            Ok(args) => Ok(Command { cmd: name.to_owned(), delegate, args }),
            Err(e) => Err(e),
        }
    }

    /// Reads a line of commands, separated by semicolons. An empty line
    /// is an error of its own; otherwise the commands are read from left
    /// to right, and the first that is not understood gives the error.
    pub fn parse(input: &str) -> (r: Result<Vec<Command>, CommandParseError>)
        ensures
            match parse_line(input@) {
                Ok(views) => r matches Ok(commands) && command_views(commands@) == views,
                Err(e) => r matches Err(error) && error == e,
            },
    {
        if input.is_empty() {
            return Err(CommandParseError::EmptyInput);
        }
        let len = input.unicode_len();
        let mut output: Vec<Command> = Vec::new();
        let mut start: usize = 0;
        assert(input@.skip(0) =~= input@);
        assert(command_views(output@) =~= Seq::empty());
        loop
            invariant
                start <= len == input@.len(),
                len > 0,
                parse_commands(input@) == after(
                    command_views(output@),
                    parse_commands(input@.skip(start as int)),
                ),
            decreases len - start,
        {
            let mut end: usize = start;
            while end < len && input.get_char(end) != ';'
                invariant
                    start <= end <= len == input@.len(),
                    forall|k: int| start <= k < end ==> #[trigger] input@[k] != ';',
                decreases len - end,
            {
                end = end + 1;
            }
            let ghost rest = input@.skip(start as int);
            proof {
                segment_ends(input@, start as int, end as int);
                assert(rest.take(end - start) =~= input@.subrange(start as int, end as int));
                if end < len {
                    assert(rest.skip(end - start + 1) =~= input@.skip(end + 1));
                }
            }
            let command = match Self::parse_one(input.substring_char(start, end)) {
                Ok(command) => command,
                Err(e) => {
                    return Err(e);
                },
            };
            let ghost before = output@;
            output.push(command);
            proof {
                assert(command_views(output@) =~= command_views(before) + seq![command@]);
                if end < len {
                    let more = parse_commands(input@.skip(end + 1));
                    if let Ok(others) = more {
                        assert(command_views(before) + (seq![command@] + others)
                            =~= command_views(output@) + others);
                    }
                }
            }
            if end >= len {
                return Ok(output);
            }
            start = end + 1;
        }
    }
}

/// A character boundary of a text is one of each of its prefixes that
/// reach it.
proof fn boundary_in_prefix(bytes: Seq<u8>, index: int, end: int)
    requires
        vstd::utf8::valid_utf8(bytes),
        0 <= index <= end <= bytes.len(),
        is_char_boundary(bytes, index),
        is_char_boundary(bytes, end),
    ensures
        is_char_boundary(bytes.subrange(0, end), index),
{
    valid_utf8_split(bytes, end);
    let prefix = bytes.subrange(0, end);
    if index == end {
        vstd::utf8::is_char_boundary_start_end_of_seq(prefix);
    } else {
        vstd::utf8::is_char_boundary_iff_not_is_continuation_byte(bytes, index);
        vstd::utf8::is_char_boundary_iff_not_is_continuation_byte(prefix, index);
    }
}

} // verus!
