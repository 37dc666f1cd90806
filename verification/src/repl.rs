use vstd::prelude::*;

use crate::ast::{Expression, GenericTelescope, Value};
use crate::check::expr::check_s;
use crate::check::tcm::{empty_tcs, Gamma, TCE, TCS};
use crate::check::check_contextual_fuel;
use crate::eval::MAX_FUEL;
use crate::list::List;
use crate::pretty::{telescope_text, value_text, write_value};
use crate::strings::{push_str, str_eq};

verus! {

/// The two kinds of interactive sessions: with line editing, completion and history
/// (rich), or reading plain lines from the standard input.
#[derive(Copy, Clone, Debug, PartialEq, Eq, Structural, PartialOrd, Ord, Hash)]
pub enum ReplEnvType {
    Plain,
    Rich,
}

/// How a session kind is printed.
pub open spec fn env_type_text(t: ReplEnvType) -> Seq<char> {
    match t {
        ReplEnvType::Plain => "PLAIN"@,
        ReplEnvType::Rich => "RICH"@,
    }
}

impl ReplEnvType {
    /// `PLAIN` or `RICH`.
    pub fn to_string(&self) -> (r: String)
        ensures
            r@ == env_type_text(*self),
    {
        let mut out = String::new();
        match self {
            ReplEnvType::Plain => push_str(&mut out, "PLAIN"),
            ReplEnvType::Rich => push_str(&mut out, "RICH"),
        }
        out
    }
}

/// The name of the history file of a language's interactive session.
pub open spec fn history_file_name(lang_name: Seq<char>) -> Seq<char> {
    "."@ + lang_name + "_repl_history"@
}

/// The history file inside a directory: the directory, a `/` unless it is empty or
/// already ends with one, and the file name.
pub open spec fn history_file_path(config_dir: Seq<char>, lang_name: Seq<char>) -> Seq<char> {
    if config_dir.len() == 0 || config_dir.last() == '/' {
        config_dir + history_file_name(lang_name)
    } else {
        config_dir + "/"@ + history_file_name(lang_name)
    }
}

/// The path of the history file of `lang_name`'s interactive session inside the
/// configuration directory `config_dir`.
pub fn history_file(config_dir: &str, lang_name: &str) -> (r: String)
    ensures
        r@ == history_file_path(config_dir@, lang_name@),
{
    let mut out = String::new();
    push_str(&mut out, config_dir);
    let n = config_dir.unicode_len();
    if n > 0 && config_dir.get_char(n - 1) != '/' {
        push_str(&mut out, "/");
    }
    push_str(&mut out, ".");
    push_str(&mut out, lang_name);
    push_str(&mut out, "_repl_history");
    out
}

/// Unicode white space, as `char::is_whitespace` has it.
pub open spec fn is_white_space(c: char) -> bool {
    let x = c as u32;
    (0x9 <= x && x <= 0xd) || x == 0x20 || x == 0x85 || x == 0xa0 || x == 0x1680 || (0x2000 <= x && x <= 0x200a)
        || x == 0x2028 || x == 0x2029 || x == 0x202f || x == 0x205f || x == 0x3000
}

fn white_space(c: char) -> (r: bool)
    ensures
        r == is_white_space(c),
{
    let x = c as u32;
    (0x9 <= x && x <= 0xd) || x == 0x20 || x == 0x85 || x == 0xa0 || x == 0x1680 || (0x2000 <= x && x <= 0x200a)
        || x == 0x2028 || x == 0x2029 || x == 0x202f || x == 0x205f || x == 0x3000
}

/// The index of the first character at or after `i` that is not white space.
pub open spec fn skip_white_space(s: Seq<char>, i: nat) -> nat
    decreases s.len() - i,
{
    if i < s.len() && is_white_space(s[i as int]) {
        skip_white_space(s, i + 1)
    } else {
        i
    }
}

/// The end of `s.take(j)` without its trailing white space.
pub open spec fn drop_white_space_back(s: Seq<char>, j: nat) -> nat
    decreases j,
{
    if 0 < j <= s.len() && is_white_space(s[j - 1]) {
        drop_white_space_back(s, (j - 1) as nat)
    } else {
        j
    }
}

/// `s` without leading white space.
pub open spec fn trim_start(s: Seq<char>) -> Seq<char> {
    s.subrange(skip_white_space(s, 0) as int, s.len() as int)
}

/// `s` without leading and trailing white space.
pub open spec fn trim(s: Seq<char>) -> Seq<char> {
    let a = skip_white_space(s, 0);
    let b = drop_white_space_back(s, s.len());
    if a < b {
        s.subrange(a as int, b as int)
    } else {
        Seq::empty()
    }
}

/// Whether `s` begins with `prefix`.
pub open spec fn starts_with(s: Seq<char>, prefix: Seq<char>) -> bool {
    prefix.len() <= s.len() && s.subrange(0, prefix.len() as int) == prefix
}

/// The commands of the interactive session.
#[derive(Copy, Clone, Debug, PartialEq, Eq, Structural)]
pub enum CommandKind {
    /// `:quit`
    Quit,
    /// An empty line.
    Nothing,
    /// `:gamma`: shows the typing context.
    Gamma,
    /// `:context`: shows the evaluation context.
    Context,
    /// `:debug`: debug-prints the evaluation context.
    Debug,
    /// `:help`
    Help,
    /// `:load <FILE>`
    Load,
    /// `:type <EXPR>`: infers and normalizes the type.
    Type,
    /// `:infer <EXPR>`
    Infer,
    /// `:infer-debug <EXPR>`
    InferDebug,
    /// `:normalize <EXPR>`
    Normalize,
    /// `:eval <EXPR>`
    Eval,
    /// `:eval-debug <EXPR>`
    EvalDebug,
    /// `:level <EXPR>`
    Level,
    /// `:lexical <EXPR>`
    Lexical,
    /// Another line that begins with `:`.
    Unrecognized,
    /// Code to check and add to the session.
    Code,
}

/// A line of the interactive session: what it asks for, and its argument (the
/// text after the command, the whole line for code and unknown commands, empty
/// otherwise).
#[derive(Debug)]
pub struct ReplCommand {
    pub kind: CommandKind,
    pub argument: String,
}

/// The argument of a command: what follows the command's name, without leading
/// white space.
pub open spec fn command_argument(line: Seq<char>, command: Seq<char>) -> Seq<char> {
    trim_start(line.subrange(command.len() as int, line.len() as int))
}

/// What a line of the interactive session asks for, once trimmed.
pub open spec fn classify(line: Seq<char>) -> (CommandKind, Seq<char>) {
    let t = trim(line);
    if t == ":quit"@ {
        (CommandKind::Quit, Seq::empty())
    } else if t.len() == 0 {
        (CommandKind::Nothing, Seq::empty())
    } else if t == ":gamma"@ {
        (CommandKind::Gamma, Seq::empty())
    } else if t == ":context"@ {
        (CommandKind::Context, Seq::empty())
    } else if t == ":debug"@ {
        (CommandKind::Debug, Seq::empty())
    } else if t == ":help"@ {
        (CommandKind::Help, Seq::empty())
    } else if starts_with(t, ":load "@) {
        (CommandKind::Load, command_argument(t, ":load"@))
    } else if starts_with(t, ":type "@) {
        (CommandKind::Type, command_argument(t, ":type"@))
    } else if starts_with(t, ":infer "@) {
        (CommandKind::Infer, command_argument(t, ":infer"@))
    } else if starts_with(t, ":infer-debug "@) {
        (CommandKind::InferDebug, command_argument(t, ":infer-debug"@))
    } else if starts_with(t, ":normalize "@) {
        (CommandKind::Normalize, command_argument(t, ":normalize"@))
    } else if starts_with(t, ":eval "@) {
        (CommandKind::Eval, command_argument(t, ":eval"@))
    } else if starts_with(t, ":eval-debug "@) {
        (CommandKind::EvalDebug, command_argument(t, ":eval-debug"@))
    } else if starts_with(t, ":level "@) {
        (CommandKind::Level, command_argument(t, ":level"@))
    } else if starts_with(t, ":lexical "@) {
        (CommandKind::Lexical, command_argument(t, ":lexical"@))
    } else if t[0] == ':' {
        (CommandKind::Unrecognized, t)
    } else {
        (CommandKind::Code, t)
    }
}

/// `s` without leading and trailing white space.
pub fn trim_str(s: &str) -> (r: &str)
    ensures
        r@ == trim(s@),
{
    let n = s.unicode_len();
    let mut a: usize = 0;
    while a < n && white_space(s.get_char(a))
        invariant
            n == s@.len(),
            a <= n,
            skip_white_space(s@, a as nat) == skip_white_space(s@, 0),
        decreases n - a,
    {
        a = a + 1;
    }
    let mut b: usize = n;
    while b > 0 && white_space(s.get_char(b - 1))
        invariant
            n == s@.len(),
            b <= n,
            drop_white_space_back(s@, b as nat) == drop_white_space_back(s@, n as nat),
        decreases b,
    {
        b = b - 1;
    }
    if a < b {
        s.substring_char(a, b)
    } else {
        s.substring_char(0, 0)
    }
}

fn trim_start_str(s: &str) -> (r: &str)
    ensures
        r@ == trim_start(s@),
{
    let n = s.unicode_len();
    let mut a: usize = 0;
    while a < n && white_space(s.get_char(a))
        invariant
            n == s@.len(),
            a <= n,
            skip_white_space(s@, a as nat) == skip_white_space(s@, 0),
        decreases n - a,
    {
        a = a + 1;
    }
    s.substring_char(a, n)
}

fn starts_with_str(s: &str, prefix: &str) -> (r: bool)
    ensures
        r == starts_with(s@, prefix@),
{
    let n = s.unicode_len();
    let m = prefix.unicode_len();
    m <= n && str_eq(s.substring_char(0, m), prefix)
}

fn argument_of(line: &str, command: &str) -> (r: String)
    requires
        command@.len() <= line@.len(),
    ensures
        r@ == command_argument(line@, command@),
{
    let n = line.unicode_len();
    let m = command.unicode_len();
    let rest = line.substring_char(m, n);
    let mut out = String::new();
    push_str(&mut out, trim_start_str(rest));
    out
}

fn command(kind: CommandKind, argument: &str) -> (r: ReplCommand)
    ensures
        r.kind == kind,
        r.argument@ == argument@,
{
    let mut out = String::new();
    push_str(&mut out, argument);
    ReplCommand { kind, argument: out }
}

/// Reads a line of the interactive session: what it asks for, and its argument.
pub fn parse_command(line: &str) -> (r: ReplCommand)
    ensures
        (r.kind, r.argument@) == classify(line@),
{
    let t = trim_str(line);
    proof {
        reveal_strlit("");
    }
    if str_eq(t, ":quit") {
        command(CommandKind::Quit, "")
    } else if t.unicode_len() == 0 {
        command(CommandKind::Nothing, "")
    } else if str_eq(t, ":gamma") {
        command(CommandKind::Gamma, "")
    } else if str_eq(t, ":context") {
        command(CommandKind::Context, "")
    } else if str_eq(t, ":debug") {
        command(CommandKind::Debug, "")
    } else if str_eq(t, ":help") {
        command(CommandKind::Help, "")
    } else if starts_with_str(t, ":load ") {
        proof {
            reveal_strlit(":load");
            reveal_strlit(":load ");
        }
        ReplCommand { kind: CommandKind::Load, argument: argument_of(t, ":load") }
    } else if starts_with_str(t, ":type ") {
        proof {
            reveal_strlit(":type");
            reveal_strlit(":type ");
        }
        ReplCommand { kind: CommandKind::Type, argument: argument_of(t, ":type") }
    } else if starts_with_str(t, ":infer ") {
        proof {
            reveal_strlit(":infer");
            reveal_strlit(":infer ");
        }
        ReplCommand { kind: CommandKind::Infer, argument: argument_of(t, ":infer") }
    } else if starts_with_str(t, ":infer-debug ") {
        proof {
            reveal_strlit(":infer-debug");
            reveal_strlit(":infer-debug ");
        }
        ReplCommand { kind: CommandKind::InferDebug, argument: argument_of(t, ":infer-debug") }
    } else if starts_with_str(t, ":normalize ") {
        proof {
            reveal_strlit(":normalize");
            reveal_strlit(":normalize ");
        }
        ReplCommand { kind: CommandKind::Normalize, argument: argument_of(t, ":normalize") }
    } else if starts_with_str(t, ":eval ") {
        proof {
            reveal_strlit(":eval");
            reveal_strlit(":eval ");
        }
        ReplCommand { kind: CommandKind::Eval, argument: argument_of(t, ":eval") }
    } else if starts_with_str(t, ":eval-debug ") {
        proof {
            reveal_strlit(":eval-debug");
            reveal_strlit(":eval-debug ");
        }
        ReplCommand { kind: CommandKind::EvalDebug, argument: argument_of(t, ":eval-debug") }
    } else if starts_with_str(t, ":level ") {
        proof {
            reveal_strlit(":level");
            reveal_strlit(":level ");
        }
        ReplCommand { kind: CommandKind::Level, argument: argument_of(t, ":level") }
    } else if starts_with_str(t, ":lexical ") {
        proof {
            reveal_strlit(":lexical");
            reveal_strlit(":lexical ");
        }
        ReplCommand { kind: CommandKind::Lexical, argument: argument_of(t, ":lexical") }
    } else if t.get_char(0) == ':' {
        command(CommandKind::Unrecognized, t)
    } else {
        command(CommandKind::Code, t)
    }
}


/// The entries of a typing context, one per line: `name: type`.
pub open spec fn gamma_lines(gamma: Gamma) -> Seq<char>
    decreases gamma,
{
    match gamma {
        List::Nil => Seq::empty(),
        List::Cons(entry, rest) => entry.0@ + ": "@ + value_text(*entry.1) + "\n"@ + gamma_lines(*rest),
    }
}

/// What the session shows of a typing context.
pub open spec fn gamma_report_text(gamma: Gamma) -> Seq<char> {
    match gamma {
        List::Nil => "Current Gamma is empty.\n"@,
        _ => "Current Gamma:\n"@ + gamma_lines(gamma),
    }
}

/// What the session shows of an evaluation context.
pub open spec fn telescope_report_text(context: GenericTelescope<Value>) -> Seq<char> {
    match context {
        GenericTelescope::Nil => "Current Telescope is empty.\n"@,
        _ => "Current Telescope:\n"@ + telescope_text(context) + "\n"@,
    }
}

fn write_gamma_lines(out: &mut String, gamma: &Gamma)
    ensures
        final(out)@ == old(out)@ + gamma_lines(*gamma),
    decreases gamma,
{
    if let List::Cons(entry, rest) = gamma {
        push_str(out, entry.0.as_str());
        push_str(out, ": ");
        write_value(out, &entry.1);
        push_str(out, "\n");
        write_gamma_lines(out, rest);
    }
}

/// Shows a typing context: each name with its type.
pub fn gamma_report(gamma: &Gamma) -> (r: String)
    ensures
        r@ == gamma_report_text(*gamma),
{
    let mut out = String::new();
    match gamma {
        List::Nil => push_str(&mut out, "Current Gamma is empty.\n"),
        _ => {
            push_str(&mut out, "Current Gamma:\n");
            write_gamma_lines(&mut out, gamma);
        },
    }
    out
}

/// Shows an evaluation context: each binding, the latest first.
pub fn telescope_report(context: &GenericTelescope<Value>) -> (r: String)
    ensures
        r@ == telescope_report_text(*context),
{
    let mut out = String::new();
    match context {
        GenericTelescope::Nil => push_str(&mut out, "Current Telescope is empty.\n"),
        _ => {
            push_str(&mut out, "Current Telescope:\n");
            push_str(&mut out, context.to_string().as_str());
            push_str(&mut out, "\n");
        },
    }
    out
}

/// Adds code to a session, with at most `fuel` nested steps: the state after
/// checking it where it checks; where it does not, the error, and the session starts
/// over from the empty state; `None` where the check does not finish.
pub fn update_tcs_fuel(tcs: TCS, expression: Expression, fuel: u64) -> (r: Option<(TCS, Option<TCE>)>)
    ensures
        r == match check_s(0, tcs, expression, Value::One, fuel as nat) {
            Some(Ok(checked)) => Some((checked, None)),
            Some(Err(e)) => Some((empty_tcs(), Some(e))),
            None => None::<(TCS, Option<TCE>)>,
        },
{
    match check_contextual_fuel(tcs, expression, fuel) {
        Some(Ok(checked)) => Some((checked, None)),
        Some(Err(e)) => Some((TCS::default(), Some(e))),
        None => None,
    }
}

/// Adds code to a session: the state after checking it where it checks; where it
/// does not, the error, and the session starts over from the empty state.
pub fn update_tcs(tcs: TCS, expression: Expression) -> (r: (TCS, Option<TCE>))
    requires
        check_s(0, tcs, expression, Value::One, MAX_FUEL as nat) is Some,
    ensures
        match check_s(0, tcs, expression, Value::One, MAX_FUEL as nat) {
            Some(Ok(checked)) => r.0 == checked && r.1 is None,
            Some(Err(e)) => r.0 == empty_tcs() && r.1 == Some(e),
            None => false,
        },
{
    match update_tcs_fuel(tcs, expression, MAX_FUEL) {
        Some(r) => r,
        None => vstd::pervasive::unreached(),
    }
}

/// The commands that the rich session completes and hints, in the order offered.
pub open spec fn command_names() -> Seq<Seq<char>> {
    seq![
        ":quit"@,
        ":gamma"@,
        ":debug"@,
        ":context"@,
        ":help"@,
        ":load"@,
        ":type"@,
        ":infer"@,
        ":infer-debug"@,
        ":normalize"@,
        ":eval"@,
        ":eval-debug"@,
        ":level"@,
        ":lexical"@,
    ]
}

/// The characters of each string.
pub open spec fn strings_view(v: Seq<String>) -> Seq<Seq<char>> {
    v.map_values(|s: String| s@)
}

/// The commands that the rich session completes and hints.
pub fn all_commands() -> (r: Vec<String>)
    ensures
        strings_view(r@) == command_names(),
{
    let mut out: Vec<String> = Vec::new();
    out.push(string_of(":quit"));
    out.push(string_of(":gamma"));
    out.push(string_of(":debug"));
    out.push(string_of(":context"));
    out.push(string_of(":help"));
    out.push(string_of(":load"));
    out.push(string_of(":type"));
    out.push(string_of(":infer"));
    out.push(string_of(":infer-debug"));
    out.push(string_of(":normalize"));
    out.push(string_of(":eval"));
    out.push(string_of(":eval-debug"));
    out.push(string_of(":level"));
    out.push(string_of(":lexical"));
    proof {
        assert(strings_view(out@) =~= command_names());
    }
    out
}

fn string_of(s: &str) -> (r: String)
    ensures
        r@ == s@,
{
    let mut out = String::new();
    push_str(&mut out, s);
    out
}

/// Whether the rich session completes a file name on this line (after `:load` or
/// `:l`).
pub open spec fn completes_file_name(line: Seq<char>) -> bool {
    starts_with(line, ":load "@) || starts_with(line, ":l "@)
}

/// Whether the rich session completes a file name on this line.
pub fn wants_file_completion(line: &str) -> (r: bool)
    ensures
        r == completes_file_name(line@),
{
    starts_with_str(line, ":load ") || starts_with_str(line, ":l ")
}

/// Where the word to complete begins: the first character that is not white space
/// (0 on a blank line).
pub open spec fn completion_start(line: Seq<char>) -> nat {
    let i = skip_white_space(line, 0);
    if i < line.len() {
        i
    } else {
        0
    }
}

/// The word to complete: from its start up to the cursor, or to the end of the line
/// where the cursor stands before the start.
pub open spec fn completion_word(line: Seq<char>, pos: nat) -> Seq<char> {
    let start = completion_start(line);
    if pos > start {
        line.subrange(start as int, pos as int)
    } else {
        line.subrange(start as int, line.len() as int)
    }
}

/// The commands that begin with `prefix`, in their order.
pub open spec fn commands_with_prefix(commands: Seq<Seq<char>>, prefix: Seq<char>) -> Seq<Seq<char>>
    decreases commands.len(),
{
    if commands.len() == 0 {
        Seq::empty()
    } else {
        commands_with_prefix(commands.drop_last(), prefix) + if starts_with(commands.last(), prefix) {
            seq![commands.last()]
        } else {
            Seq::empty()
        }
    }
}

/// Completes a command: where the word begins, and the commands that begin with it.
/// `pos` is the cursor, counted in characters.
pub fn complete_command(commands: &Vec<String>, line: &str, pos: usize) -> (r: (usize, Vec<String>))
    requires
        pos <= line@.len(),
    ensures
        r.0 == completion_start(line@),
        strings_view(r.1@) == commands_with_prefix(strings_view(commands@), completion_word(line@, pos as nat)),
{
    let n = line.unicode_len();
    let mut a: usize = 0;
    while a < n && white_space(line.get_char(a))
        invariant
            n == line@.len(),
            a <= n,
            skip_white_space(line@, a as nat) == skip_white_space(line@, 0),
        decreases n - a,
    {
        a = a + 1;
    }
    let start = if a < n {
        a
    } else {
        0
    };
    let word = if pos > start {
        line.substring_char(start, pos)
    } else {
        line.substring_char(start, n)
    };
    let mut out: Vec<String> = Vec::new();
    let mut i: usize = 0;
    while i < commands.len()
        invariant
            i <= commands@.len(),
            word@ == completion_word(line@, pos as nat),
            strings_view(out@) == commands_with_prefix(strings_view(commands@).take(i as int), word@),
        decreases commands.len() - i,
    {
        let candidate = &commands[i];
        proof {
            assert(strings_view(commands@).take(i + 1).drop_last() =~= strings_view(commands@).take(i as int));
        }
        if starts_with_str(candidate.as_str(), word) {
            out.push(candidate.clone());
            proof {
                assert(strings_view(out@) =~= commands_with_prefix(strings_view(commands@).take(i + 1), word@));
            }
        } else {
            proof {
                assert(strings_view(out@) =~= commands_with_prefix(strings_view(commands@).take(i + 1), word@));
            }
        }
        i = i + 1;
    }
    proof {
        assert(strings_view(commands@).take(commands@.len() as int) =~= strings_view(commands@));
    }
    (start, out)
}

/// The first command that begins with `line`.
pub open spec fn first_command_with_prefix(commands: Seq<Seq<char>>, line: Seq<char>) -> Option<Seq<char>>
    decreases commands.len(),
{
    if commands.len() == 0 {
        None
    } else if starts_with(commands[0], line) {
        Some(commands[0])
    } else {
        first_command_with_prefix(commands.drop_first(), line)
    }
}

/// The hint of the rich session: the rest, after the cursor, of the first command
/// that begins with the line; none on lines shorter than two characters.
pub open spec fn hint_text(commands: Seq<Seq<char>>, line: Seq<char>, pos: nat) -> Option<Seq<char>> {
    if line.len() < 2 {
        None
    } else {
        match first_command_with_prefix(commands, line) {
            Some(c) => Some(c.subrange(pos as int, c.len() as int)),
            None => None,
        }
    }
}

/// Hints the rest of a command. `pos` is the cursor, counted in characters.
pub fn command_hint(commands: &Vec<String>, line: &str, pos: usize) -> (r: Option<String>)
    requires
        pos <= line@.len(),
    ensures
        match r {
            Some(s) => hint_text(strings_view(commands@), line@, pos as nat) == Some(s@),
            None => hint_text(strings_view(commands@), line@, pos as nat) is None,
        },
{
    if line.unicode_len() < 2 {
        return None;
    }
    let mut i: usize = 0;
    proof {
        assert(strings_view(commands@).skip(0) =~= strings_view(commands@));
    }
    while i < commands.len()
        invariant
            i <= commands@.len(),
            pos <= line@.len(),
            line@.len() >= 2,
            first_command_with_prefix(strings_view(commands@), line@) == first_command_with_prefix(
                strings_view(commands@).skip(i as int),
                line@,
            ),
        decreases commands.len() - i,
    {
        let candidate = commands[i].as_str();
        proof {
            assert(strings_view(commands@).skip(i as int)[0] == candidate@);
            assert(strings_view(commands@).skip(i as int).drop_first() =~= strings_view(commands@).skip(i + 1));
        }
        if starts_with_str(candidate, line) {
            let n = candidate.unicode_len();
            let mut out = String::new();
            push_str(&mut out, candidate.substring_char(pos, n));
            return Some(out);
        }
        i = i + 1;
    }
    proof {
        assert(strings_view(commands@).skip(i as int).len() == 0);
    }
    None
}

/// `s` followed by spaces up to `width` characters.
pub open spec fn padded(s: Seq<char>, width: nat) -> Seq<char> {
    if s.len() >= width {
        s
    } else {
        s + Seq::new((width - s.len()) as nat, |i: int| ' ')
    }
}

/// A line of the help: the command padded to 20 characters, a space and what it does.
pub open spec fn help_line(command: Seq<char>, description: Seq<char>) -> Seq<char> {
    padded(command, 20) + " "@ + description + "\n"@
}

/// The list of commands that `:help` shows.
pub open spec fn help_text() -> Seq<char> {
    "Commands:\n"@ + help_line(":quit"@, "Quit the REPL."@) + help_line(":gamma"@, "Show current typing context."@)
        + help_line(":context"@, "Show current value context."@) + help_line(
        ":debug"@,
        "Show debug-printed value context."@,
    ) + help_line(":level <EXPR>"@, "Show the level of the expression, if it's a type."@) + help_line(
        ":lexical <EXPR>"@,
        "Show the lexical information of the expression."@,
    ) + help_line(":load <FILE>"@, "Load an external file."@) + help_line(
        ":infer <EXPR>"@,
        "Try to infer the type of the given expression."@,
    ) + help_line(":infer-debug <EXPR>"@, "Try to infer the type of the given expression and debug-print it."@)
        + help_line(":type <EXPR>"@, "Try to infer and normalize the type of the given expression."@) + help_line(
        ":eval <EXPR>"@,
        "Try to evaluate the given expression."@,
    ) + help_line(":eval-debug <EXPR>"@, "Try to evaluate the given expression and debug-print it."@) + help_line(
        ":normalize <EXPR>"@,
        "Try to evaluate and normalize the type of the given expression."@,
    )
}

fn write_help_line(out: &mut String, command: &str, description: &str)
    ensures
        final(out)@ == old(out)@ + help_line(command@, description@),
{
    push_str(out, command);
    let mut count: usize = command.unicode_len();
    proof {
        assert(out@ =~= old(out)@ + command@ + Seq::new((count - command@.len()) as nat, |i: int| ' '));
    }
    while count < 20
        invariant
            command@.len() <= count,
            count <= 20 || count == command@.len(),
            out@ == old(out)@ + command@ + Seq::new((count - command@.len()) as nat, |i: int| ' '),
        decreases 20 - count,
    {
        push_str(out, " ");
        count = count + 1;
        proof {
            reveal_strlit(" ");
            assert(out@ =~= old(out)@ + command@ + Seq::new((count - command@.len()) as nat, |i: int| ' '));
        }
    }
    proof {
        assert(out@ =~= old(out)@ + padded(command@, 20));
    }
    push_str(out, " ");
    push_str(out, description);
    push_str(out, "\n");
}

/// The list of commands that `:help` shows.
pub fn help() -> (r: String)
    ensures
        r@ == help_text(),
{
    let mut out = String::new();
    push_str(&mut out, "Commands:\n");
    write_help_line(&mut out, ":quit", "Quit the REPL.");
    write_help_line(&mut out, ":gamma", "Show current typing context.");
    write_help_line(&mut out, ":context", "Show current value context.");
    write_help_line(&mut out, ":debug", "Show debug-printed value context.");
    write_help_line(&mut out, ":level <EXPR>", "Show the level of the expression, if it's a type.");
    write_help_line(&mut out, ":lexical <EXPR>", "Show the lexical information of the expression.");
    write_help_line(&mut out, ":load <FILE>", "Load an external file.");
    write_help_line(&mut out, ":infer <EXPR>", "Try to infer the type of the given expression.");
    write_help_line(&mut out, ":infer-debug <EXPR>", "Try to infer the type of the given expression and debug-print it.");
    write_help_line(&mut out, ":type <EXPR>", "Try to infer and normalize the type of the given expression.");
    write_help_line(&mut out, ":eval <EXPR>", "Try to evaluate the given expression.");
    write_help_line(&mut out, ":eval-debug <EXPR>", "Try to evaluate the given expression and debug-print it.");
    write_help_line(&mut out, ":normalize <EXPR>", "Try to evaluate and normalize the type of the given expression.");
    out
}

/// The greeting of a session of the given kind, for the given version.
pub open spec fn welcome_text(version: Seq<char>, mode: ReplEnvType) -> Seq<char> {
    "Interactive minittc "@ + version + "\nSource code: https://github.com/owo-lang/minitt-rs\nIssue tracker: https://github.com/owo-lang/minitt-rs/issues/new\n\nThe REPL has two modes: the RICH mode and the PLAIN mode.\nCompletion, history command, hints and (in the future) colored output are available in the rich mode, but does not work entirely under Windows PowerShell ISE and Mintty (Cygwin, MinGW and (possibly, depends on your installation) git-bash).\nYou are using the "@
        + env_type_text(mode) + " mode.\n"@
}

/// The greeting of a session of the given kind, for the given version.
pub fn welcome_message(version: &str, mode: ReplEnvType) -> (r: String)
    ensures
        r@ == welcome_text(version@, mode),
{
    let mut out = String::new();
    push_str(&mut out, "Interactive minittc ");
    push_str(&mut out, version);
    push_str(&mut out, "\nSource code: https://github.com/owo-lang/minitt-rs\nIssue tracker: https://github.com/owo-lang/minitt-rs/issues/new\n\nThe REPL has two modes: the RICH mode and the PLAIN mode.\nCompletion, history command, hints and (in the future) colored output are available in the rich mode, but does not work entirely under Windows PowerShell ISE and Mintty (Cygwin, MinGW and (possibly, depends on your installation) git-bash).\nYou are using the ");
    push_str(&mut out, mode.to_string().as_str());
    push_str(&mut out, " mode.\n");
    out
}


/// What the session does after reading a line, besides its next state.
#[derive(Debug)]
pub enum ReplAction {
    /// End the session.
    Stop,
    /// Nothing to do.
    Nothing,
    /// Print this text.
    Print(String),
    /// Print the evaluation context for debugging.
    DebugContext,
    /// Print the greeting and the list of commands.
    ShowHelp,
    /// Read, parse and check the program in this file.
    Load(String),
    /// Parse this text and answer the command of this kind about it (inferring,
    /// evaluating, normalizing, levels, or adding code to the session).
    Run(CommandKind, String),
}

/// The message for a line that starts with `:` but names no command.
pub open spec fn unrecognized_text(line: Seq<char>) -> Seq<char> {
    "Unrecognized command: "@ + line + "\nMaybe you want to get some `:help`?\n"@
}

/// One step of the session: from its state and a command, the next state (`None`
/// ends the session) and what to do. Commands that need code parsed keep the state;
/// the state then changes only where checked code is added (`update_tcs_fuel`).
pub fn repl_step(tcs: TCS, command: ReplCommand) -> (r: (Option<TCS>, ReplAction))
    ensures
        command.kind == CommandKind::Quit ==> r.0 is None && r.1 is Stop,
        command.kind != CommandKind::Quit ==> r.0 == Some(tcs),
        command.kind == CommandKind::Nothing ==> r.1 is Nothing,
        command.kind == CommandKind::Gamma ==> (r.1 matches ReplAction::Print(t) && t@ == gamma_report_text(tcs.gamma)),
        command.kind == CommandKind::Context ==> (r.1 matches ReplAction::Print(t) && t@ == telescope_report_text(*tcs.context)),
        command.kind == CommandKind::Debug ==> r.1 is DebugContext,
        command.kind == CommandKind::Help ==> r.1 is ShowHelp,
        command.kind == CommandKind::Load ==> (r.1 matches ReplAction::Load(f) && f@ == command.argument@),
        command.kind == CommandKind::Unrecognized ==> (r.1 matches ReplAction::Print(t) && t@ == unrecognized_text(command.argument@)),
        (command.kind == CommandKind::Type || command.kind == CommandKind::Infer || command.kind == CommandKind::InferDebug
            || command.kind == CommandKind::Normalize || command.kind == CommandKind::Eval || command.kind
            == CommandKind::EvalDebug || command.kind == CommandKind::Level || command.kind == CommandKind::Lexical
            || command.kind == CommandKind::Code) ==> (r.1 matches ReplAction::Run(k, a) && k == command.kind
            && a@ == command.argument@),
{
    match command.kind {
        CommandKind::Quit => (None, ReplAction::Stop),
        CommandKind::Nothing => (Some(tcs), ReplAction::Nothing),
        CommandKind::Gamma => {
            let text = gamma_report(&tcs.gamma);
            (Some(tcs), ReplAction::Print(text))
        },
        CommandKind::Context => {
            let text = telescope_report(&tcs.context);
            (Some(tcs), ReplAction::Print(text))
        },
        CommandKind::Debug => (Some(tcs), ReplAction::DebugContext),
        CommandKind::Help => (Some(tcs), ReplAction::ShowHelp),
        CommandKind::Load => (Some(tcs), ReplAction::Load(command.argument)),
        CommandKind::Unrecognized => {
            let mut text = String::new();
            push_str(&mut text, "Unrecognized command: ");
            push_str(&mut text, command.argument.as_str());
            push_str(&mut text, "\nMaybe you want to get some `:help`?\n");
            (Some(tcs), ReplAction::Print(text))
        },
        kind => (Some(tcs), ReplAction::Run(kind, command.argument)),
    }
}


/// The session ends on `:quit` and on nothing else; every other line keeps the
/// state, which changes only where checked code is added afterwards.
pub proof fn lemma_session_ends_only_on_quit(line: Seq<char>)
    ensures
        (classify(line).0 == CommandKind::Quit) <==> trim(line) == ":quit"@,
        trim(line).len() == 0 ==> classify(line).0 == CommandKind::Nothing,
{
    reveal_strlit(":quit");
}

} // verus!
