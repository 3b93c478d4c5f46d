//! The interactive session: the input line buffer, the key-event state
//! machine, and the texts the session emits.

use vstd::prelude::*;
use crate::tokens::{tokens_of, views_of, tokenize};

verus! {

/// What one submitted line asks the caller to do: nothing, for a blank line,
/// or run a program with arguments.
#[derive(Debug)]
pub enum ExecPlan {
    /// The line had no tokens: spawn nothing, print nothing.
    Skip,
    /// Run the program named by the first token with the remaining tokens as
    /// its arguments, verbatim.
    Run { program: Vec<char>, args: Vec<Vec<char>> },
}

/// `p` is the one plan a line with tokens `tokens_of(line)` gives rise to:
/// `Skip` exactly when there are no tokens, otherwise the first token as the
/// program and the rest as its arguments.
pub open spec fn plan_for(p: ExecPlan, line: Seq<char>) -> bool {
    match p {
        ExecPlan::Skip => tokens_of(line).len() == 0,
        ExecPlan::Run { program, args } => {
            &&& tokens_of(line).len() > 0
            &&& program@ == tokens_of(line)[0]
            &&& views_of(args@) == tokens_of(line).skip(1)
        },
    }
}

/// Turns one submitted line into its execution plan: trim and split on
/// whitespace; no tokens means nothing to run, otherwise the first token is
/// the program and the rest are its arguments.
pub fn plan_command(line: &Vec<char>) -> (p: ExecPlan)
    ensures
        plan_for(p, line@),
{
    let mut toks = tokenize(line);
    if toks.len() == 0 {
        ExecPlan::Skip
    } else {
        let program = toks.remove(0);
        proof {
            assert(program@ == tokens_of(line@)[0]);
            assert(views_of(toks@) =~~= tokens_of(line@).skip(1));
        }
        ExecPlan::Run { program, args: toks }
    }
}

/// A line made of whitespace alone (the empty line included) plans nothing:
/// no program is named, no process is to be spawned, nothing is printed.
pub proof fn lemma_blank_line_skips(p: ExecPlan, line: Seq<char>)
    requires
        plan_for(p, line),
        forall|j: int| 0 <= j < line.len() ==> crate::tokens::is_space(#[trigger] line[j]),
    ensures
        p matches ExecPlan::Skip,
{
    crate::tokens::lemma_whitespace_only_no_tokens(line);
}

/// A line holding any non-whitespace character plans a run: its first token
/// names the program and the remaining tokens are the arguments, verbatim.
pub proof fn lemma_nonblank_line_runs(p: ExecPlan, line: Seq<char>)
    requires
        plan_for(p, line),
        exists|j: int| 0 <= j < line.len() && !crate::tokens::is_space(#[trigger] line[j]),
    ensures
        p matches ExecPlan::Run { program, args } && program@ == tokens_of(line)[0] && views_of(
            args@,
        ) == tokens_of(line).skip(1),
{
    crate::tokens::lemma_nonspace_gives_token(line);
}

/// One key press, as the session classifies it: Escape, Enter, Backspace, a
/// printable character, or anything else (ignored).
#[derive(Clone, Copy, PartialEq, Eq, Debug)]
pub enum Key {
    Esc,
    Enter,
    Char(char),
    Backspace,
    Other,
}

/// What the caller must do after one key press. The session decides; the
/// caller touches the terminal and spawns processes.
#[derive(Debug)]
pub enum Action {
    /// Leave the loop and restore the terminal.
    Quit,
    /// Emit a newline, carry out the plan, then re-print the prompt.
    Submit(ExecPlan),
    /// Echo the character just appended to the buffer.
    Echo(char),
    /// Emit the erase sequence that visually removes one column.
    Erase,
    /// Do nothing.
    Ignore,
}

/// The state of one interactive session: the text typed since the last
/// submission.
pub struct Session {
    pub buffer: Vec<char>,
}

impl Session {
    /// A fresh session starts with an empty input line buffer.
    pub fn new() -> (s: Session)
        ensures
            s.buffer@ == Seq::<char>::empty(),
    {
        Session { buffer: Vec::new() }
    }

    /// Advances the session by one key press and says what the caller must
    /// do: Escape quits; Enter submits the buffered line as a plan and
    /// clears the buffer; a character is appended and echoed; Backspace on a
    /// non-empty buffer drops its last character and erases one column, and
    /// on an empty buffer does nothing at all; any other key is ignored.
    pub fn handle_key(&mut self, key: Key) -> (a: Action)
        ensures
            match key {
                Key::Esc => final(self).buffer@ == old(self).buffer@ && (a matches Action::Quit),
                Key::Enter => final(self).buffer@ == Seq::<char>::empty() && (match a {
                    Action::Submit(p) => plan_for(p, old(self).buffer@),
                    _ => false,
                }),
                Key::Char(c) => final(self).buffer@ == old(self).buffer@.push(c) && (a matches
                    Action::Echo(e) && e == c),
                Key::Backspace => if old(self).buffer@.len() == 0 {
                    final(self).buffer@ == old(self).buffer@ && (a matches Action::Ignore)
                } else {
                    final(self).buffer@ == old(self).buffer@.drop_last() && (a matches
                        Action::Erase)
                },
                Key::Other => final(self).buffer@ == old(self).buffer@ && (a matches
                    Action::Ignore),
            },
    {
        match key {
            Key::Esc => Action::Quit,
            Key::Enter => {
                let plan = plan_command(&self.buffer);
                self.buffer.clear();
                Action::Submit(plan)
            },
            Key::Char(c) => {
                self.buffer.push(c);
                Action::Echo(c)
            },
            Key::Backspace => {
                if self.buffer.len() > 0 {
                    self.buffer.pop();
                    Action::Erase
                } else {
                    Action::Ignore
                }
            },
            Key::Other => Action::Ignore,
        }
    }
}

/// The first banner line printed when the session starts.
pub open spec fn banner_first_text() -> Seq<char> {
    seq!['W', 'e', 'l', 'c', 'o', 'm', 'e', ' ', 't', 'o', ' ', 'C', 'r', 'u', 's', 't']
}

/// The second banner line printed when the session starts.
pub open spec fn banner_second_text() -> Seq<char> {
    seq![
        'T', 'y', 'p', 'e', ' ', 'a', ' ', 'c', 'o', 'm', 'm', 'a', 'n', 'd', ' ', '(', 'E', 'S',
        'C', ' ', 't', 'o', ' ', 'e', 'x', 'i', 't', ')',
    ]
}

/// The prompt printed before each input line.
pub open spec fn prompt_text() -> Seq<char> {
    seq!['>', ' ']
}

/// The sequence that visually erases one column: cursor back, overwrite with
/// a space, cursor back again.
pub open spec fn erase_text() -> Seq<char> {
    seq!['\u{8}', ' ', '\u{8}']
}

/// What precedes the operating system's error text in the warning printed
/// when a program cannot be started.
pub open spec fn warning_prefix() -> Seq<char> {
    seq![
        '\u{26a0}', '\u{fe0f}', ' ', 'E', 'r', 'r', 'o', 'r', ' ', 'r', 'u', 'n', 'n', 'i', 'n',
        'g', ' ', 'c', 'o', 'm', 'm', 'a', 'n', 'd', ':', ' ',
    ]
}

/// Builds the banner's first line.
pub fn banner_first() -> (r: Vec<char>)
    ensures
        r@ == banner_first_text(),
{
    let r = chars_of_banner_first();
    proof {
        assert(r@ =~= banner_first_text());
    }
    r
}

/// Builds the banner's second line.
pub fn banner_second() -> (r: Vec<char>)
    ensures
        r@ == banner_second_text(),
{
    let r = chars_of_banner_second();
    proof {
        assert(r@ =~= banner_second_text());
    }
    r
}

/// Builds the prompt.
pub fn prompt() -> (r: Vec<char>)
    ensures
        r@ == prompt_text(),
{
    let mut r: Vec<char> = Vec::new();
    r.push('>');
    r.push(' ');
    proof {
        assert(r@ =~= prompt_text());
    }
    r
}

/// Builds the one-column erase sequence emitted for a backspace.
pub fn erase_sequence() -> (r: Vec<char>)
    ensures
        r@ == erase_text(),
{
    let mut r: Vec<char> = Vec::new();
    r.push('\u{8}');
    r.push(' ');
    r.push('\u{8}');
    proof {
        assert(r@ =~= erase_text());
    }
    r
}

/// Builds the single warning line reported when a program cannot be started:
/// the fixed prefix followed by the error text, verbatim.
pub fn warning_line(err: &Vec<char>) -> (r: Vec<char>)
    ensures
        r@ == warning_prefix() + err@,
{
    let mut r = chars_of_warning_prefix();
    proof {
        assert(r@ =~= warning_prefix());
        assert(err@.take(0) =~= Seq::<char>::empty());
        assert(r@ + err@.take(0) =~= r@);
    }
    let mut i: usize = 0;
    while i < err.len()
        invariant
            i <= err.len(),
            r@ == warning_prefix() + err@.take(i as int),
        decreases err.len() - i,
    {
        r.push(err[i]);
        proof {
            assert(err@.take(i as int).push(err@[i as int]) =~= err@.take(i as int + 1));
        }
        i = i + 1;
    }
    proof {
        assert(err@.take(err@.len() as int) =~= err@);
    }
    r
}

fn chars_of_banner_first() -> (r: Vec<char>)
    ensures
        r@ == banner_first_text(),
{
    let mut r: Vec<char> = Vec::new();
    r.push('W');
    r.push('e');
    r.push('l');
    r.push('c');
    r.push('o');
    r.push('m');
    r.push('e');
    r.push(' ');
    r.push('t');
    r.push('o');
    r.push(' ');
    r.push('C');
    r.push('r');
    r.push('u');
    r.push('s');
    r.push('t');
    proof {
        assert(r@ =~= banner_first_text());
    }
    r
}

fn chars_of_banner_second() -> (r: Vec<char>)
    ensures
        r@ == banner_second_text(),
{
    let mut r: Vec<char> = Vec::new();
    r.push('T');
    r.push('y');
    r.push('p');
    r.push('e');
    r.push(' ');
    r.push('a');
    r.push(' ');
    r.push('c');
    r.push('o');
    r.push('m');
    r.push('m');
    r.push('a');
    r.push('n');
    r.push('d');
    r.push(' ');
    r.push('(');
    r.push('E');
    r.push('S');
    r.push('C');
    r.push(' ');
    r.push('t');
    r.push('o');
    r.push(' ');
    r.push('e');
    r.push('x');
    r.push('i');
    r.push('t');
    r.push(')');
    proof {
        assert(r@ =~= banner_second_text());
    }
    r
}

fn chars_of_warning_prefix() -> (r: Vec<char>)
    ensures
        r@ == warning_prefix(),
{
    let mut r: Vec<char> = Vec::new();
    r.push('\u{26a0}');
    r.push('\u{fe0f}');
    r.push(' ');
    r.push('E');
    r.push('r');
    r.push('r');
    r.push('o');
    r.push('r');
    r.push(' ');
    r.push('r');
    r.push('u');
    r.push('n');
    r.push('n');
    r.push('i');
    r.push('n');
    r.push('g');
    r.push(' ');
    r.push('c');
    r.push('o');
    r.push('m');
    r.push('m');
    r.push('a');
    r.push('n');
    r.push('d');
    r.push(':');
    r.push(' ');
    proof {
        assert(r@ =~= warning_prefix());
    }
    r
}

/// The buffer after `n` backspaces applied to `s`: each drops the last
/// character of a non-empty buffer and leaves an empty one alone.
pub open spec fn after_backspaces(s: Seq<char>, n: nat) -> Seq<char>
    decreases n,
{
    if n == 0 {
        s
    } else if s.len() == 0 {
        Seq::empty()
    } else {
        after_backspaces(s.drop_last(), (n - 1) as nat)
    }
}

/// Typing any characters `t` after a buffer `s` and then backspacing once per
/// typed character restores the buffer to exactly `s`: appends and backspaces
/// cancel with no off-by-one.
pub proof fn lemma_append_then_backspace(s: Seq<char>, t: Seq<char>)
    ensures
        after_backspaces(s + t, t.len()) == s,
    decreases t.len(),
{
    if t.len() == 0 {
        assert(s + t =~= s);
    } else {
        assert((s + t).drop_last() =~= s + t.drop_last());
        lemma_append_then_backspace(s, t.drop_last());
    }
}

} // verus!
