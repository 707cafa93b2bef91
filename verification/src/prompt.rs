//! The console prompt: a line of text being typed, suggestions for the
//! command being typed, and the history of entered lines.

use vstd::prelude::*;
use crate::commands::{max_len, partial_pair, suggestion, ArgsMap, Command, ParseError};
use crate::commands::bind_args;
use crate::text::{split_whitespace, string_clear, string_pop, string_push, string_views, words};
use crate::text::{contains_str, is_substring};

verus! {

/// The result of `shellwords::split` on a line: its words, split as the
/// Bourne shell splits them, or `None` when a quote is left open.
pub uninterp spec fn shell_words(input: Seq<char>) -> Option<Seq<Seq<char>>>;

/// Calls `shellwords::split` and keeps the words, or `None` for its
/// mismatched-quotes error. Claimed: the result is [shell_words] of the
/// input.
#[verifier::external_body]
fn shell_split(input: &str) -> (r: Option<Vec<String>>)
    ensures
        match r {
            Some(v) => shell_words(input@) == Some(string_views(v@)),
            None => shell_words(input@) is None,
        },
{
    shellwords::split(input).ok()
}

/// How a line in the console history is shown.
#[derive(Debug, Clone, Copy, PartialEq, Eq, Structural)]
pub enum Severity {
    Info,
    Error,
}

/// The entry points of a list of commands.
pub open spec fn entrypoints<F>(cmds: Seq<Command<F>>) -> Seq<Seq<char>> {
    cmds.map_values(|c: Command<F>| c.entrypoint@)
}

/// The index of the first entry point that contains `word`, if any.
pub open spec fn first_containing(word: Seq<char>, eps: Seq<Seq<char>>) -> Option<int> {
    if exists|i: int| 0 <= i < eps.len() && is_substring(word, #[trigger] eps[i]) {
        Some(choose|i: int| 0 <= i < eps.len() && is_substring(word, #[trigger] eps[i]) && forall|j: int|
            0 <= j < i ==> !is_substring(word, #[trigger] eps[j]))
    } else {
        None
    }
}

/// The command a line of text invokes: the first one whose entry point
/// contains the first shell word of the line.
pub open spec fn best_command(contents: Seq<char>, eps: Seq<Seq<char>>) -> Option<int> {
    if contents.len() == 0 {
        None
    } else {
        match shell_words(contents) {
            None => None,
            Some(ws) => if ws.len() == 0 {
                None
            } else {
                first_containing(ws[0], eps)
            },
        }
    }
}

/// Every entry point followed by a space.
pub open spec fn entrypoint_list(eps: Seq<Seq<char>>) -> Seq<char>
    decreases eps.len(),
{
    if eps.len() == 0 {
        Seq::empty()
    } else {
        entrypoint_list(eps.drop_last()) + eps.last() + seq![' ']
    }
}

/// The suggestion shown for a line: the usage of the command it invokes,
/// or else the list of all entry points.
pub open spec fn suggest_for<F>(contents: Seq<char>, cmds: Seq<Command<F>>) -> Seq<char> {
    match best_command(contents, entrypoints(cmds)) {
        Some(i) => suggestion(cmds[i].entrypoint@, string_views(cmds[i].params@)),
        None => entrypoint_list(entrypoints(cmds)),
    }
}

/// The arguments of a line: its whitespace-separated words after the first.
pub open spec fn args_of(contents: Seq<char>) -> Seq<Seq<char>> {
    let w = words(contents);
    if w.len() == 0 {
        w
    } else {
        w.skip(1)
    }
}

/// Each character of `s`, marked with `t`.
pub open spec fn marked(s: Seq<char>, t: bool) -> Seq<(char, bool)> {
    s.map_values(|c: char| (c, t))
}

/// How one parameter and its argument are shown: ` param: arg`, with
/// `???` for a missing parameter and `_` for a missing argument; only the
/// argument is marked.
pub open spec fn pair_piece(p: (Option<Seq<char>>, Option<Seq<char>>)) -> Seq<(char, bool)> {
    let param = match p.0 {
        Some(s) => s,
        None => seq!['?', '?', '?'],
    };
    let arg = match p.1 {
        Some(s) => s,
        None => seq!['_'],
    };
    seq![(' ', false)] + marked(param, false) + seq![(':', false), (' ', false)] + marked(arg, true)
}

/// The first `n` parameter/argument pieces.
pub open spec fn pairs_text(params: Seq<Seq<char>>, args: Seq<Seq<char>>, n: nat) -> Seq<(char, bool)>
    decreases n,
{
    if n == 0 {
        Seq::empty()
    } else {
        pairs_text(params, args, (n - 1) as nat) + pair_piece(partial_pair(params, args, n - 1))
    }
}

/// The typed text over the suggestion: typed characters marked, the rest
/// of the suggestion unmarked.
pub open spec fn overlay(c: Seq<char>, s: Seq<char>) -> Seq<(char, bool)> {
    Seq::new(max_len(c.len(), s.len()), |i: int| if i < c.len() { (c[i], true) } else { (s[i], false) })
}

/// What the prompt shows: with arguments typed for a known command, the
/// command followed by each parameter and its argument; otherwise the
/// typed text over the suggestion.
pub open spec fn display_spec<F>(contents: Seq<char>, suggest: Seq<char>, cmds: Seq<Command<F>>) -> Seq<(char, bool)> {
    let args = args_of(contents);
    match best_command(contents, entrypoints(cmds)) {
        Some(i) => if args.len() > 0 {
            let params = string_views(cmds[i].params@);
            marked(cmds[i].entrypoint@, true) + pairs_text(params, args, max_len(params.len(), args.len()))
        } else {
            overlay(contents, suggest)
        },
        None => overlay(contents, suggest),
    }
}

/// The history lines as text and severity.
pub open spec fn line_views(lines: Seq<(String, Severity)>) -> Seq<(Seq<char>, Severity)> {
    lines.map_values(|l: (String, Severity)| (l.0@, l.1))
}

/// The message logged when a command's arguments fail to parse.
pub open spec fn parse_failure_message(e: ParseError) -> Seq<char> {
    match e {
        ParseError::BadKey => "Failed to parse: BadKey"@,
        ParseError::BadValue => "Failed to parse: BadValue"@,
        ParseError::WrongArgumentCount => "Failed to parse: WrongArgumentCount"@,
        ParseError::CommandNotFound => "Failed to parse: CommandNotFound"@,
        ParseError::NotImplemented => "Failed to parse: NotImplemented"@,
    }
}

/// The text of the message logged when a command's arguments fail to
/// parse.
fn parse_failure_text(e: ParseError) -> (s: String)
    ensures
        s@ == parse_failure_message(e),
{
    match e {
        ParseError::BadKey => String::from_str("Failed to parse: BadKey"),
        ParseError::BadValue => String::from_str("Failed to parse: BadValue"),
        ParseError::WrongArgumentCount => String::from_str("Failed to parse: WrongArgumentCount"),
        ParseError::CommandNotFound => String::from_str("Failed to parse: CommandNotFound"),
        ParseError::NotImplemented => String::from_str("Failed to parse: NotImplemented"),
    }
}

/// What entering the line `c` with the commands `cmds` does to the
/// history, and what it returns: the line is logged; a line that invokes
/// no command logs "Bad command"; too few arguments log the wrong-count
/// failure; otherwise the handler runs on the bound arguments, and its
/// action is returned or its failure logged.
pub open spec fn entered<F, A>(
    c: Seq<char>,
    cmds: Seq<Command<F>>,
    old_lines: Seq<(Seq<char>, Severity)>,
    new_lines: Seq<(Seq<char>, Severity)>,
    r: Option<A>,
) -> bool
    where
        F: Fn(&ArgsMap) -> Result<A, ParseError>,
{
    let logged = old_lines.push((c, Severity::Info));
    match best_command(c, entrypoints(cmds)) {
        None => r is None && new_lines == logged.push(("Bad command"@, Severity::Error)),
        Some(i) => {
            let params = string_views(cmds[i].params@);
            let args = args_of(c);
            if args.len() < params.len() {
                r is None && new_lines == logged.push(
                    (parse_failure_message(ParseError::WrongArgumentCount), Severity::Error),
                )
            } else {
                exists|m: &ArgsMap, res: Result<A, ParseError>| {
                    &&& m@ == bind_args(params, args)
                    &&& #[trigger] call_ensures(cmds[i].func, (m,), res)
                    &&& match res {
                        Ok(a) => r == Some(a) && new_lines == logged,
                        Err(e) => r is None && new_lines == logged.push((parse_failure_message(e), Severity::Error)),
                    }
                }
            }
        },
    }
}

/// Every handler accepts every binding of arguments.
pub open spec fn handlers_total<F, A>(cmds: Seq<Command<F>>) -> bool
    where
        F: Fn(&ArgsMap) -> Result<A, ParseError>,
{
    forall|i: int, m: &ArgsMap| #![trigger call_requires(cmds[i].func, (m,))] 0 <= i < cmds.len() ==> call_requires(cmds[i].func, (m,))
}

/// Typing a character and then pressing backspace gives back the typed
/// line, with the suggestion for it; the history and the focus are
/// untouched.
pub proof fn lemma_backspace_undoes_typing<F>(
    a: CommandPrompt<F>,
    b: CommandPrompt<F>,
    c: CommandPrompt<F>,
    ch: char,
)
    requires
        appended(a, b, seq![ch]),
        backspaced(b, c),
    ensures
        c.contents@ == a.contents@,
        c.is_active == a.is_active,
        c.lines == a.lines,
        c.commands == a.commands,
        a.is_active ==> c.suggest_text@ == suggest_for(a.contents@, a.commands@),
{
    if a.is_active {
        assert((a.contents@ + seq![ch]).drop_last() =~= a.contents@);
    }
}

/// `b` is `a` after a backspace: when focused, the last typed character
/// is gone and the suggestion follows the line; unfocused, nothing changes.
pub open spec fn backspaced<F>(a: CommandPrompt<F>, b: CommandPrompt<F>) -> bool {
    &&& b.is_active == a.is_active
    &&& b.lines == a.lines
    &&& b.commands == a.commands
    &&& !a.is_active ==> b == a
    &&& a.is_active ==> {
        &&& b.contents@ == if a.contents@.len() == 0 { a.contents@ } else { a.contents@.drop_last() }
        &&& b.suggest_text@ == suggest_for(b.contents@, a.commands@)
    }
}

/// `b` is `a` after typing `s`: when focused, `s` ends the line and the
/// suggestion follows the line; unfocused, nothing changes.
pub open spec fn appended<F>(a: CommandPrompt<F>, b: CommandPrompt<F>, s: Seq<char>) -> bool {
    &&& b.is_active == a.is_active
    &&& b.lines == a.lines
    &&& b.commands == a.commands
    &&& !a.is_active ==> b == a
    &&& a.is_active ==> {
        &&& b.contents@ == a.contents@ + s
        &&& b.suggest_text@ == suggest_for(b.contents@, a.commands@)
    }
}

/// `b` is `a` with the suggestion taken as the typed line.
pub open spec fn tab_completed<F>(a: CommandPrompt<F>, b: CommandPrompt<F>) -> bool {
    &&& b.contents@ == a.suggest_text@
    &&& b.suggest_text == a.suggest_text
    &&& b.is_active == a.is_active
    &&& b.lines == a.lines
    &&& b.commands == a.commands
}

/// `b` is `a` focused, with the suggestion for its line.
pub open spec fn focused<F>(a: CommandPrompt<F>, b: CommandPrompt<F>) -> bool {
    &&& b.is_active
    &&& b.contents == a.contents
    &&& b.lines == a.lines
    &&& b.commands == a.commands
    &&& b.suggest_text@ == suggest_for(a.contents@, a.commands@)
}

/// `b` is `a` unfocused, with its line cleared.
pub open spec fn dismissed<F>(a: CommandPrompt<F>, b: CommandPrompt<F>) -> bool {
    &&& b.contents@ == Seq::<char>::empty()
    &&& !b.is_active
    &&& b.suggest_text == a.suggest_text
    &&& b.lines == a.lines
    &&& b.commands == a.commands
}

/// `b` is `a` after entering its line, which returned `r`: nothing happens
/// unless the prompt is focused and the line is not empty; then the line
/// is [entered] and cleared, and the suggestion follows the empty line.
pub open spec fn entered_line<F, A>(a: CommandPrompt<F>, b: CommandPrompt<F>, r: Option<A>) -> bool
    where
        F: Fn(&ArgsMap) -> Result<A, ParseError>,
{
    &&& b.commands == a.commands
    &&& b.is_active == a.is_active
    &&& !a.is_active || a.contents@.len() == 0 ==> r is None && b == a
    &&& a.is_active && a.contents@.len() > 0 ==> {
        &&& entered(a.contents@, a.commands@, line_views(a.lines@), line_views(b.lines@), r)
        &&& b.contents@ == Seq::<char>::empty()
        &&& b.suggest_text@ == suggest_for(Seq::<char>::empty(), a.commands@)
    }
}

/// A key press, as the console prompt sees it: the keys it acts on, or
/// another key with the text it types, if any.
#[derive(Debug, Clone, PartialEq, Eq)]
pub enum PromptKey {
    Backspace,
    Return,
    BackQuote,
    Escape,
    Tab,
    Other(Option<String>),
}

/// The console prompt.
pub struct CommandPrompt<F> {
    pub contents: String,
    pub is_active: bool,
    pub lines: Vec<(String, Severity)>,
    pub suggest_text: String,
    pub commands: Vec<Command<F>>,
}

impl<F> CommandPrompt<F> {
    /// An empty, unfocused prompt for the given commands.
    pub fn new(commands: Vec<Command<F>>) -> (p: Self)
        ensures
            p.contents@ == Seq::<char>::empty(),
            !p.is_active,
            p.lines@ == Seq::<(String, Severity)>::empty(),
            p.suggest_text@ == Seq::<char>::empty(),
            p.commands@ == commands@,
    {
        CommandPrompt {
            contents: String::new(),
            is_active: false,
            lines: Vec::new(),
            suggest_text: String::new(),
            commands,
        }
    }

    /// The index of the command the typed line invokes, if any.
    fn find_best_command(&self) -> (r: Option<usize>)
        ensures
            match r {
                Some(i) => i < self.commands@.len() && best_command(self.contents@, entrypoints(self.commands@)) == Some(i as int),
                None => best_command(self.contents@, entrypoints(self.commands@)) is None,
            },
    {
        let ghost eps = entrypoints(self.commands@);
        if self.contents.as_str().is_empty() {
            return None;
        }
        let ws = match shell_split(self.contents.as_str()) {
            Some(ws) => ws,
            None => {
                return None;
            },
        };
        if ws.len() == 0 {
            return None;
        }
        let ep = &ws[0];
        assert(string_views(ws@)[0] == ep@);
        let mut i: usize = 0;
        while i < self.commands.len()
            invariant
                i <= self.commands@.len(),
                eps == entrypoints(self.commands@),
                self.contents@.len() > 0,
                shell_words(self.contents@) == Some(string_views(ws@)),
                ws@.len() > 0,
                string_views(ws@)[0] == ep@,
                forall|j: int| 0 <= j < i ==> !is_substring(ep@, #[trigger] eps[j]),
            decreases self.commands.len() - i,
        {
            if contains_str(self.commands[i].entrypoint.as_str(), ep.as_str()) {
                assert(is_substring(ep@, eps[i as int]));
                let ghost c = choose|k: int| 0 <= k < eps.len() && is_substring(ep@, #[trigger] eps[k]) && forall|j: int|
                    0 <= j < k ==> !is_substring(ep@, #[trigger] eps[j]);
                assert(c == i) by {
                    if c < i {
                        assert(!is_substring(ep@, eps[c]));
                    }
                    if c > i {
                        assert(!is_substring(ep@, eps[i as int]));
                    }
                }
                return Some(i);
            }
            i = i + 1;
        }
        None
    }

    /// The list of all entry points, each followed by a space.
    fn get_list_of_entrypoints(&self) -> (s: String)
        ensures
            s@ == entrypoint_list(entrypoints(self.commands@)),
    {
        let mut ret = String::new();
        let ghost eps = entrypoints(self.commands@);
        let mut i: usize = 0;
        while i < self.commands.len()
            invariant
                i <= self.commands@.len(),
                eps == entrypoints(self.commands@),
                ret@ == entrypoint_list(eps.take(i as int)),
            decreases self.commands.len() - i,
        {
            assert(eps.take(i + 1).drop_last() =~= eps.take(i as int));
            ret.append(self.commands[i].entrypoint.as_str());
            string_push(&mut ret, ' ');
            i = i + 1;
        }
        assert(eps.take(eps.len() as int) =~= eps);
        ret
    }

    /// The arguments typed: the words of the line after the first.
    pub fn get_args(&self) -> (r: Vec<String>)
        ensures
            string_views(r@) == args_of(self.contents@),
    {
        let mut w = split_whitespace(self.contents.as_str());
        if w.len() > 0 {
            let ghost all = string_views(w@);
            w.remove(0);
            assert(string_views(w@) =~= all.skip(1));
        }
        w
    }

    /// Shows the usage of the command being typed, or else the list of all
    /// entry points.
    pub fn update_suggest_text(&mut self)
        ensures
            final(self).suggest_text@ == suggest_for(old(self).contents@, old(self).commands@),
            final(self).contents == old(self).contents,
            final(self).is_active == old(self).is_active,
            final(self).lines == old(self).lines,
            final(self).commands == old(self).commands,
    {
        match self.find_best_command() {
            Some(i) => {
                self.suggest_text = self.commands[i].to_suggestion();
            },
            None => {
                self.suggest_text = self.get_list_of_entrypoints();
            },
        }
    }

    /// Deletes the last typed character, when the prompt is focused.
    pub fn on_backspace(&mut self)
        ensures
            backspaced(*old(self), *final(self)),
    {
        if !self.is_active {
            return;
        }
        let _ = string_pop(&mut self.contents);
        self.update_suggest_text();
    }

    /// Types `s` at the end of the line, when the prompt is focused.
    pub fn append(&mut self, s: &str)
        ensures
            appended(*old(self), *final(self), s@),
    {
        if !self.is_active {
            return;
        }
        self.contents.append(s);
        self.update_suggest_text();
    }

    /// Replaces the typed line by the suggestion.
    pub fn on_tab_complete(&mut self)
        ensures
            tab_completed(*old(self), *final(self)),
    {
        self.contents = self.suggest_text.clone();
    }

    /// Focuses the prompt, so that it takes typing.
    pub fn focus(&mut self)
        ensures
            focused(*old(self), *final(self)),
    {
        self.is_active = true;
        self.update_suggest_text();
    }

    /// Whether the prompt takes typing.
    pub fn is_focused(&self) -> (b: bool)
        ensures
            b == self.is_active,
    {
        self.is_active
    }

    /// Clears the typed line and unfocuses the prompt.
    pub fn dismiss(&mut self)
        ensures
            dismissed(*old(self), *final(self)),
    {
        string_clear(&mut self.contents);
        self.is_active = false;
    }

    /// The characters the prompt shows, each marked whether it is shown in
    /// the foreground.
    pub fn display_text(&self) -> (r: Vec<(char, bool)>)
        ensures
            r@ == display_spec(self.contents@, self.suggest_text@, self.commands@),
    {
        let mut ret: Vec<(char, bool)> = Vec::new();
        let args = self.get_args();
        let best = if args.len() > 0 { self.find_best_command() } else { None };
        match best {
            Some(i) => {
                let cmd = &self.commands[i];
                let ep = cmd.entrypoint.as_str();
                let n = ep.unicode_len();
                let mut k: usize = 0;
                while k < n
                    invariant
                        n == ep@.len(),
                        k <= n,
                        ret@ == marked(ep@.take(k as int), true),
                    decreases n - k,
                {
                    let c = ep.get_char(k);
                    ret.push((c, true));
                    assert(marked(ep@.take(k + 1), true) =~= marked(ep@.take(k as int), true).push((c, true)));
                    k = k + 1;
                }
                assert(ep@.take(n as int) =~= ep@);
                let ghost head = ret@;
                let pairs = cmd.parse_partial_args(args.as_slice());
                let ghost params = string_views(cmd.params@);
                let ghost av = string_views(args@);
                let mut j: usize = 0;
                while j < pairs.len()
                    invariant
                        j <= pairs@.len(),
                        pairs@.len() == max_len(params.len(), av.len()),
                        forall|q: int| 0 <= q < pairs@.len() ==> (#[trigger] crate::commands::opt_view(pairs@[q].0), crate::commands::opt_view(pairs@[q].1))
                            == partial_pair(params, av, q),
                        ret@ == head + pairs_text(params, av, j as nat),
                    decreases pairs.len() - j,
                {
                    let ghost before = ret@;
                    let ghost piece_spec = pair_piece(partial_pair(params, av, j as int));
                    let ghost pp = partial_pair(params, av, j as int);
                    assert((crate::commands::opt_view(pairs@[j as int].0), crate::commands::opt_view(pairs@[j as int].1)) == pp);
                    ret.push((' ', false));
                    let param: &str = match &pairs[j].0 {
                        Some(p) => p.as_str(),
                        None => "???",
                    };
                    let arg: &str = match &pairs[j].1 {
                        Some(a) => a.as_str(),
                        None => "_",
                    };
                    proof {
                        reveal_strlit("???");
                        reveal_strlit("_");
                    }
                    let pn = param.unicode_len();
                    let mut k: usize = 0;
                    let ghost mid0 = ret@;
                    while k < pn
                        invariant
                            pn == param@.len(),
                            k <= pn,
                            ret@ == mid0 + marked(param@.take(k as int), false),
                        decreases pn - k,
                    {
                        let c = param.get_char(k);
                        ret.push((c, false));
                        assert(marked(param@.take(k + 1), false) =~= marked(param@.take(k as int), false).push((c, false)));
                        k = k + 1;
                    }
                    assert(param@.take(pn as int) =~= param@);
                    ret.push((':', false));
                    ret.push((' ', false));
                    let an = arg.unicode_len();
                    let mut k: usize = 0;
                    let ghost mid1 = ret@;
                    while k < an
                        invariant
                            an == arg@.len(),
                            k <= an,
                            ret@ == mid1 + marked(arg@.take(k as int), true),
                        decreases an - k,
                    {
                        let c = arg.get_char(k);
                        ret.push((c, true));
                        assert(marked(arg@.take(k + 1), true) =~= marked(arg@.take(k as int), true).push((c, true)));
                        k = k + 1;
                    }
                    assert(arg@.take(an as int) =~= arg@);
                    assert(param@ == match pp.0 { Some(s) => s, None => seq!['?', '?', '?'] });
                    assert(arg@ == match pp.1 { Some(s) => s, None => seq!['_'] });
                    assert(ret@ =~= before + piece_spec);
                    j = j + 1;
                }
            },
            None => {
                let c = self.contents.as_str();
                let s = self.suggest_text.as_str();
                let cn = c.unicode_len();
                let sn = s.unicode_len();
                let n = if cn < sn { sn } else { cn };
                let mut i: usize = 0;
                while i < n
                    invariant
                        cn == c@.len(),
                        sn == s@.len(),
                        n == max_len(cn as nat, sn as nat),
                        i <= n,
                        ret@ =~= overlay(c@, s@).take(i as int),
                    decreases n - i,
                {
                    if i < cn {
                        ret.push((c.get_char(i), true));
                    } else {
                        ret.push((s.get_char(i), false));
                    }
                    assert(overlay(c@, s@).take(i + 1) =~= overlay(c@, s@).take(i as int).push(overlay(c@, s@)[i as int]));
                    i = i + 1;
                }
                assert(overlay(c@, s@).take(n as int) =~= overlay(c@, s@));
            },
        }
        ret
    }

    /// The shown characters, with those in the background replaced by spaces.
    pub fn fg_text(&self) -> (s: String)
        ensures
            s@ == display_spec(self.contents@, self.suggest_text@, self.commands@).map_values(
                |p: (char, bool)| if p.1 { p.0 } else { ' ' },
            ),
    {
        let d = self.display_text();
        let mut ret = String::new();
        let mut i: usize = 0;
        while i < d.len()
            invariant
                i <= d@.len(),
                ret@ =~= d@.take(i as int).map_values(|p: (char, bool)| if p.1 { p.0 } else { ' ' }),
            decreases d.len() - i,
        {
            let (c, t) = d[i];
            string_push(&mut ret, if t { c } else { ' ' });
            assert(d@.take(i + 1) =~= d@.take(i as int).push(d@[i as int]));
            i = i + 1;
        }
        assert(d@.take(d@.len() as int) =~= d@);
        ret
    }

    /// All shown characters.
    pub fn bg_text(&self) -> (s: String)
        ensures
            s@ == display_spec(self.contents@, self.suggest_text@, self.commands@).map_values(
                |p: (char, bool)| p.0,
            ),
    {
        let d = self.display_text();
        let mut ret = String::new();
        let mut i: usize = 0;
        while i < d.len()
            invariant
                i <= d@.len(),
                ret@ =~= d@.take(i as int).map_values(|p: (char, bool)| p.0),
            decreases d.len() - i,
        {
            let (c, _) = d[i];
            string_push(&mut ret, c);
            assert(d@.take(i + 1) =~= d@.take(i as int).push(d@[i as int]));
            i = i + 1;
        }
        assert(d@.take(d@.len() as int) =~= d@);
        ret
    }

    /// Adds an error line to the history.
    fn error(&mut self, s: String)
        ensures
            line_views(final(self).lines@) == line_views(old(self).lines@).push((s@, Severity::Error)),
            final(self).commands == old(self).commands,
            final(self).is_active == old(self).is_active,
            final(self).contents == old(self).contents,
            final(self).suggest_text == old(self).suggest_text,
    {
        let ghost before = line_views(self.lines@);
        let ghost sv = s@;
        self.lines.push((s, Severity::Error));
        assert(line_views(self.lines@) =~= before.push((sv, Severity::Error)));
    }

    /// Enters the typed line, when the prompt is focused and the line is
    /// not empty: the line goes into the history; if it invokes a command
    /// whose arguments parse, the command's action is returned, otherwise
    /// an error line is added. The typed line is then cleared.
    pub fn on_enter<A>(&mut self) -> (r: Option<A>)
        where
            F: Fn(&ArgsMap) -> Result<A, ParseError>,
        requires
            handlers_total::<F, A>(old(self).commands@),
        ensures
            entered_line(*old(self), *final(self), r),
    {
        if !self.is_active {
            return None;
        }
        if self.contents.as_str().is_empty() {
            return None;
        }
        let ghost c = self.contents@;
        let ghost old_lines = line_views(self.lines@);
        let entry = (self.contents.clone(), Severity::Info);
        self.lines.push(entry);
        assert(line_views(self.lines@) =~= old_lines.push((c, Severity::Info)));
        let mut ret: Option<A> = None;
        match self.find_best_command() {
            Some(i) => {
                let args = self.get_args();
                match self.commands[i].parse(args.as_slice()) {
                    Ok(action) => {
                        ret = Some(action);
                    },
                    Err(e) => {
                        self.error(parse_failure_text(e));
                    },
                }
            },
            None => {
                self.error(String::from_str("Bad command"));
            },
        }
        string_clear(&mut self.contents);
        self.update_suggest_text();
        ret
    }

    /// One key press: backspace, return, the backquote (which focuses the
    /// prompt), escape (which dismisses it) and tab (which completes the
    /// line) act; another key types its text when that text is all ASCII.
    /// Only return can give an action.
    pub fn on_event<A>(&mut self, key: &PromptKey) -> (r: Option<A>)
        where
            F: Fn(&ArgsMap) -> Result<A, ParseError>,
        requires
            handlers_total::<F, A>(old(self).commands@),
        ensures
            match *key {
                PromptKey::Backspace => r is None && backspaced(*old(self), *final(self)),
                PromptKey::Return => entered_line(*old(self), *final(self), r),
                PromptKey::BackQuote => r is None && focused(*old(self), *final(self)),
                PromptKey::Escape => r is None && dismissed(*old(self), *final(self)),
                PromptKey::Tab => r is None && tab_completed(*old(self), *final(self)),
                PromptKey::Other(Some(t)) => r is None && if vstd::utf8::is_ascii_chars(t@) {
                    appended(*old(self), *final(self), t@)
                } else {
                    *final(self) == *old(self)
                },
                PromptKey::Other(None) => r is None && *final(self) == *old(self),
            },
    {
        match key {
            PromptKey::Backspace => self.on_backspace(),
            PromptKey::Return => {
                return self.on_enter();
            },
            PromptKey::BackQuote => self.focus(),
            PromptKey::Escape => self.dismiss(),
            PromptKey::Tab => self.on_tab_complete(),
            PromptKey::Other(name) => {
                if let Some(n) = name {
                    if n.as_str().is_ascii() {
                        self.append(n.as_str());
                    }
                }
            },
        }
        None
    }
}

} // verus!
