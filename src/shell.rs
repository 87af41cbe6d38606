use vstd::prelude::*;
use crate::color::ConsoleColor;

verus! {

/// Whether `c` is white space in the Unicode sense (the `White_Space` property).
pub open spec fn is_white_space(c: char) -> bool {
    let u = c as u32;
    (9 <= u <= 13) || u == 32 || u == 0x85 || u == 0xA0 || u == 0x1680 || (0x2000 <= u <= 0x200A)
        || u == 0x2028 || u == 0x2029 || u == 0x202F || u == 0x205F || u == 0x3000
}

/// Whether `c` is white space.
pub fn white_space(c: char) -> (r: bool)
    ensures
        r == is_white_space(c),
{
    let u = c as u32;
    (9 <= u && u <= 13) || u == 32 || u == 0x85 || u == 0xA0 || u == 0x1680 || (0x2000 <= u && u
        <= 0x200A) || u == 0x2028 || u == 0x2029 || u == 0x202F || u == 0x205F || u == 0x3000
}

/// Reading `s` from the left: the words completed so far and the word in progress.
pub open spec fn scan_words(s: Seq<char>) -> (Seq<Seq<char>>, Seq<char>)
    decreases s.len(),
{
    if s.len() == 0 {
        (Seq::empty(), Seq::empty())
    } else {
        let (words, cur) = scan_words(s.drop_last());
        let c = s.last();
        if is_white_space(c) {
            if cur.len() > 0 {
                (words.push(cur), Seq::empty())
            } else {
                (words, cur)
            }
        } else {
            (words, cur.push(c))
        }
    }
}

/// The words of `s`: its maximal runs of characters that are not white space, in order.
pub open spec fn split_words(s: Seq<char>) -> Seq<Seq<char>> {
    let (words, cur) = scan_words(s);
    if cur.len() > 0 {
        words.push(cur)
    } else {
        words
    }
}

/// The contents of a list of character vectors.
pub open spec fn views(v: Seq<Vec<char>>) -> Seq<Seq<char>> {
    v.map_values(|w: Vec<char>| w@)
}

/// Words joined with one space between each two.
pub open spec fn joined(words: Seq<Seq<char>>) -> Seq<char>
    decreases words.len(),
{
    if words.len() == 0 {
        Seq::empty()
    } else if words.len() == 1 {
        words[0]
    } else {
        joined(words.drop_last()) + seq![' '] + words.last()
    }
}

/// The words of a line.
pub fn words_of(line: &Vec<char>) -> (r: Vec<Vec<char>>)
    ensures
        views(r@) == split_words(line@),
{
    let mut words: Vec<Vec<char>> = Vec::new();
    let mut cur: Vec<char> = Vec::new();
    let mut i: usize = 0;
    while i < line.len()
        invariant
            i <= line@.len(),
            (views(words@), cur@) == scan_words(line@.subrange(0, i as int)),
        decreases line@.len() - i,
    {
        let c = line[i];
        proof {
            let s = line@.subrange(0, i as int + 1);
            assert(s.drop_last() =~= line@.subrange(0, i as int));
            assert(s.last() == c);
        }
        if white_space(c) {
            if cur.len() > 0 {
                let ghost before = words@;
                let w = cur;
                words.push(w);
                cur = Vec::new();
                proof {
                    assert(views(words@) =~= views(before).push(w@));
                    assert(cur@ =~= Seq::<char>::empty());
                }
            }
        } else {
            cur.push(c);
        }
        i = i + 1;
    }
    assert(line@.subrange(0, line@.len() as int) =~= line@);
    if cur.len() > 0 {
        let ghost before = words@;
        let w = cur;
        words.push(w);
        assert(views(words@) =~= views(before).push(w@));
    }
    words
}

/// The words from position `from` on, joined with one space between each two.
pub fn join_words(words: &Vec<Vec<char>>, from: usize) -> (r: Vec<char>)
    requires
        from <= words@.len(),
    ensures
        r@ == joined(views(words@).subrange(from as int, words@.len() as int)),
{
    let ghost all = views(words@);
    let mut r: Vec<char> = Vec::new();
    let mut i: usize = from;
    assert(all.subrange(from as int, from as int) =~= Seq::<Seq<char>>::empty());
    while i < words.len()
        invariant
            from <= i <= words@.len(),
            all == views(words@),
            r@ == joined(all.subrange(from as int, i as int)),
        decreases words@.len() - i,
    {
        let ghost before = r@;
        if i > from {
            r.push(' ');
        }
        let w = &words[i];
        let mut j: usize = 0;
        while j < w.len()
            invariant
                j <= w@.len(),
                r@ == (if i > from { before + seq![' '] } else { before }) + w@.subrange(0, j as int),
            decreases w@.len() - j,
        {
            r.push(w[j]);
            j = j + 1;
            assert(r@ =~= (if i > from { before + seq![' '] } else { before }) + w@.subrange(0, j as int));
        }
        proof {
            let next = all.subrange(from as int, i as int + 1);
            assert(next.drop_last() =~= all.subrange(from as int, i as int));
            assert(next.last() == w@);
            assert(w@.subrange(0, j as int) =~= w@);
            assert(r@ =~= joined(next));
        }
        i = i + 1;
    }
    r
}

/// The characters of a string.
pub fn chars_of(s: &str) -> (r: Vec<char>)
    ensures
        r@ == s@,
{
    let n = s.unicode_len();
    let mut r: Vec<char> = Vec::new();
    let mut i: usize = 0;
    while i < n
        invariant
            n == s@.len(),
            i <= n,
            r@ == s@.subrange(0, i as int),
        decreases n - i,
    {
        r.push(s.get_char(i));
        i = i + 1;
        assert(r@ =~= s@.subrange(0, i as int));
    }
    assert(s@.subrange(0, n as int) =~= s@);
    r
}

/// Whether the characters `v` spell `s`.
pub fn eq_str(v: &Vec<char>, s: &str) -> (r: bool)
    ensures
        r == (v@ == s@),
{
    let n = s.unicode_len();
    if v.len() != n {
        return false;
    }
    let mut i: usize = 0;
    while i < n
        invariant
            n == s@.len(),
            n == v@.len(),
            i <= n,
            v@.subrange(0, i as int) == s@.subrange(0, i as int),
        decreases n - i,
    {
        if v[i] != s.get_char(i) {
            return false;
        }
        i = i + 1;
        assert(v@.subrange(0, i as int) =~= s@.subrange(0, i as int));
    }
    assert(v@ =~= v@.subrange(0, n as int));
    assert(s@ =~= s@.subrange(0, n as int));
    true
}

/// A copy of a character vector.
pub fn copy_chars(v: &Vec<char>) -> (r: Vec<char>)
    ensures
        r@ == v@,
{
    let mut r: Vec<char> = Vec::new();
    let mut i: usize = 0;
    while i < v.len()
        invariant
            i <= v@.len(),
            r@ == v@.subrange(0, i as int),
        decreases v@.len() - i,
    {
        r.push(v[i]);
        i = i + 1;
        assert(r@ =~= v@.subrange(0, i as int));
    }
    assert(v@.subrange(0, v@.len() as int) =~= v@);
    r
}

/// The lower-case form of a text, as `str::to_lowercase` gives it.
pub uninterp spec fn lowercase_of(s: Seq<char>) -> Seq<char>;

/// Relies on `str::to_lowercase`: the lower-case form of the text, which
/// depends on the text alone.
#[verifier::external_body]
fn to_lowercase(v: &Vec<char>) -> (r: Vec<char>)
    ensures
        r@ == lowercase_of(v@),
{
    let s: String = v.iter().collect();
    s.to_lowercase().chars().collect()
}

/// The console colour named by an already lower-cased word.
pub open spec fn color_named(w: Seq<char>) -> Option<ConsoleColor> {
    if w == "black"@ { Some(ConsoleColor::Black) }
    else if w == "red"@ { Some(ConsoleColor::Red) }
    else if w == "green"@ { Some(ConsoleColor::Green) }
    else if w == "yellow"@ { Some(ConsoleColor::Yellow) }
    else if w == "blue"@ { Some(ConsoleColor::Blue) }
    else if w == "magenta"@ { Some(ConsoleColor::Magenta) }
    else if w == "cyan"@ { Some(ConsoleColor::Cyan) }
    else if w == "white"@ { Some(ConsoleColor::White) }
    else if w == "brightblack"@ { Some(ConsoleColor::BrightBlack) }
    else if w == "brightred"@ { Some(ConsoleColor::BrightRed) }
    else if w == "brightgreen"@ { Some(ConsoleColor::BrightGreen) }
    else if w == "brightyellow"@ { Some(ConsoleColor::BrightYellow) }
    else if w == "brightblue"@ { Some(ConsoleColor::BrightBlue) }
    else if w == "brightmagenta"@ { Some(ConsoleColor::BrightMagenta) }
    else if w == "brightcyan"@ { Some(ConsoleColor::BrightCyan) }
    else if w == "brightwhite"@ { Some(ConsoleColor::BrightWhite) }
    else { None }
}

/// The console colour named by a lower-case word, if any.
pub fn color_from_name(w: &Vec<char>) -> (r: Option<ConsoleColor>)
    ensures
        r == color_named(w@),
{
    if eq_str(w, "black") { Some(ConsoleColor::Black) }
    else if eq_str(w, "red") { Some(ConsoleColor::Red) }
    else if eq_str(w, "green") { Some(ConsoleColor::Green) }
    else if eq_str(w, "yellow") { Some(ConsoleColor::Yellow) }
    else if eq_str(w, "blue") { Some(ConsoleColor::Blue) }
    else if eq_str(w, "magenta") { Some(ConsoleColor::Magenta) }
    else if eq_str(w, "cyan") { Some(ConsoleColor::Cyan) }
    else if eq_str(w, "white") { Some(ConsoleColor::White) }
    else if eq_str(w, "brightblack") { Some(ConsoleColor::BrightBlack) }
    else if eq_str(w, "brightred") { Some(ConsoleColor::BrightRed) }
    else if eq_str(w, "brightgreen") { Some(ConsoleColor::BrightGreen) }
    else if eq_str(w, "brightyellow") { Some(ConsoleColor::BrightYellow) }
    else if eq_str(w, "brightblue") { Some(ConsoleColor::BrightBlue) }
    else if eq_str(w, "brightmagenta") { Some(ConsoleColor::BrightMagenta) }
    else if eq_str(w, "brightcyan") { Some(ConsoleColor::BrightCyan) }
    else if eq_str(w, "brightwhite") { Some(ConsoleColor::BrightWhite) }
    else { None }
}

/// The shell's commands.
#[derive(Debug, Clone, Copy, PartialEq, Eq, Structural)]
pub enum Command {
    WhoAmI,
    Projects,
    Clear,
    WhatILike,
    Help,
    Echo,
    PortfolioFetch,
    /// `exit` and `execute66`: the opening crawl.
    Crawl,
    Rename,
    Bye,
    Calc,
    /// A file-system command on a kernel that has no file system.
    NoFileSystem,
    Unknown,
}

/// The command that a word names.
pub open spec fn command_named(w: Seq<char>) -> Command {
    if w == "whoami"@ { Command::WhoAmI }
    else if w == "projects"@ { Command::Projects }
    else if w == "clear"@ { Command::Clear }
    else if w == "whatilike"@ { Command::WhatILike }
    else if w == "help"@ { Command::Help }
    else if w == "echo"@ { Command::Echo }
    else if w == "portfoliofetch"@ { Command::PortfolioFetch }
    else if w == "exit"@ || w == "execute66"@ { Command::Crawl }
    else if w == "rename"@ { Command::Rename }
    else if w == "bye"@ { Command::Bye }
    else if w == "calc"@ { Command::Calc }
    else if w == "ls"@ || w == "touch"@ || w == "cd"@ || w == "mkdir"@ || w == "cat"@ {
        Command::NoFileSystem
    } else { Command::Unknown }
}

/// The command that a word names.
pub fn classify(w: &Vec<char>) -> (r: Command)
    ensures
        r == command_named(w@),
{
    if eq_str(w, "whoami") { Command::WhoAmI }
    else if eq_str(w, "projects") { Command::Projects }
    else if eq_str(w, "clear") { Command::Clear }
    else if eq_str(w, "whatilike") { Command::WhatILike }
    else if eq_str(w, "help") { Command::Help }
    else if eq_str(w, "echo") { Command::Echo }
    else if eq_str(w, "portfoliofetch") { Command::PortfolioFetch }
    else if eq_str(w, "exit") || eq_str(w, "execute66") { Command::Crawl }
    else if eq_str(w, "rename") { Command::Rename }
    else if eq_str(w, "bye") { Command::Bye }
    else if eq_str(w, "calc") { Command::Calc }
    else if eq_str(w, "ls") || eq_str(w, "touch") || eq_str(w, "cd") || eq_str(w, "mkdir")
        || eq_str(w, "cat") {
        Command::NoFileSystem
    } else { Command::Unknown }
}

/// The prompt shown until the user has given a name.
pub const NAME_PROMPT: &'static str = "WHAT IS YOUR NAME? ";

/// What follows the user's name in the prompt.
pub const PROMPT_SUFFIX: &'static str = "@PortfoliOS -> # ";

/// Width in pixels of a prompt of `n` characters and the cursor after it.
pub open spec fn prompt_width(n: nat) -> usize {
    if n + 1 <= usize::MAX / 10 {
        ((n + 1) * 10) as usize
    } else {
        usize::MAX
    }
}

/// Width in pixels of a prompt of `n` characters and the cursor after it.
fn width_of(n: usize) -> (r: usize)
    ensures
        r == prompt_width(n as nat),
{
    if n < usize::MAX / 10 {
        (n + 1) * 10
    } else {
        usize::MAX
    }
}

/// The command that the words of a line name; an empty line names none.
pub open spec fn command_of(words: Seq<Seq<char>>) -> Command {
    if words.len() > 0 && words[0].len() > 0 {
        command_named(words[0])
    } else {
        Command::Unknown
    }
}

/// The arguments among the words of a line: all but the first.
pub open spec fn args_of(words: Seq<Seq<char>>) -> Seq<Seq<char>> {
    if words.len() > 0 {
        words.drop_first()
    } else {
        Seq::empty()
    }
}

/// What the console is to show for an entered line.
#[derive(Debug)]
pub enum ShellResponse {
    /// The first line gave the user's name: greet them.
    Greeting { name: Vec<char> },
    /// Show the fixed output of a command.
    Run(Command),
    /// Show a message, in a colour if one was asked for.
    Echo { message: Vec<char>, color: Option<ConsoleColor> },
    /// `echo -c` named no colour.
    InvalidColor,
    /// A rename from `old_name` to `new_name`; `renamed` says whether `old_name` was the user's name.
    Rename { old_name: Vec<char>, new_name: Vec<char>, renamed: bool },
    /// Evaluate `operand operator operand`.
    Calc { operands: Vec<Vec<char>> },
    /// The command was given the wrong arguments; `detailed` asks for the long help.
    Usage { command: Command, detailed: bool },
    /// The line names no command.
    Invalid { line: Vec<char> },
}

/// The line editor and command interpreter of the kernel console.
pub struct Shell {
    buffer: Vec<char>,
    prompt: Vec<char>,
    name: Vec<char>,
    len: usize,
    err: u8,
    command: Vec<char>,
    args: Vec<Vec<char>>,
    named: bool,
}

impl Shell {
    /// The line typed so far.
    pub closed spec fn line(&self) -> Seq<char> {
        self.buffer@
    }

    /// The prompt.
    pub closed spec fn prompt_text(&self) -> Seq<char> {
        self.prompt@
    }

    /// The user's name, once given.
    pub closed spec fn user_name(&self) -> Seq<char> {
        self.name@
    }

    /// Whether the user has given a name.
    pub closed spec fn has_name(&self) -> bool {
        self.named
    }

    /// Width in pixels of the prompt and the cursor after it.
    pub closed spec fn width(&self) -> usize {
        self.len
    }

    /// The status of the last command: 0 ok, 1 error, 2 warning.
    pub closed spec fn status(&self) -> u8 {
        self.err
    }

    /// A shell that asks for the user's name.
    pub fn new() -> (s: Self)
        ensures
            s.line() == Seq::<char>::empty(),
            s.prompt_text() == NAME_PROMPT@,
            s.width() == prompt_width(NAME_PROMPT@.len()),
            s.user_name() == Seq::<char>::empty(),
            !s.has_name(),
            s.status() == 0,
    {
        let prompt = chars_of(NAME_PROMPT);
        let len = width_of(prompt.len());
        Shell {
            buffer: Vec::new(),
            prompt,
            name: Vec::new(),
            len,
            err: 0,
            command: Vec::new(),
            args: Vec::new(),
            named: false,
        }
    }

    /// Adds a typed character to the line.
    pub fn append(&mut self, input: char)
        ensures
            final(self).line() == old(self).line().push(input),
            final(self).prompt_text() == old(self).prompt_text(),
            final(self).user_name() == old(self).user_name(),
            final(self).has_name() == old(self).has_name(),
            final(self).status() == old(self).status(),
            final(self).width() == old(self).width(),
    {
        self.buffer.push(input);
    }

    /// Removes the last character of the line, if there is one.
    pub fn pop(&mut self)
        ensures
            final(self).line() == (if old(self).line().len() > 0 {
                old(self).line().drop_last()
            } else {
                old(self).line()
            }),
            final(self).prompt_text() == old(self).prompt_text(),
            final(self).user_name() == old(self).user_name(),
            final(self).has_name() == old(self).has_name(),
            final(self).status() == old(self).status(),
            final(self).width() == old(self).width(),
    {
        if self.buffer.len() > 0 {
            self.buffer.pop();
        }
    }

    /// Width in pixels of the prompt and the cursor after it.
    pub fn len(&self) -> (r: usize)
        ensures
            r == self.width(),
    {
        self.len
    }

    /// The prompt.
    pub fn prompt(&self) -> (r: Vec<char>)
        ensures
            r@ == self.prompt_text(),
    {
        copy_chars(&self.prompt)
    }

    /// The user's name.
    pub fn name(&self) -> (r: Vec<char>)
        ensures
            r@ == self.user_name(),
    {
        copy_chars(&self.name)
    }

    /// The colour of the prompt: red after an error, yellow after a warning,
    /// bright white otherwise.
    pub fn prompt_color(&self) -> (r: ConsoleColor)
        ensures
            r == (if self.status() == 1 {
                ConsoleColor::Red
            } else if self.status() == 2 {
                ConsoleColor::Yellow
            } else {
                ConsoleColor::BrightWhite
            }),
    {
        match self.err {
            1 => ConsoleColor::Red,
            2 => ConsoleColor::Yellow,
            _ => ConsoleColor::BrightWhite,
        }
    }

    /// Splits the line into the command word and its arguments.
    fn parse_command(&mut self)
        ensures
            final(self).buffer@ == old(self).buffer@,
            final(self).prompt@ == old(self).prompt@,
            final(self).name@ == old(self).name@,
            final(self).named == old(self).named,
            final(self).err == old(self).err,
            final(self).len == old(self).len,
            split_words(old(self).buffer@).len() > 0 ==> final(self).command@ == split_words(
                old(self).buffer@,
            )[0],
            split_words(old(self).buffer@).len() == 0 ==> final(self).command@ == Seq::<char>::empty(),
            views(final(self).args@) == args_of(split_words(old(self).buffer@)),
    {
        let mut parts = words_of(&self.buffer);
        if parts.len() > 0 {
            let ghost all = parts@;
            let first = parts.remove(0);
            assert(views(parts@) =~= views(all).drop_first());
            self.command = first;
            self.args = parts;
        } else {
            self.command = Vec::new();
            self.args = Vec::new();
            assert(views(self.args@) =~= Seq::<Seq<char>>::empty());
        }
    }

    /// `echo [-c <color>] <message>`.
    fn handle_echo(&self) -> (r: (ShellResponse, u8))
        ensures
            echoes(views(self.args@), r.0, r.1),
    {
        if self.args.len() == 0 {
            return (ShellResponse::Usage { command: Command::Echo, detailed: false }, 1);
        }
        if eq_str(&self.args[0], "-c") && self.args.len() > 2 {
            let lowered = to_lowercase(&self.args[1]);
            match color_from_name(&lowered) {
                Some(c) => {
                    (ShellResponse::Echo { message: join_words(&self.args, 2), color: Some(c) }, 0)
                },
                None => (ShellResponse::InvalidColor, 1),
            }
        } else {
            proof {
                assert(views(self.args@).subrange(0, views(self.args@).len() as int) =~= views(self.args@));
            }
            (ShellResponse::Echo { message: join_words(&self.args, 0), color: None }, 0)
        }
    }

    /// `rename <old_name> <new_name>`: takes the new name if the old one is the user's.
    fn handle_rename(&mut self) -> (r: (ShellResponse, u8))
        ensures
            final(self).buffer@ == old(self).buffer@,
            final(self).prompt@ == old(self).prompt@,
            final(self).named == old(self).named,
            final(self).len == old(self).len,
            final(self).err == old(self).err,
            final(self).command@ == old(self).command@,
            final(self).args@ == old(self).args@,
            renames(views(old(self).args@), old(self).name@, r.0, r.1, final(self).name@),
    {
        if self.args.len() != 2 {
            return (ShellResponse::Usage { command: Command::Rename, detailed: false }, 1);
        }
        let old_name = copy_chars(&self.args[0]);
        let new_name = copy_chars(&self.args[1]);
        let renamed = self.name.len() == self.args[0].len() && same_chars(&self.name, &self.args[0]);
        if renamed {
            self.name = copy_chars(&self.args[1]);
        }
        (ShellResponse::Rename { old_name, new_name, renamed }, 0)
    }

    /// `calc <num1> <operator> <num2>`: checks the shape; the arithmetic is the console's.
    fn handle_calc(&self) -> (r: (ShellResponse, u8))
        ensures
            calculates(views(self.args@), r.0, r.1),
    {
        if self.args.len() == 0 {
            return (ShellResponse::Usage { command: Command::Calc, detailed: true }, 1);
        }
        if self.args.len() != 3 {
            return (ShellResponse::Usage { command: Command::Calc, detailed: false }, 1);
        }
        let mut operands: Vec<Vec<char>> = Vec::new();
        let mut i: usize = 0;
        while i < 3
            invariant
                i <= 3,
                self.args@.len() == 3,
                views(operands@) == views(self.args@).subrange(0, i as int),
            decreases 3 - i,
        {
            let ghost before = operands@;
            let c = copy_chars(&self.args[i]);
            operands.push(c);
            assert(views(operands@) =~= views(before).push(c@));
            i = i + 1;
            assert(views(operands@) =~= views(self.args@).subrange(0, i as int));
        }
        assert(views(self.args@).subrange(0, 3) =~= views(self.args@));
        (ShellResponse::Calc { operands }, 0)
    }

    /// Runs the entered line and clears it. The first line ever entered is
    /// the user's name, which goes into the prompt; every later line is a
    /// command whose response the console shows, and whose status colours
    /// the next prompt.
    pub fn exec(&mut self) -> (r: ShellResponse)
        ensures
            final(self).line() == Seq::<char>::empty(),
            final(self).has_name(),
            !old(self).has_name() ==> (r matches ShellResponse::Greeting { name } && name@ == old(
                self,
            ).line()) && final(self).user_name() == old(self).line() && final(self).prompt_text()
                == old(self).line() + PROMPT_SUFFIX@ && final(self).width() == prompt_width(
                final(self).prompt_text().len(),
            ) && final(self).status() == old(self).status(),
            old(self).has_name() ==> final(self).prompt_text() == old(self).prompt_text()
                && final(self).width() == old(self).width() && responds(
                split_words(old(self).line()),
                old(self).line(),
                old(self).user_name(),
                r,
                final(self).status(),
                final(self).user_name(),
            ),
    {
        let ghost line = self.buffer@;
        self.parse_command();
        let r;
        if !self.named {
            let name = copy_chars(&self.buffer);
            let mut prompt = copy_chars(&self.buffer);
            let mut suffix = chars_of(PROMPT_SUFFIX);
            prompt.append(&mut suffix);
            self.name = copy_chars(&self.buffer);
            self.len = width_of(prompt.len());
            self.prompt = prompt;
            self.named = true;
            r = ShellResponse::Greeting { name };
        } else {
            let command = if self.command.len() == 0 {
                Command::Unknown
            } else {
                classify(&self.command)
            };
            let (response, status): (ShellResponse, u8) = match command {
                Command::Echo => self.handle_echo(),
                Command::Rename => self.handle_rename(),
                Command::Calc => self.handle_calc(),
                Command::NoFileSystem => (ShellResponse::Run(Command::NoFileSystem), 2),
                Command::Unknown => (ShellResponse::Invalid { line: copy_chars(&self.buffer) }, 1),
                other => (ShellResponse::Run(other), 0),
            };
            self.err = status;
            r = response;
        }
        self.buffer.clear();
        r
    }
}

/// Whether echo's arguments ask for a colour: `-c`, a colour word and at least one more word.
pub open spec fn echo_colored(args: Seq<Seq<char>>) -> bool {
    args.len() > 2 && args[0] == "-c"@
}

/// Whether two character vectors of equal length hold the same characters.
fn same_chars(a: &Vec<char>, b: &Vec<char>) -> (r: bool)
    requires
        a@.len() == b@.len(),
    ensures
        r == (a@ == b@),
{
    let mut i: usize = 0;
    while i < a.len()
        invariant
            a@.len() == b@.len(),
            i <= a@.len(),
            a@.subrange(0, i as int) == b@.subrange(0, i as int),
        decreases a@.len() - i,
    {
        if a[i] != b[i] {
            return false;
        }
        i = i + 1;
        assert(a@.subrange(0, i as int) =~= b@.subrange(0, i as int));
    }
    assert(a@ =~= a@.subrange(0, i as int));
    assert(b@ =~= b@.subrange(0, i as int));
    true
}

/// How `rename` answers the arguments `args` when the user is called `name`:
/// the response, the status, and the name afterwards.
pub open spec fn renames(args: Seq<Seq<char>>, name: Seq<char>, r: ShellResponse, status: u8, new_name: Seq<char>) -> bool {
    if args.len() != 2 {
        r == (ShellResponse::Usage { command: Command::Rename, detailed: false }) && status == 1
            && new_name == name
    } else {
        &&& (r matches ShellResponse::Rename { old_name, new_name: to, renamed } && old_name@
            == args[0] && to@ == args[1] && renamed == (name == args[0]))
        &&& new_name == (if name == args[0] { args[1] } else { name })
        &&& status == 0
    }
}

/// How `calc` answers the arguments `args`: the response and the status.
pub open spec fn calculates(args: Seq<Seq<char>>, r: ShellResponse, status: u8) -> bool {
    if args.len() == 0 {
        r == (ShellResponse::Usage { command: Command::Calc, detailed: true }) && status == 1
    } else if args.len() != 3 {
        r == (ShellResponse::Usage { command: Command::Calc, detailed: false }) && status == 1
    } else {
        (r matches ShellResponse::Calc { operands } && views(operands@) == args) && status == 0
    }
}

/// How `echo` answers the arguments `args`: the response and the status.
pub open spec fn echoes(args: Seq<Seq<char>>, r: ShellResponse, status: u8) -> bool {
    if args.len() == 0 {
        r == (ShellResponse::Usage { command: Command::Echo, detailed: false }) && status == 1
    } else if echo_colored(args) {
        match color_named(lowercase_of(args[1])) {
            Some(c) => (r matches ShellResponse::Echo { message, color } && message@ == joined(
                args.subrange(2, args.len() as int),
            ) && color == Some(c)) && status == 0,
            None => r is InvalidColor && status == 1,
        }
    } else {
        (r matches ShellResponse::Echo { message, color } && message@ == joined(args) && color is None)
            && status == 0
    }
}

/// How the shell answers a line whose words are `words` when the user is
/// called `name`: the response, the status, and the name afterwards.
pub open spec fn responds(
    words: Seq<Seq<char>>,
    line: Seq<char>,
    name: Seq<char>,
    r: ShellResponse,
    status: u8,
    new_name: Seq<char>,
) -> bool {
    let args = args_of(words);
    let command = command_of(words);
    &&& (command != Command::Rename ==> new_name == name)
    &&& match command {
        Command::Echo => echoes(args, r, status),
        Command::Rename => renames(args, name, r, status, new_name),
        Command::Calc => calculates(args, r, status),
        Command::NoFileSystem => r == ShellResponse::Run(Command::NoFileSystem) && status == 2,
        Command::Unknown => (r matches ShellResponse::Invalid { line: l } && l@ == line) && status == 1,
        _ => r == ShellResponse::Run(command) && status == 0,
    }
}

} // verus!
