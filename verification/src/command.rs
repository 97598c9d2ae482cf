//! Command templates: an executable and its arguments, in which `{}` stands
//! for the display that the command is aimed at.

use crate::text::{is_blank, replace_placeholder, substitute, trim, trimmed};
use vstd::prelude::*;

verus! {

/// An executable with its arguments. In a template, each `{}` in an argument
/// is replaced by a display's name before the command runs.
#[derive(Clone, Debug, PartialEq, Eq)]
pub struct HyprdockCommand {
    pub base: String,
    pub args: Vec<String>,
}

/// What a [`HyprdockCommand`] holds, as plain text.
pub struct CommandView {
    pub base: Seq<char>,
    pub args: Seq<Seq<char>>,
}

/// The texts that a sequence of strings holds.
pub open spec fn texts(s: Seq<String>) -> Seq<Seq<char>> {
    s.map_values(|a: String| a@)
}

/// The texts that a sequence of string slices holds.
pub open spec fn slice_texts(s: Seq<&str>) -> Seq<Seq<char>> {
    s.map_values(|a: &str| a@)
}

/// The commands that a sequence of commands holds, as plain text.
pub open spec fn command_views(s: Seq<HyprdockCommand>) -> Seq<CommandView> {
    s.map_values(|c: HyprdockCommand| c@)
}

impl View for HyprdockCommand {
    type V = CommandView;

    open spec fn view(&self) -> CommandView {
        CommandView { base: self.base@, args: texts(self.args@) }
    }
}

/// The template `c` aimed at `target`: the executable as it is, and each
/// argument with its placeholders replaced.
pub open spec fn formatted(c: CommandView, target: Seq<char>) -> CommandView {
    CommandView { base: c.base, args: c.args.map_values(|a: Seq<char>| substitute(a, target)) }
}

/// Whether `token` is the one that parts two commands packed into one: a
/// semicolon standing alone.
pub open spec fn is_delimiter(token: Seq<char>) -> bool {
    token == ";"@
}

/// The tokens of `c`: its executable, then its arguments.
pub open spec fn tokens(c: CommandView) -> Seq<Seq<char>> {
    seq![c.base] + c.args
}

/// How many tokens stand before the first delimiter of `tokens`.
pub open spec fn first_group_len(tokens: Seq<Seq<char>>) -> nat
    decreases tokens.len(),
{
    if tokens.len() == 0 || is_delimiter(tokens[0]) {
        0
    } else {
        1 + first_group_len(tokens.skip(1))
    }
}

/// The command that the tokens between two delimiters make: the first is the
/// executable, trimmed, the others are its arguments. No tokens, or a blank
/// executable, make no command.
pub open spec fn group_command(group: Seq<Seq<char>>) -> Seq<CommandView> {
    if group.len() == 0 || is_blank(group[0]) {
        Seq::empty()
    } else {
        seq![CommandView { base: trimmed(group[0]), args: group.skip(1) }]
    }
}

/// The commands that `tokens` hold, in order: one for each run of tokens
/// between delimiters that makes one.
pub open spec fn split_commands(tokens: Seq<Seq<char>>) -> Seq<CommandView>
    decreases tokens.len(),
{
    let n = first_group_len(tokens);
    if n >= tokens.len() {
        group_command(tokens)
    } else {
        group_command(tokens.take(n as int)) + split_commands(tokens.skip(n as int + 1))
    }
}

/// What running `c` comes to: the commands that its tokens hold, in order.
pub open spec fn runnable(c: CommandView) -> Seq<CommandView> {
    split_commands(tokens(c))
}

/// What running the template `c` aimed at `target` comes to.
pub open spec fn issued(c: CommandView, target: Seq<char>) -> Seq<CommandView> {
    runnable(formatted(c, target))
}

/// A copy of `v` with the same texts.
pub fn copy_texts(v: &Vec<String>) -> (r: Vec<String>)
    ensures
        texts(r@) == texts(v@),
{
    let mut r: Vec<String> = Vec::new();
    for i in 0..v.len()
        invariant
            r.len() == i,
            forall|j: int| 0 <= j < i ==> r@[j]@ == v@[j]@,
    {
        r.push(v[i].clone());
    }
    assert(texts(r@) =~= texts(v@));
    r
}

impl HyprdockCommand {
    /// The command that runs nothing: no executable, no arguments.
    pub fn empty() -> (r: Self)
        ensures
            r@ == (CommandView { base: Seq::empty(), args: Seq::empty() }),
    {
        let r = Self { base: String::new(), args: Vec::new() };
        assert(texts(r.args@) =~= Seq::empty());
        r
    }

    /// The command `base` with the arguments `args`; `base` is trimmed.
    pub fn new(base: &'static str, args: &[&str]) -> (r: Self)
        ensures
            r@ == (CommandView { base: trimmed(base@), args: slice_texts(args@) }),
    {
        let mut owned: Vec<String> = Vec::new();
        for i in 0..args.len()
            invariant
                owned.len() == i,
                forall|j: int| 0 <= j < i ==> owned@[j]@ == args@[j]@,
        {
            owned.push(args[i].to_owned());
        }
        assert(texts(owned@) =~= slice_texts(args@));
        Self { base: trim(base), args: owned }
    }

    /// The command `base` without arguments; `base` is trimmed.
    pub fn single(base: &'static str) -> (r: Self)
        ensures
            r@ == (CommandView { base: trimmed(base@), args: Seq::empty() }),
    {
        let r = Self { base: trim(base), args: Vec::new() };
        assert(texts(r.args@) =~= Seq::empty());
        r
    }

    /// This template aimed at `monitor`: each `{}` in an argument becomes the
    /// display's name. The executable is not touched.
    pub fn format(&self, monitor: &String) -> (r: Self)
        ensures
            r@ == formatted(self@, monitor@),
    {
        let mut new_args: Vec<String> = Vec::new();
        for i in 0..self.args.len()
            invariant
                new_args.len() == i,
                forall|j: int|
                    0 <= j < i ==> new_args@[j]@ == substitute(self.args@[j]@, monitor@),
        {
            let processed_arg = replace_placeholder(self.args[i].as_str(), monitor.as_str());
            new_args.push(processed_arg);
        }
        assert(texts(new_args@) =~= formatted(self@, monitor@).args);
        Self { base: self.base.clone(), args: new_args }
    }

    /// A copy of this command.
    pub fn duplicate(&self) -> (r: Self)
        ensures
            r@ == self@,
    {
        Self { base: self.base.clone(), args: copy_texts(&self.args) }
    }
}

/// Where no token before `n` is a delimiter, and the token at `n` is one or
/// `n` is the end, the first group of `tokens` has `n` tokens.
proof fn lemma_first_group_len(tokens: Seq<Seq<char>>, n: int)
    requires
        0 <= n <= tokens.len(),
        forall|k: int| 0 <= k < n ==> !is_delimiter(#[trigger] tokens[k]),
        n == tokens.len() || is_delimiter(tokens[n]),
    ensures
        first_group_len(tokens) == n,
    decreases n,
{
    if n > 0 {
        let rest = tokens.skip(1);
        assert forall|k: int| 0 <= k < n - 1 implies !is_delimiter(#[trigger] rest[k]) by {
            assert(rest[k] == tokens[k + 1]);
        }
        if n < tokens.len() {
            assert(rest[n - 1] == tokens[n]);
        }
        lemma_first_group_len(rest, n - 1);
    }
}

/// A command none of whose tokens is a delimiter comes to itself with the
/// executable trimmed, or to nothing where the executable is blank.
pub proof fn lemma_runnable_single(c: CommandView)
    requires
        !is_delimiter(c.base),
        forall|i: int| 0 <= i < c.args.len() ==> !is_delimiter(#[trigger] c.args[i]),
    ensures
        runnable(c) == if is_blank(c.base) {
            Seq::<CommandView>::empty()
        } else {
            seq![CommandView { base: trimmed(c.base), args: c.args }]
        },
{
    let t = tokens(c);
    assert forall|k: int| 0 <= k < t.len() implies !is_delimiter(#[trigger] t[k]) by {
        if k > 0 {
            assert(t[k] == c.args[k - 1]);
        }
    }
    lemma_first_group_len(t, t.len() as int);
    assert(t.skip(1) =~= c.args);
}

fn push_group(out: &mut Vec<HyprdockCommand>, group: Vec<String>)
    ensures
        command_views(final(out)@) == command_views(old(out)@) + group_command(texts(group@)),
{
    let ghost made = group_command(texts(group@));
    if group.len() == 0 {
        assert(command_views(out@) + made =~= command_views(out@));
        return;
    }
    let mut args = group;
    let first = args.remove(0);
    assert(texts(args@) =~= texts(group@).skip(1));
    let base = trim(first.as_str());
    if base.as_str().unicode_len() != 0 {
        out.push(HyprdockCommand { base, args });
        assert(command_views(out@) =~= command_views(old(out)@) + made);
    } else {
        assert(command_views(out@) + made =~= command_views(out@));
    }
}

impl HyprdockCommand {
    /// The commands packed into this one, in order: its tokens are parted at
    /// each semicolon that stands alone, and each part that names an
    /// executable is a command.
    pub fn split(&self) -> (r: Vec<HyprdockCommand>)
        ensures
            command_views(r@) == runnable(self@),
    {
        let delimiter = ";".to_owned();
        let mut all: Vec<String> = Vec::new();
        all.push(self.base.clone());
        for j in 0..self.args.len()
            invariant
                all.len() == j + 1,
                all@[0]@ == self.base@,
                forall|k: int| 0 <= k < j ==> all@[k + 1]@ == self.args@[k]@,
        {
            all.push(self.args[j].clone());
        }
        let ghost toks = tokens(self@);
        assert(texts(all@) =~= toks);
        let n = all.len();
        let mut r: Vec<HyprdockCommand> = Vec::new();
        let mut group: Vec<String> = Vec::new();
        let ghost mut g: int = 0;
        let mut i: usize = 0;
        proof {
            assert(toks.skip(0) =~= toks);
            assert(texts(group@) =~= toks.subrange(0, 0));
            assert(command_views(r@) + split_commands(toks) =~= split_commands(toks));
        }
        while i < n
            invariant
                0 <= g <= i <= n,
                n == all.len(),
                toks == texts(all@),
                toks == tokens(self@),
                delimiter@ == ";"@,
                texts(group@) == toks.subrange(g, i as int),
                forall|k: int| g <= k < i ==> !is_delimiter(#[trigger] toks[k]),
                runnable(self@) == command_views(r@) + split_commands(toks.skip(g)),
            decreases n - i,
        {
            let ghost tail = toks.skip(g);
            if all[i] == delimiter {
                proof {
                    assert(toks[i as int] == all@[i as int]@);
                    assert forall|k: int| 0 <= k < i - g implies !is_delimiter(
                        #[trigger] tail[k],
                    ) by {
                        assert(tail[k] == toks[g + k]);
                    }
                    assert(tail[i - g] == toks[i as int]);
                    lemma_first_group_len(tail, i - g);
                    assert(tail.take(i - g) =~= toks.subrange(g, i as int));
                    assert(tail.skip(i - g + 1) =~= toks.skip(i + 1));
                }
                push_group(&mut r, group);
                group = Vec::new();
                i = i + 1;
                proof {
                    g = i as int;
                    assert(texts(group@) =~= toks.subrange(g, i as int));
                }
            } else {
                proof {
                    assert(toks[i as int] == all@[i as int]@);
                    assert(toks.subrange(g, i as int).push(toks[i as int]) =~= toks.subrange(
                        g,
                        i + 1,
                    ));
                }
                group.push(all[i].clone());
                assert(texts(group@) =~= toks.subrange(g, i + 1));
                i = i + 1;
            }
        }
        proof {
            let tail = toks.skip(g);
            assert forall|k: int| 0 <= k < n - g implies !is_delimiter(#[trigger] tail[k]) by {
                assert(tail[k] == toks[g + k]);
            }
            lemma_first_group_len(tail, n - g);
            assert(tail =~= toks.subrange(g, n as int));
        }
        push_group(&mut r, group);
        r
    }
}

} // verus!
