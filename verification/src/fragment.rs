//! The command-line model: how queued sub-command fragments are assembled
//! into the single string handed to the shell.
//!
//! A *fragment* is one fully formed sub-command such as `npm install a b`.
//! Fragments are produced by joining words with a single space, and the final
//! shell command joins all fragments with `" && "` so that a later fragment
//! runs only if every earlier one succeeded.

use vstd::prelude::*;

verus! {

/// The sequence `parts` joined by the separator `sep`: empty when `parts` is
/// empty, and otherwise the parts in order with one copy of `sep` between
/// each adjacent pair.
pub open spec fn join_with(parts: Seq<Seq<char>>, sep: Seq<char>) -> Seq<char>
    decreases parts.len(),
{
    if parts.len() == 0 {
        Seq::empty()
    } else if parts.len() == 1 {
        parts[0]
    } else {
        join_with(parts.drop_last(), sep) + sep + parts.last()
    }
}

/// The fragment queued for one `npm` sub-command: the word `npm`, the
/// sub-command name, and its arguments, all joined by single spaces.
pub open spec fn npm_fragment(cmd: Seq<char>, args: Seq<Seq<char>>) -> Seq<char> {
    join_with(seq!["npm"@, cmd] + args, " "@)
}

/// The argument words of an optional argument list: an absent list
/// contributes no words.
pub open spec fn opt_args(args: Option<&[&str]>) -> Seq<Seq<char>> {
    match args {
        Some(a) => a.deep_view(),
        None => Seq::empty(),
    }
}

/// Joining is left-extensible: appending one more part to a joined sequence
/// extends the joined string by the separator and the new part (or is just
/// the new part when nothing was joined before). In particular, the final
/// shell command of a builder equals its fragments in call order separated
/// by the separator.
pub proof fn lemma_join_with_push(parts: Seq<Seq<char>>, sep: Seq<char>, x: Seq<char>)
    ensures
        join_with(parts.push(x), sep) == (if parts.len() == 0 {
            x
        } else {
            join_with(parts, sep) + sep + x
        }),
{
    let extended = parts.push(x);
    assert(extended.last() == x);
    if parts.len() == 0 {
        assert(extended.len() == 1);
        assert(extended[0] == x);
    } else {
        assert(extended.drop_last() =~= parts);
    }
}

} // verus!
