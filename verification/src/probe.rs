//! Probing the compiler for the alternate declaration syntax.
//!
//! Nothing here runs a compiler. The functions of this module say what to run
//! and what to conclude from how it ended; running it is left to the caller.

use crate::decimal::{append_decimal, decimal};
use vstd::prelude::*;

verus! {

/// The character that separates the fields of the encoded compiler flags.
pub const FLAG_SEPARATOR: char = '\u{1f}';

/// The configuration flag that records that the alternate syntax is accepted.
pub const CAPABILITY: &'static str = "has_simple_decl_macro";

/// The snippet that compiles exactly where the alternate syntax is accepted:
/// a macro with two like arms, declared under reduced hygiene.
pub const FEATURE_SNIPPET: &'static str =
    "#![feature(decl_macro, rustc_attrs)]\n#[rustc_macro_transparency = \"semitransparent\"]\npub macro m {\n    () => {},\n    () => {},\n}\n";

/// The line that switches the standard runtime off in a probed snippet.
pub const NO_STD_HEADER: &'static str = "#![no_std]\n";

/// The texts of a sequence of strings.
pub open spec fn texts(v: Seq<String>) -> Seq<Seq<char>> {
    v.map_values(|s: String| s@)
}

/// The fields of `s`: what stands between its separators. A text without a
/// separator is one field, also where it is empty.
pub open spec fn fields(s: Seq<char>, sep: char) -> Seq<Seq<char>>
    decreases s.len(),
{
    if s.len() == 0 {
        seq![Seq::empty()]
    } else {
        let front = fields(s.drop_last(), sep);
        if s.last() == sep {
            front.push(Seq::empty())
        } else {
            front.drop_last().push(front.last().push(s.last()))
        }
    }
}

/// The compiler flags that an encoded text holds: none where it is empty,
/// else its fields.
pub open spec fn decoded_flags(encoded: Seq<char>) -> Seq<Seq<char>> {
    if encoded.len() == 0 {
        Seq::empty()
    } else {
        fields(encoded, FLAG_SEPARATOR)
    }
}

/// The fields put together again, with `sep` between them.
pub open spec fn joined(parts: Seq<Seq<char>>, sep: char) -> Seq<char>
    decreases parts.len(),
{
    if parts.len() == 0 {
        Seq::empty()
    } else if parts.len() == 1 {
        parts[0]
    } else {
        joined(parts.drop_last(), sep).push(sep) + parts.last()
    }
}

/// A text always has a field, no field holds the separator, and the fields
/// joined by the separator are the text again.
pub proof fn theorem_fields_partition(s: Seq<char>, sep: char)
    ensures
        fields(s, sep).len() >= 1,
        forall|i: int, j: int|
            0 <= i < fields(s, sep).len() && 0 <= j < fields(s, sep)[i].len() ==> #[trigger] fields(
                s,
                sep,
            )[i][j] != sep,
        joined(fields(s, sep), sep) == s,
    decreases s.len(),
{
    if s.len() > 0 {
        let front = fields(s.drop_last(), sep);
        let all = fields(s, sep);
        theorem_fields_partition(s.drop_last(), sep);
        if s.last() == sep {
            assert(all.drop_last() =~= front);
        } else if front.len() > 1 {
            assert(all.drop_last() =~= front.drop_last());
            assert(all.last() == front.last().push(s.last()));
            assert(joined(front, sep) == joined(front.drop_last(), sep).push(sep) + front.last());
            assert(joined(all, sep) =~= s.drop_last().push(s.last()));
        }
    }
}

/// Splits the encoded compiler flags into the flags, each one verbatim.
pub fn decode_flags(encoded: &str) -> (flags: Vec<String>)
    ensures
        texts(flags@) == decoded_flags(encoded@),
{
    let mut flags: Vec<String> = Vec::new();
    let n: usize = encoded.unicode_len();
    if n == 0 {
        assert(texts(flags@) =~= decoded_flags(encoded@));
        return flags;
    }
    let ghost s = encoded@;
    let mut start: usize = 0;
    let mut i: usize = 0;
    assert(s.take(0) =~= Seq::empty());
    assert(texts(flags@).push(s.subrange(0, 0)) =~= fields(s.take(0), FLAG_SEPARATOR));
    while i < n
        invariant
            s == encoded@,
            n == s.len(),
            start <= i <= n,
            fields(s.take(i as int), FLAG_SEPARATOR) == texts(flags@).push(
                s.subrange(start as int, i as int),
            ),
        decreases n - i,
    {
        let c = encoded.get_char(i);
        let ghost before = texts(flags@);
        assert(s.take(i + 1).drop_last() =~= s.take(i as int));
        assert(s.take(i + 1).last() == c);
        if c == FLAG_SEPARATOR {
            let ghost field = s.subrange(start as int, i as int);
            flags.push(String::from_str(encoded.substring_char(start, i)));
            start = i + 1;
            assert(texts(flags@) =~= before.push(field));
            assert(s.subrange(start as int, i + 1) =~= Seq::empty());
        } else {
            assert(before.push(s.subrange(start as int, i as int)).drop_last() =~= before);
            assert(s.subrange(start as int, i as int).push(c) =~= s.subrange(
                start as int,
                i + 1,
            ));
        }
        i += 1;
    }
    assert(s.take(n as int) =~= s);
    let ghost before = texts(flags@);
    flags.push(String::from_str(encoded.substring_char(start, n)));
    assert(texts(flags@) =~= before.push(s.subrange(start as int, n as int)));
    flags
}

/// One argument of the compiler's command line.
#[derive(Clone, Debug, PartialEq, Eq)]
pub enum Argument {
    /// Text, handed over as it is.
    Text(String),
    /// The scratch directory that takes the artifacts.
    OutDir,
    /// The platform that is compiled for.
    Target,
}

/// The view of an [`Argument`].
pub enum ArgumentView {
    Text(Seq<char>),
    OutDir,
    Target,
}

impl View for Argument {
    type V = ArgumentView;

    open spec fn view(&self) -> ArgumentView {
        match self {
            Argument::Text(text) => ArgumentView::Text(text@),
            Argument::OutDir => ArgumentView::OutDir,
            Argument::Target => ArgumentView::Target,
        }
    }
}

/// The views of a sequence of arguments.
pub open spec fn arguments_view(v: Seq<Argument>) -> Seq<ArgumentView> {
    v.map_values(|a: Argument| a@)
}

/// The command line of the probe with identifier `id`: a library crate named
/// after the identifier, artifacts in the scratch directory, the target where
/// there is one, the flags of the build, and the source on standard input.
pub open spec fn command_line(id: nat, has_target: bool, flags: Seq<Seq<char>>) -> Seq<
    ArgumentView,
> {
    seq![
        ArgumentView::Text("--crate-name"@),
        ArgumentView::Text("probe"@ + decimal(id)),
        ArgumentView::Text("--crate-type=lib"@),
        ArgumentView::Text("--out-dir"@),
        ArgumentView::OutDir,
        ArgumentView::Text("--emit=llvm-ir"@),
    ] + (if has_target {
        seq![ArgumentView::Text("--target"@), ArgumentView::Target]
    } else {
        Seq::empty()
    }) + flags.map_values(|f: Seq<char>| ArgumentView::Text(f)) + seq![
        ArgumentView::Text("-"@),
    ]
}

/// What is written to the compiler's standard input: the snippet, behind the
/// header that switches the standard runtime off where that is asked for.
pub open spec fn probe_input(no_std: bool, code: Seq<char>) -> Seq<char> {
    if no_std {
        NO_STD_HEADER@ + code
    } else {
        code
    }
}

/// The identifier after `id`. It starts again at zero after the largest one.
pub open spec fn next_identifier(id: usize) -> usize {
    if id == usize::MAX {
        0
    } else {
        (id + 1) as usize
    }
}

/// How a run of the compiler on a snippet ended.
#[derive(Clone, Copy, Debug, PartialEq, Eq, Structural)]
pub enum ProbeOutcome {
    /// The compiler ran and accepted the snippet.
    Compiled,
    /// The compiler ran and rejected the snippet.
    Rejected,
    /// The compiler could not be run, or its end could not be awaited.
    NotRun,
}

/// Whether a probe shows that its snippet is supported: only a snippet that
/// compiled is.
pub fn supported(outcome: ProbeOutcome) -> (yes: bool)
    ensures
        yes == (outcome == ProbeOutcome::Compiled),
{
    match outcome {
        ProbeOutcome::Compiled => true,
        _ => false,
    }
}

/// Where the check of the runtime stands.
#[derive(Clone, Copy, Debug, PartialEq, Eq, Structural)]
pub enum SelfCheck {
    /// An empty snippet is to be probed with the standard runtime.
    WithStd,
    /// An empty snippet is to be probed without the standard runtime.
    WithoutStd,
    /// The check is over. `warn` says that neither probe compiled.
    Settled { warn: bool },
}

/// The state after a probe made in `state` ended with `outcome`, and whether
/// later probes leave the standard runtime out.
pub open spec fn self_check_step(state: SelfCheck, no_std: bool, outcome: ProbeOutcome) -> (
    SelfCheck,
    bool,
) {
    let compiled = outcome == ProbeOutcome::Compiled;
    match state {
        SelfCheck::WithStd => if compiled {
            (SelfCheck::Settled { warn: false }, false)
        } else {
            (SelfCheck::WithoutStd, true)
        },
        SelfCheck::WithoutStd => if compiled {
            (SelfCheck::Settled { warn: false }, true)
        } else {
            (SelfCheck::Settled { warn: true }, false)
        },
        SelfCheck::Settled { .. } => (state, no_std),
    }
}

/// The runtime check is settled after two probes at most, and it warns only
/// where neither of them compiled.
pub proof fn theorem_self_check_settles(first: ProbeOutcome, second: ProbeOutcome)
    ensures
        ({
            let (state, no_std) = self_check_step(SelfCheck::WithStd, false, first);
            let (end, end_no_std) = self_check_step(state, no_std, second);
            &&& end is Settled
            &&& end->warn <==> first != ProbeOutcome::Compiled && second != ProbeOutcome::Compiled
            &&& end_no_std <==> first != ProbeOutcome::Compiled && second == ProbeOutcome::Compiled
        }),
{
}

/// What a prober knows: the flags of the build, whether a target is named,
/// whether probes leave the standard runtime out, and the next identifier.
#[derive(Clone, Debug, PartialEq, Eq)]
pub struct Prober {
    pub flags: Vec<String>,
    pub has_target: bool,
    pub no_std: bool,
    pub next_id: usize,
}

/// The view of a [`Prober`].
pub struct ProberView {
    pub flags: Seq<Seq<char>>,
    pub has_target: bool,
    pub no_std: bool,
    pub next_id: usize,
}

impl View for Prober {
    type V = ProberView;

    open spec fn view(&self) -> ProberView {
        ProberView {
            flags: texts(self.flags@),
            has_target: self.has_target,
            no_std: self.no_std,
            next_id: self.next_id,
        }
    }
}

impl Prober {
    /// A prober for a build with the given encoded flags. It starts with the
    /// standard runtime and the identifier zero.
    pub fn new(encoded_flags: &str, has_target: bool) -> (prober: Prober)
        ensures
            prober@ == (ProberView {
                flags: decoded_flags(encoded_flags@),
                has_target,
                no_std: false,
                next_id: 0,
            }),
    {
        Prober { flags: decode_flags(encoded_flags), has_target, no_std: false, next_id: 0 }
    }

    /// The command line of the next probe. Each call uses up one identifier.
    pub fn command(&mut self) -> (arguments: Vec<Argument>)
        ensures
            arguments_view(arguments@) == command_line(
                old(self).next_id as nat,
                old(self).has_target,
                old(self)@.flags,
            ),
            final(self)@ == (ProberView { next_id: next_identifier(old(self).next_id), ..old(self)@ }),
    {
        let id: usize = self.next_id;
        self.next_id = if id == usize::MAX {
            0
        } else {
            id + 1
        };
        let mut name = String::from_str("probe");
        append_decimal(&mut name, id as u128);
        let mut arguments: Vec<Argument> = Vec::new();
        arguments.push(Argument::Text(String::from_str("--crate-name")));
        arguments.push(Argument::Text(name));
        arguments.push(Argument::Text(String::from_str("--crate-type=lib")));
        arguments.push(Argument::Text(String::from_str("--out-dir")));
        arguments.push(Argument::OutDir);
        arguments.push(Argument::Text(String::from_str("--emit=llvm-ir")));
        if self.has_target {
            arguments.push(Argument::Text(String::from_str("--target")));
            arguments.push(Argument::Target);
        }
        let ghost head = arguments_view(arguments@);
        let ghost flags = texts(self.flags@);
        assert(head =~= head + flags.take(0).map_values(|f: Seq<char>| ArgumentView::Text(f)));
        let mut i: usize = 0;
        while i < self.flags.len()
            invariant
                i <= self.flags.len(),
                flags == texts(self.flags@),
                arguments_view(arguments@) == head + flags.take(i as int).map_values(
                    |f: Seq<char>| ArgumentView::Text(f),
                ),
            decreases self.flags.len() - i,
        {
            let ghost before = arguments_view(arguments@);
            arguments.push(Argument::Text(self.flags[i].clone()));
            assert(arguments_view(arguments@) =~= before.push(ArgumentView::Text(flags[i as int])));
            assert(flags.take(i + 1) =~= flags.take(i as int).push(flags[i as int]));
            i += 1;
        }
        assert(flags.take(i as int) =~= flags);
        let ghost before = arguments_view(arguments@);
        arguments.push(Argument::Text(String::from_str("-")));
        assert(arguments_view(arguments@) =~= before.push(ArgumentView::Text("-"@)));
        assert(arguments_view(arguments@) =~= command_line(
            id as nat,
            self.has_target,
            flags,
        ));
        arguments
    }

    /// What to write to the standard input of a probe of `code`.
    pub fn input(&self, code: &str) -> (text: String)
        ensures
            text@ == probe_input(self.no_std, code@),
    {
        if self.no_std {
            String::from_str(NO_STD_HEADER).concat(code)
        } else {
            String::from_str(code)
        }
    }

    /// Takes note of how a probe of the runtime check ended, and says what
    /// comes next. Once the check is settled nothing changes any more.
    pub fn record_self_check(&mut self, state: SelfCheck, outcome: ProbeOutcome) -> (next: SelfCheck)
        ensures
            (next, final(self).no_std) == self_check_step(state, old(self).no_std, outcome),
            final(self)@ == (ProberView { no_std: final(self).no_std, ..old(self)@ }),
    {
        let compiled = supported(outcome);
        match state {
            SelfCheck::WithStd => {
                if compiled {
                    self.no_std = false;
                    SelfCheck::Settled { warn: false }
                } else {
                    self.no_std = true;
                    SelfCheck::WithoutStd
                }
            },
            SelfCheck::WithoutStd => {
                if compiled {
                    self.no_std = true;
                    SelfCheck::Settled { warn: false }
                } else {
                    self.no_std = false;
                    SelfCheck::Settled { warn: true }
                }
            },
            SelfCheck::Settled { warn } => SelfCheck::Settled { warn },
        }
    }
}

} // verus!
