//! The script's console: what a logging call writes, and where.

use vstd::prelude::*;
use vstd::string::StringExecFns;

verus! {

/// The severity of a console call.
#[derive(Clone, Copy, Debug, PartialEq, Eq, Structural)]
pub enum Level {
    Info,
    Warn,
    Error,
}

/// Where a console line goes.
#[derive(Clone, Copy, Debug, PartialEq, Eq, Structural)]
pub enum Sink {
    /// The interactive terminal.
    Terminal,
    /// The structured log, at the given severity.
    Log(Level),
}

/// The texts joined into one, with `sep` between each two.
pub open spec fn joined(parts: Seq<Seq<char>>, sep: Seq<char>) -> Seq<char>
    decreases parts.len(),
{
    if parts.len() == 0 {
        Seq::empty()
    } else if parts.len() == 1 {
        parts[0]
    } else {
        joined(parts.drop_last(), sep) + sep + parts.last()
    }
}

/// The views of a sequence of texts, in order.
pub open spec fn texts_view(parts: Seq<String>) -> Seq<Seq<char>> {
    Seq::new(parts.len(), |i: int| parts[i]@)
}

/// Joins the texts into one, with `sep` between each two.
pub fn join(parts: &Vec<String>, sep: &str) -> (r: String)
    ensures
        r@ == joined(texts_view(parts@), sep@),
{
    let mut out = String::new();
    let mut i: usize = 0;
    assert(texts_view(parts@).take(0) =~= Seq::empty());
    while i < parts.len()
        invariant
            i <= parts.len(),
            out@ == joined(texts_view(parts@).take(i as int), sep@),
        decreases parts.len() - i,
    {
        if i > 0 {
            out.append(sep);
        }
        out.append(parts[i].as_str());
        proof {
            let upto = texts_view(parts@).take(i + 1);
            assert(upto.drop_last() =~= texts_view(parts@).take(i as int));
            assert(upto.last() == parts[i as int]@);
            if i == 0 {
                assert(out@ =~= parts[0]@);
            }
        }
        i += 1;
    }
    assert(texts_view(parts@).take(parts.len() as int) =~= texts_view(parts@));
    out
}

/// What a console call amounts to: one line, and where it goes.
#[derive(Debug)]
pub struct Output {
    pub sink: Sink,
    pub line: String,
}

/// The script's console.
#[derive(Clone, Copy, Debug)]
pub struct Console;

impl Console {
    /// Where a line of the given severity goes: to the terminal when one is
    /// attached, else to the log at that severity.
    pub fn sink(level: Level, terminal: bool) -> (s: Sink)
        ensures
            s == (if terminal {
                Sink::Terminal
            } else {
                Sink::Log(level)
            }),
    {
        if terminal {
            Sink::Terminal
        } else {
            Sink::Log(level)
        }
    }

    /// What a call at the given severity writes: the rendered arguments on
    /// one line, a space between each two, to the sink for that severity.
    pub fn write(level: Level, args: &Vec<String>, terminal: bool) -> (o: Output)
        ensures
            o.sink == (if terminal {
                Sink::Terminal
            } else {
                Sink::Log(level)
            }),
            o.line@ == joined(texts_view(args@), " "@),
    {
        Output { sink: Console::sink(level, terminal), line: join(args, " ") }
    }

    /// `console.log`: the line goes to the terminal, or to the log as information.
    pub fn log(&self, args: &Vec<String>, terminal: bool) -> (o: Output)
        ensures
            o.sink == (if terminal {
                Sink::Terminal
            } else {
                Sink::Log(Level::Info)
            }),
            o.line@ == joined(texts_view(args@), " "@),
    {
        Console::write(Level::Info, args, terminal)
    }

    /// `console.warn`: the line goes to the terminal, or to the log as a warning.
    pub fn warn(&self, args: &Vec<String>, terminal: bool) -> (o: Output)
        ensures
            o.sink == (if terminal {
                Sink::Terminal
            } else {
                Sink::Log(Level::Warn)
            }),
            o.line@ == joined(texts_view(args@), " "@),
    {
        Console::write(Level::Warn, args, terminal)
    }

    /// `console.error`: the line goes to the terminal, or to the log as an error.
    pub fn error(&self, args: &Vec<String>, terminal: bool) -> (o: Output)
        ensures
            o.sink == (if terminal {
                Sink::Terminal
            } else {
                Sink::Log(Level::Error)
            }),
            o.line@ == joined(texts_view(args@), " "@),
    {
        Console::write(Level::Error, args, terminal)
    }
}

} // verus!
