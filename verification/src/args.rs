//! Command-line arguments: the items that a command line is made of, a
//! cursor that reads them one by one, and the errors of reading them.

use vstd::prelude::*;
use crate::options::texts;
use crate::text::chars_of;
use crate::text::push_char;
use crate::text::push_text;
use crate::text::same_text;

verus! {

/// One item of a command line.
#[derive(Debug, PartialEq, Eq)]
pub enum Arg {
    /// A short flag, such as `-q`: the character after the dash.
    Short(String),
    /// A long flag, such as `--list`: the name after the dashes.
    Long(String),
    /// The `--` after which everything is a value.
    Escape(String),
    /// A value: a positional argument, or the value of a flag.
    Value(String),
    /// A value that was attached to a flag with `=` and not taken.
    Unexpected(String),
}

/// The mathematical content of an [`Arg`].
pub enum ArgView {
    Short(Seq<char>),
    Long(Seq<char>),
    Escape(Seq<char>),
    Value(Seq<char>),
    Unexpected(Seq<char>),
}

impl View for Arg {
    type V = ArgView;

    open spec fn view(&self) -> ArgView {
        match self {
            Arg::Short(s) => ArgView::Short(s@),
            Arg::Long(s) => ArgView::Long(s@),
            Arg::Escape(s) => ArgView::Escape(s@),
            Arg::Value(s) => ArgView::Value(s@),
            Arg::Unexpected(s) => ArgView::Unexpected(s@),
        }
    }
}

impl Clone for Arg {
    fn clone(&self) -> (r: Self)
        ensures
            r@ == self@,
    {
        match self {
            Arg::Short(s) => Arg::Short(s.clone()),
            Arg::Long(s) => Arg::Long(s.clone()),
            Arg::Escape(s) => Arg::Escape(s.clone()),
            Arg::Value(s) => Arg::Value(s.clone()),
            Arg::Unexpected(s) => Arg::Unexpected(s.clone()),
        }
    }
}

/// An argument as it is written on a command line.
pub open spec fn arg_text(a: ArgView) -> Seq<char> {
    match a {
        ArgView::Short(s) => "-"@ + s,
        ArgView::Long(s) => "--"@ + s,
        ArgView::Escape(s) => s,
        ArgView::Value(s) => s,
        ArgView::Unexpected(s) => s,
    }
}

/// Appends an argument as it is written on a command line.
pub fn push_arg(out: &mut String, arg: &Arg)
    ensures
        final(out)@ == old(out)@ + arg_text(arg@),
{
    match arg {
        Arg::Short(s) => {
            push_text(out, "-");
            push_text(out, s.as_str());
            assert(out@ =~= old(out)@ + ("-"@ + s@));
        },
        Arg::Long(s) => {
            push_text(out, "--");
            push_text(out, s.as_str());
            assert(out@ =~= old(out)@ + ("--"@ + s@));
        },
        Arg::Escape(s) => push_text(out, s.as_str()),
        Arg::Value(s) => push_text(out, s.as_str()),
        Arg::Unexpected(s) => push_text(out, s.as_str()),
    }
}

/// The view of an optional argument.
pub open spec fn arg_of(a: Option<Arg>) -> Option<ArgView> {
    match a {
        Some(x) => Some(x@),
        None => None,
    }
}

/// The mathematical content of an [`ErrorContext`].
pub struct ErrorContextView {
    pub msg: Seq<char>,
    pub within: Option<ArgView>,
    pub unexpected: Option<ArgView>,
}

/// An error, with the argument that failed and the one it was found in.
pub open spec fn context_text(e: ErrorContextView) -> Seq<char> {
    e.msg + (match e.unexpected {
        Some(u) => ", found `"@ + arg_text(u) + "`"@,
        None => Seq::<char>::empty(),
    }) + (match e.within {
        Some(w) => " when parsing `"@ + arg_text(w) + "`"@,
        None => Seq::<char>::empty(),
    })
}

/// What went wrong with an argument, and where.
#[derive(Debug)]
pub struct ErrorContext {
    msg: String,
    within: Option<Arg>,
    unexpected: Option<Arg>,
}

impl View for ErrorContext {
    type V = ErrorContextView;

    closed spec fn view(&self) -> ErrorContextView {
        ErrorContextView {
            msg: self.msg@,
            within: arg_of(self.within),
            unexpected: arg_of(self.unexpected),
        }
    }
}

impl ErrorContext {
    /// An error with the message `message` and no arguments.
    pub fn msg(message: &str) -> (r: Self)
        ensures
            r@ == (ErrorContextView { msg: message@, within: None, unexpected: None }),
    {
        ErrorContext { msg: message.to_owned(), within: None, unexpected: None }
    }

    /// Names the argument that the error occurred within.
    pub fn within(self, within: Arg) -> (r: Self)
        ensures
            r@ == (ErrorContextView { within: Some(within@), ..self@ }),
    {
        let mut e = self;
        e.within = Some(within);
        e
    }

    /// Names the argument that failed.
    pub fn unexpected(self, unexpected: Arg) -> (r: Self)
        ensures
            r@ == (ErrorContextView { unexpected: Some(unexpected@), ..self@ }),
    {
        let mut e = self;
        e.unexpected = Some(unexpected);
        e
    }

    /// The error in words.
    pub fn to_string(&self) -> (r: String)
        ensures
            r@ == context_text(self@),
    {
        let mut out = String::new();
        push_text(&mut out, self.msg.as_str());
        let ghost head = out@;
        match &self.unexpected {
            Some(u) => {
                push_text(&mut out, ", found `");
                push_arg(&mut out, u);
                push_text(&mut out, "`");
                assert(out@ =~= head + (", found `"@ + arg_text(u@) + "`"@));
            },
            None => {
                assert(out@ =~= head + Seq::<char>::empty());
            },
        }
        let ghost middle = out@;
        match &self.within {
            Some(w) => {
                push_text(&mut out, " when parsing `");
                push_arg(&mut out, w);
                push_text(&mut out, "`");
                assert(out@ =~= middle + (" when parsing `"@ + arg_text(w@) + "`"@));
            },
            None => {
                assert(out@ =~= middle + Seq::<char>::empty());
            },
        }
        out
    }
}

/// An error of reading the command line, in words.
pub struct Error {
    msg: String,
}

impl Error {
    /// The words of the error.
    pub closed spec fn text(&self) -> Seq<char> {
        self.msg@
    }

    /// An error that reads `message`.
    pub fn msg(message: &str) -> (r: Self)
        ensures
            r.text() == message@,
    {
        Error { msg: message.to_owned() }
    }

    /// The error that reads as `error` does.
    pub fn from_context(error: ErrorContext) -> (r: Self)
        ensures
            r.text() == context_text(error@),
    {
        Error { msg: error.to_string() }
    }

    /// The error in words.
    pub fn to_string(&self) -> (r: String)
        ensures
            r@ == self.text(),
    {
        self.msg.clone()
    }
}

/// The characters of `chars` from `from` up to `to`, as a string.
pub fn substring(chars: &Vec<char>, from: usize, to: usize) -> (r: String)
    requires
        from <= to <= chars@.len(),
    ensures
        r@ == chars@.subrange(from as int, to as int),
{
    let mut out = String::new();
    let mut i: usize = from;
    while i < to
        invariant
            from <= i <= to <= chars@.len(),
            out@ == chars@.subrange(from as int, i as int),
        decreases to - i,
    {
        push_char(&mut out, chars[i]);
        i += 1;
        assert(out@ =~= chars@.subrange(from as int, i as int));
    }
    assert(out@ =~= chars@.subrange(from as int, to as int));
    out
}

/// Where the first `c` of `s` at or after `from` is.
pub open spec fn first_of(s: Seq<char>, c: char, from: int) -> Option<int>
    decreases s.len() - from,
{
    if from < 0 || from >= s.len() {
        None
    } else if s[from] == c {
        Some(from)
    } else {
        first_of(s, c, from + 1)
    }
}

/// Finds the first `c` of `chars` at or after `from`.
pub fn find_char(chars: &Vec<char>, c: char, from: usize) -> (r: Option<usize>)
    ensures
        match r {
            Some(at) => first_of(chars@, c, from as int) == Some(at as int) && from <= at
                < chars@.len(),
            None => first_of(chars@, c, from as int) is None,
        },
{
    let mut i: usize = from;
    while i < chars.len()
        invariant
            from <= i,
            first_of(chars@, c, from as int) == first_of(chars@, c, i as int),
        decreases chars@.len() - i,
    {
        if chars[i] == c {
            return Some(i);
        }
        i += 1;
    }
    None
}

/// The mathematical content of a [`Parser`]: the arguments, how many of
/// them were read, and what is left of the one read last.
pub struct ParserView {
    pub raw: Seq<Seq<char>>,
    pub current: int,
    /// The value that the last long flag brought along behind a `=`.
    pub attached: Option<Seq<char>>,
    /// What follows the last short flag in its argument.
    pub shorts: Seq<char>,
    /// Whether `--` was read: all that follows is values.
    pub escaped: bool,
}

/// Reading the next item: the parser after it, and the item, if any.
///
/// A value left behind by a long flag is unexpected. After a short flag,
/// the characters that follow are short flags too, unless they begin with
/// `=`, which makes them an unexpected value. Otherwise the next argument
/// is read: anything after `--`, and anything that does not begin with a
/// dash, is a value, as is a dash alone; `--name` and `--name=value` are
/// long flags; `-abc` is the short flag `a`, with `bc` to follow.
pub open spec fn next_arg_of(v: ParserView) -> (ParserView, Option<ArgView>) {
    if v.attached is Some {
        (ParserView { attached: None, ..v }, Some(ArgView::Unexpected(v.attached->0)))
    } else if v.shorts.len() > 0 {
        if v.shorts[0] == '=' {
            (ParserView { shorts: Seq::empty(), ..v }, Some(ArgView::Unexpected(v.shorts)))
        } else {
            (
                ParserView { shorts: v.shorts.drop_first(), ..v },
                Some(ArgView::Short(seq![v.shorts[0]])),
            )
        }
    } else if v.current < 0 || v.current >= v.raw.len() {
        (v, None)
    } else {
        let arg = v.raw[v.current];
        let w = ParserView { current: v.current + 1, ..v };
        if v.escaped {
            (w, Some(ArgView::Value(arg)))
        } else if arg.len() >= 2 && arg[0] == '-' && arg[1] == '-' {
            if arg.len() == 2 {
                (ParserView { escaped: true, ..w }, Some(ArgView::Escape(arg)))
            } else {
                match first_of(arg, '=', 2) {
                    Some(at) => (
                        ParserView { attached: Some(arg.subrange(at + 1, arg.len() as int)), ..w },
                        Some(ArgView::Long(arg.subrange(2, at))),
                    ),
                    None => (w, Some(ArgView::Long(arg.subrange(2, arg.len() as int)))),
                }
            }
        } else if arg.len() >= 2 && arg[0] == '-' {
            if arg[1] == '=' {
                (w, Some(ArgView::Unexpected(arg.subrange(1, arg.len() as int))))
            } else {
                (
                    ParserView { shorts: arg.subrange(2, arg.len() as int), ..w },
                    Some(ArgView::Short(seq![arg[1]])),
                )
            }
        } else {
            (w, Some(ArgView::Value(arg)))
        }
    }
}

/// Reading the value of the flag that was read last: the parser after it,
/// and the value, if there is one.
///
/// The value is what the flag brought along: behind a `=`, or, for a short
/// flag, right behind it. A flag that brought nothing takes the next
/// argument, whatever it looks like, unless that is `--` or values only
/// are being read.
pub open spec fn flag_value_of(v: ParserView) -> (ParserView, Option<Seq<char>>) {
    if v.attached is Some {
        (ParserView { attached: None, ..v }, v.attached)
    } else if v.shorts.len() > 0 {
        (ParserView { shorts: Seq::empty(), ..v }, Some(if v.shorts[0] == '=' {
            v.shorts.drop_first()
        } else {
            v.shorts
        }))
    } else if v.escaped || v.current < 0 || v.current >= v.raw.len() {
        (v, None)
    } else if v.raw[v.current] == seq!['-', '-'] {
        (v, None)
    } else {
        (ParserView { current: v.current + 1, ..v }, Some(v.raw[v.current]))
    }
}

/// A cursor over the arguments of a command line.
#[derive(Debug)]
pub struct Parser {
    raw: Vec<String>,
    current: usize,
    attached: Option<String>,
    shorts: Vec<char>,
    escaped: bool,
}

impl View for Parser {
    type V = ParserView;

    closed spec fn view(&self) -> ParserView {
        ParserView {
            raw: texts(self.raw@),
            current: self.current as int,
            attached: crate::event::text_of(self.attached),
            shorts: self.shorts@,
            escaped: self.escaped,
        }
    }
}

impl Parser {
    /// A parser at the start of `raw`.
    pub fn new(raw: Vec<String>) -> (r: Self)
        ensures
            r@ == (ParserView {
                raw: texts(raw@),
                current: 0,
                attached: None,
                shorts: Seq::empty(),
                escaped: false,
            }),
    {
        Parser { raw, current: 0, attached: None, shorts: Vec::new(), escaped: false }
    }

    /// Reads the next argument as it stands, such as the name of the
    /// program. Fails, and reads nothing, while part of the argument read
    /// last is left.
    pub fn next_raw(&mut self) -> (r: Result<Option<String>, ()>)
        ensures
            old(self)@.attached is Some || old(self)@.shorts.len() > 0 ==> r is Err && final(self)@
                == old(self)@,
            old(self)@.attached is None && old(self)@.shorts.len() == 0 ==> {
                &&& r is Ok
                &&& if old(self)@.current < old(self)@.raw.len() {
                    &&& crate::event::text_of(r->Ok_0) == Some(
                        old(self)@.raw[old(self)@.current],
                    )
                    &&& final(self)@ == (ParserView {
                        current: old(self)@.current + 1,
                        ..old(self)@
                    })
                } else {
                    r->Ok_0 is None && final(self)@ == old(self)@
                }
            },
    {
        if self.attached.is_some() || self.shorts.len() > 0 {
            return Err(());
        }
        if self.current < self.raw.len() {
            let item = self.raw[self.current].clone();
            self.current = self.current + 1;
            Ok(Some(item))
        } else {
            Ok(None)
        }
    }

    /// Reads the next item of the command line.
    pub fn next_arg(&mut self) -> (r: Option<Arg>)
        ensures
            (final(self)@, arg_of(r)) == next_arg_of(old(self)@),
    {
        if self.attached.is_some() {
            let mut taken: Option<String> = None;
            std::mem::swap(&mut self.attached, &mut taken);
            return match taken {
                Some(value) => Some(Arg::Unexpected(value)),
                None => None,
            };
        }
        if self.shorts.len() > 0 {
            if self.shorts[0] == '=' {
                let value = crate::text::string_of(&self.shorts);
                self.shorts = Vec::new();
                return Some(Arg::Unexpected(value));
            }
            let flag = self.shorts.remove(0);
            let mut name = String::new();
            push_char(&mut name, flag);
            assert(name@ =~= seq![flag]);
            assert(self.shorts@ =~= old(self)@.shorts.drop_first());
            return Some(Arg::Short(name));
        }
        if self.current >= self.raw.len() {
            return None;
        }
        let chars = chars_of(self.raw[self.current].as_str());
        let whole = self.raw[self.current].clone();
        let n: usize = chars.len();
        self.current = self.current + 1;
        if self.escaped {
            Some(Arg::Value(whole))
        } else if n >= 2 && chars[0] == '-' && chars[1] == '-' {
            if n == 2 {
                self.escaped = true;
                Some(Arg::Escape(whole))
            } else {
                match find_char(&chars, '=', 2) {
                    Some(at) => {
                        self.attached = Some(substring(&chars, at + 1, n));
                        Some(Arg::Long(substring(&chars, 2, at)))
                    },
                    None => Some(Arg::Long(substring(&chars, 2, n))),
                }
            }
        } else if n >= 2 && chars[0] == '-' {
            if chars[1] == '=' {
                Some(Arg::Unexpected(substring(&chars, 1, n)))
            } else {
                let rest = substring(&chars, 2, n);
                self.shorts = chars_of(rest.as_str());
                let mut name = String::new();
                push_char(&mut name, chars[1]);
                assert(name@ =~= seq![chars@[1]]);
                Some(Arg::Short(name))
            }
        } else {
            Some(Arg::Value(whole))
        }
    }

    /// Reads the value of the flag that was read last.
    pub fn next_flag_value(&mut self) -> (r: Option<String>)
        ensures
            (final(self)@, crate::event::text_of(r)) == flag_value_of(old(self)@),
    {
        if self.attached.is_some() {
            let mut taken: Option<String> = None;
            std::mem::swap(&mut self.attached, &mut taken);
            return taken;
        }
        if self.shorts.len() > 0 {
            let from: usize = if self.shorts[0] == '=' {
                1
            } else {
                0
            };
            let value = substring(&self.shorts, from, self.shorts.len());
            proof {
                if from == 1 {
                    assert(value@ =~= self.shorts@.drop_first());
                } else {
                    assert(value@ =~= self.shorts@);
                }
            }
            self.shorts = Vec::new();
            return Some(value);
        }
        if self.escaped || self.current >= self.raw.len() {
            return None;
        }
        if same_text(self.raw[self.current].as_str(), "--") {
            proof {
                reveal_strlit("--");
                assert("--"@ =~= seq!['-', '-']);
            }
            return None;
        }
        proof {
            reveal_strlit("--");
            assert("--"@ =~= seq!['-', '-']);
        }
        let value = self.raw[self.current].clone();
        self.current = self.current + 1;
        Some(value)
    }
}

} // verus!
