use vstd::prelude::*;

verus! {

/// What the engine reports of where a thrown exception stands in the source.
pub struct SourceMessage {
    pub resource_name: Option<String>,
    pub line_number: Option<usize>,
    pub start_column: usize,
    pub end_column: usize,
    pub source_line: Option<String>,
}

/// Everything a catch scope holds after a failed compile or run.
pub struct Caught {
    pub exception: Option<String>,
    pub message: Option<SourceMessage>,
    pub stack_trace: Option<String>,
}

/// The place in the source that a diagnostic points at.
pub struct Location {
    pub origin_name: String,
    pub line_number: usize,
    pub start_column: usize,
    pub end_column: usize,
    pub source_line: Option<String>,
}

/// A structured description of a failed evaluation.
pub enum Diagnostic {
    /// The catch scope reported a failure but held no exception.
    NoException,
    /// An exception without any source position.
    Bare { exception_message: String },
    /// An exception with its position in the source.
    Located { exception_message: String, location: Location, stack_trace: Option<String> },
}

pub open spec fn unknown_origin() -> Seq<char> {
    "(unknown)"@
}

pub open spec fn opt_view(o: Option<String>) -> Option<Seq<char>> {
    match o {
        Some(s) => Some(s@),
        None => None,
    }
}

pub open spec fn origin_of(name: Option<String>) -> Seq<char> {
    match name {
        Some(n) => n@,
        None => unknown_origin(),
    }
}

/// `d` is the diagnostic that the contents `c` of a catch scope describe.
pub open spec fn describes(d: Diagnostic, c: Caught) -> bool {
    match c.exception {
        None => d is NoException,
        Some(e) => match c.message {
            None => match d {
                Diagnostic::Bare { exception_message } => exception_message@ == e@,
                _ => false,
            },
            Some(m) => match d {
                Diagnostic::Located { exception_message, location, stack_trace } => {
                    &&& exception_message@ == e@
                    &&& location.origin_name@ == origin_of(m.resource_name)
                    &&& location.line_number == m.line_number.unwrap_or(0)
                    &&& location.start_column == m.start_column
                    &&& location.end_column == m.end_column
                    &&& opt_view(location.source_line) == opt_view(m.source_line)
                    &&& opt_view(stack_trace) == opt_view(c.stack_trace)
                },
                _ => false,
            },
        },
    }
}

/// Builds the diagnostic for what a catch scope caught.
pub fn build_diagnostic(caught: Caught) -> (d: Diagnostic)
    ensures
        describes(d, caught),
{
    let ghost c = caught;
    let Caught { exception, message, stack_trace } = caught;
    match exception {
        None => Diagnostic::NoException,
        Some(exception_message) => match message {
            None => Diagnostic::Bare { exception_message },
            Some(m) => {
                let SourceMessage { resource_name, line_number, start_column, end_column, source_line } = m;
                let origin_name = match resource_name {
                    Some(n) => n,
                    None => String::from_str("(unknown)"),
                };
                let line_number: usize = match line_number {
                    Some(n) => n,
                    None => 0,
                };
                Diagnostic::Located {
                    exception_message,
                    location: Location { origin_name, line_number, start_column, end_column, source_line },
                    stack_trace,
                }
            },
        },
    }
}

pub open spec fn digit_char(d: nat) -> char {
    if d == 0 { '0' }
    else if d == 1 { '1' }
    else if d == 2 { '2' }
    else if d == 3 { '3' }
    else if d == 4 { '4' }
    else if d == 5 { '5' }
    else if d == 6 { '6' }
    else if d == 7 { '7' }
    else if d == 8 { '8' }
    else { '9' }
}

/// The decimal digits of `n`, most significant first.
pub open spec fn decimal(n: nat) -> Seq<char>
    decreases n,
{
    if n < 10 {
        seq![digit_char(n)]
    } else {
        decimal(n / 10).push(digit_char(n % 10))
    }
}

pub open spec fn repeated(c: char, n: nat) -> Seq<char> {
    Seq::new(n, |i: int| c)
}

/// How many carets underline the columns from `start` up to `end`, exclusive:
/// at least one, even for an empty range.
pub open spec fn caret_count(start: int, end: int) -> nat {
    if end - start >= 1 { (end - start) as nat } else { 1 }
}

pub open spec fn no_exception_text() -> Seq<char> {
    "Internal error: no exception"@
}

/// `{origin}:{line}:{start}: {message}`
pub open spec fn header_line(exception_message: Seq<char>, loc: Location) -> Seq<char> {
    loc.origin_name@ + ":"@ + decimal(loc.line_number as nat) + ":"@
        + decimal(loc.start_column as nat) + ": "@ + exception_message
}

/// `{line}: {source line}`
pub open spec fn source_text_line(loc: Location) -> Seq<char> {
    decimal(loc.line_number as nat) + ": "@ + match opt_view(loc.source_line) {
        Some(t) => t,
        None => Seq::empty(),
    }
}

/// Spaces as wide as the `{line}: ` prefix, then one space per column before the
/// range, then the carets.
pub open spec fn caret_line(loc: Location) -> Seq<char> {
    repeated(' ', decimal(loc.line_number as nat).len() + 2 + loc.start_column as nat)
        + repeated('^', caret_count(loc.start_column as int, loc.end_column as int))
}

/// The lines, without their terminators, that report `d` on the error stream.
pub open spec fn rendered(d: Diagnostic) -> Seq<Seq<char>> {
    match d {
        Diagnostic::NoException => seq![no_exception_text()],
        Diagnostic::Bare { exception_message } => seq![exception_message@],
        Diagnostic::Located { exception_message, location, stack_trace } => {
            let body = seq![
                header_line(exception_message@, location),
                source_text_line(location),
                caret_line(location),
            ];
            match stack_trace {
                Some(t) => body.push(t@),
                None => body,
            }
        },
    }
}

pub open spec fn lines_view(v: Seq<String>) -> Seq<Seq<char>> {
    v.map_values(|s: String| s@)
}

fn digit_str(d: usize) -> (r: &'static str)
    requires
        d < 10,
    ensures
        r@ == seq![digit_char(d as nat)],
{
    proof {
        reveal_strlit("0");
        reveal_strlit("1");
        reveal_strlit("2");
        reveal_strlit("3");
        reveal_strlit("4");
        reveal_strlit("5");
        reveal_strlit("6");
        reveal_strlit("7");
        reveal_strlit("8");
        reveal_strlit("9");
    }
    let r = match d {
        0 => "0",
        1 => "1",
        2 => "2",
        3 => "3",
        4 => "4",
        5 => "5",
        6 => "6",
        7 => "7",
        8 => "8",
        _ => "9",
    };
    assert(r@ =~= seq![digit_char(d as nat)]);
    r
}

/// Appends the decimal digits of `n` to `s`.
pub fn push_decimal(s: &mut String, n: usize)
    ensures
        final(s)@ == old(s)@ + decimal(n as nat),
    decreases n,
{
    if n < 10 {
        s.append(digit_str(n));
    } else {
        push_decimal(s, n / 10);
        s.append(digit_str(n % 10));
        assert(final(s)@ =~= old(s)@ + decimal(n as nat));
    }
}

/// Appends `n` copies of the one-character string `c` to `s`.
fn push_repeated(s: &mut String, c: &str, n: usize)
    requires
        c@.len() == 1,
    ensures
        final(s)@ == old(s)@ + repeated(c@[0], n as nat),
{
    let mut i: usize = 0;
    while i < n
        invariant
            i <= n,
            c@.len() == 1,
            s@ == old(s)@ + repeated(c@[0], i as nat),
        decreases n - i,
    {
        s.append(c);
        i = i + 1;
        assert(s@ =~= old(s)@ + repeated(c@[0], i as nat));
    }
}

/// Renders `d` as the lines to write on the error stream: the fixed message for
/// a missing exception, the bare message when there is no position, and
/// otherwise the header, the source line, the caret underline and the stack
/// trace if there is one.
pub fn render(d: &Diagnostic) -> (lines: Vec<String>)
    ensures
        lines_view(lines@) == rendered(*d),
{
    proof {
        reveal_strlit("Internal error: no exception");
        reveal_strlit(":");
        reveal_strlit(": ");
        reveal_strlit(" ");
        reveal_strlit("^");
    }
    let mut lines: Vec<String> = Vec::new();
    match d {
        Diagnostic::NoException => {
            lines.push(String::from_str("Internal error: no exception"));
        },
        Diagnostic::Bare { exception_message } => {
            lines.push(exception_message.clone());
        },
        Diagnostic::Located { exception_message, location, stack_trace } => {
            let mut header = location.origin_name.clone();
            header.append(":");
            push_decimal(&mut header, location.line_number);
            header.append(":");
            push_decimal(&mut header, location.start_column);
            header.append(": ");
            header.append(exception_message.as_str());
            assert(header@ =~= header_line(exception_message@, *location));
            lines.push(header);

            let mut prefix = String::new();
            push_decimal(&mut prefix, location.line_number);
            let width = prefix.as_str().unicode_len();
            let mut text = prefix;
            text.append(": ");
            match &location.source_line {
                Some(t) => text.append(t.as_str()),
                None => {},
            }
            assert(text@ =~= source_text_line(*location));
            lines.push(text);

            let mut carets = String::new();
            push_repeated(&mut carets, " ", width);
            push_repeated(&mut carets, " ", 2);
            push_repeated(&mut carets, " ", location.start_column);
            let count: usize = if location.end_column > location.start_column {
                location.end_column - location.start_column
            } else {
                1
            };
            push_repeated(&mut carets, "^", count);
            assert(carets@ =~= caret_line(*location));
            lines.push(carets);

            match stack_trace {
                Some(t) => lines.push(t.clone()),
                None => {},
            }
        },
    }
    assert(lines_view(lines@) =~= rendered(*d));
    lines
}

/// A diagnostic without an exception renders as the single line
/// `Internal error: no exception` and nothing else.
pub proof fn no_exception_renders_fixed_text()
    ensures
        rendered(Diagnostic::NoException) == seq!["Internal error: no exception"@],
        rendered(Diagnostic::NoException).len() == 1,
{
}

/// For a located diagnostic the third rendered line is the caret underline:
/// as many spaces as the `{line}: ` prefix is wide plus one per column before
/// the range, then `max(end - start, 1)` carets, whatever the exception's
/// message is.
pub proof fn caret_line_follows_columns(
    exception_message: String,
    location: Location,
    stack_trace: Option<String>,
)
    ensures
        ({
            let lines = rendered(Diagnostic::Located { exception_message, location, stack_trace });
            let pad = decimal(location.line_number as nat).len() + 2 + location.start_column;
            let count = caret_count(location.start_column as int, location.end_column as int);
            &&& lines.len() >= 3
            &&& lines[2].len() == pad + count
            &&& forall|i: int| 0 <= i < pad ==> lines[2][i] == ' '
            &&& forall|i: int| pad <= i < pad + count ==> lines[2][i] == '^'
            &&& count >= 1
            &&& location.end_column > location.start_column ==> count == location.end_column
                - location.start_column
        }),
{
}

} // verus!
