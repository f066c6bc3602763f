use vstd::prelude::*;

use crate::atomic::Atomic;
use crate::text::{dec_text, push_dec};

verus! {

/// How many newline markers stand among the first `n` elements of `s`.
pub open spec fn newline_count<T: Atomic>(s: Seq<T>, n: int) -> int
    decreases n,
{
    if n <= 0 {
        0
    } else {
        newline_count(s, n - 1) + (if s[n - 1].is_newline_spec() {
            1int
        } else {
            0int
        })
    }
}

/// The index just after the last newline among the first `n` elements of
/// `s`, or zero if there is none: where the current line starts.
pub open spec fn line_start<T: Atomic>(s: Seq<T>, n: int) -> int
    decreases n,
{
    if n <= 0 {
        0
    } else if s[n - 1].is_newline_spec() {
        n
    } else {
        line_start(s, n - 1)
    }
}

/// The index of the newline that ends the line containing index `j`, or the
/// sequence's end when that line is the last one.
pub open spec fn line_end<T: Atomic>(s: Seq<T>, j: int) -> int
    decreases s.len() - j,
{
    if j >= s.len() {
        s.len() as int
    } else if s[j].is_newline_spec() {
        j
    } else {
        line_end(s, j + 1)
    }
}

/// Scanning over elements that are not newlines does not move a line's end.
proof fn lemma_line_end_skip<T: Atomic>(s: Seq<T>, a: int, b: int)
    requires
        0 <= a <= b <= s.len(),
        forall|j: int| a <= j < b ==> !(#[trigger] s[j]).is_newline_spec(),
    ensures
        line_end(s, a) == line_end(s, b),
    decreases b - a,
{
    if a < b {
        lemma_line_end_skip(s, a + 1, b);
    }
}

/// Whether a line is within two lines of the error line.
pub open spec fn in_window(line: int, err_line: int) -> bool {
    -2 <= line - err_line <= 2
}

/// `n` spaces.
pub open spec fn spaces(n: int) -> Seq<char>
    decreases n,
{
    if n <= 0 {
        Seq::empty()
    } else {
        spaces(n - 1).push(' ')
    }
}

proof fn lemma_spaces_add(a: int, b: int)
    requires
        a >= 0,
        b >= 0,
    ensures
        spaces(a + b) == spaces(a) + spaces(b),
    decreases b,
{
    if b > 0 {
        lemma_spaces_add(a, b - 1);
        assert(spaces(a + b) =~= spaces(a) + spaces(b));
    } else {
        assert(spaces(a) =~= spaces(a) + spaces(0));
    }
}

/// The marker-or-padding, line number and separator that start a rendered
/// context line.
pub open spec fn line_prefix_text(number: int, is_err: bool) -> Seq<char> {
    (if is_err {
        "  > "@
    } else {
        "    "@
    }) + dec_text(number) + " | "@
}

/// One rendered context line: its prefix followed by the line's own text.
pub open spec fn rendered_line<T: Atomic>(number: int, is_err: bool, content: Seq<T>) -> Seq<
    char,
> {
    line_prefix_text(number, is_err) + T::text_of(content)
}

/// The pointer line under the error line: spaces up to the offending
/// element, then the pointer.
pub open spec fn pointer_line(number: int, err_off: int) -> Seq<char> {
    spaces(line_prefix_text(number, true).len() + err_off) + "^--- here"@
}

/// The rendered context lines for the line starting at `start` (numbered
/// `line`) and every line after it: each line within two of the error line
/// appears with its number, the error line carries the marker and is
/// followed by the pointer line, and a trailing line without a newline is
/// still shown.
pub open spec fn context_render<T: Atomic>(
    s: Seq<T>,
    err_line: int,
    err_off: int,
    line: int,
    start: int,
) -> Seq<Seq<char>>
    decreases s.len() + 1 - start,
{
    if !(0 <= start < s.len()) {
        Seq::empty()
    } else {
        let e = line_end(s, start);
        let here = if in_window(line, err_line) {
            if line == err_line {
                seq![
                    rendered_line(line, true, s.subrange(start, e)),
                    pointer_line(line, err_off),
                ]
            } else {
                seq![rendered_line(line, false, s.subrange(start, e))]
            }
        } else {
            Seq::empty()
        };
        if e >= s.len() {
            here
        } else if e < start {
            // a line's end is never before its start; this arm only
            // discharges termination
            Seq::empty()
        } else {
            here + context_render(s, err_line, err_off, line + 1, e + 1)
        }
    }
}

/// The text a sequence of lines renders as, each line followed by a line
/// break.
pub open spec fn lines_text(ls: Seq<Seq<char>>) -> Seq<char>
    decreases ls.len(),
{
    if ls.len() == 0 {
        Seq::empty()
    } else {
        ls[0] + seq!['\n'] + lines_text(ls.drop_first())
    }
}

/// The kind of a leaf failure, mirroring the variants of [`ParsicombError`].
#[derive(Debug, PartialEq, Eq, Structural, Copy, Clone)]
pub enum ErrorKind {
    UnexpectedEndOfFile,
    AlreadyAtEndOfFile,
    CannotReadValueAtEof,
    SyntaxError,
}

/// The mathematical description of a resolved leaf failure: the source it
/// points into, the absolute position, the kind of failure and the message.
///
/// Every node error resolves to exactly one such leaf (see [`ErrorNode`]);
/// parser contracts speak of failures through this type.
pub struct ErrorModel<T> {
    pub kind: ErrorKind,
    pub src: Seq<T>,
    pub pos: int,
    pub msg: Seq<char>,
}

impl<T> ErrorModel<T> {
    /// The failure reported when reading a value at the end of the sequence.
    pub open spec fn eof_value(src: Seq<T>) -> Self {
        ErrorModel {
            kind: ErrorKind::CannotReadValueAtEof,
            src: src,
            pos: src.len() as int,
            msg: Seq::empty(),
        }
    }

    /// A syntax failure at `pos` carrying `msg`.
    pub open spec fn syntax(src: Seq<T>, pos: int, msg: Seq<char>) -> Self {
        ErrorModel { kind: ErrorKind::SyntaxError, src: src, pos: pos, msg: msg }
    }

    /// The leaf standing further into the source wins; ties favour `self`.
    pub open spec fn further(self, other: Self) -> Self {
        if self.pos >= other.pos {
            self
        } else {
            other
        }
    }
}

/// A location: a reference to the source slice plus an absolute index.
#[derive(Debug, Copy, Clone)]
pub struct CodeLoc<'code, T: Atomic> {
    pub code: &'code [T],
    /// The position in `code` where the cursor encountered an error.
    pub loc: usize,
}

impl<'code, T: Atomic> CodeLoc<'code, T> {
    pub open spec fn src(&self) -> Seq<T> {
        self.code@
    }

    pub open spec fn pos(&self) -> int {
        self.loc as int
    }

    pub fn new(code: &'code [T], loc: usize) -> (r: Self)
        ensures
            r.src() == code@,
            r.pos() == loc as int,
    {
        Self { code, loc }
    }

    pub fn position(&self) -> (r: usize)
        ensures
            r as int == self.pos(),
    {
        self.loc
    }
}

/// A line number together with the element offset within that line.
#[derive(Debug)]
pub struct ReadablePosition {
    pub line: usize,
    pub byte_offset: usize,
}

impl<'code, T: Atomic> CodeLoc<'code, T> {
    /// Calculate the line number and the element offset within that line.
    ///
    /// The offset is an element offset rather than a column number, since
    /// column calculation depends on encoding and rendering context; the
    /// element offset within the line is unambiguous.
    pub fn readable_position(&self) -> (r: ReadablePosition)
        requires
            self.loc as int <= self.code@.len(),
            self.code@.len() < usize::MAX,
        ensures
            r.line as int == 1 + newline_count(self.code@, self.loc as int),
            r.byte_offset as int == self.loc as int - line_start(self.code@, self.loc as int),
    {
        let n = self.loc;
        let mut line: usize = 1;
        let mut start: usize = 0;
        let mut i: usize = 0;
        while i < n
            invariant
                i <= n,
                n as int <= self.code@.len(),
                self.code@.len() < usize::MAX,
                line as int == 1 + newline_count(self.code@, i as int),
                line as int <= i + 1,
                start as int == line_start(self.code@, i as int),
                start <= i,
            decreases n - i,
        {
            if self.code[i].is_newline() {
                line = line + 1;
                start = i + 1;
            }
            i = i + 1;
        }
        ReadablePosition { line, byte_offset: n - start }
    }

    /// The rendered context lines around this location: every line within
    /// two of the error line, the error line marked and followed by the
    /// pointer line.
    pub open spec fn context_spec(&self) -> Seq<Seq<char>> {
        context_render(
            self.code@,
            1 + newline_count(self.code@, self.loc as int),
            self.loc as int - line_start(self.code@, self.loc as int),
            1,
            0,
        )
    }

    /// Get up to two lines of context around the error position, each
    /// prefixed with its line number, with a marker on the error line and a
    /// pointer at the offending element.
    pub fn context_lines(&self) -> (lines: Vec<String>)
        requires
            self.loc as int <= self.code@.len(),
            self.code@.len() < usize::MAX,
        ensures
            lines.deep_view() == self.context_spec(),
    {
        let pos = self.readable_position();
        let ghost s = self.code@;
        let ghost err_line = pos.line as int;
        let ghost err_off = pos.byte_offset as int;
        let mut lines: Vec<String> = Vec::new();
        let n = self.code.len();
        let mut current_line: usize = 1;
        let mut start: usize = 0;
        let mut i: usize = 0;
        while i < n
            invariant
                start <= i <= n,
                s == self.code@,
                n as int == s.len(),
                s.len() < usize::MAX,
                pos.line as int == err_line,
                pos.byte_offset as int == err_off,
                current_line as int == 1 + newline_count(s, i as int),
                current_line <= i + 1,
                start as int == line_start(s, i as int),
                forall|j: int| start <= j < i ==> !(#[trigger] s[j]).is_newline_spec(),
                lines.deep_view() + context_render(
                    s,
                    err_line,
                    err_off,
                    current_line as int,
                    start as int,
                ) == context_render(s, err_line, err_off, 1, 0),
            decreases n - i,
        {
            let ghost prev = lines.deep_view();
            if self.code[i].is_newline() {
                proof {
                    lemma_line_end_skip(s, start as int, i as int);
                    assert(line_end(s, start as int) == i as int);
                }
                if line_in_window(current_line, pos.line) {
                    let content = vstd::slice::slice_subrange(self.code, start, i);
                    push_context_line(
                        &mut lines,
                        current_line,
                        current_line == pos.line,
                        content,
                        pos.byte_offset,
                    );
                }
                proof {
                    let here = context_render(s, err_line, err_off, current_line as int,
                        start as int);
                    let rest = context_render(s, err_line, err_off, current_line as int + 1,
                        i as int + 1);
                    assert(lines.deep_view() + rest =~= prev + here);
                }
                current_line = current_line + 1;
                start = i + 1;
            }
            i = i + 1;
        }
        // Handle the last line if there is no trailing newline.
        let ghost prev = lines.deep_view();
        if start < n {
            proof {
                lemma_line_end_skip(s, start as int, n as int);
                assert(line_end(s, start as int) == s.len());
            }
            if line_in_window(current_line, pos.line) {
                let content = vstd::slice::slice_subrange(self.code, start, n);
                push_context_line(
                    &mut lines,
                    current_line,
                    current_line == pos.line,
                    content,
                    pos.byte_offset,
                );
            }
            proof {
                assert(lines.deep_view() =~= prev + context_render(s, err_line, err_off,
                    current_line as int, start as int));
            }
        }
        lines
    }
}

/// Whether a line is within two lines of the error line.
fn line_in_window(current_line: usize, error_line: usize) -> (r: bool)
    ensures
        r == in_window(current_line as int, error_line as int),
{
    let distance = if current_line >= error_line {
        current_line - error_line
    } else {
        error_line - current_line
    };
    distance <= 2
}

/// Append one rendered context line, and the `^--- here` pointer when it is
/// the error line.
fn push_context_line<T: Atomic>(
    lines: &mut Vec<String>,
    line_number: usize,
    is_error_line: bool,
    content: &[T],
    byte_offset: usize,
)
    ensures
        final(lines).deep_view() == old(lines).deep_view() + (if is_error_line {
            seq![
                rendered_line::<T>(line_number as int, true, content@),
                pointer_line(line_number as int, byte_offset as int),
            ]
        } else {
            seq![rendered_line::<T>(line_number as int, false, content@)]
        }),
{
    let ghost old_lines = lines.deep_view();
    let mut prefix = String::new();
    if is_error_line {
        prefix.push_str("  > ");
    } else {
        prefix.push_str("    ");
    }
    push_dec(&mut prefix, line_number as u64);
    prefix.push_str(" | ");
    proof {
        assert(prefix@ =~= line_prefix_text(line_number as int, is_error_line));
    }
    let prefix_len = prefix.as_str().unicode_len();
    let mut entry = prefix;
    let formatted = T::format_slice(content);
    entry.push_str(formatted.as_str());
    proof {
        assert(entry@ =~= rendered_line::<T>(line_number as int, is_error_line, content@));
    }
    lines.push(entry);
    if is_error_line {
        let mut pointer = String::new();
        let mut k: usize = 0;
        while k < prefix_len
            invariant
                k <= prefix_len,
                pointer@ == spaces(k as int),
            decreases prefix_len - k,
        {
            pointer.push(' ');
            k = k + 1;
        }
        let mut j: usize = 0;
        while j < byte_offset
            invariant
                j <= byte_offset,
                prefix_len as int >= 0,
                pointer@ == spaces(prefix_len as int) + spaces(j as int),
            decreases byte_offset - j,
        {
            pointer.push(' ');
            proof {
                assert(pointer@ =~= spaces(prefix_len as int) + spaces(j + 1));
            }
            j = j + 1;
        }
        pointer.push_str("^--- here");
        proof {
            lemma_spaces_add(prefix_len as int, byte_offset as int);
            assert(pointer@ =~= pointer_line(line_number as int, byte_offset as int));
        }
        lines.push(pointer);
        proof {
            assert(lines.deep_view() =~= old_lines + seq![
                rendered_line::<T>(line_number as int, true, content@),
                pointer_line(line_number as int, byte_offset as int),
            ]);
        }
    } else {
        proof {
            assert(lines.deep_view() =~= old_lines + seq![
                rendered_line::<T>(line_number as int, false, content@),
            ]);
        }
    }
}

/// The concrete leaf error type of the library: either one of the structural
/// end-of-input failures, or a syntax error with a message and a location.
#[derive(Debug)]
pub enum ParsicombError<'code, T: Atomic> {
    UnexpectedEndOfFile(CodeLoc<'code, T>),
    AlreadyAtEndOfFile(CodeLoc<'code, T>),
    CannotReadValueAtEof(CodeLoc<'code, T>),
    SyntaxError { message: String, loc: CodeLoc<'code, T> },
}

impl<'code, T: Atomic> ParsicombError<'code, T> {
    /// The location this leaf error points at.
    pub open spec fn loc_spec(&self) -> CodeLoc<'code, T> {
        match *self {
            ParsicombError::UnexpectedEndOfFile(code_loc) => code_loc,
            ParsicombError::AlreadyAtEndOfFile(code_loc) => code_loc,
            ParsicombError::CannotReadValueAtEof(code_loc) => code_loc,
            ParsicombError::SyntaxError { loc, .. } => loc,
        }
    }

    /// The kind tag of this leaf error.
    pub open spec fn kind_spec(&self) -> ErrorKind {
        match *self {
            ParsicombError::UnexpectedEndOfFile(_) => ErrorKind::UnexpectedEndOfFile,
            ParsicombError::AlreadyAtEndOfFile(_) => ErrorKind::AlreadyAtEndOfFile,
            ParsicombError::CannotReadValueAtEof(_) => ErrorKind::CannotReadValueAtEof,
            ParsicombError::SyntaxError { .. } => ErrorKind::SyntaxError,
        }
    }

    /// The message this leaf error carries (empty for the structural kinds).
    pub open spec fn msg_spec(&self) -> Seq<char> {
        match *self {
            ParsicombError::SyntaxError { message, .. } => message@,
            _ => Seq::empty(),
        }
    }

    /// The "at line L, byte offset O" phrase of a rendered header.
    pub open spec fn position_phrase(s: Seq<T>, pos: int) -> Seq<char> {
        "at line "@ + dec_text(1 + newline_count(s, pos)) + ", byte offset "@ + dec_text(
            pos - line_start(s, pos),
        )
    }

    /// The header line this error renders as.
    pub open spec fn display_header(&self) -> Seq<char> {
        let s = self.loc_spec().src();
        let pos = self.loc_spec().pos();
        let phrase = Self::position_phrase(s, pos);
        let absolute = " (absolute position: "@ + dec_text(pos) + ")"@;
        match *self {
            ParsicombError::UnexpectedEndOfFile(_) => "Unexpected end of file "@ + phrase
                + absolute,
            ParsicombError::AlreadyAtEndOfFile(_) => "Already at end of file "@ + phrase
                + absolute,
            ParsicombError::CannotReadValueAtEof(_) => "Cannot read value at EOF "@ + phrase
                + absolute,
            ParsicombError::SyntaxError { ref message, .. } => "Syntax error "@ + phrase + ": "@
                + message@,
        }
    }

    /// The complete rendered diagnostic: the header, a blank line, and the
    /// context lines, each line followed by a line break.
    pub open spec fn display_text(&self) -> Seq<char> {
        self.display_header() + seq!['\n'] + seq!['\n'] + lines_text(
            self.loc_spec().context_spec(),
        )
    }

    /// Render this error as multi-line text: a header naming the failure,
    /// its line and offset, then the context lines around it.
    pub fn to_display_string(&self) -> (r: String)
        requires
            self.loc_spec().pos() <= self.loc_spec().src().len(),
            self.loc_spec().src().len() < usize::MAX,
        ensures
            r@ == self.display_text(),
            self.display_header().is_prefix_of(r@),
    {
        let loc = self.loc();
        let rp = loc.readable_position();
        let mut out = String::new();
        match self {
            ParsicombError::UnexpectedEndOfFile(_) => out.push_str("Unexpected end of file "),
            ParsicombError::AlreadyAtEndOfFile(_) => out.push_str("Already at end of file "),
            ParsicombError::CannotReadValueAtEof(_) => out.push_str("Cannot read value at EOF "),
            ParsicombError::SyntaxError { .. } => out.push_str("Syntax error "),
        }
        out.push_str("at line ");
        push_dec(&mut out, rp.line as u64);
        out.push_str(", byte offset ");
        push_dec(&mut out, rp.byte_offset as u64);
        match self {
            ParsicombError::SyntaxError { message, .. } => {
                out.push_str(": ");
                out.push_str(message.as_str());
            },
            _ => {
                out.push_str(" (absolute position: ");
                push_dec(&mut out, loc.position() as u64);
                out.push_str(")");
            },
        }
        proof {
            assert(out@ =~= self.display_header());
        }
        out.push('\n');
        out.push('\n');
        let context = loc.context_lines();
        let ghost ctx = loc.context_spec();
        let ghost header = self.display_header();
        proof {
            assert(ctx.skip(0) =~= ctx);
        }
        let mut i: usize = 0;
        while i < context.len()
            invariant
                i <= context@.len(),
                context.deep_view() == ctx,
                header == self.display_header(),
                self.display_text() == header + seq!['\n'] + seq!['\n'] + lines_text(ctx),
                out@ + lines_text(ctx.skip(i as int)) == self.display_text(),
            decreases context.len() - i,
        {
            proof {
                assert(ctx[i as int] == context@[i as int]@);
                assert(ctx.skip(i as int).drop_first() =~= ctx.skip(i as int + 1));
                assert(ctx.skip(i as int)[0] == ctx[i as int]);
            }
            out.push_str(context[i].as_str());
            out.push('\n');
            i = i + 1;
        }
        proof {
            assert(lines_text(ctx.skip(context@.len() as int)) =~= Seq::<char>::empty());
            assert(out@ =~= out@ + lines_text(ctx.skip(context@.len() as int)));
            assert(header =~= out@.subrange(0, header.len() as int));
        }
        out
    }

    /// Returns the position where this error occurred.
    pub fn position(&self) -> (r: usize)
        ensures
            r as int == self.loc_spec().pos(),
    {
        match self {
            ParsicombError::UnexpectedEndOfFile(code_loc) => code_loc.position(),
            ParsicombError::AlreadyAtEndOfFile(code_loc) => code_loc.position(),
            ParsicombError::CannotReadValueAtEof(code_loc) => code_loc.position(),
            ParsicombError::SyntaxError { loc, .. } => loc.position(),
        }
    }
}

/// Trait for errors that report a concrete location in the input.
pub trait ErrorLeaf<'code> {
    type Element: Atomic;

    /// The location of the failure, as a spec-level value.
    spec fn loc_model(&self) -> CodeLoc<'code, Self::Element>;

    /// Returns the location where this error occurred.
    fn loc(&self) -> (r: CodeLoc<'code, Self::Element>)
        ensures
            r == self.loc_model(),
    ;
}

/// Trait for error types that can be resolved to the single most informative
/// leaf failure.
///
/// A combinator's error wraps the error(s) of its children; resolution
/// recursively descends and, where several branches failed, keeps the branch
/// whose leaf stands further into the input.
pub trait ErrorNode<'code> {
    type Element: Atomic;

    /// The resolved leaf, described mathematically.
    spec fn leaf_model(&self) -> ErrorModel<Self::Element>;

    /// Flatten nested error structures and return the leaf that made it
    /// furthest into the input.
    fn likely_error(&self) -> (r: &ParsicombError<'code, Self::Element>)
        ensures
            r.leaf_model_spec() == self.leaf_model(),
    ;
}

impl<'code, T: Atomic> ParsicombError<'code, T> {
    /// This leaf error, described mathematically.
    pub open spec fn leaf_model_spec(&self) -> ErrorModel<T> {
        ErrorModel {
            kind: self.kind_spec(),
            src: self.loc_spec().src(),
            pos: self.loc_spec().pos(),
            msg: self.msg_spec(),
        }
    }
}

impl<'code, T: Atomic> ParsicombError<'code, T> {
    /// Wrap another error type in a ParsicombError: the wrapped error is
    /// resolved to its most informative leaf, and that leaf is kept.
    pub fn wrap<E: ErrorNode<'code, Element = T>>(error: E) -> (r: Self)
        ensures
            r.leaf_model_spec() == error.leaf_model(),
    {
        let leaf = error.likely_error();
        let loc = leaf.loc();
        match leaf {
            ParsicombError::UnexpectedEndOfFile(_) => ParsicombError::UnexpectedEndOfFile(loc),
            ParsicombError::AlreadyAtEndOfFile(_) => ParsicombError::AlreadyAtEndOfFile(loc),
            ParsicombError::CannotReadValueAtEof(_) => ParsicombError::CannotReadValueAtEof(loc),
            ParsicombError::SyntaxError { message, .. } => ParsicombError::SyntaxError {
                message: message.clone(),
                loc,
            },
        }
    }
}

impl<'code, T: Atomic> ErrorLeaf<'code> for ParsicombError<'code, T> {
    type Element = T;

    open spec fn loc_model(&self) -> CodeLoc<'code, T> {
        self.loc_spec()
    }

    fn loc(&self) -> (r: CodeLoc<'code, T>) {
        match self {
            ParsicombError::UnexpectedEndOfFile(code_loc) => *code_loc,
            ParsicombError::AlreadyAtEndOfFile(code_loc) => *code_loc,
            ParsicombError::CannotReadValueAtEof(code_loc) => *code_loc,
            ParsicombError::SyntaxError { loc, .. } => *loc,
        }
    }
}

impl<'code, T: Atomic> ErrorNode<'code> for ParsicombError<'code, T> {
    type Element = T;

    open spec fn leaf_model(&self) -> ErrorModel<T> {
        self.leaf_model_spec()
    }

    fn likely_error(&self) -> (r: &ParsicombError<'code, T>) {
        self
    }
}

} // verus!
