use crate::input::Input;
use crate::output::Output;
use std::convert::Infallible;
use std::str::FromStr;
use vstd::prelude::*;
use vstd::std_specs::cmp::PartialEqSpec;
use vstd::utf8::{encode_utf8, encode_utf8_decode_utf8, is_ascii_chars_encode_utf8};

verus! {

/// Argument of a command-line tool that names either a file or standard input / output.
///
/// On the command line the standard stream is written as a single dash, so a file that is
/// itself named `-` cannot be addressed.
#[derive(Debug)]
pub enum IoArg {
    /// Standard input or standard output, written `-` on the command line.
    StdStream,
    /// A file, with its path exactly as it was written on the command line.
    File(String),
}

/// What an [`IoArg`] stands for, as contracts see it.
pub enum IoArgView {
    /// The standard stream.
    StdStream,
    /// A file, with the characters of its path.
    File(Seq<char>),
}

impl View for IoArg {
    type V = IoArgView;

    open spec fn view(&self) -> IoArgView {
        match self {
            IoArg::StdStream => IoArgView::StdStream,
            IoArg::File(path) => IoArgView::File(path@),
        }
    }
}

/// The dash as a byte of UTF-8.
const DASH: u8 = 0x2d;

/// The text that selects the standard stream: a single dash.
pub open spec fn std_stream_text() -> Seq<char> {
    seq!['-']
}

/// The argument that a text denotes. Only the single dash is special; every other text,
/// the empty one included, is taken as a path, character for character.
pub open spec fn parsed(text: Seq<char>) -> IoArgView {
    if text == std_stream_text() {
        IoArgView::StdStream
    } else {
        IoArgView::File(text)
    }
}

/// The UTF-8 encoding of a text is the one byte of the dash exactly when the text is the dash.
proof fn lemma_dash_encoding(text: Seq<char>)
    ensures
        (text == std_stream_text()) <==> (encode_utf8(text) == seq![DASH]),
{
    let dash = std_stream_text();
    is_ascii_chars_encode_utf8(dash);
    assert(encode_utf8(dash) =~= seq![DASH]);
    encode_utf8_decode_utf8(dash);
    encode_utf8_decode_utf8(text);
}

/// Whether `text` is the single dash.
fn is_std_stream_text(text: &str) -> (b: bool)
    ensures
        b == (text@ == std_stream_text()),
{
    proof {
        lemma_dash_encoding(text@);
    }
    let bytes = text.as_bytes();
    if bytes.len() != 1 {
        return false;
    }
    let first: u8 = bytes[0];
    assert(first == DASH ==> bytes@ =~= seq![DASH]);
    first == DASH
}

impl IoArg {
    /// Reads an argument from its command-line text. Every text is accepted: `-` gives
    /// [`IoArg::StdStream`], anything else gives [`IoArg::File`] with the text unchanged.
    pub fn parse(text: &str) -> (arg: IoArg)
        ensures
            arg@ == parsed(text@),
    {
        if is_std_stream_text(text) {
            IoArg::StdStream
        } else {
            IoArg::File(text.to_owned())
        }
    }

    /// Specification of [`IoArg::is_file`].
    pub open spec fn spec_is_file(&self) -> bool {
        self@ is File
    }

    /// Tells the two variants apart without a `match`: `true` for `File`, `false` for
    /// `StdStream`.
    #[verifier::when_used_as_spec(spec_is_file)]
    pub fn is_file(&self) -> (b: bool)
        ensures
            b == self.spec_is_file(),
    {
        match self {
            IoArg::StdStream => false,
            IoArg::File(_) => true,
        }
    }

    /// Opens the argument for reading, as [`Input::new`] does: `stdin` gives the handle of
    /// standard input, `open` opens the file at a path for reading.
    pub fn open_as_input<S, F, E>(
        self,
        stdin: impl FnOnce() -> S,
        open: impl FnOnce(String) -> Result<F, E>,
    ) -> (res: Result<Input<S, F>, E>)
        requires
            self is StdStream ==> stdin.requires(()),
            self matches IoArg::File(path) ==> open.requires((path,)),
        ensures
            match self {
                IoArg::StdStream => res matches Ok(Input::StdIn(stream)) && stdin.ensures(
                    (),
                    stream,
                ),
                IoArg::File(path) => match res {
                    Ok(Input::File(file)) => open.ensures((path,), Ok(file)),
                    Ok(Input::StdIn(_)) => false,
                    Err(error) => open.ensures((path,), Err(error)),
                },
            },
    {
        Input::new(self, stdin, open)
    }

    /// Opens the argument for writing, as [`Output::new`] does: `stdout` gives the handle of
    /// standard output, `create` creates the file at a path, or truncates the one that is
    /// there.
    pub fn open_as_output<S, F, E>(
        self,
        stdout: impl FnOnce() -> S,
        create: impl FnOnce(String) -> Result<F, E>,
    ) -> (res: Result<Output<S, F>, E>)
        requires
            self is StdStream ==> stdout.requires(()),
            self matches IoArg::File(path) ==> create.requires((path,)),
        ensures
            match self {
                IoArg::StdStream => res matches Ok(Output::StdOut(stream)) && stdout.ensures(
                    (),
                    stream,
                ),
                IoArg::File(path) => match res {
                    Ok(Output::File(file)) => create.ensures((path,), Ok(file)),
                    Ok(Output::StdOut(_)) => false,
                    Err(error) => create.ensures((path,), Err(error)),
                },
            },
    {
        Output::new(self, stdout, create)
    }
}

impl FromStr for IoArg {
    type Err = Infallible;

    /// Same as [`IoArg::parse`]; the result is always `Ok`.
    fn from_str(s: &str) -> (res: Result<IoArg, Infallible>)
        ensures
            res matches Ok(arg) && arg@ == parsed(s@),
    {
        Ok(IoArg::parse(s))
    }
}

impl Clone for IoArg {
    fn clone(&self) -> (copy: IoArg)
        ensures
            copy == *self,
    {
        match self {
            IoArg::StdStream => IoArg::StdStream,
            IoArg::File(path) => IoArg::File(path.clone()),
        }
    }
}

impl PartialEq for IoArg {
    /// Two arguments are equal when they are the same variant and, for files, the paths
    /// are the same text.
    fn eq(&self, other: &IoArg) -> (equal: bool) {
        match (self, other) {
            (IoArg::StdStream, IoArg::StdStream) => true,
            (IoArg::File(a), IoArg::File(b)) => *a == *b,
            _ => false,
        }
    }
}

impl vstd::std_specs::cmp::PartialEqSpecImpl for IoArg {
    open spec fn obeys_eq_spec() -> bool {
        true
    }

    open spec fn eq_spec(&self, other: &IoArg) -> bool {
        self@ == other@
    }
}

impl Eq for IoArg {

}

/// A text other than the single dash is read as a file argument whose path is that very
/// text, and `is_file` holds of it.
pub proof fn parse_keeps_path(text: Seq<char>, arg: IoArg)
    requires
        text != std_stream_text(),
        arg@ == parsed(text),
    ensures
        arg@ == IoArgView::File(text),
        arg.is_file(),
{
}

/// The single dash is read as the standard stream, and `is_file` does not hold of it.
pub proof fn parse_reads_dash(arg: IoArg)
    requires
        arg@ == parsed(std_stream_text()),
    ensures
        arg == IoArg::StdStream,
        !arg.is_file(),
{
}

/// Reading the same text twice gives arguments that `==` finds equal.
pub proof fn parse_equals_itself(text: Seq<char>, first: IoArg, second: IoArg)
    requires
        first@ == parsed(text),
        second@ == parsed(text),
    ensures
        first.eq_spec(&second),
{
}

/// Reading loses nothing: two texts give arguments that `==` finds equal exactly when the
/// texts are the same.
pub proof fn parse_tells_texts_apart(a: Seq<char>, b: Seq<char>, first: IoArg, second: IoArg)
    requires
        first@ == parsed(a),
        second@ == parsed(b),
    ensures
        first.eq_spec(&second) <==> a == b,
{
}

} // verus!
