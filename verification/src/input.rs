use crate::io_arg::IoArg;
use vstd::prelude::*;

verus! {

/// An opened input. `S` is the type of the handle of standard input, `F` that of a file
/// opened for reading; the value owns the handle it holds.
pub enum Input<S, F> {
    /// Standard input of the process.
    StdIn(S),
    /// A file opened for reading.
    File(F),
}

impl<S, F> Input<S, F> {
    /// Opens what `io_arg` names. For [`IoArg::StdStream`] this calls `stdin` and always
    /// succeeds. For [`IoArg::File`] it calls `open` with the path, once, and hands on what came
    /// back: the file inside [`Input::File`], or the error as it is.
    pub fn new<E>(
        io_arg: IoArg,
        stdin: impl FnOnce() -> S,
        open: impl FnOnce(String) -> Result<F, E>,
    ) -> (res: Result<Self, E>)
        requires
            io_arg is StdStream ==> stdin.requires(()),
            io_arg matches IoArg::File(path) ==> open.requires((path,)),
        ensures
            match io_arg {
                IoArg::StdStream => res matches Ok(Input::StdIn(stream)) && stdin.ensures(
                    (),
                    stream,
                ),
                IoArg::File(path) => match res {
                    Ok(Input::File(file)) => open.ensures((path,), Ok(file)),
                    Ok(Input::StdIn(_)) => false,
                    Err(error) => open.ensures((path,), Err(error)),
                },
            },
    {
        match io_arg {
            IoArg::StdStream => Ok(Input::StdIn(stdin())),
            IoArg::File(path) => match open(path) {
                Ok(file) => Ok(Input::File(file)),
                Err(error) => Err(error),
            },
        }
    }

    /// Borrows the handle and makes a buffered reader of it. The standard-input handle goes to
    /// `lock`, which takes exclusive access to the stream; a file goes to `buffer`, which puts
    /// a buffer in front of it. Only the one that fits the variant is called. The reader is
    /// returned as that call made it, and `self` ends as the variant it was, holding the handle
    /// as the reader leaves it.
    pub fn buf_read<'a, R>(
        &'a mut self,
        lock: impl FnOnce(&'a mut S) -> R,
        buffer: impl FnOnce(&'a mut F) -> R,
    ) -> (reader: R)
        requires
            forall|stream: &mut S|
                *old(self) == Input::<S, F>::StdIn(*stream) ==> lock.requires((stream,)),
            forall|file: &mut F|
                *old(self) == Input::<S, F>::File(*file) ==> buffer.requires((file,)),
        ensures
            match *old(self) {
                Input::StdIn(before) => exists|stream: &mut S|
                    *stream == before && *final(self) == Input::<S, F>::StdIn(*final(stream))
                        && lock.ensures((stream,), reader),
                Input::File(before) => exists|file: &mut F|
                    *file == before && *final(self) == Input::<S, F>::File(*final(file))
                        && buffer.ensures((file,), reader),
            },
    {
        match self {
            Input::StdIn(stream) => lock(stream),
            Input::File(file) => buffer(file),
        }
    }
}

} // verus!
