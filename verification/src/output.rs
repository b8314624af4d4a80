use crate::io_arg::IoArg;
use vstd::prelude::*;

verus! {

/// An opened output. `S` is the type of the handle of standard output, `F` that of a file
/// created for writing; the value owns the handle it holds.
pub enum Output<S, F> {
    /// Standard output of the process.
    StdOut(S),
    /// A file created, or truncated, for writing.
    File(F),
}

impl<S, F> Output<S, F> {
    /// Opens what `io_arg` names. For [`IoArg::StdStream`] this calls `stdout` and always
    /// succeeds. For [`IoArg::File`] it calls `create` with the path, once, and hands on what
    /// came back: the file inside [`Output::File`], or the error as it is.
    pub fn new<E>(
        io_arg: IoArg,
        stdout: impl FnOnce() -> S,
        create: impl FnOnce(String) -> Result<F, E>,
    ) -> (res: Result<Self, E>)
        requires
            io_arg is StdStream ==> stdout.requires(()),
            io_arg matches IoArg::File(path) ==> create.requires((path,)),
        ensures
            match io_arg {
                IoArg::StdStream => res matches Ok(Output::StdOut(stream)) && stdout.ensures(
                    (),
                    stream,
                ),
                IoArg::File(path) => match res {
                    Ok(Output::File(file)) => create.ensures((path,), Ok(file)),
                    Ok(Output::StdOut(_)) => false,
                    Err(error) => create.ensures((path,), Err(error)),
                },
            },
    {
        match io_arg {
            IoArg::StdStream => Ok(Output::StdOut(stdout())),
            IoArg::File(path) => match create(path) {
                Ok(file) => Ok(Output::File(file)),
                Err(error) => Err(error),
            },
        }
    }

    /// Borrows the handle and makes a writer of it. The standard-output handle goes to `lock`,
    /// which takes exclusive access to the stream; a file goes to `buffer`, which puts a buffer
    /// in front of it. Only the one that fits the variant is called. The writer is returned as
    /// that call made it, and `self` ends as the variant it was, holding the handle as the
    /// writer leaves it.
    pub fn buf_write<'a, W>(
        &'a mut self,
        lock: impl FnOnce(&'a mut S) -> W,
        buffer: impl FnOnce(&'a mut F) -> W,
    ) -> (writer: W)
        requires
            forall|stream: &mut S|
                *old(self) == Output::<S, F>::StdOut(*stream) ==> lock.requires((stream,)),
            forall|file: &mut F|
                *old(self) == Output::<S, F>::File(*file) ==> buffer.requires((file,)),
        ensures
            match *old(self) {
                Output::StdOut(before) => exists|stream: &mut S|
                    *stream == before && *final(self) == Output::<S, F>::StdOut(*final(stream))
                        && lock.ensures((stream,), writer),
                Output::File(before) => exists|file: &mut F|
                    *file == before && *final(self) == Output::<S, F>::File(*final(file))
                        && buffer.ensures((file,), writer),
            },
    {
        match self {
            Output::StdOut(stream) => lock(stream),
            Output::File(file) => buffer(file),
        }
    }

    /// Gives the handle away and makes a writer that owns it. The standard-output handle goes
    /// to `lock`, a file to `buffer`; only the one that fits the variant is called, and the
    /// writer is returned as that call made it.
    pub fn into_write<W>(
        self,
        lock: impl FnOnce(S) -> W,
        buffer: impl FnOnce(F) -> W,
    ) -> (writer: W)
        requires
            self matches Output::StdOut(stream) ==> lock.requires((stream,)),
            self matches Output::File(file) ==> buffer.requires((file,)),
        ensures
            match self {
                Output::StdOut(stream) => lock.ensures((stream,), writer),
                Output::File(file) => buffer.ensures((file,), writer),
            },
    {
        match self {
            Output::StdOut(stream) => lock(stream),
            Output::File(file) => buffer(file),
        }
    }
}

} // verus!
