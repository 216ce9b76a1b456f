use vstd::prelude::*;
use crate::auth::{signature_of, TextSignFormat};
use crate::error::ToolError;
use crate::text::same_text;

verus! {

/// Where content comes from: standard input, or a named file.
pub enum InputSource {
    Stdin,
    File { path: String },
}

impl InputSource {
    /// Selects the source that `spec` names: `-` is standard input, anything else a file.
    pub fn from_spec(spec: &str) -> (r: InputSource)
        ensures
            match r {
                InputSource::Stdin => spec@ == "-"@,
                InputSource::File { path } => spec@ != "-"@ && path@ == spec@,
            },
    {
        if same_text(spec, "-") {
            InputSource::Stdin
        } else {
            InputSource::File { path: spec.to_owned() }
        }
    }
}

/// What one read of a source brought.
pub enum ReadEvent {
    /// The bytes that were read; none means that the stream has ended.
    Bytes(Vec<u8>),
    /// The read was interrupted before anything came; reading goes on.
    Interrupted,
    /// The read failed.
    Failed,
}

/// What follows a read: more reading, or the end with the content or an error.
pub enum ReadStep {
    Continue(ContentReader),
    Done(Result<Vec<u8>, ToolError>),
}

/// Gathers the chunks that a source delivers into one owned buffer.
pub struct ContentReader {
    buffer: Vec<u8>,
}

impl View for ContentReader {
    type V = Seq<u8>;

    closed spec fn view(&self) -> Seq<u8> {
        self.buffer@
    }
}

impl ContentReader {
    pub fn new() -> (r: ContentReader)
        ensures
            r@ == Seq::<u8>::empty(),
    {
        ContentReader { buffer: Vec::new() }
    }

    /// Appends the bytes of one read to the content.
    pub fn push(&mut self, chunk: &[u8])
        ensures
            final(self)@ == old(self)@ + chunk@,
    {
        let ghost before = self.buffer@;
        let mut i: usize = 0;
        while i < chunk.len()
            invariant
                i <= chunk@.len(),
                self.buffer@ == before + chunk@.subrange(0, i as int),
            decreases chunk@.len() - i,
        {
            self.buffer.push(chunk[i]);
            i = i + 1;
            assert(self.buffer@ =~= before + chunk@.subrange(0, i as int));
        }
        assert(chunk@.subrange(0, i as int) =~= chunk@);
    }

    /// Takes in the outcome of one read. Bytes are appended and reading goes on; an empty
    /// read ends the stream and hands out the whole content; an interrupted read changes
    /// nothing; a failed read ends with `Io`, and what was read is dropped.
    pub fn step(self, event: ReadEvent) -> (r: ReadStep)
        ensures
            match event {
                ReadEvent::Bytes(b) => if b@.len() == 0 {
                    r matches ReadStep::Done(out) && out is Ok && out->Ok_0@ == self@
                } else {
                    r matches ReadStep::Continue(next) && next@ == self@ + b@
                },
                ReadEvent::Interrupted => r matches ReadStep::Continue(next) && next@ == self@,
                ReadEvent::Failed => r matches ReadStep::Done(out) && out == Err::<
                    Vec<u8>,
                    ToolError,
                >(ToolError::Io),
            },
    {
        match event {
            ReadEvent::Bytes(b) => {
                if b.len() == 0 {
                    ReadStep::Done(Ok(self.buffer))
                } else {
                    let mut next = self;
                    next.push(b.as_slice());
                    ReadStep::Continue(next)
                }
            },
            ReadEvent::Interrupted => ReadStep::Continue(self),
            ReadEvent::Failed => ReadStep::Done(Err(ToolError::Io)),
        }
    }

    /// Ends reading. After a failed read nothing that was read is handed out.
    pub fn finish(self, failed: bool) -> (r: Result<Vec<u8>, ToolError>)
        ensures
            failed ==> r == Err::<Vec<u8>, ToolError>(ToolError::Io),
            !failed ==> (r is Ok && r->Ok_0@ == self@),
    {
        if failed {
            Err(ToolError::Io)
        } else {
            Ok(self.buffer)
        }
    }
}

/// The content that a reader holds after it was fed `chunks` in order.
pub open spec fn gathered(chunks: Seq<Seq<u8>>) -> Seq<u8> {
    chunks.fold_left(Seq::<u8>::empty(), |acc: Seq<u8>, c: Seq<u8>| acc + c)
}

/// Two sources that deliver the same bytes, however the reads split them, yield the same
/// content and therefore the same signature under the same key.
pub proof fn lemma_source_equivalence(
    format: TextSignFormat,
    key: Seq<u8>,
    from_stdin: Seq<Seq<u8>>,
    from_file: Seq<Seq<u8>>,
)
    requires
        gathered(from_stdin) == gathered(from_file),
    ensures
        signature_of(format, key, gathered(from_stdin)) == signature_of(
            format,
            key,
            gathered(from_file),
        ),
{
}

} // verus!
