//! Byte sources: streams of raw or decoded bytes that are read in chunks.

use vstd::prelude::*;
use vstd::slice::slice_subrange;
use vstd::slice::slice_to_vec;
use vstd::string::StringExecFns;
use vstd::utf8::decode_utf8;
use vstd::utf8::valid_utf8;
use crate::error::OneIoError;
use crate::error::OneIoErrorView;
use crate::error::invalid_utf8_error;
use crate::text::string_from_utf8;

verus! {

/// The number of bytes asked for at a time when a source is read to its end.
pub const CHUNK_SIZE: usize = 8192;

/// A readable stream of bytes. Whoever wraps a source owns it, and is the source from
/// then on.
pub trait ByteSource {
    /// What must hold of the source between calls.
    spec fn inv(&self) -> bool;

    /// The bytes that the source has yet to hand out, in order.
    spec fn remaining(&self) -> Seq<u8>;

    /// A source holds no more bytes than memory can.
    proof fn lemma_remaining_fits(&self)
        requires
            self.inv(),
        ensures
            self.remaining().len() <= usize::MAX,
    ;

    /// Hands out the next bytes of the source, at most `limit` of them. An empty chunk
    /// means that the end is reached, or that none were asked for.
    fn read(&mut self, limit: usize) -> (chunk: Vec<u8>)
        requires
            old(self).inv(),
        ensures
            final(self).inv(),
            chunk@.len() <= limit,
            old(self).remaining() == chunk@ + final(self).remaining(),
            chunk@.len() == 0 ==> limit == 0 || old(self).remaining().len() == 0,
    ;
}

/// A byte source held in memory.
#[derive(Debug)]
pub struct ByteStream {
    data: Vec<u8>,
    pos: usize,
}

impl ByteStream {
    /// The bytes that are still to be read.
    pub closed spec fn content(&self) -> Seq<u8> {
        self.data@.skip(self.pos as int)
    }

    /// What must hold of the stream between calls.
    pub closed spec fn wf(&self) -> bool {
        self.pos <= self.data@.len()
    }

    /// A stream that hands out `data` from its first byte.
    pub fn new(data: Vec<u8>) -> (stream: ByteStream)
        ensures
            stream.wf(),
            stream.content() == data@,
    {
        ByteStream { data, pos: 0 }
    }

    /// The number of bytes that are still to be read.
    pub fn available(&self) -> (n: usize)
        requires
            self.wf(),
        ensures
            n == self.content().len(),
    {
        self.data.len() - self.pos
    }

    /// Reads all bytes that are still to be read and appends them to `out`. Returns how
    /// many they were.
    pub fn read_to_end(&mut self, out: &mut Vec<u8>) -> (n: usize)
        requires
            old(self).wf(),
        ensures
            final(self).wf(),
            final(self).content().len() == 0,
            n == old(self).content().len(),
            final(out)@ == old(out)@ + old(self).content(),
    {
        let n = self.data.len() - self.pos;
        let mut rest = slice_to_vec(slice_subrange(self.data.as_slice(), self.pos, self.data.len()));
        out.append(&mut rest);
        self.pos = self.data.len();
        n
    }

    /// Reads all bytes that are still to be read as text and appends the text to `out`.
    /// Returns how many bytes they were. Bytes that are not valid UTF-8 are an I/O
    /// error, and `out` is then left as it was. The stream is at its end either way.
    pub fn read_to_string(&mut self, out: &mut String) -> (r: Result<usize, OneIoError>)
        requires
            old(self).wf(),
        ensures
            final(self).wf(),
            final(self).content().len() == 0,
            match r {
                Ok(n) => {
                    &&& valid_utf8(old(self).content())
                    &&& n == old(self).content().len()
                    &&& final(out)@ == old(out)@ + decode_utf8(old(self).content())
                },
                Err(e) => {
                    &&& !valid_utf8(old(self).content())
                    &&& e@ == OneIoErrorView::Io
                    &&& final(out)@ == old(out)@
                },
            },
    {
        let n = self.data.len() - self.pos;
        let rest = slice_to_vec(slice_subrange(self.data.as_slice(), self.pos, self.data.len()));
        self.pos = self.data.len();
        match string_from_utf8(rest) {
            Some(text) => {
                out.append(text.as_str());
                Ok(n)
            },
            None => Err(OneIoError::Io(invalid_utf8_error())),
        }
    }

    /// Hands out all bytes that are still to be read.
    pub fn into_vec(self) -> (data: Vec<u8>)
        requires
            self.wf(),
        ensures
            data@ == self.content(),
    {
        if self.pos == 0 {
            self.data
        } else {
            slice_to_vec(slice_subrange(self.data.as_slice(), self.pos, self.data.len()))
        }
    }
}

impl View for ByteStream {
    type V = Seq<u8>;

    /// The bytes that are still to be read.
    open spec fn view(&self) -> Seq<u8> {
        self.content()
    }
}

impl ByteSource for ByteStream {
    open spec fn inv(&self) -> bool {
        self.wf()
    }

    open spec fn remaining(&self) -> Seq<u8> {
        self.content()
    }

    proof fn lemma_remaining_fits(&self) {
        assert(self.data.len() == self.data@.len());
    }

    /// Hands out the next `limit` bytes, or all that are left where they are fewer.
    fn read(&mut self, limit: usize) -> (chunk: Vec<u8>)
        ensures
            chunk@ == old(self).remaining().take(
                if limit <= old(self).remaining().len() {
                    limit as int
                } else {
                    old(self).remaining().len() as int
                },
            ),
    {
        let left = self.data.len() - self.pos;
        let n = if limit <= left {
            limit
        } else {
            left
        };
        let chunk = slice_to_vec(slice_subrange(self.data.as_slice(), self.pos, self.pos + n));
        self.pos = self.pos + n;
        chunk
    }
}

/// Reads a source to its end and returns all that it handed out.
pub fn read_to_end<R: ByteSource>(source: &mut R) -> (data: Vec<u8>)
    requires
        old(source).inv(),
    ensures
        final(source).inv(),
        data@ == old(source).remaining(),
        final(source).remaining().len() == 0,
{
    let ghost all = source.remaining();
    let mut data: Vec<u8> = Vec::new();
    loop
        invariant
            source.inv(),
            data@ + source.remaining() == all,
        ensures
            source.inv(),
            data@ == all,
            source.remaining().len() == 0,
        decreases source.remaining().len(),
    {
        let mut chunk = source.read(CHUNK_SIZE);
        if chunk.len() == 0 {
            break;
        }
        data.append(&mut chunk);
    }
    data
}

} // verus!
