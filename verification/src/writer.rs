//! The stream resolution pipeline for writing: a sink that compresses what is written to
//! it by the codec that the suffix of its location names.
//!
//! Writers are for local files only. The writer collects what is written and hands out
//! the encoded stream when it is finished; putting that stream into the file is the
//! caller's part.

use vstd::prelude::*;
use crate::compressions::Codec;
use crate::compressions::encode;
use crate::compressions::encoder_for;
use crate::compressions::file_suffix;
use crate::compressions::lz4_writer_message;
use crate::compressions::spec_decode;
use crate::compressions::spec_encode;
use crate::compressions::spec_encoder_for;
use crate::compressions::spec_file_suffix;
use crate::error::OneIoError;
use crate::error::OneIoErrorView;
use crate::error::not_supported;
use crate::error::result_view;
use crate::protocol::Protocol;
use crate::protocol::classify;
use crate::protocol::spec_classify;
use crate::reader::spec_get_reader;

verus! {

/// The codec that a writer for `path` encodes with. A location that is not a local path
/// is not supported, nor is a suffix of the decode-only codec.
pub open spec fn spec_get_writer(path: Seq<char>) -> Result<Codec, OneIoErrorView> {
    if spec_classify(path) == Protocol::Local {
        spec_encoder_for(spec_file_suffix(path))
    } else {
        Err(not_supported(path))
    }
}

/// A sink for the content of one local file.
#[derive(Debug)]
pub struct Writer {
    path: String,
    codec: Codec,
    pending: Vec<u8>,
}

impl Writer {
    /// The location that the writer was made for.
    pub closed spec fn location(&self) -> Seq<char> {
        self.path@
    }

    /// The codec that the writer encodes with.
    pub closed spec fn codec(&self) -> Codec {
        self.codec
    }

    /// All that has been written so far.
    pub closed spec fn written(&self) -> Seq<u8> {
        self.pending@
    }

    /// What must hold of the writer between calls: its codec is the one that its
    /// location asks for.
    pub closed spec fn wf(&self) -> bool {
        spec_get_writer(self.path@) == Ok::<_, OneIoErrorView>(self.codec)
    }

    /// The location that the writer was made for.
    pub fn path(&self) -> (path: &str)
        ensures
            path@ == self.location(),
    {
        self.path.as_str()
    }

    /// Writes `data` after what has been written before.
    pub fn write_all(&mut self, data: &[u8])
        requires
            old(self).wf(),
        ensures
            final(self).wf(),
            final(self).location() == old(self).location(),
            final(self).codec() == old(self).codec(),
            final(self).written() == old(self).written() + data@,
    {
        let mut i: usize = 0;
        while i < data.len()
            invariant
                i <= data.len(),
                self.path == old(self).path,
                self.codec == old(self).codec,
                self.pending@ == old(self).pending@ + data@.take(i as int),
            decreases data.len() - i,
        {
            self.pending.push(data[i]);
            i += 1;
        }
    }

    /// Closes the writer and hands out the stream to store in the file: what was
    /// written, encoded as a whole by the codec of the writer. Without compression the
    /// stream is what was written; the failure of an encoder is an I/O error. Read back
    /// under the location of the writer, the stream decodes to what was written.
    pub fn finish(self) -> (r: Result<Vec<u8>, OneIoError>)
        requires
            self.wf(),
        ensures
            result_view(r) == spec_encode(self.codec(), self.written()),
            r matches Ok(stream) ==> spec_decode(self.codec(), stream@) == Some(self.written()),
            r matches Ok(stream) ==> spec_get_reader(self.location(), Ok(stream@)) == Ok::<
                _,
                OneIoErrorView,
            >(self.written()),
    {
        let r = encode(self.codec, self.pending);
        proof {
            if r is Ok {
                lemma_write_read_round_trip(self.path@, self.codec, r->Ok_0@, self.pending@);
            }
        }
        r
    }
}

/// Gets a writer for a local file, which compresses by the suffix of the path.
pub fn get_writer(path: &str) -> (r: Result<Writer, OneIoError>)
    ensures
        match r {
            Ok(writer) => {
                &&& writer.wf()
                &&& writer.location() == path@
                &&& writer.written() == Seq::<u8>::empty()
                &&& spec_get_writer(path@) == Ok::<_, OneIoErrorView>(writer.codec())
            },
            Err(e) => spec_get_writer(path@) == Err::<Codec, _>(e@),
        },
{
    match classify(path) {
        Protocol::Local => {
            let suffix = file_suffix(path);
            match encoder_for(suffix.as_str()) {
                Ok(codec) => Ok(Writer { path: path.to_owned(), codec, pending: Vec::new() }),
                Err(e) => Err(e),
            }
        },
        _ => Err(OneIoError::unsupported(path)),
    }
}

/// A stream that the codec of a writer decodes to some data is read back as that data by
/// the reading pipeline, under the location of the writer. So for every codec that
/// encodes, what is written and then read comes back unchanged.
pub proof fn lemma_write_read_round_trip(
    path: Seq<char>,
    codec: Codec,
    stream: Seq<u8>,
    data: Seq<u8>,
)
    requires
        spec_get_writer(path) == Ok::<_, OneIoErrorView>(codec),
        spec_decode(codec, stream) == Some(data),
    ensures
        codec != Codec::Lz4,
        spec_get_reader(path, Ok(stream)) == Ok::<_, OneIoErrorView>(data),
{
}

/// Writing through the decode-only codec is refused with the not-supported error.
pub proof fn lemma_lz4_writer_not_supported(path: Seq<char>)
    requires
        spec_classify(path) == Protocol::Local,
        crate::compressions::is_lz4_suffix(spec_file_suffix(path)),
    ensures
        spec_get_writer(path) == Err::<Codec, _>(not_supported(lz4_writer_message())),
{
    crate::compressions::lemma_lz4_decodes_only(spec_file_suffix(path));
}

} // verus!
