//! A line-based codec parameterized by an encoding.
//!
//! A frame is the run of bytes before the first `\n`; the `\n` itself ends the
//! frame and belongs to no frame's text. Decoding never fails: bytes that do
//! not form a character of the encoding become U+FFFD.
use vstd::prelude::*;
use encoding::label::encoding_from_whatwg_label;
use encoding::{DecoderTrap, EncoderTrap};
use crate::error::IrcError;

verus! {

/// The byte that ends a frame.
pub const NEWLINE: u8 = 10;

/// Whether `label` names an encoding (case and surrounding blanks ignored).
pub uninterp spec fn is_known_label(label: Seq<char>) -> bool;

/// The text that the encoding named by `label` decodes `bytes` to, with each
/// malformed sequence replaced by U+FFFD.
pub uninterp spec fn decoded(label: Seq<char>, bytes: Seq<u8>) -> Seq<char>;

/// Whether the encoding named by `label` can encode `text`, with each
/// unrepresentable character replaced by `?`.
pub uninterp spec fn encode_ok(label: Seq<char>, text: Seq<char>) -> bool;

/// The bytes that the encoding named by `label` encodes `text` to, with each
/// unrepresentable character replaced by `?`.
pub uninterp spec fn encoded(label: Seq<char>, text: Seq<char>) -> Seq<u8>;

/// Relies on encoding::label::encoding_from_whatwg_label: it finds an
/// encoding for a label or none, from the label alone.
#[verifier::external_body]
fn label_is_known(label: &str) -> (r: bool)
    ensures
        r == is_known_label(label@),
{
    encoding_from_whatwg_label(label).is_some()
}

/// Relies on Encoding::decode with DecoderTrap::Replace, on the encoding that
/// encoding_from_whatwg_label finds for the label.
#[verifier::external_body]
fn decode_replacing(label: &str, bytes: &[u8]) -> (r: String)
    requires
        is_known_label(label@),
    ensures
        r@ == decoded(label@, bytes@),
{
    let enc = encoding_from_whatwg_label(label).unwrap();
    match enc.decode(bytes, DecoderTrap::Replace) {
        Ok(text) => text,
        Err(cause) => cause.into_owned(),
    }
}

/// Relies on Encoding::encode with EncoderTrap::Replace, on the encoding that
/// encoding_from_whatwg_label finds for the label.
#[verifier::external_body]
fn encode_replacing(label: &str, text: &str) -> (r: Option<Vec<u8>>)
    requires
        is_known_label(label@),
    ensures
        r is Some == encode_ok(label@, text@),
        r is Some ==> r->Some_0@ == encoded(label@, text@),
{
    let enc = encoding_from_whatwg_label(label).unwrap();
    enc.encode(text, EncoderTrap::Replace).ok()
}

/// Whether `n` is the position of the first newline in `b`.
pub open spec fn is_first_newline(b: Seq<u8>, n: int) -> bool {
    &&& 0 <= n < b.len()
    &&& b[n] == NEWLINE
    &&& forall|j: int| 0 <= j < n ==> b[j] != NEWLINE
}

/// Whether `b` holds no newline.
pub open spec fn no_newline(b: Seq<u8>) -> bool {
    forall|j: int| 0 <= j < b.len() ==> b[j] != NEWLINE
}

/// One decoding step on a buffer: the text of the first frame and what is
/// left after its newline, or `None` when the buffer holds no complete frame.
pub open spec fn decode_step(label: Seq<char>, b: Seq<u8>) -> Option<(Seq<char>, Seq<u8>)> {
    if exists|n: int| is_first_newline(b, n) {
        let n = choose|n: int| is_first_newline(b, n);
        Some((decoded(label, b.take(n)), b.skip(n + 1)))
    } else {
        None
    }
}

/// The frames and the remainder that decoding `b` step by step until no
/// complete frame is left gives.
pub open spec fn decode_all(label: Seq<char>, b: Seq<u8>) -> (Seq<Seq<char>>, Seq<u8>)
    decreases b.len(),
{
    match decode_step(label, b) {
        Some((text, rest)) => if rest.len() < b.len() {
            let (texts, left) = decode_all(label, rest);
            (seq![text] + texts, left)
        } else {
            (seq![text], rest)
        },
        None => (seq![], b),
    }
}

/// The bytes that the lines `ls`, each followed by a newline, make up.
pub open spec fn join_lines(ls: Seq<Seq<u8>>) -> Seq<u8>
    decreases ls.len(),
{
    if ls.len() == 0 {
        seq![]
    } else {
        ls[0] + seq![NEWLINE] + join_lines(ls.drop_first())
    }
}

/// Where a buffer holds a line without a newline followed by a newline, one
/// decoding step returns that line's text and exactly what follows the newline.
pub proof fn lemma_decode_one_line(label: Seq<char>, line: Seq<u8>, tail: Seq<u8>)
    requires
        no_newline(line),
    ensures
        decode_step(label, line + seq![NEWLINE] + tail) == Some((decoded(label, line), tail)),
{
    let b = line + seq![NEWLINE] + tail;
    let n = line.len() as int;
    assert(is_first_newline(b, n));
    let m = choose|m: int| is_first_newline(b, m);
    assert(m == n) by {
        if m < n {
            assert(b[m] == line[m]);
        } else if m > n {
            assert(b[n] == NEWLINE);
        }
    }
    assert(b.take(n) =~= line);
    assert(b.skip(n + 1) =~= tail);
}

/// Decoding a buffer by successive steps gives the same frames, in the same
/// order, as cutting it at each newline beforehand, and leaves exactly the
/// bytes after the last newline.
pub proof fn lemma_sequential_decode(label: Seq<char>, lines: Seq<Seq<u8>>, rest: Seq<u8>)
    requires
        forall|i: int| 0 <= i < lines.len() ==> no_newline(#[trigger] lines[i]),
        no_newline(rest),
    ensures
        decode_all(label, join_lines(lines) + rest) == (
        lines.map_values(|l: Seq<u8>| decoded(label, l)),
        rest,
        ),
    decreases lines.len(),
{
    let b = join_lines(lines) + rest;
    if lines.len() == 0 {
        assert(b =~= rest);
        if exists|n: int| is_first_newline(b, n) {
            let n = choose|n: int| is_first_newline(b, n);
            assert(rest[n] == NEWLINE);
        }
        assert(lines.map_values(|l: Seq<u8>| decoded(label, l)) =~= seq![]);
    } else {
        let tail = lines.drop_first();
        assert forall|i: int| 0 <= i < tail.len() implies no_newline(#[trigger] tail[i]) by {
            assert(tail[i] == lines[i + 1]);
        }
        lemma_sequential_decode(label, tail, rest);
        let after = join_lines(tail) + rest;
        assert(b =~= lines[0] + seq![NEWLINE] + after);
        lemma_decode_one_line(label, lines[0], after);
        assert(after.len() < b.len());
        assert(lines.map_values(|l: Seq<u8>| decoded(label, l)) =~= seq![decoded(label, lines[0])]
            + tail.map_values(|l: Seq<u8>| decoded(label, l)));
    }
}

/// Text that the encoding writes without loss comes back unchanged: where the
/// bytes of the text with a newline appended end in their only newline, and
/// the bytes before it decode to the text, decoding those bytes followed by
/// anything returns the text and leaves exactly what followed.
pub proof fn lemma_round_trip(label: Seq<char>, text: Seq<char>, tail: Seq<u8>)
    requires
        encode_ok(label, text.push('\n')),
        encoded(label, text.push('\n')).len() > 0,
        encoded(label, text.push('\n')).last() == NEWLINE,
        no_newline(encoded(label, text.push('\n')).drop_last()),
        decoded(label, encoded(label, text.push('\n')).drop_last()) == text,
    ensures
        decode_step(label, encoded(label, text.push('\n')) + tail) == Some((text, tail)),
{
    let e = encoded(label, text.push('\n'));
    let line = e.drop_last();
    assert(e =~= line + seq![NEWLINE]);
    lemma_decode_one_line(label, line, tail);
}

/// A line codec bound to one encoding, named by its label.
///
/// The codec keeps the label and looks it up anew for each call; the lookup
/// depends on the label alone, so every call uses the same encoding.
#[derive(Debug)]
pub struct LineCodec {
    encoding: String,
}

impl LineCodec {
    #[verifier::type_invariant]
    spec fn label_known(&self) -> bool {
        is_known_label(self.encoding@)
    }

    /// The label of the codec's encoding.
    pub closed spec fn label(&self) -> Seq<char> {
        self.encoding@
    }

    /// A codec for the encoding that `label` names.
    pub fn new(label: &str) -> (r: Result<LineCodec, IrcError>)
        ensures
            r is Ok <==> is_known_label(label@),
            r matches Ok(c) ==> c.label() == label@,
            r matches Err(e) ==> e matches IrcError::UnknownCodec { codec } && codec@ == label@,
    {
        if label_is_known(label) {
            Ok(LineCodec { encoding: label.to_string() })
        } else {
            Err(IrcError::UnknownCodec { codec: label.to_string() })
        }
    }

    /// The label of the codec's encoding.
    pub fn encoding_label(&self) -> (r: &str)
        ensures
            r@ == self.label(),
    {
        self.encoding.as_str()
    }

    /// Takes the first complete frame off the front of `buf` and decodes it.
    ///
    /// With no newline in `buf`, returns `None` and leaves `buf` as it was.
    /// Otherwise removes the frame and its newline from `buf` and returns the
    /// frame's text; a carriage return before the newline stays in the text.
    pub fn decode(&self, buf: &mut Vec<u8>) -> (r: Option<String>)
        ensures
            decode_step(self.label(), old(buf)@) == match r {
                Some(text) => Some((text@, final(buf)@)),
                None => None::<(Seq<char>, Seq<u8>)>,
            },
            r is None ==> final(buf)@ == old(buf)@,
            r is None <==> no_newline(old(buf)@),
    {
        let ghost start = buf@;
        let mut i: usize = 0;
        while i < buf.len()
            invariant
                i <= buf@.len(),
                buf@ == start,
                start == old(buf)@,
                forall|j: int| 0 <= j < i ==> start[j] != NEWLINE,
            decreases buf@.len() - i,
        {
            if buf[i] == NEWLINE {
                proof {
                    assert(is_first_newline(start, i as int));
                    let n = choose|n: int| is_first_newline(start, n);
                    assert(n == i as int) by {
                        if n < i as int {
                            assert(start[n] != NEWLINE);
                        } else if n > i as int {
                            assert(start[i as int] != NEWLINE);
                        }
                    }
                }
                let mut rest = buf.split_off(i + 1);
                buf.truncate(i);
                std::mem::swap(buf, &mut rest);
                proof {
                    use_type_invariant(self);
                }
                let text = decode_replacing(self.encoding.as_str(), rest.as_slice());
                assert(rest@ == start.take(i as int));
                assert(buf@ == start.skip(i as int + 1));
                assert(start[i as int] == NEWLINE);
                assert(is_first_newline(start, i as int));
                assert(decode_step(self.label(), start) == Some((text@, buf@)));
                return Some(text);
            }
            i = i + 1;
        }
        proof {
            if exists|n: int| is_first_newline(start, n) {
                let n = choose|n: int| is_first_newline(start, n);
                assert(start[n] != NEWLINE);
            }
        }
        None
    }

    /// Appends the bytes of `msg` under the codec's encoding to `buf`.
    ///
    /// No newline is added: a message that is to form a frame ends with one.
    /// Fails, leaving `buf` as it was, only where the encoding cannot even
    /// write its replacement for a character it lacks.
    pub fn encode(&self, msg: String, buf: &mut Vec<u8>) -> (r: Result<(), IrcError>)
        ensures
            r is Ok <==> encode_ok(self.label(), msg@),
            r is Ok ==> final(buf)@ == old(buf)@ + encoded(self.label(), msg@),
            r is Err ==> final(buf)@ == old(buf)@,
            r matches Err(IrcError::CodecFailed { codec, data }) ==> codec@ == self.label() && data
                == msg,
            r matches Err(e) ==> e is CodecFailed,
    {
        proof {
            use_type_invariant(self);
        }
        match encode_replacing(self.encoding.as_str(), msg.as_str()) {
            Some(data) => {
                let mut i: usize = 0;
                let ghost start = buf@;
                while i < data.len()
                    invariant
                        i <= data@.len(),
                        buf@ == start + data@.take(i as int),
                    decreases data@.len() - i,
                {
                    buf.push(data[i]);
                    i = i + 1;
                    assert(data@.take(i as int) == data@.take(i - 1 as int).push(data@[i - 1]));
                }
                assert(data@.take(data@.len() as int) == data@);
                Ok(())
            },
            None => Err(IrcError::CodecFailed { codec: self.encoding.clone(), data: msg }),
        }
    }
}

} // verus!
