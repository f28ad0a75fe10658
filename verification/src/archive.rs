//! The form in which the log of an installation travels: compressed, and in
//! characters that fit into a document.
use base64::Engine;
use vstd::prelude::*;
use vstd::string::*;

verus! {

// Compression.

/// A byte string in the gzip format at the default level, as
/// `flate2::write::GzEncoder` gives it, or nothing where the encoder fails.
pub uninterp spec fn gzipped(bytes: Seq<u8>) -> Option<Seq<u8>>;

/// What `flate2::read::GzDecoder` reads, to its end, of a byte string in the gzip
/// format, or nothing where it fails.
pub uninterp spec fn gunzipped(bytes: Seq<u8>) -> Option<Seq<u8>>;

/// A `flate2::write::GzEncoder` over an empty vector, given all the bytes with
/// `write_all` and ended with `finish`. What it makes depends on the bytes
/// alone: the header holds no time, no name and no system. It begins with the
/// two bytes that mark the format and the one for its only method, and is never
/// shorter than the header of ten bytes and the trailer of eight. The crate's
/// decoder reads the bytes back from it. How they are compressed is left to the
/// crate; so is whether it succeeds, since the compressor has errors of its own,
/// of which its documentation says only that some may not be possible.
#[verifier::external_body]
fn gzip(bytes: &[u8]) -> (compressed: Option<Vec<u8>>)
    ensures
        (match compressed {
            Some(vec) => Some(vec@),
            None => None,
        }) == gzipped(bytes@),
        compressed matches Some(vec) ==> {
            &&& vec@.len() >= 18
            &&& vec@[0] == 0x1f && vec@[1] == 0x8b && vec@[2] == 8
            &&& gunzipped(vec@) == Some(bytes@)
        },
{
    let mut encoder = flate2::write::GzEncoder::new(Vec::new(), flate2::Compression::default());
    std::io::Write::write_all(&mut encoder, bytes).ok()?;
    encoder.finish().ok()
}

// Characters.

/// The character for six bits.
pub open spec fn base64_char(value: int) -> char {
    if value < 26 {
        (value + 65) as char
    } else if value < 52 {
        (value + 71) as char
    } else if value < 62 {
        (value - 4) as char
    } else if value == 62 {
        '+'
    } else {
        '/'
    }
}

/// A byte string in the standard base64 alphabet: four characters for every
/// three bytes, padded with equals signs at the end.
pub open spec fn base64_text(bytes: Seq<u8>) -> Seq<char>
    decreases bytes.len(),
{
    if bytes.len() == 0 {
        Seq::empty()
    } else if bytes.len() == 1 {
        seq![
            base64_char(bytes[0] as int / 4),
            base64_char(bytes[0] as int % 4 * 16),
            '=',
            '=',
        ]
    } else if bytes.len() == 2 {
        seq![
            base64_char(bytes[0] as int / 4),
            base64_char(bytes[0] as int % 4 * 16 + bytes[1] as int / 16),
            base64_char(bytes[1] as int % 16 * 4),
            '=',
        ]
    } else {
        seq![
            base64_char(bytes[0] as int / 4),
            base64_char(bytes[0] as int % 4 * 16 + bytes[1] as int / 16),
            base64_char(bytes[1] as int % 16 * 4 + bytes[2] as int / 64),
            base64_char(bytes[2] as int % 64),
        ] + base64_text(bytes.skip(3))
    }
}

/// How many characters a byte string of this length takes.
pub open spec fn base64_len(len: nat) -> nat {
    (len + 2) / 3 * 4
}

/// `base64::engine::general_purpose::STANDARD.encode`: the text in the standard
/// alphabet, with padding. It has to fit into memory, or the call panics.
#[verifier::external_body]
fn base64_standard(bytes: &[u8]) -> (text: String)
    requires
        base64_len(bytes@.len()) <= isize::MAX,
    ensures
        text@ == base64_text(bytes@),
{
    base64::engine::general_purpose::STANDARD.encode(bytes)
}

/// The text is as long as `base64_len` says.
pub proof fn law_base64_len(bytes: Seq<u8>)
    ensures
        base64_text(bytes).len() == base64_len(bytes.len()),
    decreases bytes.len(),
{
    if bytes.len() >= 3 {
        law_base64_len(bytes.skip(3));
    }
}

proof fn lemma_base64_char(a: int, b: int)
    requires
        0 <= a < 64,
        0 <= b < 64,
        base64_char(a) == base64_char(b),
    ensures
        a == b,
{
}

proof fn lemma_base64_pad(a: int)
    requires
        0 <= a < 64,
    ensures
        base64_char(a) != '=',
{
}

proof fn lemma_base64_head(a: Seq<u8>)
    requires
        a.len() > 0,
    ensures
        base64_text(a).len() >= 4,
        base64_text(a)[0] == base64_char(a[0] as int / 4),
        base64_text(a)[1] == base64_char(
            a[0] as int % 4 * 16 + (if a.len() > 1 {
                a[1] as int / 16
            } else {
                0
            }),
        ),
        base64_text(a)[2] == (if a.len() > 1 {
            base64_char(
                a[1] as int % 16 * 4 + (if a.len() > 2 {
                    a[2] as int / 64
                } else {
                    0
                }),
            )
        } else {
            '='
        }),
        base64_text(a)[3] == (if a.len() > 2 {
            base64_char(a[2] as int % 64)
        } else {
            '='
        }),
{
}

/// No two byte strings have the same text: whoever receives it can tell the
/// bytes.
pub proof fn law_base64_injective(a: Seq<u8>, b: Seq<u8>)
    requires
        base64_text(a) == base64_text(b),
    ensures
        a == b,
    decreases a.len(),
{
    law_base64_len(a);
    law_base64_len(b);
    if a.len() > 0 && b.len() > 0 {
        lemma_base64_head(a);
        lemma_base64_head(b);
        let x = base64_text(a);
        let y = base64_text(b);
        // The padding gives the number of bytes in the last group.
        if a.len() > 1 {
            lemma_base64_pad(a[1] as int % 16 * 4 + (if a.len() > 2 { a[2] as int / 64 } else { 0 }));
        }
        if b.len() > 1 {
            lemma_base64_pad(b[1] as int % 16 * 4 + (if b.len() > 2 { b[2] as int / 64 } else { 0 }));
        }
        if a.len() > 2 {
            lemma_base64_pad(a[2] as int % 64);
        }
        if b.len() > 2 {
            lemma_base64_pad(b[2] as int % 64);
        }
        assert(a.len() > 1 <==> b.len() > 1);
        assert(a.len() > 2 <==> b.len() > 2);
        // The characters give the bytes.
        lemma_base64_char(a[0] as int / 4, b[0] as int / 4);
        let p = a[0] as int % 4 * 16 + (if a.len() > 1 { a[1] as int / 16 } else { 0 });
        let q = b[0] as int % 4 * 16 + (if b.len() > 1 { b[1] as int / 16 } else { 0 });
        lemma_base64_char(p, q);
        assert(a[0] == b[0]);
        if a.len() > 1 {
            let r = a[1] as int % 16 * 4 + (if a.len() > 2 { a[2] as int / 64 } else { 0 });
            let s = b[1] as int % 16 * 4 + (if b.len() > 2 { b[2] as int / 64 } else { 0 });
            lemma_base64_char(r, s);
            assert(a[1] == b[1]);
        }
        if a.len() > 2 {
            lemma_base64_char(a[2] as int % 64, b[2] as int % 64);
            assert(a[2] == b[2]);
            assert(x.skip(4) =~= base64_text(a.skip(3)));
            assert(y.skip(4) =~= base64_text(b.skip(3)));
            law_base64_injective(a.skip(3), b.skip(3));
            assert forall|i: int| 0 <= i < a.len() implies a[i] == b[i] by {
                if i >= 3 {
                    assert(a[i] == a.skip(3)[i - 3]);
                    assert(b[i] == b.skip(3)[i - 3]);
                }
            }
        }
    }
    assert(a =~= b);
}

/// The byte string that a text stands for, where it stands for one.
pub open spec fn base64_decoded(text: Seq<char>) -> Option<Seq<u8>> {
    if exists|bytes: Seq<u8>| base64_text(bytes) == text {
        Some(choose|bytes: Seq<u8>| base64_text(bytes) == text)
    } else {
        None
    }
}

/// The text of a byte string stands for that byte string.
pub proof fn law_base64_read_back(bytes: Seq<u8>)
    ensures
        base64_decoded(base64_text(bytes)) == Some(bytes),
{
    let text = base64_text(bytes);
    let read = choose|read: Seq<u8>| base64_text(read) == text;
    law_base64_injective(read, bytes);
}

// The log.

/// The log that a text is unpacked into, where it can be.
pub open spec fn unpacked(text: Seq<char>) -> Option<Seq<u8>> {
    match base64_decoded(text) {
        Some(bytes) => gunzipped(bytes),
        None => None,
    }
}

/// Why a log does not travel.
#[derive(Debug, Clone, Copy, PartialEq, Eq, Structural)]
pub enum LogError {
    /// It could not be compressed.
    Compression,
    /// Its text would not fit into memory.
    TooLong,
}

/// The text that a compressed log travels as.
pub open spec fn log_text(compressed: Option<Seq<u8>>) -> Result<Seq<char>, LogError> {
    match compressed {
        Some(bytes) => if base64_len(bytes.len()) <= isize::MAX {
            Ok(base64_text(bytes))
        } else {
            Err(LogError::TooLong)
        },
        None => Err(LogError::Compression),
    }
}

/// A text or an error, with its characters.
pub open spec fn log_view(text: Result<String, LogError>) -> Result<Seq<char>, LogError> {
    match text {
        Ok(string) => Ok(string@),
        Err(error) => Err(error),
    }
}

/// Puts a compressed log into the text that it travels as.
pub fn encode_log(compressed: Option<Vec<u8>>) -> (text: Result<String, LogError>)
    ensures
        log_view(text) == log_text(
            match compressed {
                Some(bytes) => Some(bytes@),
                None => None,
            },
        ),
{
    match compressed {
        Some(bytes) => {
            let len: usize = bytes.len();
            let groups: usize = len / 3 + (if len % 3 == 0 {
                0
            } else {
                1
            });
            if groups <= (isize::MAX as usize) / 4 {
                Ok(base64_standard(bytes.as_slice()))
            } else {
                Err(LogError::TooLong)
            }
        },
        None => Err(LogError::Compression),
    }
}

/// Compresses a log and puts it into the text that it travels as, which is
/// never empty, comes in groups of four characters, begins with those of the
/// format, and is unpacked into the log.
pub fn read_and_gzip(raw: &[u8]) -> (text: Result<String, LogError>)
    ensures
        log_view(text) == log_text(gzipped(raw@)),
        text matches Ok(string) ==> {
            &&& string@.len() >= 24
            &&& string@.len() % 4 == 0
            &&& string@.take(4) == seq!['H', '4', 's', 'I']
            &&& unpacked(string@) == Some(raw@)
        },
        text is Ok <==> (gzipped(raw@) matches Some(compressed) && (compressed.len() + 2) / 3 * 4
            <= isize::MAX),
{
    let compressed = gzip(raw);
    proof {
        if let Some(bytes) = gzipped(raw@) {
            law_base64_len(bytes);
            lemma_base64_head(bytes);
            law_base64_read_back(bytes);
            assert(base64_text(bytes).take(4) =~= seq!['H', '4', 's', 'I']);
        }
    }
    encode_log(compressed)
}

/// A log travels where, and only where, it could be compressed and its text fits
/// into memory, however long it is, and its text stands for all of its compressed
/// bytes.
pub proof fn law_log_travels(compressed: Option<Seq<u8>>)
    ensures
        log_text(compressed) is Ok <==> (compressed matches Some(bytes) && (bytes.len() + 2) / 3 * 4
            <= isize::MAX),
        log_text(compressed) matches Ok(text) ==> base64_decoded(text) == compressed,
        compressed is None ==> log_text(compressed) == Err::<Seq<char>, LogError>(
            LogError::Compression,
        ),
        compressed is Some && !(log_text(compressed) is Ok) ==> log_text(compressed) == Err::<
            Seq<char>,
            LogError,
        >(LogError::TooLong),
{
    if let Some(bytes) = compressed {
        law_base64_read_back(bytes);
    }
}

/// The text of a log, or the error, is shown as it is.
pub proof fn law_log_view(text: Result<String, LogError>)
    ensures
        match text {
            Ok(string) => log_view(text) == Ok::<Seq<char>, LogError>(string@),
            Err(error) => log_view(text) == Err::<Seq<char>, LogError>(error),
        },
{
}

} // verus!
