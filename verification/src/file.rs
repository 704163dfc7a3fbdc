//! A readable file as the logic sees it: its descriptor, the outcome of
//! opening it, and the bytes that one read collects from the C stream.
use vstd::prelude::*;
use crate::clib::{c_int, EOF, O_NONBLOCK, O_RDWR};

verus! {

/// Errors of opening and reading a file.
#[derive(Debug, Clone, Copy, PartialEq, Eq, Structural)]
pub enum Error {
    FileDescriptorError,
    FileStructError,
    FileStringNulError,
}

/// An open file, known by its descriptor.
#[derive(Debug, Clone, Copy, PartialEq, Eq, Structural)]
pub struct File {
    pub file_descriptor: c_int,
}

/// The byte that a character read by `fgetc` stands for.
pub open spec fn char_byte(c: c_int) -> u8 {
    c as u8
}

/// The bytes that a read collects from the characters that `fgetc`
/// returned: each character up to the first `EOF`, as a byte.
pub open spec fn bytes_before_eof(chars: Seq<c_int>) -> Seq<u8>
    decreases chars.len(),
{
    if chars.len() == 0 || chars[0] == EOF {
        Seq::empty()
    } else {
        seq![char_byte(chars[0])] + bytes_before_eof(chars.drop_first())
    }
}

/// Whether a byte string can become a C string: it holds no NUL byte.
pub open spec fn nul_free(bytes: Seq<u8>) -> bool {
    forall|i: int| 0 <= i < bytes.len() ==> bytes[i] != 0
}

/// What a read yields for the bytes it collected.
pub open spec fn read_result(bytes: Seq<u8>) -> Result<Seq<u8>, Error> {
    if nul_free(bytes) {
        Ok(bytes)
    } else {
        Err(Error::FileStringNulError)
    }
}

/// A read keeps every character before the first `EOF`, each as a byte, and
/// nothing from the first `EOF` on: the result is as long as the prefix
/// without `EOF` (the whole input when it holds none), and any other
/// character, a newline among them, is kept.
pub proof fn lemma_read_keeps_every_char_before_eof(chars: Seq<c_int>)
    ensures
        bytes_before_eof(chars).len() <= chars.len(),
        bytes_before_eof(chars).len() == chars.len() || chars[bytes_before_eof(chars).len() as int] == EOF,
        forall|i: int| 0 <= i < bytes_before_eof(chars).len() ==> chars[i] != EOF,
        forall|i: int|
            0 <= i < bytes_before_eof(chars).len() ==> #[trigger] bytes_before_eof(chars)[i] == char_byte(chars[i]),
        forall|i: int|
            0 <= i < bytes_before_eof(chars).len() ==> (#[trigger] bytes_before_eof(chars)[i]) as int == (
            chars[i] as u8) as int,
    decreases chars.len(),
{
    if chars.len() > 0 && chars[0] != EOF {
        let rest = chars.drop_first();
        lemma_read_keeps_every_char_before_eof(rest);
        assert forall|i: int| 0 < i < bytes_before_eof(chars).len() implies bytes_before_eof(chars)[i]
            == bytes_before_eof(rest)[i - 1] && chars[i] == rest[i - 1] by {}
    }
}

/// Turning the collected bytes into a C string refuses exactly the byte
/// strings that hold a NUL byte, and keeps every other one unchanged: any
/// byte from 1 to 255, a newline among them, is accepted.
pub proof fn lemma_read_result_refuses_only_nul(bytes: Seq<u8>)
    ensures
        read_result(bytes) is Err <==> exists|i: int| 0 <= i < bytes.len() && bytes[i] == 0,
        read_result(bytes) matches Ok(b) ==> b == bytes,
        read_result(bytes) matches Err(e) ==> e == Error::FileStringNulError,
        (forall|i: int| 0 <= i < bytes.len() ==> 1 <= #[trigger] bytes[i]) ==> read_result(bytes) == Ok::<Seq<u8>, Error>(bytes),
{
}

impl File {
    /// The flags with which a named pipe is opened: read and write, without
    /// blocking.
    pub fn open_flags() -> (flags: c_int)
        ensures
            flags == O_RDWR | O_NONBLOCK,
    {
        O_RDWR | O_NONBLOCK
    }

    /// Takes the descriptor that `open` returned and whether `fdopen` then
    /// returned a null stream (not consulted when the descriptor is
    /// negative, since `fdopen` is then never called).
    pub fn new(file_descriptor: c_int, stream_is_null: bool) -> (result: Result<File, Error>)
        ensures
            file_descriptor < 0 ==> result == Err::<File, Error>(Error::FileDescriptorError),
            file_descriptor >= 0 && stream_is_null ==> result == Err::<File, Error>(Error::FileStructError),
            file_descriptor >= 0 && !stream_is_null ==> result == Ok::<File, Error>(File { file_descriptor }),
    {
        if file_descriptor < 0 {
            return Err(Error::FileDescriptorError);
        }
        if stream_is_null {
            return Err(Error::FileStructError);
        }
        Ok(File { file_descriptor })
    }

    /// One turn of the read loop, on the character that `fgetc` returned:
    /// at `EOF` the loop stops, else the character is kept as a byte.
    pub fn read_step(bytes: &mut Vec<u8>, c: c_int) -> (more: bool)
        ensures
            more == (c != EOF),
            more ==> final(bytes)@ == old(bytes)@.push(c as u8),
            !more ==> final(bytes)@ == old(bytes)@,
    {
        if c == EOF {
            false
        } else {
            bytes.push(c as u8);
            true
        }
    }

    /// The end of a read: the collected bytes become a C string, which fails
    /// when one of them is NUL.
    pub fn finish_read(bytes: Vec<u8>) -> (result: Result<Vec<u8>, Error>)
        ensures
            match result {
                Ok(b) => read_result(bytes@) == Ok::<Seq<u8>, Error>(b@),
                Err(e) => read_result(bytes@) == Err::<Seq<u8>, Error>(e),
            },
            result is Err <==> exists|i: int| 0 <= i < bytes@.len() && bytes@[i] == 0,
            result matches Ok(b) ==> b@ == bytes@,
            result matches Err(e) ==> e == Error::FileStringNulError,
    {
        proof {
            lemma_read_result_refuses_only_nul(bytes@);
        }
        let mut i: usize = 0;
        while i < bytes.len()
            invariant
                i <= bytes.len(),
                forall|j: int| 0 <= j < i ==> bytes@[j] != 0,
            decreases bytes.len() - i,
        {
            if bytes[i] == 0 {
                return Err(Error::FileStringNulError);
            }
            i = i + 1;
        }
        Ok(bytes)
    }

    /// A whole read over the characters that successive `fgetc` calls
    /// returned: the bytes before the first `EOF`, as a C string.
    pub fn read(&self, chars: &Vec<c_int>) -> (result: Result<Vec<u8>, Error>)
        ensures
            match result {
                Ok(b) => read_result(bytes_before_eof(chars@)) == Ok::<Seq<u8>, Error>(b@),
                Err(e) => read_result(bytes_before_eof(chars@)) == Err::<Seq<u8>, Error>(e),
            },
            result matches Ok(b) ==> {
                &&& b@.len() <= chars@.len()
                &&& b@.len() == chars@.len() || chars@[b@.len() as int] == EOF
                &&& forall|i: int| 0 <= i < b@.len() ==> chars@[i] != EOF && b@[i] == chars@[i] as u8
            },
            result is Err <==> exists|i: int|
                0 <= i < chars@.len() && (chars@[i] as u8) == 0 && chars@[i] != EOF && forall|j: int|
                    0 <= j < i ==> chars@[j] != EOF,
            result matches Err(e) ==> e == Error::FileStringNulError,
    {
        proof {
            lemma_read_keeps_every_char_before_eof(chars@);
            lemma_read_result_refuses_only_nul(bytes_before_eof(chars@));
            let k = bytes_before_eof(chars@).len() as int;
            let bs = bytes_before_eof(chars@);
            assert forall|i: int| 0 <= i < bs.len() implies chars@[i] != EOF && bs[i] == chars@[i] as u8 by {
                assert(bs[i] == chars@[i] as u8);
            }
            if exists|i: int| 0 <= i < bs.len() && bs[i] == 0 {
                let i = choose|i: int| 0 <= i < bs.len() && bs[i] == 0;
                assert forall|j: int| 0 <= j < i implies chars@[j] != EOF by {
                    assert(bs[j] == chars@[j] as u8);
                }
                assert(0 <= i < chars@.len() && (chars@[i] as u8) == 0 && chars@[i] != EOF && forall|j: int|
                    0 <= j < i ==> chars@[j] != EOF);
            }
            if exists|i: int|
                0 <= i < chars@.len() && (chars@[i] as u8) == 0 && chars@[i] != EOF && forall|j: int|
                    0 <= j < i ==> chars@[j] != EOF {
                let i = choose|i: int|
                    0 <= i < chars@.len() && (chars@[i] as u8) == 0 && chars@[i] != EOF && forall|j: int|
                        0 <= j < i ==> chars@[j] != EOF;
                if i >= k {
                    assert(chars@[k] == EOF);
                }
                assert(bs[i] == 0);
            }
        }
        let mut bytes: Vec<u8> = Vec::new();
        let mut i: usize = 0;
        let mut more = true;
        assert(chars@.skip(0) =~= chars@);
        assert(bytes@ + bytes_before_eof(chars@) =~= bytes_before_eof(chars@));
        while more && i < chars.len()
            invariant
                i <= chars.len(),
                bytes@ + bytes_before_eof(chars@.skip(i as int)) == bytes_before_eof(chars@),
                !more ==> i < chars.len() && chars@[i as int] == EOF,
            decreases chars.len() - i + (if more { 1int } else { 0int }),
        {
            let ghost before = bytes@;
            assert(chars@.skip(i as int).drop_first() =~= chars@.skip(i + 1));
            more = File::read_step(&mut bytes, chars[i]);
            if more {
                assert(bytes@ + bytes_before_eof(chars@.skip(i + 1)) =~= before + bytes_before_eof(chars@.skip(i as int)));
                i = i + 1;
            }
        }
        proof {
            if more {
                assert(chars@.skip(i as int).len() == 0);
            } else {
                assert(chars@.skip(i as int)[0] == EOF);
            }
            assert(bytes_before_eof(chars@.skip(i as int)) =~= Seq::<u8>::empty());
            assert(bytes@ =~= bytes_before_eof(chars@));
        }
        let result = File::finish_read(bytes);
        proof {
            let bs = bytes_before_eof(chars@);
            if result is Ok {
                assert forall|i: int| 0 <= i < bs.len() implies chars@[i] != EOF && bs[i] == chars@[i] as u8 by {
                    assert(bs[i] == chars@[i] as u8);
                }
            }
        }
        result
    }
}

} // verus!
