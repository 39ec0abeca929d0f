use vstd::prelude::*;

verus! {

/// The state behind the engine's stream callbacks for an in-memory source:
/// the bytes to read, a cursor into them, and the bytes written so far.
pub struct NdUserdata<'a> {
    input_stream: bool,
    offset: usize,
    output: Vec<u8>,
    input: &'a [u8],
}

/// The smaller of two integers.
pub open spec fn min_of(a: int, b: int) -> int {
    if a <= b {
        a
    } else {
        b
    }
}

impl<'a> NdUserdata<'a> {
    /// The cursor never passes the end of the input, and every offset fits
    /// the engine's signed 64-bit offsets.
    pub closed spec fn wf(&self) -> bool {
        &&& self.offset <= self.input@.len()
        &&& self.input@.len() <= i64::MAX
    }

    pub closed spec fn is_input_spec(&self) -> bool {
        self.input_stream
    }

    pub closed spec fn offset_spec(&self) -> int {
        self.offset as int
    }

    pub closed spec fn input_spec(&self) -> Seq<u8> {
        self.input@
    }

    pub closed spec fn output_spec(&self) -> Seq<u8> {
        self.output@
    }

    /// The number of bytes left after the cursor.
    pub open spec fn remaining_spec(&self) -> int {
        self.input_spec().len() - self.offset_spec()
    }

    /// A stream that reads `data` from its start.
    pub fn new_input(data: &'a [u8]) -> (r: Self)
        requires
            data@.len() <= i64::MAX,
        ensures
            r.wf(),
            r.is_input_spec(),
            r.offset_spec() == 0,
            r.input_spec() == data@,
            r.output_spec() == Seq::<u8>::empty(),
    {
        NdUserdata { input_stream: true, offset: 0, output: Vec::new(), input: data }
    }

    /// A stream that collects what is written to it.
    pub fn new_output() -> (r: NdUserdata<'static>)
        ensures
            r.wf(),
            !r.is_input_spec(),
            r.offset_spec() == 0,
            r.input_spec() == Seq::<u8>::empty(),
            r.output_spec() == Seq::<u8>::empty(),
    {
        let empty: &'static [u8] = &[];
        NdUserdata { input_stream: false, offset: 0, output: Vec::new(), input: empty }
    }

    /// Whether this stream is read from.
    pub fn is_input(&self) -> (r: bool)
        ensures
            r == self.is_input_spec(),
    {
        self.input_stream
    }

    /// The cursor: how many bytes have been consumed.
    pub fn offset(&self) -> (r: usize)
        ensures
            r == self.offset_spec(),
    {
        self.offset
    }

    /// The total length of the input.
    pub fn len(&self) -> (r: usize)
        ensures
            r == self.input_spec().len(),
    {
        self.input.len()
    }

    /// The bytes written so far.
    pub fn output(&self) -> (r: &Vec<u8>)
        ensures
            r@ == self.output_spec(),
    {
        &self.output
    }

    /// Reads up to `max_len` bytes from the cursor on, and moves the cursor
    /// past them. At the end of the input, and on an output stream, nothing
    /// is read.
    pub fn read(&mut self, max_len: usize) -> (r: Vec<u8>)
        requires
            old(self).wf(),
        ensures
            final(self).wf(),
            final(self).input_spec() == old(self).input_spec(),
            final(self).output_spec() == old(self).output_spec(),
            final(self).is_input_spec() == old(self).is_input_spec(),
            !old(self).is_input_spec() ==> r@.len() == 0 && final(self).offset_spec()
                == old(self).offset_spec(),
            old(self).is_input_spec() ==> {
                let n = min_of(max_len as int, old(self).remaining_spec());
                &&& r@ == old(self).input_spec().subrange(
                    old(self).offset_spec(),
                    old(self).offset_spec() + n,
                )
                &&& final(self).offset_spec() == old(self).offset_spec() + n
            },
    {
        let mut out: Vec<u8> = Vec::new();
        if !self.input_stream {
            return out;
        }
        let len: usize = self.input.len();
        let left: usize = len - self.offset;
        let n: usize = if max_len > left {
            left
        } else {
            max_len
        };
        let start: usize = self.offset;
        let mut i: usize = 0;
        while i < n
            invariant
                i <= n,
                len == self.input@.len(),
                start + n <= len,
                out@ == self.input@.subrange(start as int, start + i),
            decreases n - i,
        {
            out.push(self.input[start + i]);
            i = i + 1;
            assert(out@ =~= self.input@.subrange(start as int, start + i));
        }
        self.offset = start + n;
        out
    }

    /// Moves the cursor forward by `n` bytes, stopping at the end of the
    /// input, and returns the new cursor. A negative `n` moves nothing; on an
    /// output stream nothing moves either.
    pub fn skip(&mut self, n: i64) -> (r: i64)
        requires
            old(self).wf(),
        ensures
            final(self).wf(),
            final(self).input_spec() == old(self).input_spec(),
            final(self).output_spec() == old(self).output_spec(),
            final(self).is_input_spec() == old(self).is_input_spec(),
            r == final(self).offset_spec(),
            final(self).offset_spec() == if old(self).is_input_spec() && n > 0 {
                old(self).offset_spec() + min_of(n as int, old(self).remaining_spec())
            } else {
                old(self).offset_spec()
            },
    {
        if self.input_stream && n > 0 {
            let left: i64 = (self.input.len() - self.offset) as i64;
            let step: i64 = if n > left {
                left
            } else {
                n
            };
            self.offset = self.offset + step as usize;
        }
        self.offset as i64
    }

    /// Moves the cursor to `pos` if it lies within the input, end included,
    /// and says whether it did. On an output stream it never does.
    pub fn seek(&mut self, pos: i64) -> (r: bool)
        requires
            old(self).wf(),
        ensures
            final(self).wf(),
            final(self).input_spec() == old(self).input_spec(),
            final(self).output_spec() == old(self).output_spec(),
            final(self).is_input_spec() == old(self).is_input_spec(),
            r == (old(self).is_input_spec() && 0 <= pos <= old(self).input_spec().len()),
            final(self).offset_spec() == if r {
                pos as int
            } else {
                old(self).offset_spec()
            },
    {
        if self.input_stream && 0 <= pos && pos <= self.input.len() as i64 {
            self.offset = pos as usize;
            true
        } else {
            false
        }
    }

    /// Appends `bytes` to the output of an output stream and returns how many
    /// were taken: all of them there, none on an input stream.
    pub fn write(&mut self, bytes: &[u8]) -> (r: usize)
        requires
            old(self).wf(),
        ensures
            final(self).wf(),
            final(self).input_spec() == old(self).input_spec(),
            final(self).offset_spec() == old(self).offset_spec(),
            final(self).is_input_spec() == old(self).is_input_spec(),
            old(self).is_input_spec() ==> r == 0 && final(self).output_spec()
                == old(self).output_spec(),
            !old(self).is_input_spec() ==> r == bytes@.len() && final(self).output_spec()
                == old(self).output_spec() + bytes@,
    {
        if self.input_stream {
            return 0;
        }
        let ghost before = self.output@;
        let mut i: usize = 0;
        while i < bytes.len()
            invariant
                i <= bytes@.len(),
                self.output@ == before + bytes@.subrange(0, i as int),
                self.input_stream == old(self).input_stream,
                self.offset == old(self).offset,
                self.input == old(self).input,
            decreases bytes@.len() - i,
        {
            self.output.push(bytes[i]);
            i = i + 1;
            assert(self.output@ =~= before + bytes@.subrange(0, i as int));
        }
        assert(bytes@.subrange(0, bytes@.len() as int) =~= bytes@);
        bytes.len()
    }
}

} // verus!
