use vstd::prelude::*;

use std::collections::HashMap;

verus! {

broadcast use vstd::std_specs::hash::group_hash_axioms;

/// Largest number of bytes that one fragment carries.
pub const FRAGMENT_SIZE: u64 = 1024;

/// Number of fragments that make up one chunk.
pub const FRAGMENTS_PER_CHUNK: u64 = 8;

/// A presence mask in which all the fragments of a chunk are set.
pub const FULL_CHUNK: u8 = 0xff;

/// The number of chunks that a file of `size` bytes is expected to take.
pub open spec fn expected_chunks(size: u32) -> u32 {
    ((size / 1024 + 1) / 8 + 1) as u32
}

/// The bit that stands for fragment `fragment_number` in a chunk's presence mask.
pub open spec fn fragment_bit(fragment_number: u8) -> u8 {
    1u8 << (fragment_number % 8)
}

/// Where in the file the bytes of a fragment start.
pub open spec fn fragment_offset(chunk_number: u32, fragment_number: u8) -> int {
    (chunk_number as int * FRAGMENTS_PER_CHUNK as int + fragment_number as int) * FRAGMENT_SIZE as int
}

/// `buf` with `data` written from position `off` on; a gap before `off` is filled with zeros.
pub open spec fn write_at(buf: Seq<u8>, off: int, data: Seq<u8>) -> Seq<u8> {
    let len = if buf.len() >= off + data.len() { buf.len() as int } else { off + data.len() };
    Seq::new(
        len as nat,
        |i: int|
            if off <= i < off + data.len() {
                data[i - off]
            } else if i < buf.len() {
                buf[i]
            } else {
                0u8
            },
    )
}

/// One file that arrives in fragments, grouped in chunks of eight.
pub struct DownloadedFile {
    filenum: u16,
    size: u32,
    received_bytes: u32,
    received_chunk_numbers: HashMap<u32, u8>,
    number_of_chunks: u32,
    buffer: Vec<u8>,
}

impl DownloadedFile {
    pub closed spec fn wf(&self) -> bool {
        self.number_of_chunks == expected_chunks(self.size)
    }

    pub closed spec fn spec_filenum(&self) -> u16 {
        self.filenum
    }

    pub closed spec fn spec_size(&self) -> u32 {
        self.size
    }

    pub closed spec fn spec_received_bytes(&self) -> u32 {
        self.received_bytes
    }

    pub closed spec fn spec_number_of_chunks(&self) -> u32 {
        self.number_of_chunks
    }

    /// The bytes written so far.
    pub closed spec fn spec_data(&self) -> Seq<u8> {
        self.buffer@
    }

    /// The presence mask of each chunk that a fragment has been seen of.
    pub closed spec fn masks(&self) -> Map<u32, u8> {
        self.received_chunk_numbers@
    }

    /// The presence mask of chunk `chunk_number`.
    pub open spec fn mask(&self, chunk_number: u32) -> u8 {
        if self.masks().contains_key(chunk_number) {
            self.masks()[chunk_number]
        } else {
            0u8
        }
    }

    /// Whether fragment `fragment_number` of chunk `chunk_number` has been received.
    pub open spec fn spec_has_fragment(&self, chunk_number: u32, fragment_number: u8) -> bool {
        self.mask(chunk_number) & fragment_bit(fragment_number) != 0
    }

    pub open spec fn spec_is_finished(&self) -> bool {
        self.spec_received_bytes() >= self.spec_size()
    }

    /// Starts the transfer of file `filenum`, of `size` bytes.
    pub fn new(filenum: u16, size: u32) -> (r: Self)
        ensures
            r.wf(),
            r.spec_filenum() == filenum,
            r.spec_size() == size,
            r.spec_received_bytes() == 0,
            r.spec_number_of_chunks() == expected_chunks(size),
            r.masks() == Map::<u32, u8>::empty(),
            r.spec_data() == Seq::<u8>::empty(),
    {
        DownloadedFile {
            filenum,
            size,
            received_bytes: 0,
            received_chunk_numbers: HashMap::new(),
            number_of_chunks: (size / 1024 + 1) / 8 + 1,
            buffer: Vec::new(),
        }
    }

    pub fn filenum(&self) -> (r: u16)
        ensures
            r == self.spec_filenum(),
    {
        self.filenum
    }

    pub fn size(&self) -> (r: u32)
        ensures
            r == self.spec_size(),
    {
        self.size
    }

    pub fn received_bytes(&self) -> (r: u32)
        ensures
            r == self.spec_received_bytes(),
    {
        self.received_bytes
    }

    pub fn number_of_chunks(&self) -> (r: u32)
        requires
            self.wf(),
        ensures
            r == expected_chunks(self.spec_size()),
    {
        self.number_of_chunks
    }

    /// Whether all the bytes of the file have been counted.
    pub fn is_finished(&self) -> (r: bool)
        ensures
            r == (self.spec_received_bytes() >= self.spec_size()),
    {
        self.received_bytes >= self.size
    }

    /// Whether fragment `fragment_number` of chunk `chunk_number` has been received.
    pub fn has_fragment(&self, chunk_number: u32, fragment_number: u8) -> (r: bool)
        ensures
            r == self.spec_has_fragment(chunk_number, fragment_number),
    {
        match self.received_chunk_numbers.get(&chunk_number) {
            Some(m) => *m & (1u8 << (fragment_number % 8)) != 0,
            None => {
                assert(0u8 & fragment_bit(fragment_number) == 0) by (bit_vector);
                false
            },
        }
    }

    /// Takes in fragment `fragment_number` of chunk `chunk_number`, which counts for
    /// `size` bytes and holds `data`. A fragment seen before changes nothing and gives
    /// false; otherwise the result says whether its chunk is now complete.
    pub fn receive_fragment(&mut self, chunk_number: u32, fragment_number: u8, size: u16, data: &[u8]) -> (r: bool)
        requires
            old(self).spec_received_bytes() + size <= u32::MAX,
            fragment_offset(chunk_number, fragment_number) + data@.len() <= usize::MAX,
        ensures
            old(self).spec_has_fragment(chunk_number, fragment_number) ==> {
                &&& !r
                &&& *final(self) == *old(self)
            },
            !old(self).spec_has_fragment(chunk_number, fragment_number) ==> {
                let m = old(self).mask(chunk_number) | fragment_bit(fragment_number);
                &&& final(self).spec_received_bytes() == old(self).spec_received_bytes() + size
                &&& final(self).masks() == old(self).masks().insert(chunk_number, m)
                &&& final(self).spec_data() == write_at(
                    old(self).spec_data(),
                    fragment_offset(chunk_number, fragment_number),
                    data@,
                )
                &&& r == (m == FULL_CHUNK)
            },
            final(self).spec_filenum() == old(self).spec_filenum(),
            final(self).spec_size() == old(self).spec_size(),
            final(self).spec_number_of_chunks() == old(self).spec_number_of_chunks(),
            old(self).wf() ==> final(self).wf(),
    {
        if self.has_fragment(chunk_number, fragment_number) {
            return false;
        }
        let off: usize = ((chunk_number as u64 * FRAGMENTS_PER_CHUNK + fragment_number as u64)
            * FRAGMENT_SIZE) as usize;
        self.write_data(off, data);
        self.received_bytes = self.received_bytes + size as u32;
        let m: u8 = match self.received_chunk_numbers.get(&chunk_number) {
            Some(m) => *m,
            None => 0,
        };
        let m = m | (1u8 << (fragment_number % 8));
        self.received_chunk_numbers.insert(chunk_number, m);
        m == FULL_CHUNK
    }

    fn write_data(&mut self, off: usize, data: &[u8])
        requires
            off + data@.len() <= usize::MAX,
        ensures
            final(self).buffer@ == write_at(old(self).buffer@, off as int, data@),
            final(self).filenum == old(self).filenum,
            final(self).size == old(self).size,
            final(self).received_bytes == old(self).received_bytes,
            final(self).number_of_chunks == old(self).number_of_chunks,
            final(self).received_chunk_numbers@ == old(self).received_chunk_numbers@,
    {
        let ghost old_buf = self.buffer@;
        while self.buffer.len() < off
            invariant
                self.buffer@.len() >= old_buf.len(),
                self.buffer@.len() <= old_buf.len() || self.buffer@.len() <= off,
                forall|i: int|
                    0 <= i < self.buffer@.len() ==> #[trigger] self.buffer@[i] == if i
                        < old_buf.len() {
                        old_buf[i]
                    } else {
                        0u8
                    },
                self.filenum == old(self).filenum,
                self.size == old(self).size,
                self.received_bytes == old(self).received_bytes,
                self.number_of_chunks == old(self).number_of_chunks,
                self.received_chunk_numbers@ == old(self).received_chunk_numbers@,
            decreases off - self.buffer@.len(),
        {
            self.buffer.push(0u8);
        }
        let ghost padded = self.buffer@;
        let mut j: usize = 0;
        while j < data.len()
            invariant
                j <= data@.len(),
                off + data@.len() <= usize::MAX,
                padded.len() >= off,
                self.buffer@.len() == if padded.len() >= off + j {
                    padded.len() as int
                } else {
                    off + j
                },
                forall|i: int|
                    0 <= i < self.buffer@.len() ==> #[trigger] self.buffer@[i] == if off <= i
                        < off + j {
                        data@[i - off]
                    } else {
                        padded[i]
                    },
                forall|i: int|
                    0 <= i < padded.len() ==> #[trigger] padded[i] == if i < old_buf.len() {
                        old_buf[i]
                    } else {
                        0u8
                    },
                padded.len() >= old_buf.len(),
                padded.len() <= old_buf.len() || padded.len() <= off,
                self.filenum == old(self).filenum,
                self.size == old(self).size,
                self.received_bytes == old(self).received_bytes,
                self.number_of_chunks == old(self).number_of_chunks,
                self.received_chunk_numbers@ == old(self).received_chunk_numbers@,
            decreases data@.len() - j,
        {
            let pos = off + j;
            if pos < self.buffer.len() {
                self.buffer.set(pos, data[j]);
            } else {
                self.buffer.push(data[j]);
            }
            j = j + 1;
        }
        assert(self.buffer@ =~= write_at(old_buf, off as int, data@));
    }

    /// The bytes written so far, whether or not the transfer is complete.
    pub fn get_data(&self) -> (r: Vec<u8>)
        ensures
            r@ == self.spec_data(),
    {
        self.buffer.clone()
    }
}

} // verus!
