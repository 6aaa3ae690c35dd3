//! The append-only image container format and its read/write engine.
//!
//! A container is a byte image: a 16-byte file header (4-byte magic tag,
//! 4-byte little-endian image count, 8-byte little-endian cumulative record
//! size), then a run of image records (4-byte record tag, 4-byte little-endian
//! payload length, payload), then an end marker. The engine here works on the
//! container bytes held in memory; loading them from and storing them to mass
//! storage is the caller's concern.

use vstd::prelude::*;

verus! {

use vstd::bytes::*;
use vstd::slice::slice_subrange;
use crate::CoreError;

/// Bytes in a record header: 4-byte tag plus 4-byte length.
pub const IMAGE_HEADER_SIZE: usize = 8;

/// Bytes in the file header: magic tag, image count, cumulative size.
pub const FILE_HEADER_SIZE: usize = 16;

#[derive(Debug, PartialEq, Eq, Structural, Clone, Copy)]
pub enum OpenMode {
    Read,
    Write,
    Append,
}

/// The 4-byte magic tag "TCAM" that opens every valid container.
pub open spec fn spec_magic() -> Seq<u8> {
    seq![84u8, 67u8, 65u8, 77u8]
}

/// The 4-byte record tag "DATA" that opens every image record.
pub open spec fn spec_data_tag() -> Seq<u8> {
    seq![68u8, 65u8, 84u8, 65u8]
}

/// The 8-byte end marker: "END" and five zero bytes.
pub open spec fn spec_end_marker() -> Seq<u8> {
    seq![69u8, 78u8, 68u8, 0u8, 0u8, 0u8, 0u8, 0u8]
}

/// The 16-byte file header for a given image count and cumulative size.
pub open spec fn spec_header_bytes(count: u32, size: u64) -> Seq<u8> {
    spec_magic() + spec_u32_to_le_bytes(count) + spec_u64_to_le_bytes(size)
}

/// One image record: tag, little-endian payload length, payload.
pub open spec fn spec_record_bytes(img: Seq<u8>) -> Seq<u8>
    recommends
        img.len() <= u32::MAX,
{
    spec_data_tag() + spec_u32_to_le_bytes(img.len() as u32) + img
}

/// The records of a whole session, in capture order.
pub open spec fn spec_records_bytes(imgs: Seq<Seq<u8>>) -> Seq<u8>
    decreases imgs.len(),
{
    if imgs.len() == 0 {
        Seq::empty()
    } else {
        spec_record_bytes(imgs[0]) + spec_records_bytes(imgs.skip(1))
    }
}

/// How many bytes the records of `imgs` occupy.
pub open spec fn spec_records_size(imgs: Seq<Seq<u8>>) -> int {
    spec_records_bytes(imgs).len() as int
}

/// `n` end markers in a row; more than one only when a session finalizes
/// more than once.
pub open spec fn spec_end_runs(n: nat) -> Seq<u8>
    decreases n,
{
    if n == 0 {
        Seq::empty()
    } else {
        spec_end_marker() + spec_end_runs((n - 1) as nat)
    }
}

/// The first 16 bytes of `d`, zero-padded when the file is shorter: exactly
/// what a header read into a zeroed buffer yields.
pub open spec fn spec_padded_header(d: Seq<u8>) -> Seq<u8> {
    Seq::new(16, |i: int| if i < d.len() { d[i] } else { 0u8 })
}

/// Whether the stored magic tag matches.
pub open spec fn spec_magic_ok(d: Seq<u8>) -> bool {
    spec_padded_header(d).subrange(0, 4) == spec_magic()
}

/// The image count the header stores.
pub open spec fn spec_stored_count(d: Seq<u8>) -> u32 {
    spec_u32_from_le_bytes(spec_padded_header(d).subrange(4, 8))
}

/// The cumulative record size the header stores.
pub open spec fn spec_stored_size(d: Seq<u8>) -> u64 {
    spec_u64_from_le_bytes(spec_padded_header(d).subrange(8, 16))
}

/// Whether the stored size can be addressed at all on this machine.
pub open spec fn spec_stored_size_fits(d: Seq<u8>) -> bool {
    spec_stored_size(d) <= usize::MAX - FILE_HEADER_SIZE
}

/// A header the engine accepts as valid.
pub open spec fn spec_header_ok(d: Seq<u8>) -> bool {
    spec_magic_ok(d) && spec_stored_size_fits(d)
}

/// `d` with `b` stored at `pos`: bytes in range are replaced, bytes past the
/// end of `d` up to `pos` read as zero (a sparse extension), and the result is
/// long enough to hold everything written.
pub open spec fn spec_store(d: Seq<u8>, pos: int, b: Seq<u8>) -> Seq<u8> {
    let n = if d.len() >= pos + b.len() { d.len() as int } else { pos + b.len() };
    Seq::new(n as nat, |i: int|
        if pos <= i < pos + b.len() {
            b[i - pos]
        } else if i < d.len() {
            d[i]
        } else {
            0u8
        })
}

/// Store `b` into `data` at `pos`, extending with zeros when the write starts
/// or ends past the current length.
fn store_bytes(data: &mut Vec<u8>, pos: usize, b: &[u8])
    requires
        pos + b@.len() <= usize::MAX,
    ensures
        final(data)@ == spec_store(old(data)@, pos as int, b@),
{
    let ghost d0 = data@;
    while data.len() < pos
        invariant
            data@.len() >= d0.len(),
            data@.len() <= pos || data@.len() == d0.len(),
            forall|k: int| 0 <= k < data@.len() ==> data@[k] == (if k < d0.len() { d0[k] } else {
                0u8
            }),
        decreases pos - data.len(),
    {
        data.push(0);
    }
    let ghost d1 = data@;
    proof {
        assert(d1.len() == if d0.len() >= pos { d0.len() as int } else { pos as int });
    }
    let mut i: usize = 0;
    while i < b.len()
        invariant
            i <= b@.len(),
            pos + b@.len() <= usize::MAX,
            pos <= d1.len(),
            d1.len() == if d0.len() >= pos { d0.len() as int } else { pos as int },
            forall|k: int| 0 <= k < d1.len() ==> d1[k] == (if k < d0.len() { d0[k] } else {
                0u8
            }),
            data@.len() == if d1.len() >= pos + i { d1.len() as int } else { pos + i },
            forall|k: int| 0 <= k < data@.len() ==> data@[k] == (
                if pos <= k < pos + i { b@[k - pos] }
                else if k < d1.len() { d1[k] }
                else { 0u8 }),
        decreases b@.len() - i,
    {
        let byte = b[i];
        if pos + i < data.len() {
            data.set(pos + i, byte);
        } else {
            data.push(byte);
        }
        i = i + 1;
    }
    proof {
        assert(data@ =~= spec_store(d0, pos as int, b@));
    }
}

/// Appending an image to a session appends its record bytes.
pub proof fn lemma_records_bytes_push(s: Seq<Seq<u8>>, b: Seq<u8>)
    ensures
        spec_records_bytes(s.push(b)) == spec_records_bytes(s) + spec_record_bytes(b),
    decreases s.len(),
{
    if s.len() == 0 {
        assert(s.push(b)[0] == b);
        assert(s.push(b).skip(1) =~= Seq::<Seq<u8>>::empty());
        assert(spec_records_bytes(Seq::<Seq<u8>>::empty()) == Seq::<u8>::empty());
        assert(spec_records_bytes(s.push(b)) =~= spec_records_bytes(s) + spec_record_bytes(b));
    } else {
        lemma_records_bytes_push(s.skip(1), b);
        assert(s.push(b).skip(1) =~= s.skip(1).push(b));
        assert(s.push(b)[0] == s[0]);
        assert(spec_records_bytes(s.push(b)) =~= spec_records_bytes(s) + spec_record_bytes(b));
    }
}

/// A run of `n` end markers occupies `8 * n` bytes.
pub proof fn lemma_end_runs_len(n: nat)
    ensures
        spec_end_runs(n).len() == 8 * n,
    decreases n,
{
    if n > 0 {
        lemma_end_runs_len((n - 1) as nat);
    }
}

/// Finalizing once more appends one more end marker.
pub proof fn lemma_end_runs_snoc(n: nat)
    ensures
        spec_end_runs(n + 1) == spec_end_runs(n) + spec_end_marker(),
    decreases n,
{
    if n == 0 {
        assert(spec_end_runs(1) =~= spec_end_runs(0) + spec_end_marker());
    } else {
        lemma_end_runs_snoc((n - 1) as nat);
        assert(spec_end_runs(n + 1) =~= spec_end_runs(n) + spec_end_marker());
    }
}

/// The container engine: the container bytes plus the independent read and
/// write cursors, the in-memory image count, and the running record size.
pub struct ImageFiles {
    pub data: Vec<u8>,
    pub nimages: u32,
    pub read_pos: usize,
    pub write_pos: usize,
    pub total_size: usize,
    pub mode: Ghost<OpenMode>,
    pub base_count: Ghost<u32>,
    pub session_start: Ghost<int>,
    pub written: Ghost<Seq<Seq<u8>>>,
    pub ends: Ghost<nat>,
}

/// Build the 16 header bytes for a count and size.
fn header_bytes(count: u32, size: u64) -> (h: Vec<u8>)
    ensures
        h@ == spec_header_bytes(count, size),
{
    let mut h: Vec<u8> = Vec::new();
    h.push(84);
    h.push(67);
    h.push(65);
    h.push(77);
    let mut cnt = u32_to_le_bytes(count);
    let mut sz = u64_to_le_bytes(size);
    proof {
        lemma_auto_spec_u32_to_from_le_bytes();
        lemma_auto_spec_u64_to_from_le_bytes();
    }
    h.append(&mut cnt);
    h.append(&mut sz);
    proof {
        assert(h@ =~= spec_header_bytes(count, size));
    }
    h
}

impl ImageFiles {
    /// Everything the current write session has put into the container:
    /// its records followed by however many end markers were written.
    pub open spec fn spec_session_bytes(self) -> Seq<u8> {
        spec_records_bytes(self.written@) + spec_end_runs(self.ends@)
    }

    /// Well-formedness: cursors, counters and the byte image agree.
    pub open spec fn wf(self) -> bool {
        &&& self.data@.len() >= 4
        &&& self.data@.subrange(0, 4) == spec_magic()
        &&& FILE_HEADER_SIZE <= self.session_start@
        &&& self.mode@ != OpenMode::Read ==> {
            &&& self.write_pos == self.session_start@ + spec_records_size(self.written@)
                + 8 * self.ends@
            &&& self.total_size == self.session_start@ - FILE_HEADER_SIZE
                + spec_records_size(self.written@)
            &&& self.nimages == self.base_count@ + self.written@.len()
            &&& (self.written@.len() > 0 || self.ends@ > 0) ==> {
                &&& self.session_start@ + self.spec_session_bytes().len() <= self.data@.len()
                &&& self.data@.subrange(
                    self.session_start@,
                    self.session_start@ + self.spec_session_bytes().len(),
                ) == self.spec_session_bytes()
            }
            &&& forall|i: int| 0 <= i < self.written@.len()
                ==> #[trigger] self.written@[i].len() <= u32::MAX
        }
        &&& self.total_size <= usize::MAX - FILE_HEADER_SIZE
    }

    /// What a handle fresh from `renew` looks like: a rewritten header, both
    /// counters reset, both cursors just past the header.
    pub open spec fn spec_renewed(self, d: Seq<u8>, mode: OpenMode) -> bool {
        &&& self.data@ == spec_store(d, 0, spec_header_bytes(0, 0))
        &&& self.nimages == 0
        &&& self.total_size == 0
        &&& self.read_pos == FILE_HEADER_SIZE
        &&& self.write_pos == FILE_HEADER_SIZE
        &&& self.spec_fresh_session(mode)
    }

    /// Ghost bookkeeping of a handle that has not written anything yet.
    pub open spec fn spec_fresh_session(self, mode: OpenMode) -> bool {
        &&& self.mode@ == mode
        &&& self.base_count@ == self.nimages
        &&& self.session_start@ == self.write_pos
        &&& self.written@ == Seq::<Seq<u8>>::empty()
        &&& self.ends@ == 0
    }

    /// What a handle opened over an intact header looks like: the bytes are
    /// untouched and counters come from the stored header.
    pub open spec fn spec_opened_existing(self, d: Seq<u8>, mode: OpenMode) -> bool {
        &&& self.data@ == d
        &&& self.nimages == spec_stored_count(d)
        &&& self.total_size == spec_stored_size(d)
        &&& self.read_pos == FILE_HEADER_SIZE
        &&& self.write_pos == if mode == OpenMode::Append {
            FILE_HEADER_SIZE + spec_stored_size(d)
        } else {
            FILE_HEADER_SIZE as int
        }
        &&& self.spec_fresh_session(mode)
    }

    /// Rewrite the header of `data` as an empty container and return a fresh
    /// handle over it.
    fn renew(data: Vec<u8>, mode: OpenMode) -> (f: ImageFiles)
        ensures
            f.spec_renewed(data@, mode),
            f.wf(),
    {
        let ghost d0 = data@;
        let hdr = header_bytes(0, 0);
        let mut data = data;
        proof {
            lemma_auto_spec_u32_to_from_le_bytes();
            lemma_auto_spec_u64_to_from_le_bytes();
        }
        store_bytes(&mut data, 0, hdr.as_slice());
        let f = ImageFiles {
            data,
            nimages: 0,
            read_pos: FILE_HEADER_SIZE,
            write_pos: FILE_HEADER_SIZE,
            total_size: 0,
            mode: Ghost(mode),
            base_count: Ghost(0u32),
            session_start: Ghost(FILE_HEADER_SIZE as int),
            written: Ghost(Seq::empty()),
            ends: Ghost(0nat),
        };
        proof {
            assert(f.data@.subrange(0, 4) =~= spec_magic());
        }
        f
    }

    /// Open a container over its bytes.
    ///
    /// Write mode rewrites the header fresh, resetting count and size to zero.
    /// Append mode keeps an intact header and positions the write cursor after
    /// the last stored record, but treats an unrecognized header as a fresh
    /// file and rewrites it. Read mode rejects an unrecognized header outright.
    pub fn new(data: Vec<u8>, mode: OpenMode) -> (r: Result<ImageFiles, CoreError>)
        ensures
            match mode {
                OpenMode::Write => r matches Ok(f) && f.spec_renewed(data@, mode) && f.wf(),
                OpenMode::Append => r matches Ok(f) && f.wf() && (if spec_header_ok(data@) {
                    f.spec_opened_existing(data@, mode)
                } else {
                    f.spec_renewed(data@, mode)
                }),
                OpenMode::Read => if spec_header_ok(data@) {
                    r matches Ok(f) && f.wf() && f.spec_opened_existing(data@, mode)
                } else {
                    r matches Err(e) && e == CoreError::InvalidHeader
                },
            },
    {
        if mode == OpenMode::Write {
            return Ok(Self::renew(data, mode));
        }
        // Read the header into a zeroed buffer, as a short file reads short.
        let mut hdr: Vec<u8> = Vec::new();
        let mut i: usize = 0;
        while i < FILE_HEADER_SIZE
            invariant
                i <= FILE_HEADER_SIZE,
                hdr@.len() == i,
                forall|k: int| 0 <= k < i ==> hdr@[k] == spec_padded_header(data@)[k],
            decreases FILE_HEADER_SIZE - i,
        {
            if i < data.len() {
                let b = data[i];
                hdr.push(b);
            } else {
                hdr.push(0);
            }
            i = i + 1;
        }
        proof {
            assert(hdr@ =~= spec_padded_header(data@));
        }
        let magic_ok = hdr[0] == 84 && hdr[1] == 67 && hdr[2] == 65 && hdr[3] == 77;
        proof {
            assert(magic_ok == spec_magic_ok(data@)) by {
                if magic_ok {
                    assert(spec_padded_header(data@).subrange(0, 4) =~= spec_magic());
                } else {
                    assert(spec_padded_header(data@).subrange(0, 4)[0] == hdr@[0]);
                    assert(spec_padded_header(data@).subrange(0, 4)[1] == hdr@[1]);
                    assert(spec_padded_header(data@).subrange(0, 4)[2] == hdr@[2]);
                    assert(spec_padded_header(data@).subrange(0, 4)[3] == hdr@[3]);
                }
            }
        }
        let count = u32_from_le_bytes(slice_subrange(hdr.as_slice(), 4, 8));
        let size64 = u64_from_le_bytes(slice_subrange(hdr.as_slice(), 8, 16));
        let size_fits = size64 <= usize::MAX as u64 - FILE_HEADER_SIZE as u64;
        if !(magic_ok && size_fits) {
            if mode == OpenMode::Read {
                return Err(CoreError::InvalidHeader);
            }
            return Ok(Self::renew(data, mode));
        }
        let total_size = size64 as usize;
        let write_pos = if mode == OpenMode::Append {
            FILE_HEADER_SIZE + total_size
        } else {
            FILE_HEADER_SIZE
        };
        let f = ImageFiles {
            data,
            nimages: count,
            read_pos: FILE_HEADER_SIZE,
            write_pos,
            total_size,
            mode: Ghost(mode),
            base_count: Ghost(count),
            session_start: Ghost(write_pos as int),
            written: Ghost(Seq::empty()),
            ends: Ghost(0nat),
        };
        proof {
            assert(f.data@.subrange(0, 4) =~= spec_padded_header(f.data@).subrange(0, 4));
        }
        Ok(f)
    }

    /// Append one image record at the write cursor and advance the cursor,
    /// the running size, and the in-memory image count. The on-disk header is
    /// deliberately not touched; that is deferred to `write_image_end`.
    pub fn write_image(&mut self, buffer: &[u8]) -> (r: Result<(), CoreError>)
        requires
            old(self).wf(),
            old(self).mode@ != OpenMode::Read,
            old(self).ends@ == 0,
            buffer@.len() <= u32::MAX,
            old(self).write_pos + IMAGE_HEADER_SIZE + buffer@.len() <= usize::MAX,
            old(self).nimages < u32::MAX,
        ensures
            r is Ok,
            final(self).wf(),
            final(self).written@ == old(self).written@.push(buffer@),
            final(self).nimages == old(self).nimages + 1,
            final(self).total_size == old(self).total_size + IMAGE_HEADER_SIZE + buffer@.len(),
            final(self).write_pos == old(self).write_pos + IMAGE_HEADER_SIZE + buffer@.len(),
            final(self).read_pos == old(self).read_pos,
            final(self).data@ == spec_store(
                old(self).data@,
                old(self).write_pos as int,
                spec_record_bytes(buffer@),
            ),
            final(self).mode@ == old(self).mode@,
            final(self).base_count@ == old(self).base_count@,
            final(self).session_start@ == old(self).session_start@,
            final(self).ends@ == old(self).ends@,
    {
        let mut rec: Vec<u8> = Vec::new();
        rec.push(68);
        rec.push(65);
        rec.push(84);
        rec.push(65);
        let mut lenb = u32_to_le_bytes(buffer.len() as u32);
        proof {
            lemma_auto_spec_u32_to_from_le_bytes();
        }
        rec.append(&mut lenb);
        let mut i: usize = 0;
        while i < buffer.len()
            invariant
                i <= buffer@.len(),
                rec@ == (spec_data_tag() + spec_u32_to_le_bytes(buffer@.len() as u32)
                    + buffer@.take(i as int)),
            decreases buffer@.len() - i,
        {
            let byte = buffer[i];
            rec.push(byte);
            i = i + 1;
            proof {
                assert(buffer@.take(i as int) =~= buffer@.take(i - 1).push(buffer@[i - 1]));
                assert(rec@ =~= spec_data_tag() + spec_u32_to_le_bytes(buffer@.len() as u32)
                    + buffer@.take(i as int));
            }
        }
        proof {
            assert(buffer@.take(buffer@.len() as int) =~= buffer@);
            assert(rec@ == spec_record_bytes(buffer@));
        }
        let pos = self.write_pos;
        store_bytes(&mut self.data, pos, rec.as_slice());
        self.write_pos = self.write_pos + IMAGE_HEADER_SIZE + buffer.len();
        self.total_size = self.total_size + IMAGE_HEADER_SIZE + buffer.len();
        self.nimages = self.nimages + 1;
        proof {
            lemma_records_bytes_push(self.written@, buffer@);
        }
        self.written = Ghost(self.written@.push(buffer@));
        proof {
            let w = self.written@;
            let ss = self.session_start@;
            assert(self.spec_session_bytes() == spec_records_bytes(w));
            assert(ss + self.spec_session_bytes().len() <= self.data@.len());
            assert(self.data@.subrange(ss, ss + self.spec_session_bytes().len())
                =~= self.spec_session_bytes());
            assert(self.data@.subrange(0, 4) =~= spec_magic());
        }
        Ok(())
    }

    /// What finalizing does to the container bytes: the end marker goes in at
    /// the write cursor, then the header is rewritten in place with the
    /// session's final count and size.
    pub open spec fn spec_finalized(d: Seq<u8>, wp: int, count: u32, size: u64) -> Seq<u8> {
        spec_store(
            spec_store(d, wp, spec_end_marker()),
            4,
            spec_u32_to_le_bytes(count) + spec_u64_to_le_bytes(size),
        )
    }

    /// Write the end marker at the write cursor, then seek back and rewrite
    /// the 16-byte header with the authoritative image count and size.
    pub fn write_image_end(&mut self) -> (r: Result<(), CoreError>)
        requires
            old(self).wf(),
            old(self).mode@ != OpenMode::Read,
            old(self).write_pos + IMAGE_HEADER_SIZE <= usize::MAX,
        ensures
            r is Ok,
            final(self).wf(),
            final(self).data@ == Self::spec_finalized(
                old(self).data@,
                old(self).write_pos as int,
                old(self).nimages,
                old(self).total_size as u64,
            ),
            final(self).write_pos == old(self).write_pos + IMAGE_HEADER_SIZE,
            final(self).nimages == old(self).nimages,
            final(self).total_size == old(self).total_size,
            final(self).read_pos == old(self).read_pos,
            final(self).written@ == old(self).written@,
            final(self).ends@ == old(self).ends@ + 1,
            final(self).mode@ == old(self).mode@,
            final(self).base_count@ == old(self).base_count@,
            final(self).session_start@ == old(self).session_start@,
            spec_header_ok(final(self).data@),
            spec_stored_count(final(self).data@) == final(self).nimages,
            spec_stored_size(final(self).data@) == final(self).total_size,
    {
        let mut end: Vec<u8> = Vec::new();
        end.push(69);
        end.push(78);
        end.push(68);
        end.push(0);
        end.push(0);
        end.push(0);
        end.push(0);
        end.push(0);
        proof {
            assert(end@ =~= spec_end_marker());
        }
        let pos = self.write_pos;
        store_bytes(&mut self.data, pos, end.as_slice());
        self.write_pos = self.write_pos + IMAGE_HEADER_SIZE;
        let mut tail = u32_to_le_bytes(self.nimages);
        let mut szb = u64_to_le_bytes(self.total_size as u64);
        proof {
            lemma_auto_spec_u32_to_from_le_bytes();
            lemma_auto_spec_u64_to_from_le_bytes();
        }
        tail.append(&mut szb);
        store_bytes(&mut self.data, 4, tail.as_slice());
        proof {
            lemma_end_runs_snoc(self.ends@);
            lemma_end_runs_len(self.ends@);
            lemma_end_runs_len(self.ends@ + 1);
            assert(spec_end_runs(0) == Seq::<u8>::empty());
            assert(spec_records_bytes(Seq::<Seq<u8>>::empty()) == Seq::<u8>::empty());
        }
        self.ends = Ghost(self.ends@ + 1);
        proof {
            let d = self.data@;
            assert(d.subrange(0, 4) =~= spec_magic());
            assert(spec_padded_header(d).subrange(4, 8) =~= spec_u32_to_le_bytes(self.nimages));
            assert(spec_padded_header(d).subrange(8, 16) =~= spec_u64_to_le_bytes(
                self.total_size as u64));
            assert(spec_padded_header(d).subrange(0, 4) =~= spec_magic());
            let ss = self.session_start@;
            assert(self.spec_session_bytes() == spec_records_bytes(self.written@)
                + (spec_end_runs((self.ends@ - 1) as nat) + spec_end_marker()));
            assert(self.spec_session_bytes() =~= (spec_records_bytes(self.written@)
                + spec_end_runs((self.ends@ - 1) as nat)) + spec_end_marker());
            assert(self.data@.subrange(ss, ss + self.spec_session_bytes().len())
                =~= self.spec_session_bytes());
        }
        Ok(())
    }

    /// Number of images this handle believes the container holds; authoritative
    /// only after a clean finalize.
    pub fn get_nof_images(&self) -> (r: u32)
        ensures
            r == self.nimages,
    {
        self.nimages
    }

    /// The payload length of the record at the read cursor, or 0 when the
    /// cursor is at or past the end of stored data, the record header cannot
    /// be read whole, or its tag is not the record tag. A non-record tag that
    /// is not the end marker is treated as end of data, not as a failure.
    pub fn get_image_size(&mut self) -> (r: usize)
        requires
            old(self).wf(),
        ensures
            *final(self) == *old(self),
            r == spec_image_size_at(old(self).data@, old(self).read_pos as int,
                old(self).total_size as int),
    {
        if self.read_pos >= FILE_HEADER_SIZE + self.total_size {
            return 0;
        }
        if self.data.len() < IMAGE_HEADER_SIZE || self.read_pos > self.data.len()
            - IMAGE_HEADER_SIZE {
            return 0;
        }
        let p = self.read_pos;
        let tag_ok = self.data[p] == 68 && self.data[p + 1] == 65 && self.data[p + 2] == 84
            && self.data[p + 3] == 65;
        proof {
            let d = self.data@;
            if tag_ok {
                assert(d.subrange(p as int, p + 4) =~= spec_data_tag());
            } else {
                assert(d.subrange(p as int, p + 4)[0] == d[p as int]);
                assert(d.subrange(p as int, p + 4)[1] == d[p + 1]);
                assert(d.subrange(p as int, p + 4)[2] == d[p + 2]);
                assert(d.subrange(p as int, p + 4)[3] == d[p + 3]);
            }
        }
        if !tag_ok {
            return 0;
        }
        let sz = u32_from_le_bytes(slice_subrange(self.data.as_slice(), p + 4, p + 8));
        sz as usize
    }

    /// Read the record at the read cursor. The returned buffer has the length
    /// the record header states; when the stored payload is shorter (a torn
    /// write), the missing tail reads as zeros, exactly as a short file read
    /// into a zeroed buffer would. Advances the read cursor past the bytes
    /// actually present.
    pub fn read_image(&mut self) -> (r: Result<Vec<u8>, CoreError>)
        requires
            old(self).wf(),
        ensures
            *final(self) == (ImageFiles { read_pos: final(self).read_pos, ..*old(self) }),
            ({
                let d = old(self).data@;
                let pos = old(self).read_pos as int;
                let size = spec_image_size_at(d, pos, old(self).total_size as int);
                if size == 0 {
                    &&& r matches Err(e) && e == CoreError::InvalidRecord
                    &&& final(self).read_pos == old(self).read_pos
                } else {
                    let avail = if d.len() - (pos + 8) < size { d.len() - (pos + 8) } else {
                        size
                    };
                    &&& r matches Ok(v) && v@ == Seq::new(size as nat, |i: int|
                        if i < avail { d[pos + 8 + i] } else { 0u8 })
                    &&& final(self).read_pos == pos + 8 + avail
                }
            }),
    {
        let size = self.get_image_size();
        if size == 0 {
            return Err(CoreError::InvalidRecord);
        }
        let dlen = self.data.len();
        proof {
            assert(spec_image_size_at(self.data@, self.read_pos as int,
                self.total_size as int) != 0);
            assert(!(self.read_pos + 8 > dlen));
        }
        let start = self.read_pos + IMAGE_HEADER_SIZE;
        let avail = if dlen - start < size {
            dlen - start
        } else {
            size
        };
        let mut buffer: Vec<u8> = Vec::new();
        let mut i: usize = 0;
        while i < avail
            invariant
                i <= avail,
                avail <= size,
                dlen == self.data@.len(),
                start + avail <= dlen,
                buffer@.len() == i,
                forall|k: int| 0 <= k < i ==> buffer@[k] == self.data@[start + k],
            decreases avail - i,
        {
            let byte = self.data[start + i];
            buffer.push(byte);
            i = i + 1;
        }
        while i < size
            invariant
                avail <= i <= size,
                buffer@.len() == i,
                forall|k: int| 0 <= k < avail ==> buffer@[k] == self.data@[start + k],
                forall|k: int| avail <= k < i ==> buffer@[k] == 0u8,
            decreases size - i,
        {
            buffer.push(0);
            i = i + 1;
        }
        self.read_pos = start + avail;
        proof {
            let d = self.data@;
            let pos = self.read_pos - 8 - avail;
            let sz = spec_image_size_at(d, pos as int, self.total_size as int);
            assert(buffer@ =~= Seq::new(sz as nat, |k: int|
                if k < avail { d[pos + 8 + k] } else { 0u8 }));
        }
        Ok(buffer)
    }
}

/// Where the read cursor stands after skipping up to `n` records from `pos`,
/// stopping early at the first unreadable record; a cursor that would land
/// past the end of stored data rests at the end of stored data, which every
/// later read treats the same.
pub open spec fn spec_seek_pos(d: Seq<u8>, pos: int, total: int, n: nat) -> int
    decreases n,
{
    if n == 0 {
        pos
    } else {
        let s = spec_image_size_at(d, pos, total);
        if s == 0 {
            pos
        } else {
            let next = if pos + 8 + s > FILE_HEADER_SIZE + total {
                FILE_HEADER_SIZE + total
            } else {
                pos + 8 + s
            };
            spec_seek_pos(d, next, total, (n - 1) as nat)
        }
    }
}

/// Whether all `n` records from `pos` could be skipped.
pub open spec fn spec_seek_ok(d: Seq<u8>, pos: int, total: int, n: nat) -> bool
    decreases n,
{
    if n == 0 {
        true
    } else {
        let s = spec_image_size_at(d, pos, total);
        &&& s != 0
        &&& {
            let next = if pos + 8 + s > FILE_HEADER_SIZE + total {
                FILE_HEADER_SIZE + total
            } else {
                pos + 8 + s
            };
            spec_seek_ok(d, next, total, (n - 1) as nat)
        }
    }
}

/// Unrolling one more seek step from the back.
proof fn lemma_seek_unroll_back(d: Seq<u8>, pos: int, total: int, n: nat)
    ensures
        spec_seek_ok(d, pos, total, n + 1) == (spec_seek_ok(d, pos, total, n)
            && spec_image_size_at(d, spec_seek_pos(d, pos, total, n), total) != 0),
        spec_seek_ok(d, pos, total, n) ==> spec_seek_pos(d, pos, total, n + 1) == ({
            let p = spec_seek_pos(d, pos, total, n);
            let s = spec_image_size_at(d, p, total);
            if s == 0 {
                p
            } else if p + 8 + s > FILE_HEADER_SIZE + total {
                FILE_HEADER_SIZE + total
            } else {
                p + 8 + s
            }
        }),
        !spec_seek_ok(d, pos, total, n) ==> spec_seek_pos(d, pos, total, n + 1)
            == spec_seek_pos(d, pos, total, n),
    decreases n,
{
    reveal_with_fuel(spec_seek_pos, 2);
    reveal_with_fuel(spec_seek_ok, 2);
    if n > 0 {
        let s = spec_image_size_at(d, pos, total);
        if s != 0 {
            let next = if pos + 8 + s > FILE_HEADER_SIZE + total {
                FILE_HEADER_SIZE + total
            } else {
                pos + 8 + s
            };
            lemma_seek_unroll_back(d, next, total, (n - 1) as nat);
        }
    }
}

impl ImageFiles {
    /// Skip `from_frame` records from the current read cursor by walking
    /// record headers; no index exists, so this costs one header read per
    /// record. Fails at the first record whose size cannot be read, leaving
    /// the cursor where the walk stopped.
    pub fn seek_image(&mut self, from_frame: u32) -> (r: Result<(), CoreError>)
        requires
            old(self).wf(),
        ensures
            *final(self) == (ImageFiles { read_pos: final(self).read_pos, ..*old(self) }),
            final(self).read_pos == spec_seek_pos(old(self).data@, old(self).read_pos as int,
                old(self).total_size as int, from_frame as nat),
            r is Ok <==> spec_seek_ok(old(self).data@, old(self).read_pos as int,
                old(self).total_size as int, from_frame as nat),
            r is Err ==> (r matches Err(e) && e == CoreError::InvalidRecord),
    {
        let mut k: u32 = 0;
        while k < from_frame
            invariant
                self.wf(),
                k <= from_frame,
                *self == (ImageFiles { read_pos: self.read_pos, ..*old(self) }),
                self.read_pos as int == spec_seek_pos(old(self).data@,
                    old(self).read_pos as int, old(self).total_size as int, k as nat),
                spec_seek_ok(old(self).data@, old(self).read_pos as int,
                    old(self).total_size as int, k as nat),
            decreases from_frame - k,
        {
            let ghost d = old(self).data@;
            let ghost pos0 = old(self).read_pos as int;
            let ghost total = old(self).total_size as int;
            let size = self.get_image_size();
            proof {
                lemma_seek_unroll_back(d, pos0, total, k as nat);
            }
            if size == 0 {
                proof {
                    lemma_seek_stuck(d, pos0, total, k as nat, from_frame as nat);
                }
                return Err(CoreError::InvalidRecord);
            }
            let limit = FILE_HEADER_SIZE + self.total_size;
            if size > limit - IMAGE_HEADER_SIZE || self.read_pos > limit - IMAGE_HEADER_SIZE
                - size {
                self.read_pos = limit;
            } else {
                self.read_pos = self.read_pos + IMAGE_HEADER_SIZE + size;
            }
            k = k + 1;
        }
        Ok(())
    }
}

/// A seek that has already stopped short stays stopped for any larger count.
proof fn lemma_seek_stuck(d: Seq<u8>, pos: int, total: int, k: nat, n: nat)
    requires
        k <= n,
        spec_seek_ok(d, pos, total, k),
        spec_image_size_at(d, spec_seek_pos(d, pos, total, k), total) == 0,
    ensures
        n > k ==> !spec_seek_ok(d, pos, total, n),
        spec_seek_pos(d, pos, total, n) == spec_seek_pos(d, pos, total, k),
    decreases n - k,
{
    if k < n {
        lemma_seek_stuck(d, pos, total, k, (n - 1) as nat);
        lemma_seek_unroll_back(d, pos, total, (n - 1) as nat);
    }
}

/// Where the record of image `i` begins when the records of `imgs` sit
/// directly after the file header.
pub open spec fn spec_record_offset(imgs: Seq<Seq<u8>>, i: int) -> int {
    FILE_HEADER_SIZE + spec_records_size(imgs.take(i))
}

/// Parsing a run of records: each record in a region of `d` that holds
/// exactly the records of `imgs` reads back its own image.
proof fn lemma_records_parse_at(imgs: Seq<Seq<u8>>, d: Seq<u8>, base: int, limit: int)
    requires
        forall|i: int| 0 <= i < imgs.len() ==> (#[trigger] imgs[i]).len() <= u32::MAX,
        FILE_HEADER_SIZE <= base,
        base + spec_records_size(imgs) <= limit,
        limit <= d.len(),
        d.subrange(base, base + spec_records_size(imgs)) == spec_records_bytes(imgs),
    ensures
        forall|i: int| 0 <= i < imgs.len() ==> {
            let off = base + spec_records_size(#[trigger] imgs.take(i));
            &&& spec_image_size_at(d, off, limit - FILE_HEADER_SIZE) == imgs[i].len()
            &&& base + spec_records_size(imgs.take(i + 1)) == off + 8 + imgs[i].len()
            &&& spec_records_size(imgs.take(i + 1)) <= spec_records_size(imgs)
            &&& d.subrange(off + 8, off + 8 + imgs[i].len()) == imgs[i]
        },
    decreases imgs.len(),
{
    if imgs.len() == 0 {
        return;
    }
    let head = imgs[0];
    let tail = imgs.skip(1);
    let rec0 = spec_record_bytes(head);
    let total = limit - FILE_HEADER_SIZE;
    lemma_auto_spec_u32_to_from_le_bytes();
    assert(spec_records_bytes(imgs) == rec0 + spec_records_bytes(tail));
    assert(rec0.len() == 8 + head.len());
    let rsz = spec_records_size(imgs);
    assert(rsz == rec0.len() + spec_records_size(tail));
    let reg = d.subrange(base, base + rsz);
    // Facts about the head record.
    assert(imgs.take(0) =~= Seq::<Seq<u8>>::empty());
    assert(spec_records_bytes(Seq::<Seq<u8>>::empty()) == Seq::<u8>::empty());
    assert(imgs.take(1) =~= Seq::<Seq<u8>>::empty().push(head));
    lemma_records_bytes_push(Seq::<Seq<u8>>::empty(), head);
    assert(spec_records_size(imgs.take(1)) == rec0.len());
    assert(forall|j: int| 0 <= j < rsz ==> d[base + j] == reg[j]);
    assert(d.subrange(base, base + 4) =~= spec_data_tag());
    assert(d.subrange(base + 4, base + 8) =~= spec_u32_to_le_bytes(head.len() as u32)) by {
        assert forall|j: int| 0 <= j < 4 implies #[trigger] d.subrange(base + 4, base + 8)[j]
            == spec_u32_to_le_bytes(head.len() as u32)[j] by {
            assert(d.subrange(base + 4, base + 8)[j] == d[base + 4 + j]);
            assert(d[base + 4 + j] == reg[4 + j]);
            assert(reg[4 + j] == rec0[4 + j]);
            assert(rec0[4 + j] == spec_u32_to_le_bytes(head.len() as u32)[j]);
        }
    }
    assert(spec_image_size_at(d, base, total) == head.len());
    assert(d.subrange(base + 8, base + 8 + head.len()) =~= head) by {
        assert forall|j: int| 0 <= j < head.len() implies #[trigger] d.subrange(base + 8,
            base + 8 + head.len())[j] == head[j] by {
            assert(d.subrange(base + 8, base + 8 + head.len())[j] == d[base + 8 + j]);
            assert(d[base + 8 + j] == reg[8 + j]);
            assert(reg[8 + j] == rec0[8 + j]);
            assert(rec0[8 + j] == head[j]);
        }
    }
    // The tail region holds exactly the tail records.
    assert(d.subrange(base + rec0.len(), base + rec0.len() + spec_records_size(tail))
        =~= spec_records_bytes(tail)) by {
        let rl = rec0.len() as int;
        let tsz = spec_records_size(tail);
        assert forall|j: int| 0 <= j < tsz implies #[trigger] d.subrange(base + rl,
            base + rl + tsz)[j] == spec_records_bytes(tail)[j] by {
            assert(d.subrange(base + rl, base + rl + tsz)[j] == d[base + rl + j]);
            assert(d[base + rl + j] == reg[rl + j]);
            assert(reg[rl + j] == spec_records_bytes(tail)[j]);
        }
    }
    lemma_records_parse_at(tail, d, base + rec0.len(), limit);
    // Shift the tail facts back into terms of `imgs`.
    assert forall|i: int| 1 <= i < imgs.len() implies {
        let off = base + spec_records_size(#[trigger] imgs.take(i));
        &&& spec_image_size_at(d, off, total) == imgs[i].len()
        &&& base + spec_records_size(imgs.take(i + 1)) == off + 8 + imgs[i].len()
        &&& spec_records_size(imgs.take(i + 1)) <= rsz
        &&& d.subrange(off + 8, off + 8 + imgs[i].len()) == imgs[i]
    } by {
        assert(imgs.take(i)[0] == head);
        assert(imgs.take(i).skip(1) =~= tail.take(i - 1));
        assert(spec_records_bytes(imgs.take(i)) == rec0 + spec_records_bytes(tail.take(i - 1)));
        assert(imgs.take(i + 1)[0] == head);
        assert(imgs.take(i + 1).skip(1) =~= tail.take(i));
        assert(spec_records_bytes(imgs.take(i + 1)) == rec0 + spec_records_bytes(tail.take(i)));
        assert(tail[i - 1] == imgs[i]);
    }
}

/// The round-trip law of the container format: when a region directly after
/// the file header holds exactly the records of a sequence of images, walking
/// the records from the first one reads back exactly those images, in order,
/// and the walk ends cleanly at the end of stored data.
pub proof fn lemma_container_round_trip(d: Seq<u8>, imgs: Seq<Seq<u8>>)
    requires
        forall|i: int| 0 <= i < imgs.len() ==> (#[trigger] imgs[i]).len() <= u32::MAX,
        FILE_HEADER_SIZE + spec_records_size(imgs) <= d.len(),
        d.subrange(FILE_HEADER_SIZE as int, FILE_HEADER_SIZE + spec_records_size(imgs))
            == spec_records_bytes(imgs),
    ensures
        forall|i: int| 0 <= i < imgs.len() ==> {
            let off = #[trigger] spec_record_offset(imgs, i);
            let total = spec_records_size(imgs);
            &&& spec_image_size_at(d, off, total) == imgs[i].len()
            &&& spec_record_offset(imgs, i + 1) == off + 8 + imgs[i].len()
            &&& off + 8 + imgs[i].len() <= FILE_HEADER_SIZE + total
            &&& d.subrange(off + 8, off + 8 + imgs[i].len()) == imgs[i]
        },
        spec_image_size_at(d, FILE_HEADER_SIZE + spec_records_size(imgs),
            spec_records_size(imgs)) == 0,
{
    lemma_records_parse_at(imgs, d, FILE_HEADER_SIZE as int,
        FILE_HEADER_SIZE + spec_records_size(imgs));
}

/// The round-trip law at the session level: once a session opened over a
/// fresh header has finalized, the container bytes hold exactly the records
/// of the images the session wrote, in write order, the stored size is the
/// bytes they occupy, and walking the records from the first one reads each
/// image back whole before ending cleanly at the end of stored data.
pub proof fn lemma_session_round_trip(f: ImageFiles)
    requires
        f.wf(),
        f.mode@ != OpenMode::Read,
        f.session_start@ == FILE_HEADER_SIZE,
        f.base_count@ == 0,
        f.ends@ >= 1,
    ensures
        f.nimages == f.written@.len(),
        f.total_size == spec_records_size(f.written@),
        FILE_HEADER_SIZE + spec_records_size(f.written@) <= f.data@.len(),
        f.data@.subrange(FILE_HEADER_SIZE as int, FILE_HEADER_SIZE + spec_records_size(
            f.written@)) == spec_records_bytes(f.written@),
        forall|i: int| 0 <= i < f.written@.len() ==> {
            let off = #[trigger] spec_record_offset(f.written@, i);
            let total = spec_records_size(f.written@);
            &&& spec_image_size_at(f.data@, off, total) == f.written@[i].len()
            &&& spec_record_offset(f.written@, i + 1) == off + 8 + f.written@[i].len()
            &&& off + 8 + f.written@[i].len() <= FILE_HEADER_SIZE + total
            &&& f.data@.subrange(off + 8, off + 8 + f.written@[i].len()) == f.written@[i]
        },
        spec_image_size_at(f.data@, FILE_HEADER_SIZE + spec_records_size(f.written@),
            spec_records_size(f.written@)) == 0,
{
    lemma_end_runs_len(f.ends@);
    assert(f.written@.len() > 0 || f.ends@ > 0);
    let rsz = spec_records_size(f.written@);
    let sess = f.spec_session_bytes();
    assert(f.data@.subrange(16, 16 + sess.len() as int) == sess);
    assert(f.data@.subrange(16, 16 + rsz) =~= spec_records_bytes(f.written@)) by {
        assert forall|j: int| 0 <= j < rsz implies #[trigger] f.data@.subrange(16, 16
            + rsz)[j] == spec_records_bytes(f.written@)[j] by {
            assert(f.data@.subrange(16, 16 + sess.len() as int)[j] == f.data@[16 + j]);
            assert(sess[j] == spec_records_bytes(f.written@)[j]);
        }
    }
    lemma_container_round_trip(f.data@, f.written@);
}

/// The idempotent-finalize law: finalizing a session a second time writes a
/// second end marker further along but leaves the header stating exactly the
/// count and size the first finalize stored.
pub proof fn lemma_finalize_idempotent(d: Seq<u8>, wp: int, count: u32, size: u64)
    requires
        FILE_HEADER_SIZE <= wp,
    ensures
        ({
            let d1 = ImageFiles::spec_finalized(d, wp, count, size);
            let d2 = ImageFiles::spec_finalized(d1, wp + 8, count, size);
            &&& spec_stored_count(d1) == count
            &&& spec_stored_size(d1) == size
            &&& spec_stored_count(d2) == spec_stored_count(d1)
            &&& spec_stored_size(d2) == spec_stored_size(d1)
        }),
{
    lemma_auto_spec_u32_to_from_le_bytes();
    lemma_auto_spec_u64_to_from_le_bytes();
    let d1 = ImageFiles::spec_finalized(d, wp, count, size);
    let d2 = ImageFiles::spec_finalized(d1, wp + 8, count, size);
    assert(spec_padded_header(d1).subrange(4, 8) =~= spec_u32_to_le_bytes(count));
    assert(spec_padded_header(d1).subrange(8, 16) =~= spec_u64_to_le_bytes(size));
    assert(spec_padded_header(d2).subrange(4, 8) =~= spec_u32_to_le_bytes(count));
    assert(spec_padded_header(d2).subrange(8, 16) =~= spec_u64_to_le_bytes(size));
}

/// The payload length stated by the record at `pos`, or 0 at or past the end
/// of stored data, on a short header, or on a foreign tag.
pub open spec fn spec_image_size_at(d: Seq<u8>, pos: int, total: int) -> int {
    if pos >= FILE_HEADER_SIZE + total {
        0
    } else if pos + 8 > d.len() {
        0
    } else if d.subrange(pos, pos + 4) == spec_data_tag() {
        spec_u32_from_le_bytes(d.subrange(pos + 4, pos + 8)) as int
    } else {
        0
    }
}

} // verus!
