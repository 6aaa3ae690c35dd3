//! The write-behind queue: a bounded FIFO of owned frame buffers between the
//! capture loop (producer) and the storage writer (consumer), with a
//! drop-newest backpressure policy and a finalize-once termination rule.
//!
//! The model here is the queue state and its transitions; running the
//! consumer on its own thread and sharing the state under a mutex is the
//! caller's concern and changes nothing the contracts state.

use vstd::prelude::*;

verus! {

use crate::container::{ImageFiles, OpenMode, IMAGE_HEADER_SIZE};
use crate::CoreError;

/// Ceiling on queued bytes: frames that would push past it are dropped.
pub const MAX_QUEUE_SIZE: usize = 4 * 1024 * 1024;

#[derive(Debug, PartialEq, Eq, Structural, Clone, Copy)]
pub enum WriteThreadStatus {
    NotStarted,
    Running,
    Stopped,
}

/// Total bytes held by a sequence of buffers.
pub open spec fn spec_total_len(bufs: Seq<Seq<u8>>) -> int
    decreases bufs.len(),
{
    if bufs.len() == 0 {
        0
    } else {
        bufs[0].len() + spec_total_len(bufs.skip(1))
    }
}

/// Appending a buffer adds its length to the total.
pub proof fn lemma_total_len_push(s: Seq<Seq<u8>>, b: Seq<u8>)
    ensures
        spec_total_len(s.push(b)) == spec_total_len(s) + b.len(),
    decreases s.len(),
{
    if s.len() == 0 {
        assert(s.push(b)[0] == b);
        assert(s.push(b).skip(1) =~= Seq::<Seq<u8>>::empty());
        assert(spec_total_len(Seq::<Seq<u8>>::empty()) == 0);
    } else {
        lemma_total_len_push(s.skip(1), b);
        assert(s.push(b).skip(1) =~= s.skip(1).push(b));
        assert(s.push(b)[0] == s[0]);
    }
}

/// No buffer is larger than the total.
pub proof fn lemma_total_len_bound(s: Seq<Seq<u8>>, i: int)
    requires
        0 <= i < s.len(),
    ensures
        s[i].len() <= spec_total_len(s),
        spec_total_len(s) >= 0,
    decreases s.len(),
{
    lemma_total_len_nonneg(s.skip(1));
    if i > 0 {
        lemma_total_len_bound(s.skip(1), i - 1);
    }
}

/// A total of buffer lengths is never negative.
pub proof fn lemma_total_len_nonneg(s: Seq<Seq<u8>>)
    ensures
        spec_total_len(s) >= 0,
    decreases s.len(),
{
    if s.len() > 0 {
        lemma_total_len_nonneg(s.skip(1));
    }
}

/// The queue state both sides share: the waiting buffers, the byte counters,
/// the consumer's lifecycle status, and the no-more-data flag.
pub struct WriteImageQueue {
    pub buffer: Vec<Vec<u8>>,
    pub data_size: usize,
    pub thread_status: WriteThreadStatus,
    pub write_done: bool,
    pub images: u32,
    pub queue_len: usize,
    pub pushed: Ghost<Seq<Seq<u8>>>,
    pub popped: Ghost<Seq<Seq<u8>>>,
}

impl WriteImageQueue {
    /// The byte buffers currently waiting, oldest first.
    pub open spec fn spec_queued(self) -> Seq<Seq<u8>> {
        self.buffer@.map(|i: int, b: Vec<u8>| b@)
    }

    /// The backpressure and bookkeeping invariant: the byte counter matches
    /// the waiting buffers, never exceeds the ceiling, and what was accepted
    /// is what was handed out followed by what still waits.
    pub open spec fn wf(self) -> bool {
        &&& self.queue_len == spec_total_len(self.spec_queued())
        &&& self.queue_len <= MAX_QUEUE_SIZE
        &&& self.pushed@ == self.popped@ + self.spec_queued()
    }

    pub fn new() -> (q: WriteImageQueue)
        ensures
            q.wf(),
            q.spec_queued() == Seq::<Seq<u8>>::empty(),
            q.pushed@ == Seq::<Seq<u8>>::empty(),
            q.popped@ == Seq::<Seq<u8>>::empty(),
            q.data_size == 0,
            q.thread_status == WriteThreadStatus::NotStarted,
            !q.write_done,
            q.images == 0,
            q.queue_len == 0,
    {
        let q = WriteImageQueue {
            buffer: Vec::new(),
            data_size: 0,
            thread_status: WriteThreadStatus::NotStarted,
            write_done: false,
            images: 0,
            queue_len: 0,
            pushed: Ghost(Seq::empty()),
            popped: Ghost(Seq::empty()),
        };
        proof {
            assert(q.spec_queued() =~= Seq::<Seq<u8>>::empty());
        }
        q
    }

    /// Accept the buffer when it fits under the ceiling, append it, and say
    /// so; otherwise change nothing and say the frame must be dropped.
    /// Rejected frames are never queued and queued frames are never evicted.
    pub fn push(&mut self, data: &[u8]) -> (accepted: bool)
        requires
            old(self).wf(),
        ensures
            final(self).wf(),
            accepted == (old(self).queue_len + data@.len() <= MAX_QUEUE_SIZE),
            accepted ==> {
                &&& final(self).spec_queued() == old(self).spec_queued().push(data@)
                &&& final(self).queue_len == old(self).queue_len + data@.len()
                &&& final(self).pushed@ == old(self).pushed@.push(data@)
                &&& *final(self) == (WriteImageQueue {
                    buffer: final(self).buffer,
                    queue_len: final(self).queue_len,
                    pushed: final(self).pushed,
                    ..*old(self)
                })
            },
            !accepted ==> *final(self) == *old(self),
    {
        if data.len() > MAX_QUEUE_SIZE - self.queue_len {
            return false;
        }
        let mut owned: Vec<u8> = Vec::new();
        let mut i: usize = 0;
        while i < data.len()
            invariant
                i <= data@.len(),
                owned@ == data@.take(i as int),
            decreases data@.len() - i,
        {
            let byte = data[i];
            owned.push(byte);
            i = i + 1;
            proof {
                assert(owned@ =~= data@.take(i as int));
            }
        }
        proof {
            assert(data@.take(data@.len() as int) =~= data@);
            lemma_total_len_push(self.spec_queued(), data@);
        }
        let ghost q0 = self.spec_queued();
        self.queue_len = self.queue_len + data.len();
        self.buffer.push(owned);
        self.pushed = Ghost(self.pushed@.push(data@));
        proof {
            assert(self.spec_queued() =~= q0.push(data@));
        }
        true
    }

    /// Hand out the oldest waiting buffer, oldest first, moving its bytes
    /// from the queue counter to the written counter.
    pub fn pop(&mut self) -> (r: Option<Vec<u8>>)
        requires
            old(self).wf(),
            old(self).data_size + old(self).queue_len <= usize::MAX,
        ensures
            final(self).wf(),
            old(self).spec_queued().len() == 0 ==> (r is None && *final(self) == *old(self)),
            old(self).spec_queued().len() > 0 ==> {
                &&& r matches Some(v) && v@ == old(self).spec_queued()[0]
                &&& final(self).spec_queued() == old(self).spec_queued().skip(1)
                &&& final(self).queue_len == old(self).queue_len
                    - old(self).spec_queued()[0].len()
                &&& final(self).data_size == old(self).data_size
                    + old(self).spec_queued()[0].len()
                &&& final(self).popped@ == old(self).popped@.push(old(self).spec_queued()[0])
                &&& final(self).pushed@ == old(self).pushed@
                &&& *final(self) == (WriteImageQueue {
                    buffer: final(self).buffer,
                    queue_len: final(self).queue_len,
                    data_size: final(self).data_size,
                    popped: final(self).popped,
                    ..*old(self)
                })
            },
    {
        if self.buffer.len() == 0 {
            proof {
                assert(self.spec_queued().len() == 0);
            }
            return None;
        }
        let ghost q0 = self.spec_queued();
        proof {
            lemma_total_len_bound(q0, 0);
            lemma_total_len_nonneg(q0.skip(1));
        }
        let data = self.buffer.remove(0);
        proof {
            assert(self.spec_queued() =~= q0.skip(1));
            assert(self.popped@ + q0 =~= (self.popped@.push(q0[0])) + q0.skip(1));
        }
        self.queue_len = self.queue_len - data.len();
        self.data_size = self.data_size + data.len();
        self.popped = Ghost(self.popped@.push(data@));
        Some(data)
    }
}

/// The FIFO law: what the consumer has taken, followed by what still waits,
/// is exactly what the producer's accepted pushes put in, in push order; no
/// reordering, duplication, or loss of accepted buffers, and taken buffers
/// are a prefix of the pushes.
pub proof fn lemma_fifo(q: WriteImageQueue)
    requires
        q.wf(),
    ensures
        q.pushed@ == q.popped@ + q.spec_queued(),
        q.popped@.len() + q.spec_queued().len() == q.pushed@.len(),
        forall|i: int| 0 <= i < q.popped@.len() ==> q.pushed@[i] == q.popped@[i],
        forall|i: int| q.popped@.len() <= i < q.pushed@.len()
            ==> q.pushed@[i] == q.spec_queued()[i - q.popped@.len()],
{
}

/// The backpressure law: a well-formed queue never holds more than the
/// ceiling in queued bytes, whatever was pushed at it.
pub proof fn lemma_backpressure(q: WriteImageQueue)
    requires
        q.wf(),
    ensures
        q.queue_len <= MAX_QUEUE_SIZE,
        spec_total_len(q.spec_queued()) <= MAX_QUEUE_SIZE,
{
}


/// What one iteration of the background writer did.
#[derive(Debug, PartialEq, Eq, Structural, Clone, Copy)]
pub enum WriterAction {
    /// Took the oldest buffer and wrote it into the container.
    Wrote,
    /// Saw an empty queue with no more data coming, finalized the container,
    /// and stopped.
    Finalized,
    /// Saw an empty queue but more data may come; nothing to do yet.
    Idle,
}

/// The write-behind front end the capture loop talks to: a queue, an open
/// container, and the drop accounting of the backpressure policy. In queued
/// mode a background thread repeatedly runs `writer_step`; in direct mode
/// `push_data` writes synchronously and no thread exists.
pub struct WriteThread {
    pub file_path: String,
    pub open_mode: OpenMode,
    pub direct_write_mode: bool,
    pub image_file: Option<ImageFiles>,
    pub buffer_is_full: bool,
    pub drop_frames: u32,
    pub write_image_queue: WriteImageQueue,
}

impl WriteThread {
    pub fn new(filepath: String, open_mode: OpenMode, direct_write_mode: bool) -> (t:
        WriteThread)
        ensures
            t.file_path@ == filepath@,
            t.open_mode == open_mode,
            t.direct_write_mode == direct_write_mode,
            t.image_file is None,
            !t.buffer_is_full,
            t.drop_frames == 0,
            t.write_image_queue.wf(),
            t.write_image_queue.spec_queued() == Seq::<Seq<u8>>::empty(),
            t.write_image_queue.pushed@ == Seq::<Seq<u8>>::empty(),
            t.write_image_queue.popped@ == Seq::<Seq<u8>>::empty(),
            t.write_image_queue.data_size == 0,
            t.write_image_queue.thread_status == WriteThreadStatus::NotStarted,
            !t.write_image_queue.write_done,
            t.write_image_queue.images == 0,
    {
        WriteThread {
            file_path: filepath,
            open_mode,
            direct_write_mode,
            image_file: None,
            buffer_is_full: false,
            drop_frames: 0,
            write_image_queue: WriteImageQueue::new(),
        }
    }

    /// Open the session's container over its current bytes. A failed open
    /// (an unrecognized header in read mode) leaves no container attached.
    pub fn start(&mut self, data: Vec<u8>)
        ensures
            *final(self) == (WriteThread { image_file: final(self).image_file, ..*old(self) }),
            match old(self).open_mode {
                OpenMode::Write => final(self).image_file matches Some(f) && f.wf()
                    && f.spec_renewed(data@, OpenMode::Write),
                OpenMode::Append => final(self).image_file matches Some(f) && f.wf() && (
                if crate::container::spec_header_ok(data@) {
                    f.spec_opened_existing(data@, OpenMode::Append)
                } else {
                    f.spec_renewed(data@, OpenMode::Append)
                }),
                OpenMode::Read => if crate::container::spec_header_ok(data@) {
                    final(self).image_file matches Some(f) && f.wf()
                        && f.spec_opened_existing(data@, OpenMode::Read)
                } else {
                    final(self).image_file is None
                },
            },
    {
        let mode = self.open_mode;
        match ImageFiles::new(data, mode) {
            Ok(f) => {
                self.image_file = Some(f);
            },
            Err(_) => {
                self.image_file = None;
            },
        }
    }

    /// Hand one frame to the session. In direct mode it is written into the
    /// container on the spot. In queued mode it is copied into the queue when
    /// it fits under the ceiling; otherwise it is dropped and counted, and
    /// the full flag is raised until an empty push is seen.
    pub fn push_data(&mut self, data: &[u8]) -> (r: Result<(), CoreError>)
        requires
            old(self).write_image_queue.wf(),
            data@.len() <= u32::MAX,
            old(self).drop_frames < u32::MAX,
            old(self).direct_write_mode ==> (old(self).image_file matches Some(f) && f.wf()
                && f.mode@ != OpenMode::Read && f.ends@ == 0
                && f.write_pos + IMAGE_HEADER_SIZE + data@.len() <= usize::MAX
                && f.nimages < u32::MAX),
        ensures
            final(self).write_image_queue.wf(),
            old(self).direct_write_mode ==> {
                &&& r is Ok
                &&& *final(self) == (WriteThread {
                    image_file: final(self).image_file,
                    ..*old(self)
                })
                &&& (old(self).image_file matches Some(f1)
                    && final(self).image_file matches Some(f2) && {
                    &&& f2.wf()
                    &&& f2.written@ == f1.written@.push(data@)
                    &&& f2.nimages == f1.nimages + 1
                    &&& f2.total_size == f1.total_size + IMAGE_HEADER_SIZE + data@.len()
                    &&& f2.write_pos == f1.write_pos + IMAGE_HEADER_SIZE + data@.len()
                    &&& f2.read_pos == f1.read_pos
                    &&& f2.data@ == crate::container::spec_store(f1.data@,
                        f1.write_pos as int, crate::container::spec_record_bytes(data@))
                    &&& f2.mode@ == f1.mode@
                    &&& f2.ends@ == f1.ends@
                    &&& f2.session_start@ == f1.session_start@
                    &&& f2.base_count@ == f1.base_count@
                })
            },
            !old(self).direct_write_mode ==> {
                let q1 = old(self).write_image_queue;
                let q2 = final(self).write_image_queue;
                if q1.queue_len + data@.len() <= MAX_QUEUE_SIZE {
                    &&& r is Ok
                    &&& q2.spec_queued() == q1.spec_queued().push(data@)
                    &&& q2.pushed@ == q1.pushed@.push(data@)
                    &&& q2.queue_len == q1.queue_len + data@.len()
                    &&& q2.popped@ == q1.popped@
                    &&& final(self).drop_frames == old(self).drop_frames
                    &&& final(self).buffer_is_full == (old(self).buffer_is_full
                        && data@.len() != 0)
                    &&& *final(self) == (WriteThread {
                        write_image_queue: q2,
                        buffer_is_full: final(self).buffer_is_full,
                        ..*old(self)
                    })
                } else {
                    &&& r matches Err(e) && e == CoreError::QueueFull
                    &&& final(self).drop_frames == old(self).drop_frames + 1
                    &&& final(self).buffer_is_full
                    &&& *final(self) == (WriteThread {
                        drop_frames: final(self).drop_frames,
                        buffer_is_full: true,
                        ..*old(self)
                    })
                }
            },
    {
        if self.direct_write_mode {
            match &mut self.image_file {
                Some(f) => {
                    let _ = f.write_image(data);
                },
                None => {
                    proof {
                        assert(false);
                    }
                },
            }
            return Ok(());
        }
        let accepted = self.write_image_queue.push(data);
        if !accepted {
            self.drop_frames = self.drop_frames + 1;
            self.buffer_is_full = true;
            return Err(CoreError::QueueFull);
        }
        if self.buffer_is_full {
            if data.len() == 0 {
                self.buffer_is_full = false;
            }
        }
        Ok(())
    }

    /// Announce that no more frames are coming. In direct mode this also
    /// finalizes the container at once and records the final image count; in
    /// queued mode the background writer does that when it drains the queue.
    pub fn stop(&mut self)
        requires
            old(self).write_image_queue.wf(),
            old(self).direct_write_mode ==> (old(self).image_file matches Some(f) && f.wf()
                && f.mode@ != OpenMode::Read
                && f.write_pos + IMAGE_HEADER_SIZE <= usize::MAX),
        ensures
            final(self).write_image_queue.wf(),
            final(self).write_image_queue.write_done,
            old(self).direct_write_mode ==> {
                &&& (old(self).image_file matches Some(f1)
                    && final(self).image_file matches Some(f2) && {
                    &&& f2.wf()
                    &&& f2.data@ == ImageFiles::spec_finalized(f1.data@, f1.write_pos as int,
                        f1.nimages, f1.total_size as u64)
                    &&& f2.nimages == f1.nimages
                    &&& f2.total_size == f1.total_size
                    &&& f2.ends@ == f1.ends@ + 1
                    &&& crate::container::spec_stored_count(f2.data@) == f2.nimages
                    &&& crate::container::spec_stored_size(f2.data@) == f2.total_size
                    &&& final(self).write_image_queue.images == f1.nimages
                })
            },
            !old(self).direct_write_mode ==> *final(self) == (WriteThread {
                write_image_queue: final(self).write_image_queue,
                ..*old(self)
            }) && final(self).write_image_queue == (WriteImageQueue {
                write_done: true,
                ..old(self).write_image_queue
            }),
    {
        if self.direct_write_mode {
            match &mut self.image_file {
                Some(f) => {
                    let _ = f.write_image_end();
                    let n = f.get_nof_images();
                    self.write_image_queue.images = n;
                },
                None => {
                    proof {
                        assert(false);
                    }
                },
            }
        }
        self.write_image_queue.write_done = true;
    }

    /// Number of images the finished session wrote; meaningful once the
    /// session has stopped and, in queued mode, the writer has finalized.
    pub fn get_nof_images(&self) -> (r: u32)
        ensures
            r == self.write_image_queue.images,
    {
        self.write_image_queue.images
    }

    /// One iteration of the background writer loop: mark the writer running,
    /// then either write the oldest queued buffer into the container, or,
    /// when the queue is empty and no more data is coming, finalize exactly
    /// once, record the final count, and stop; otherwise report nothing to
    /// do. The caller loops until `Finalized` comes back.
    pub fn writer_step(&mut self) -> (r: WriterAction)
        requires
            !old(self).direct_write_mode,
            old(self).write_image_queue.wf(),
            old(self).write_image_queue.data_size + old(self).write_image_queue.queue_len
                <= usize::MAX,
            old(self).image_file matches Some(f) && f.wf() && f.mode@ != OpenMode::Read
                && f.ends@ == 0 && f.nimages < u32::MAX
                && f.write_pos + IMAGE_HEADER_SIZE + MAX_QUEUE_SIZE <= usize::MAX,
        ensures
            final(self).write_image_queue.wf(),
            final(self).direct_write_mode == old(self).direct_write_mode,
            final(self).drop_frames == old(self).drop_frames,
            final(self).buffer_is_full == old(self).buffer_is_full,
            ({
                let q1 = old(self).write_image_queue;
                let q2 = final(self).write_image_queue;
                if q1.spec_queued().len() > 0 {
                    &&& r == WriterAction::Wrote
                    &&& q2.spec_queued() == q1.spec_queued().skip(1)
                    &&& q2.popped@ == q1.popped@.push(q1.spec_queued()[0])
                    &&& q2.pushed@ == q1.pushed@
                    &&& q2.thread_status == WriteThreadStatus::Running
                    &&& q2.write_done == q1.write_done
                    &&& q2.images == q1.images
                    &&& (old(self).image_file matches Some(f1)
                        && final(self).image_file matches Some(f2) && {
                        &&& f2.wf()
                        &&& f2.written@ == f1.written@.push(q1.spec_queued()[0])
                        &&& f2.nimages == f1.nimages + 1
                        &&& f2.ends@ == 0
                        &&& f2.mode@ == f1.mode@
                        &&& f2.data@ == crate::container::spec_store(f1.data@,
                            f1.write_pos as int,
                            crate::container::spec_record_bytes(q1.spec_queued()[0]))
                        &&& f2.write_pos == f1.write_pos + IMAGE_HEADER_SIZE
                            + q1.spec_queued()[0].len()
                        &&& f2.total_size == f1.total_size + IMAGE_HEADER_SIZE
                            + q1.spec_queued()[0].len()
                        &&& f2.read_pos == f1.read_pos
                        &&& f2.session_start@ == f1.session_start@
                        &&& f2.base_count@ == f1.base_count@
                    })
                } else if q1.write_done {
                    &&& r == WriterAction::Finalized
                    &&& q2.thread_status == WriteThreadStatus::Stopped
                    &&& q2.pushed@ == q1.pushed@
                    &&& q2.popped@ == q1.popped@
                    &&& q2.spec_queued() == q1.spec_queued()
                    &&& (old(self).image_file matches Some(f1)
                        && final(self).image_file matches Some(f2) && {
                        &&& f2.wf()
                        &&& f2.data@ == ImageFiles::spec_finalized(f1.data@,
                            f1.write_pos as int, f1.nimages, f1.total_size as u64)
                        &&& f2.nimages == f1.nimages
                        &&& f2.written@ == f1.written@
                        &&& f2.ends@ == 1
                        &&& f2.session_start@ == f1.session_start@
                        &&& f2.base_count@ == f1.base_count@
                        &&& crate::container::spec_stored_count(f2.data@) == f1.nimages
                        &&& crate::container::spec_stored_size(f2.data@) == f1.total_size
                        &&& q2.images == f1.nimages
                    })
                } else {
                    &&& r == WriterAction::Idle
                    &&& q2 == (WriteImageQueue {
                        thread_status: WriteThreadStatus::Running,
                        ..q1
                    })
                    &&& final(self).image_file == old(self).image_file
                }
            }),
    {
        self.write_image_queue.thread_status = WriteThreadStatus::Running;
        let popped = self.write_image_queue.pop();
        match popped {
            Some(data) => {
                proof {
                    lemma_total_len_bound(old(self).write_image_queue.spec_queued(), 0);
                }
                match &mut self.image_file {
                    Some(f) => {
                        let _ = f.write_image(data.as_slice());
                    },
                    None => {
                        proof {
                            assert(false);
                        }
                    },
                }
                WriterAction::Wrote
            },
            None => {
                if self.write_image_queue.write_done {
                    match &mut self.image_file {
                        Some(f) => {
                            let _ = f.write_image_end();
                            let n = f.get_nof_images();
                            self.write_image_queue.images = n;
                        },
                        None => {
                            proof {
                                assert(false);
                            }
                        },
                    }
                    self.write_image_queue.thread_status = WriteThreadStatus::Stopped;
                    WriterAction::Finalized
                } else {
                    WriterAction::Idle
                }
            },
        }
    }

    /// The condition the waiting caller polls for: in direct mode there is
    /// no thread to wait on, otherwise the writer must have stopped.
    pub fn is_stopped(&self) -> (r: bool)
        ensures
            r == (self.direct_write_mode || self.write_image_queue.thread_status
                == WriteThreadStatus::Stopped),
    {
        self.direct_write_mode || self.write_image_queue.thread_status
            == WriteThreadStatus::Stopped
    }
}

} // verus!
