use timelapse_core::container::{ImageFiles, OpenMode};
use timelapse_core::queue::{WriteImageQueue, WriteThread, WriteThreadStatus, WriterAction,
    MAX_QUEUE_SIZE};
use timelapse_core::CoreError;

#[test]
fn fifo_order_is_kept() {
    let mut q = WriteImageQueue::new();
    assert!(q.push(&[1]));
    assert!(q.push(&[2, 2]));
    assert!(q.push(&[3, 3, 3]));
    assert_eq!(q.queue_len, 6);
    assert_eq!(q.pop().unwrap(), vec![1]);
    assert_eq!(q.pop().unwrap(), vec![2, 2]);
    assert_eq!(q.pop().unwrap(), vec![3, 3, 3]);
    assert!(q.pop().is_none());
    assert_eq!(q.queue_len, 0);
    assert_eq!(q.data_size, 6);
}

#[test]
fn backpressure_drops_newest() {
    let big = vec![0u8; 2 * 1024 * 1024];
    let mut q = WriteImageQueue::new();
    assert!(q.push(big.as_slice()));
    assert!(q.push(big.as_slice()));
    // the queue is now exactly at its ceiling; one more byte is too many
    assert_eq!(q.queue_len, MAX_QUEUE_SIZE);
    assert!(!q.push(&[0u8]));
    assert_eq!(q.queue_len, MAX_QUEUE_SIZE);
    // the oldest data is never evicted
    assert_eq!(q.pop().unwrap().len(), big.len());
}

#[test]
fn push_data_counts_drops() {
    let mut t = WriteThread::new(String::from("capture.dat"), OpenMode::Write, false);
    let big = vec![1u8; MAX_QUEUE_SIZE];
    assert!(t.push_data(big.as_slice()).is_ok());
    assert_eq!(t.push_data(&[2u8]), Err(CoreError::QueueFull));
    assert_eq!(t.push_data(&[3u8]), Err(CoreError::QueueFull));
    assert_eq!(t.drop_frames, 2);
    assert!(t.buffer_is_full);
    // an empty push clears the full flag once room is observed again
    assert!(t.push_data(&[]).is_ok());
    assert!(!t.buffer_is_full);
}

#[test]
fn queued_session_writes_in_order() {
    let mut t = WriteThread::new(String::from("capture.dat"), OpenMode::Write, false);
    t.start(Vec::new());
    t.push_data(&[1, 1]).unwrap();
    // the background writer drains the queue as it fills
    assert_eq!(t.writer_step(), WriterAction::Wrote);
    assert_eq!(t.writer_step(), WriterAction::Idle);
    t.push_data(&[2]).unwrap();
    t.push_data(&[3, 3, 3]).unwrap();
    t.stop();
    // it finalizes only once it sees the stop flag with an empty queue
    assert_eq!(t.writer_step(), WriterAction::Wrote);
    assert_eq!(t.writer_step(), WriterAction::Wrote);
    assert_eq!(t.writer_step(), WriterAction::Finalized);
    assert!(t.is_stopped());
    assert_eq!(t.get_nof_images(), 3);
    assert_eq!(t.write_image_queue.thread_status, WriteThreadStatus::Stopped);
    let mut r = ImageFiles::new(t.image_file.unwrap().data, OpenMode::Read).unwrap();
    assert_eq!(r.get_nof_images(), 3);
    assert_eq!(r.read_image().unwrap(), vec![1, 1]);
    assert_eq!(r.read_image().unwrap(), vec![2]);
    assert_eq!(r.read_image().unwrap(), vec![3, 3, 3]);
}

#[test]
fn direct_mode_writes_synchronously() {
    let mut t = WriteThread::new(String::from("capture.dat"), OpenMode::Write, true);
    t.start(Vec::new());
    t.push_data(&[5, 5]).unwrap();
    t.push_data(&[6]).unwrap();
    // direct mode has no thread: stop finalizes on the spot and there is
    // nothing to wait for
    t.stop();
    assert!(t.is_stopped());
    assert_eq!(t.get_nof_images(), 2);
    let mut r = ImageFiles::new(t.image_file.unwrap().data, OpenMode::Read).unwrap();
    assert_eq!(r.read_image().unwrap(), vec![5, 5]);
    assert_eq!(r.read_image().unwrap(), vec![6]);
}

#[test]
fn writer_status_lifecycle() {
    let mut t = WriteThread::new(String::from("capture.dat"), OpenMode::Write, false);
    t.start(Vec::new());
    assert_eq!(t.write_image_queue.thread_status, WriteThreadStatus::NotStarted);
    assert!(!t.is_stopped());
    assert_eq!(t.writer_step(), WriterAction::Idle);
    assert_eq!(t.write_image_queue.thread_status, WriteThreadStatus::Running);
    t.stop();
    assert_eq!(t.writer_step(), WriterAction::Finalized);
    assert!(t.is_stopped());
}
