use timelapse_core::container::{ImageFiles, OpenMode};
use timelapse_core::CoreError;

fn open_write_fresh() -> ImageFiles {
    ImageFiles::new(Vec::new(), OpenMode::Write).unwrap()
}

#[test]
fn round_trip_three_images() {
    let mut f = open_write_fresh();
    let imgs: Vec<Vec<u8>> = vec![vec![1, 2, 3], vec![42], vec![9; 5000]];
    for img in &imgs {
        f.write_image(img.as_slice()).unwrap();
    }
    f.write_image_end().unwrap();
    let data = f.data;
    let mut r = ImageFiles::new(data, OpenMode::Read).unwrap();
    assert_eq!(r.get_nof_images(), 3);
    for img in &imgs {
        assert_eq!(r.get_image_size(), img.len());
        let back = r.read_image().unwrap();
        assert_eq!(&back, img);
    }
    // after the last image, only the end marker remains
    assert_eq!(r.get_image_size(), 0);
    assert_eq!(r.read_image().unwrap_err(), CoreError::InvalidRecord);
}

#[test]
fn zero_length_image_reads_as_end_of_data() {
    // a zero-length record is indistinguishable from the end of the
    // session on readback: its stored size is 0, which the reader treats
    // as end of data
    let mut f = open_write_fresh();
    f.write_image(&[]).unwrap();
    f.write_image_end().unwrap();
    let mut r = ImageFiles::new(f.data, OpenMode::Read).unwrap();
    assert_eq!(r.get_nof_images(), 1);
    assert_eq!(r.get_image_size(), 0);
    assert!(r.read_image().is_err());
}

#[test]
fn empty_session_reads_back_empty() {
    let mut f = open_write_fresh();
    f.write_image_end().unwrap();
    let mut r = ImageFiles::new(f.data, OpenMode::Read).unwrap();
    assert_eq!(r.get_nof_images(), 0);
    assert_eq!(r.get_image_size(), 0);
}

#[test]
fn idempotent_finalize() {
    let mut f = open_write_fresh();
    f.write_image(&[7, 8]).unwrap();
    f.write_image_end().unwrap();
    let first = f.data.clone();
    f.write_image_end().unwrap();
    // the header (count and size) is byte-for-byte the same after the
    // second finalize
    assert_eq!(&f.data[0..16], &first[0..16]);
    let r1 = ImageFiles::new(first, OpenMode::Read).unwrap();
    let r2 = ImageFiles::new(f.data, OpenMode::Read).unwrap();
    assert_eq!(r1.get_nof_images(), r2.get_nof_images());
}

#[test]
fn corrupt_header_read_mode() {
    let data = b"JUNKjunkJUNKjunk".to_vec();
    match ImageFiles::new(data, OpenMode::Read) {
        Err(e) => assert_eq!(e, CoreError::InvalidHeader),
        Ok(_) => panic!("a corrupt header must be rejected in read mode"),
    }
}

#[test]
fn empty_file_read_mode() {
    match ImageFiles::new(Vec::new(), OpenMode::Read) {
        Err(e) => assert_eq!(e, CoreError::InvalidHeader),
        Ok(_) => panic!("an empty file must be rejected in read mode"),
    }
}

#[test]
fn append_on_missing_header() {
    let data = b"JUNKjunkJUNKjunk".to_vec();
    let mut f = ImageFiles::new(data, OpenMode::Append).unwrap();
    assert_eq!(f.get_nof_images(), 0);
    // behaves as a fresh container from here on
    f.write_image(&[4, 5, 6]).unwrap();
    f.write_image_end().unwrap();
    let mut r = ImageFiles::new(f.data, OpenMode::Read).unwrap();
    assert_eq!(r.get_nof_images(), 1);
    assert_eq!(r.read_image().unwrap(), vec![4, 5, 6]);
}

#[test]
fn append_continues_session() {
    let mut f = open_write_fresh();
    f.write_image(&[1]).unwrap();
    f.write_image(&[2, 2]).unwrap();
    f.write_image_end().unwrap();
    let mut a = ImageFiles::new(f.data, OpenMode::Append).unwrap();
    assert_eq!(a.get_nof_images(), 2);
    a.write_image(&[3, 3, 3]).unwrap();
    a.write_image_end().unwrap();
    let mut r = ImageFiles::new(a.data, OpenMode::Read).unwrap();
    assert_eq!(r.get_nof_images(), 3);
    assert_eq!(r.read_image().unwrap(), vec![1]);
    assert_eq!(r.read_image().unwrap(), vec![2, 2]);
    assert_eq!(r.read_image().unwrap(), vec![3, 3, 3]);
}

#[test]
fn write_mode_resets_count() {
    let mut f = open_write_fresh();
    f.write_image(&[1]).unwrap();
    f.write_image_end().unwrap();
    // reopening in write mode rewrites the header fresh
    let w = ImageFiles::new(f.data, OpenMode::Write).unwrap();
    assert_eq!(w.get_nof_images(), 0);
}

#[test]
fn seek_image_walks_records() {
    let mut f = open_write_fresh();
    for i in 0..5u8 {
        f.write_image(&[i; 3]).unwrap();
    }
    f.write_image_end().unwrap();
    let mut r = ImageFiles::new(f.data, OpenMode::Read).unwrap();
    r.seek_image(3).unwrap();
    assert_eq!(r.read_image().unwrap(), vec![3, 3, 3]);
    // seeking past the end fails and leaves the cursor at the end
    let mut r2 = ImageFiles::new(r.data, OpenMode::Read).unwrap();
    assert!(r2.seek_image(6).is_err());
    assert_eq!(r2.get_image_size(), 0);
}

#[test]
fn header_layout_is_exact() {
    let mut f = open_write_fresh();
    f.write_image(&[0xAA; 10]).unwrap();
    f.write_image_end().unwrap();
    let d = &f.data;
    assert_eq!(&d[0..4], b"TCAM");
    // one image
    assert_eq!(&d[4..8], &[1, 0, 0, 0]);
    // cumulative size: 10 payload bytes + 8 record-header bytes
    assert_eq!(&d[8..16], &[18, 0, 0, 0, 0, 0, 0, 0]);
    // record tag and little-endian length
    assert_eq!(&d[16..20], b"DATA");
    assert_eq!(&d[20..24], &[10, 0, 0, 0]);
    // end marker after the payload
    assert_eq!(&d[34..42], &[b'E', b'N', b'D', 0, 0, 0, 0, 0]);
}

#[test]
fn torn_payload_reads_zero_padded() {
    // a header that promises more payload than the file holds: the reader
    // returns a buffer of the promised length, the missing tail as zeros,
    // exactly as a short read into a zeroed buffer behaves
    let mut data: Vec<u8> = Vec::new();
    data.extend_from_slice(b"TCAM");
    data.extend_from_slice(&[1, 0, 0, 0]);
    data.extend_from_slice(&[18, 0, 0, 0, 0, 0, 0, 0]);
    data.extend_from_slice(b"DATA");
    data.extend_from_slice(&[10, 0, 0, 0]);
    data.extend_from_slice(&[1, 2, 3, 4]);
    let mut r = ImageFiles::new(data, OpenMode::Read).unwrap();
    assert_eq!(r.get_image_size(), 10);
    let img = r.read_image().unwrap();
    assert_eq!(img, vec![1, 2, 3, 4, 0, 0, 0, 0, 0, 0]);
}
