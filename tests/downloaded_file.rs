use tello::downloaded_file::DownloadedFile;

#[test]
fn download() {
    let mut file = DownloadedFile::new(0, 4 * 8 * 2);
    for chunk_number in 0u32..2u32 {
        for fragment_number in 0u8..8u8 {
            file.receive_fragment(chunk_number, fragment_number, 4, &[1, 2, 3, 4]);
        }
    }
    assert_eq!(file.received_bytes(), file.size());
}

#[test]
fn chunk_completes_on_eighth_fragment() {
    let mut file = DownloadedFile::new(7, 64);
    for fragment_number in 0u8..8u8 {
        let complete = file.receive_fragment(0, fragment_number, 4, &[1, 2, 3, 4]);
        assert_eq!(complete, fragment_number == 7);
    }
    assert_eq!(file.received_bytes(), 32);
    assert!(!file.is_finished());
}

#[test]
fn duplicate_fragment_is_ignored() {
    let mut file = DownloadedFile::new(1, 64);
    assert!(!file.receive_fragment(3, 2, 10, &[9; 10]));
    assert_eq!(file.received_bytes(), 10);
    assert!(file.has_fragment(3, 2));
    assert!(!file.receive_fragment(3, 2, 10, &[5; 10]));
    assert_eq!(file.received_bytes(), 10);
    assert!(!file.has_fragment(3, 1));
}

#[test]
fn finished_without_complete_chunk() {
    let mut file = DownloadedFile::new(2, 20);
    assert!(!file.is_finished());
    assert!(!file.receive_fragment(0, 0, 15, &[1]));
    assert!(!file.is_finished());
    assert!(!file.receive_fragment(0, 1, 5, &[2]));
    assert!(file.is_finished());
}

#[test]
fn empty_file_is_finished_at_once() {
    let file = DownloadedFile::new(3, 0);
    assert!(file.is_finished());
    assert_eq!(file.get_data(), Vec::<u8>::new());
}

#[test]
fn fragments_land_at_their_offsets() {
    let mut file = DownloadedFile::new(4, 5000);
    file.receive_fragment(0, 1, 2, &[7, 8]);
    let data = file.get_data();
    assert_eq!(data.len(), 1026);
    assert!(data[..1024].iter().all(|b| *b == 0));
    assert_eq!(&data[1024..], &[7, 8]);
    file.receive_fragment(0, 0, 3, &[1, 2, 3]);
    let data = file.get_data();
    assert_eq!(data.len(), 1026);
    assert_eq!(&data[..3], &[1, 2, 3]);
    file.receive_fragment(1, 0, 1, &[9]);
    let data = file.get_data();
    assert_eq!(data.len(), 8 * 1024 + 1);
    assert_eq!(data[8 * 1024], 9);
}

#[test]
fn chunk_count_formula() {
    assert_eq!(DownloadedFile::new(0, 0).number_of_chunks(), 1);
    assert_eq!(DownloadedFile::new(0, 64).number_of_chunks(), 1);
    assert_eq!(DownloadedFile::new(0, 7 * 1024).number_of_chunks(), 2);
    assert_eq!(DownloadedFile::new(0, 100_000).number_of_chunks(), 13);
    assert_eq!(DownloadedFile::new(9, 1).filenum(), 9);
}
