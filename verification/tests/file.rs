use avmux::{AFile, AVFile, AVMuxError, VFile};

#[test]
fn files_keep_their_url() {
    let v = VFile::new("input_video.mp4");
    assert_eq!(v.path_url, "input_video.mp4");
    assert_eq!(v.path_url(), "input_video.mp4");
    let a = AFile::new("https://music.com/input_audio.mp3");
    assert_eq!(a.path_url(), "https://music.com/input_audio.mp3");
}

#[test]
fn c_path_url_is_the_utf8_bytes() {
    let v = VFile::new("vidéo.mp4");
    let bytes = v.c_path_url().unwrap();
    assert_eq!(bytes, "vidéo.mp4".as_bytes().to_vec());
}

#[test]
fn c_path_url_rejects_an_interior_nul() {
    let a = AFile::new("ab\0c\0d");
    match a.c_path_url() {
        Err(AVMuxError::Ffi(e)) => {
            assert_eq!(e.position, 2);
            assert_eq!(e.bytes, b"ab\0c\0d".to_vec());
        }
        other => panic!("unexpected {:?}", other),
    }
}

#[test]
fn c_path_url_nul_position_counts_bytes() {
    let v = VFile::new("é\0");
    match v.c_path_url() {
        Err(AVMuxError::Ffi(e)) => assert_eq!(e.position, 2),
        other => panic!("unexpected {:?}", other),
    }
}
