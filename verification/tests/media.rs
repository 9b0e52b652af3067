use qwiz::media::routes::GetMediaData;
use qwiz::media::{Media, MediaError, MediaType, NewMediaData, UploadPlan};

#[test]
fn file_extensions() {
    assert_eq!(MediaType::Image.to_file_extension(), "png");
    assert_eq!(MediaType::Video.to_file_extension(), "mp4");
    assert_eq!(MediaType::Audio.to_file_extension(), "mp3");
    assert_eq!(MediaType::Youtube.to_file_extension(), "");
}

#[test]
fn file_upload_is_decoded_and_named() {
    let d = NewMediaData { data: "aGVsbG8=".to_string(), media_type: MediaType::Audio };
    match d.plan_upload_named("1234").unwrap() {
        UploadPlan::File { file_name, bytes, uri } => {
            assert_eq!(file_name, "1234.mp3");
            assert_eq!(bytes, b"hello".to_vec());
            assert_eq!(uri, "/api/media/upload/1234.mp3");
        }
        UploadPlan::Link(_) => panic!("expected a file"),
    }
}

#[test]
fn random_upload_name_is_a_v4_uuid() {
    let d = NewMediaData { data: "AAE=".to_string(), media_type: MediaType::Image };
    match d.plan_upload().unwrap() {
        UploadPlan::File { file_name, bytes, uri } => {
            assert_eq!(file_name.len(), 40);
            assert!(file_name.ends_with(".png"));
            let id: Vec<char> = file_name[..36].chars().collect();
            for (i, c) in id.iter().enumerate() {
                if i == 8 || i == 13 || i == 18 || i == 23 {
                    assert_eq!(*c, '-');
                } else {
                    assert!(c.is_ascii_digit() || ('a'..='f').contains(c));
                }
            }
            assert_eq!(id[14], '4');
            assert!(['8', '9', 'a', 'b'].contains(&id[19]));
            assert_eq!(bytes, vec![0u8, 1u8]);
            assert_eq!(uri, format!("/api/media/upload/{file_name}"));
        }
        UploadPlan::Link(_) => panic!("expected a file"),
    }
}

#[test]
fn links_are_kept_and_bad_base64_refused() {
    let d = NewMediaData { data: "https://youtu.be/x".to_string(), media_type: MediaType::Youtube };
    match d.plan_upload().unwrap() {
        UploadPlan::Link(l) => assert_eq!(l, "https://youtu.be/x"),
        _ => panic!("expected a link"),
    }
    let d = NewMediaData { data: "not base64!".to_string(), media_type: MediaType::Video };
    assert!(matches!(d.plan_upload_named("x"), Err(MediaError::Base64(_))));
}

fn media(uuid: u128) -> Media {
    Media { uuid, uri: format!("u{uuid}"), media_type: MediaType::Image }
}

#[test]
fn stored_media_go_back_to_their_requests() {
    let r = Media::match_to_requests(&vec![true, false, true, true], vec![media(1), media(2)]);
    assert_eq!(r.len(), 4);
    assert_eq!(r[0].as_ref().unwrap().uuid, 1);
    assert!(r[1].is_none());
    assert_eq!(r[2].as_ref().unwrap().uuid, 2);
    assert!(r[3].is_none());
    let g: GetMediaData = media(5).into();
    assert_eq!(g.uri, "u5");
    assert_eq!(g.media_type, MediaType::Image);
}
