use tiycode::gateway::platforms::weixin_media::{
    build_cdn_download_url, build_outbound_media_item, encrypt_media_payload, extract_media_attachments,
    finish_upload, infer_voice_mime, padded_ciphertext_size, prepare_upload, upload_target, upload_url_request,
    CdnMedia, FileItem, GetUploadUrlResponse, ImageItem, MediaType, MessageItem, UploadMediaType, UploadedMedia,
    MESSAGE_ITEM_FILE, MESSAGE_ITEM_IMAGE,
};
use tiycode::json::Json;

#[test]
fn test_build_cdn_download_url() {
    let url = build_cdn_download_url("novac2c.cdn.weixin.qq.com/c2c", "abc123");
    assert_eq!(url, "https://novac2c.cdn.weixin.qq.com/c2c/download?encrypted_query_param=abc123");
}

#[test]
fn test_build_cdn_download_url_trailing_slash() {
    let url = build_cdn_download_url("novac2c.cdn.weixin.qq.com/c2c/", "xyz");
    assert_eq!(url, "https://novac2c.cdn.weixin.qq.com/c2c/download?encrypted_query_param=xyz");
}

#[test]
fn test_infer_voice_mime() {
    assert_eq!(infer_voice_mime(Some(7)), "audio/mpeg");
    assert_eq!(infer_voice_mime(Some(8)), "audio/ogg");
    assert_eq!(infer_voice_mime(Some(5)), "audio/amr");
    assert_eq!(infer_voice_mime(Some(6)), "audio/silk");
    assert_eq!(infer_voice_mime(None), "audio/silk");
}

#[test]
fn test_encrypt_media_payload_size() {
    let data = b"hello world, this is test data!";
    let (ciphertext, key_hex) = encrypt_media_payload(data);
    let expected_padded = ((data.len() / 16) + 1) * 16;
    assert_eq!(ciphertext.len(), 16 + expected_padded);
    assert_eq!(key_hex.len(), 64);
}

#[test]
fn test_padded_ciphertext_size() {
    assert_eq!(padded_ciphertext_size(0), 16);
    assert_eq!(padded_ciphertext_size(1), 16);
    assert_eq!(padded_ciphertext_size(15), 16);
    assert_eq!(padded_ciphertext_size(16), 32);
    assert_eq!(padded_ciphertext_size(17), 32);
}

#[test]
fn test_extract_image_attachment() {
    let items = vec![MessageItem {
        item_type: MESSAGE_ITEM_IMAGE,
        image_item: Some(ImageItem {
            media: Some(CdnMedia {
                encrypt_query_param: Some("param123".to_string()),
                aes_key: Some("base64key".to_string()),
                encrypt_type: Some(1),
            }),
            aeskey: Some("priority_key".to_string()),
            mid_size: Some("1024".to_string()),
            ..Default::default()
        }),
        ..Default::default()
    }];

    let attachments = extract_media_attachments(&items, "novac2c.cdn.weixin.qq.com/c2c");
    assert_eq!(attachments.len(), 1);
    let att = &attachments[0];
    assert_eq!(att.media_type, MediaType::Image);
    assert_eq!(att.aes_key.as_deref(), Some("priority_key"));
    assert_eq!(att.size, Some(1024));
    assert!(att.url.contains("param123"));
}

#[test]
fn test_extract_file_attachment() {
    let items = vec![MessageItem {
        item_type: MESSAGE_ITEM_FILE,
        file_item: Some(FileItem {
            media: Some(CdnMedia {
                encrypt_query_param: Some("file_param".to_string()),
                aes_key: Some("filekey".to_string()),
                encrypt_type: Some(1),
            }),
            file_name: Some("report.pdf".to_string()),
            len: Some("2048".to_string()),
        }),
        ..Default::default()
    }];

    let attachments = extract_media_attachments(&items, "novac2c.cdn.weixin.qq.com/c2c");
    assert_eq!(attachments.len(), 1);
    let att = &attachments[0];
    assert_eq!(att.media_type, MediaType::File);
    assert_eq!(att.file_name.as_deref(), Some("report.pdf"));
    assert_eq!(att.mime_type, "application/pdf");
    assert_eq!(att.size, Some(2048));
}

#[test]
fn test_build_outbound_media_item_image() {
    let uploaded = UploadedMedia {
        download_encrypted_query_param: "dl_param".to_string(),
        cdn_aes_key_base64: "b64key".to_string(),
        file_size_ciphertext: 1024,
        plaintext_size: 1000,
    };
    let item = build_outbound_media_item(&uploaded, UploadMediaType::Image, "photo.jpg", 1000);
    assert_eq!(item.item_type, MESSAGE_ITEM_IMAGE);
    let img = item.image_item.unwrap();
    assert_eq!(img.media.unwrap().encrypt_query_param.unwrap(), "dl_param");
    assert_eq!(img.aeskey.unwrap(), "b64key");
}

#[test]
fn outbound_video_item_carries_size_as_decimal_text() {
    let uploaded = UploadedMedia {
        download_encrypted_query_param: "p".to_string(),
        cdn_aes_key_base64: "k".to_string(),
        file_size_ciphertext: 32,
        plaintext_size: 20,
    };
    let item = build_outbound_media_item(&uploaded, UploadMediaType::Video, "clip.mp4", 12345);
    assert_eq!(item.video_item.unwrap().video_size.as_deref(), Some("12345"));
}

#[test]
fn prepare_upload_measures_and_hashes_the_plain_bytes() {
    let plan = prepare_upload(b"hello");
    assert_eq!(plan.raw_size, 5);
    assert_eq!(plan.ciphertext_size, 32);
    assert_eq!(plan.ciphertext.len(), 32);
    assert_eq!(plan.raw_md5, "5d41402abc4b2a76b9719d911017c592");
    assert_eq!(plan.aes_key_hex.len(), 64);
}

#[test]
fn upload_request_lists_type_size_md5_and_no_thumb() {
    let plan = prepare_upload(b"hello");
    match upload_url_request(&plan, UploadMediaType::File) {
        Json::Object(fields) => {
            assert_eq!(fields.len(), 4);
            assert_eq!(fields[0].0, "media_type");
            assert!(matches!(fields[0].1, Json::Int(3)));
            assert!(matches!(fields[1].1, Json::UInt(32)));
            assert!(matches!(&fields[2].1, Json::Str(s) if s == "5d41402abc4b2a76b9719d911017c592"));
            assert!(matches!(fields[3].1, Json::Bool(true)));
        }
        other => panic!("unexpected body {:?}", other),
    }
}

#[test]
fn upload_target_builds_cdn_url_or_reports_errors() {
    let ok = GetUploadUrlResponse {
        errcode: Some(0),
        errmsg: None,
        upload_param: Some("UP".to_string()),
        filekey: Some("FK".to_string()),
    };
    assert_eq!(
        upload_target(&ok, "cdn.example.com/c2c//").unwrap(),
        "https://cdn.example.com/c2c/upload?encrypted_query_param=UP&filekey=FK"
    );
    let failed = GetUploadUrlResponse { errcode: Some(-14), errmsg: Some("expired".to_string()), upload_param: None, filekey: None };
    assert_eq!(upload_target(&failed, "cdn").unwrap_err(), "getuploadurl failed: errcode=-14, errmsg=expired");
    let no_param = GetUploadUrlResponse { errcode: None, errmsg: None, upload_param: None, filekey: Some("FK".to_string()) };
    assert_eq!(upload_target(&no_param, "cdn").unwrap_err(), "missing upload_param in response");
    let no_key = GetUploadUrlResponse { errcode: None, errmsg: None, upload_param: Some("UP".to_string()), filekey: None };
    assert_eq!(upload_target(&no_key, "cdn").unwrap_err(), "missing filekey in response");
}

#[test]
fn finish_upload_reports_status_and_missing_header() {
    let plan = prepare_upload(b"data");
    assert_eq!(finish_upload(&plan, false, "500 Internal Server Error", None).unwrap_err(), "CDN upload failed with status: 500 Internal Server Error");
    assert_eq!(finish_upload(&plan, true, "200 OK", None).unwrap_err(), "missing x-encrypted-param in CDN response");
    let done = finish_upload(&plan, true, "200 OK", Some("DL".to_string())).unwrap();
    assert_eq!(done.download_encrypted_query_param, "DL");
    assert_eq!(done.cdn_aes_key_base64.len(), 44);
    assert_eq!(done.plaintext_size, 4);
    assert_eq!(done.file_size_ciphertext, 32);
}

#[test]
fn an_uploaded_file_sent_as_an_item_is_read_back_as_its_attachment() {
    let uploaded = UploadedMedia {
        download_encrypted_query_param: "dl".to_string(),
        cdn_aes_key_base64: "key64".to_string(),
        file_size_ciphertext: 2064,
        plaintext_size: 2048,
    };
    let cdn = "https://cdn.example.com/c2c";
    let file = build_outbound_media_item(&uploaded, UploadMediaType::File, "report.pdf", 2048);
    let video = build_outbound_media_item(&uploaded, UploadMediaType::Video, "clip.mp4", 777);
    let image = build_outbound_media_item(&uploaded, UploadMediaType::Image, "a.png", 5);
    let r = extract_media_attachments(&[file, video, image], cdn);
    assert_eq!(r.len(), 3);
    let url = build_cdn_download_url(cdn, "dl");
    assert!(r.iter().all(|a| a.url == url && a.aes_key.as_deref() == Some("key64")));
    assert!(matches!(r[0].media_type, MediaType::File));
    assert_eq!(r[0].file_name.as_deref(), Some("report.pdf"));
    assert_eq!(r[0].size, Some(2048));
    assert_eq!(r[0].mime_type, "application/pdf");
    assert!(matches!(r[1].media_type, MediaType::Video));
    assert_eq!(r[1].size, Some(777));
    assert_eq!(r[1].mime_type, "video/mp4");
    assert!(matches!(r[2].media_type, MediaType::Image));
    assert_eq!(r[2].size, None);
    assert_eq!(r[2].mime_type, "image/jpeg");
}
