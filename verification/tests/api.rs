use arch_forum::api::{
    categories_url, check_username_url, comments_url, compose_data_url, create_data_url,
    endpoint, login_url, mime_for_extension, register_url, thread_comments_url, threads_url,
};

#[test]
fn data_url_names_the_type_by_the_extension() {
    assert_eq!(create_data_url("photo.jpg", b"hello"), "data:image/jpeg;base64,aGVsbG8=");
    assert_eq!(create_data_url("/tmp/a/photo.jpeg", b"hello"), "data:image/jpeg;base64,aGVsbG8=");
    assert_eq!(create_data_url("pic.png", b"hi"), "data:image/png;base64,aGk=");
    assert_eq!(create_data_url("anim.gif", b"abc"), "data:image/gif;base64,YWJj");
    assert_eq!(create_data_url("x.webp", b""), "data:image/webp;base64,");
}

#[test]
fn data_url_falls_back_to_png() {
    assert_eq!(create_data_url("notes.txt", b"a"), "data:image/png;base64,YQ==");
    assert_eq!(create_data_url("noextension", b"a"), "data:image/png;base64,YQ==");
    assert_eq!(create_data_url(".hidden", b"a"), "data:image/png;base64,YQ==");
    assert_eq!(create_data_url("upper.JPG", b"a"), "data:image/png;base64,YQ==");
    assert_eq!(create_data_url("", b"a"), "data:image/png;base64,YQ==");
    assert_eq!(create_data_url("dir.jpg/file", b"a"), "data:image/png;base64,YQ==");
}

#[test]
fn data_url_encodes_every_byte_in_the_standard_alphabet() {
    assert_eq!(
        create_data_url("b.png", &[0xFB, 0xFF, 0xFE, 0x00, 0x3E, 0x3F]),
        "data:image/png;base64,+//+AD4/"
    );
    assert_eq!(create_data_url("b.png", &[0xFF]), "data:image/png;base64,/w==");
    let all: Vec<u8> = (0..=255u8).collect();
    let url = create_data_url("all.gif", &all);
    assert!(url.starts_with("data:image/gif;base64,AAECAwQFBgcICQoLDA0ODxAR"));
    assert_eq!(url.len(), "data:image/gif;base64,".len() + 344);
    assert!(url.ends_with("/P3+/w=="));
}

#[test]
fn media_types_by_extension() {
    assert_eq!(mime_for_extension(&Some("jpg".to_string())), "image/jpeg");
    assert_eq!(mime_for_extension(&Some("jpeg".to_string())), "image/jpeg");
    assert_eq!(mime_for_extension(&Some("png".to_string())), "image/png");
    assert_eq!(mime_for_extension(&Some("gif".to_string())), "image/gif");
    assert_eq!(mime_for_extension(&Some("webp".to_string())), "image/webp");
    assert_eq!(mime_for_extension(&Some("bmp".to_string())), "image/png");
    assert_eq!(mime_for_extension(&Some(String::new())), "image/png");
    assert_eq!(mime_for_extension(&None), "image/png");
}

#[test]
fn data_url_is_put_together_in_order() {
    assert_eq!(compose_data_url("image/gif", "QUJD"), "data:image/gif;base64,QUJD");
    assert_eq!(compose_data_url("", ""), "data:;base64,");
}

#[test]
fn endpoints_hang_on_the_service_address() {
    assert_eq!(endpoint("/x"), "https://cyber-forum.onrender.com/x");
    assert_eq!(threads_url(), "https://cyber-forum.onrender.com/threads");
    assert_eq!(
        thread_comments_url("abc-123"),
        "https://cyber-forum.onrender.com/threads/abc-123/comments"
    );
    assert_eq!(comments_url(), "https://cyber-forum.onrender.com/comments");
    assert_eq!(categories_url(), "https://cyber-forum.onrender.com/categories");
    assert_eq!(
        check_username_url("alice"),
        "https://cyber-forum.onrender.com/auth/check-username/alice"
    );
    assert_eq!(login_url(), "https://cyber-forum.onrender.com/auth/login");
    assert_eq!(register_url(), "https://cyber-forum.onrender.com/auth/register");
}
