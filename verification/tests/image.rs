use notify_rust::error::{Error, ErrorKind};
use notify_rust::image::{image_spec, ImageError, NotificationImage, NotificationImageMessage, Version};

#[test]
fn image_keys_follow_spec_version() {
    assert_eq!(image_spec(Version::new(1, 0)), "icon_data");
    assert_eq!(image_spec(Version::new(0, 9)), "icon_data");
    assert_eq!(image_spec(Version::new(1, 1)), "image_data");
    assert_eq!(image_spec(Version::new(1, 2)), "image-data");
    assert_eq!(image_spec(Version::new(2, 0)), "image-data");
}

#[test]
fn rgb_images() {
    let mut data: Vec<u8> = vec![0u8; 64 * 64 * 3];
    for x in 0..64 {
        for y in 0..64 {
            let offset = (y * 64 + x) * 3;
            data[offset] = (x + y) as u8;
            data[offset + 1] = x as u8;
            data[offset + 2] = y as u8;
        }
    }
    let img = NotificationImage::from_rgb(64, 64, data.clone()).unwrap();
    assert_eq!(img.width(), 64);
    assert_eq!(img.height(), 64);
    assert_eq!(img.data(), &data);
    let (w, h, stride, alpha, bits, channels, bytes) = NotificationImageMessage::from_image(img).into_fields();
    assert_eq!((w, h, stride, alpha, bits, channels), (64, 64, 192, false, 8, 3));
    assert_eq!(bytes, data);
}

#[test]
fn rgb_image_errors() {
    assert_eq!(NotificationImage::from_rgb(0x1000_0000, 1, vec![]), Err(ImageError::TooBig));
    assert_eq!(NotificationImage::from_rgb(1, 0x1000_0000, vec![]), Err(ImageError::TooBig));
    assert_eq!(NotificationImage::from_rgb(2, 2, vec![0; 11]), Err(ImageError::WrongDataSize));
    assert_eq!(NotificationImage::from_rgb(-1, 1, vec![]), Err(ImageError::WrongDataSize));
    assert!(NotificationImage::from_rgb(0, 5, vec![]).is_ok());
    assert_eq!(NotificationImage::from_rgb(0x0fff_ffff, 0x0fff_ffff, vec![]), Err(ImageError::WrongDataSize));
    assert_eq!(NotificationImage::from_rgb(-3, 3, vec![0; 27]), Err(ImageError::WrongDataSize));
}

#[test]
fn decode_results() {
    assert_eq!(
        NotificationImage::from_decode_result(Err("no such file".to_owned())),
        Err(ImageError::CantOpen("no such file".to_owned()))
    );
    assert_eq!(NotificationImage::from_decode_result(Ok(None)), Err(ImageError::CantConvert));
    let img = NotificationImage::from_decode_result(Ok(Some((2, 1, vec![1, 2, 3, 4, 5, 6])))).unwrap();
    assert_eq!((img.width(), img.height()), (2, 1));
    assert_eq!(
        NotificationImage::from_decode_result(Ok(Some((2, 2, vec![0; 3])))),
        Err(ImageError::WrongDataSize)
    );
    assert_eq!(
        NotificationImage::from_decode_result(Ok(Some((0x1000_0000, 1, vec![])))),
        Err(ImageError::TooBig)
    );
}

#[test]
fn image_copies() {
    let img = NotificationImage::from_rgb(1, 1, vec![1, 2, 3]).unwrap();
    assert!(img.same_as(&img.duplicate()));
    assert_eq!(img.duplicate(), img);
    assert!(!img.same_as(&NotificationImage::from_rgb(1, 1, vec![3, 2, 1]).unwrap()));
}

#[test]
fn spec_versions_from_text() {
    assert_eq!(Version::parse("1.2"), Some(Version::new(1, 2)));
    assert_eq!(Version::parse("10.03"), Some(Version::new(10, 3)));
    assert_eq!(Version::parse("1"), None);
    assert_eq!(Version::parse("a.b"), None);
    assert_eq!(Version::parse("1."), None);
    assert_eq!(Version::parse(".2"), None);
    assert_eq!(Version::parse("99999999999999999999.1"), None);
}

#[test]
fn decoded_images() {
    assert_eq!(NotificationImage::from_decoded_rgb(None), Err(ImageError::CantConvert));
    let img = NotificationImage::from_decoded_rgb(Some((1, 2, vec![1, 2, 3, 4, 5, 6]))).unwrap();
    assert_eq!((img.width(), img.height()), (1, 2));
    assert_eq!(NotificationImage::from_decoded_rgb(Some((1, 1, vec![1]))), Err(ImageError::WrongDataSize));
}

#[test]
fn error_messages() {
    assert_eq!(Error::from_image(ImageError::TooBig).message(), "The given image is too big. DBus only has 32 bits for width / height");
    assert_eq!(Error::msg("plain").message(), "plain");
    assert_eq!(Error::from_kind(ErrorKind::Parse("bad".to_owned())).message(), "Parsing Error: bad");
    assert_eq!(Error::from_kind(ErrorKind::Conversion("x".to_owned())).message(), "Conversion Error: x");
    assert_eq!(Error::from_kind(ErrorKind::Zbus("z".to_owned())).message(), "z");
    assert!(matches!(Error::msg("m").get_kind(), ErrorKind::Msg(m) if m == "m"));
}
