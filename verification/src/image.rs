//! Raw RGB images sent along with a notification, and the hint key under
//! which each version of the specification expects them.
use vstd::prelude::*;

use crate::text::{all_digits, digits_value, owned};

verus! {

/// Hint key for raw image data, specification 1.2 and later.
pub const IMAGE_DATA: &'static str = "image-data";
/// Hint key for raw image data, specification 1.1.
pub const IMAGE_DATA_1_1: &'static str = "image_data";
/// Hint key for raw image data, specification 1.0.
pub const IMAGE_DATA_1_0: &'static str = "icon_data";

/// The largest width or height accepted: D-Bus carries them in 32 bits.
pub const IMAGE_MAX_SIZE: i32 = 0x0fff_ffff;

/// A version of the notification specification.
#[derive(Clone, Copy, Debug, PartialEq, Eq, Structural)]
pub struct Version {
    /// The major number.
    pub major: u64,
    /// The minor number.
    pub minor: u64,
}

/// Versions ordered by major number, then by minor number.
pub open spec fn version_lt(a: Version, b: Version) -> bool {
    a.major < b.major || (a.major == b.major && a.minor < b.minor)
}

impl Version {
    /// The version `major.minor`.
    pub fn new(major: u64, minor: u64) -> (v: Version)
        ensures
            v == (Version { major, minor }),
    {
        Version { major, minor }
    }
}

/// The value of a run of ASCII digits, if it fits in a `u64`.
fn parse_digits(s: &str, from: usize, to: usize) -> (r: Option<u64>)
    requires
        from <= to <= s@.len(),
    ensures
        match r {
            Some(v) => all_digits(s@.subrange(from as int, to as int)) && v == digits_value(
                s@.subrange(from as int, to as int),
            ),
            None => !all_digits(s@.subrange(from as int, to as int)) || digits_value(
                s@.subrange(from as int, to as int),
            ) > u64::MAX,
        },
{
    if from == to {
        return None;
    }
    let mut value: u64 = 0;
    let mut i: usize = from;
    while i < to
        invariant
            from <= i <= to <= s@.len(),
            from < to,
            forall|k: int| from <= k < i ==> '0' <= #[trigger] s@[k] && s@[k] <= '9',
            value == digits_value(s@.subrange(from as int, i as int)),
        decreases to - i,
    {
        let c = s.get_char(i);
        let ghost prefix = s@.subrange(from as int, i as int);
        let ghost next = s@.subrange(from as int, i + 1);
        assert(next.drop_last() =~= prefix);
        if c < '0' || c > '9' {
            assert(!('0' <= s@.subrange(from as int, to as int)[i - from] && s@.subrange(from as int, to as int)[i
                - from] <= '9'));
            return None;
        }
        let d: u64 = (c as u32 - '0' as u32) as u64;
        assert(digits_value(next) == value * 10 + d);
        if value > (u64::MAX - d) / 10 {
            proof {
                let full = s@.subrange(from as int, to as int);
                if all_digits(full) {
                    lemma_digits_value_grows(full, (i + 1 - from) as int);
                    assert(full.subrange(0, (i + 1 - from) as int) =~= next);
                }
            }
            return None;
        }
        value = value * 10 + d;
        i = i + 1;
    }
    proof {
        assert(s@.subrange(from as int, to as int) =~= s@.subrange(from as int, i as int));
    }
    Some(value)
}

/// A longer run of digits is worth at least as much as its prefixes.
proof fn lemma_digits_value_grows(d: Seq<char>, n: int)
    requires
        all_digits(d),
        0 <= n <= d.len(),
    ensures
        digits_value(d.subrange(0, n)) <= digits_value(d),
    decreases d.len() - n,
{
    if n < d.len() {
        lemma_digits_value_grows(d, n + 1);
        let p = d.subrange(0, n + 1);
        assert(p.drop_last() =~= d.subrange(0, n));
        assert('0' <= p.last() && p.last() <= '9');
        lemma_digits_value_nonneg(d.subrange(0, n));
        assert(digits_value(d.subrange(0, n)) <= digits_value(p)) by (nonlinear_arith)
            requires
                digits_value(p) == digits_value(d.subrange(0, n)) * 10 + (p.last() as int - '0' as int),
                digits_value(d.subrange(0, n)) >= 0,
                p.last() as int - '0' as int >= 0,
        {
        }
    } else {
        assert(d.subrange(0, n) =~= d);
    }
}

proof fn lemma_digits_value_nonneg(d: Seq<char>)
    requires
        forall|i: int| 0 <= i < d.len() ==> '0' <= #[trigger] d[i] && d[i] <= '9',
    ensures
        digits_value(d) >= 0,
    decreases d.len(),
{
    if d.len() > 0 {
        lemma_digits_value_nonneg(d.drop_last());
    }
}

/// The version a `major.minor` text stands for: two runs of ASCII digits
/// around the first `.`, each fitting in a `u64`.
pub open spec fn version_of_text(text: Seq<char>) -> Option<Version> {
    if exists|i: int| 0 <= i < text.len() && text[i] == '.' {
        let i = choose|i: int| 0 <= i < text.len() && text[i] == '.' && forall|j: int| 0 <= j < i ==> text[j] != '.';
        let major = text.subrange(0, i);
        let minor = text.subrange(i + 1, text.len() as int);
        if all_digits(major) && all_digits(minor) && digits_value(major) <= u64::MAX && digits_value(minor)
            <= u64::MAX {
            Some(Version { major: digits_value(major) as u64, minor: digits_value(minor) as u64 })
        } else {
            None
        }
    } else {
        None
    }
}

impl Version {
    /// Reads a `major.minor` specification version, as a server reports it.
    pub fn parse(text: &str) -> (r: Option<Version>)
        ensures
            r == version_of_text(text@),
    {
        let n = text.unicode_len();
        let mut i: usize = 0;
        while i < n && text.get_char(i) != '.'
            invariant
                n == text@.len(),
                i <= n,
                forall|j: int| 0 <= j < i ==> text@[j] != '.',
            decreases n - i,
        {
            i = i + 1;
        }
        if i == n {
            return None;
        }
        proof {
            assert(0 <= i as int && text@[i as int] == '.' && forall|j: int| 0 <= j < i ==> text@[j] != '.');
            let w = choose|k: int| 0 <= k < text@.len() && text@[k] == '.' && forall|j: int| 0 <= j < k ==> text@[j]
                != '.';
            if w < i {
                assert(text@[w] != '.');
            } else if w > i {
                assert(text@[i as int] != '.');
            }
        }
        let major = parse_digits(text, 0, i);
        let minor = parse_digits(text, i + 1, n);
        match (major, minor) {
            (Some(a), Some(b)) => Some(Version { major: a, minor: b }),
            _ => None,
        }
    }
}

/// The hint key for image data under a specification version: `icon_data`
/// before 1.1, `image_data` at 1.1, `image-data` after it.
pub open spec fn image_key(version: Version) -> Seq<char> {
    let v1_1 = Version { major: 1, minor: 1 };
    if version_lt(version, v1_1) {
        IMAGE_DATA_1_0@
    } else if version == v1_1 {
        IMAGE_DATA_1_1@
    } else {
        IMAGE_DATA@
    }
}

/// The matching image data key for each specification version.
pub fn image_spec(version: Version) -> (r: String)
    ensures
        r@ == image_key(version),
{
    let v1_1 = Version::new(1, 1);
    if version.major < v1_1.major || (version.major == v1_1.major && version.minor < v1_1.minor) {
        owned(IMAGE_DATA_1_0)
    } else if version.major == v1_1.major && version.minor == v1_1.minor {
        owned(IMAGE_DATA_1_1)
    } else {
        owned(IMAGE_DATA)
    }
}

/// Errors that can occur when creating an image.
#[derive(Debug, Clone, PartialEq, Eq)]
pub enum ImageError {
    /// The given image is too big. D-Bus only has 32 bits for width / height.
    TooBig,
    /// The given bytes don't match the width, height and channel count.
    WrongDataSize,
    /// The given path could not be opened; the message says why.
    CantOpen(String),
    /// The opened image is not RGB with eight bits per channel.
    CantConvert,
}

/// Raw image data as the notification specification describes it.
#[derive(PartialEq, Eq, Debug, Clone, Hash)]
pub struct NotificationImage {
    width: i32,
    height: i32,
    rowstride: i32,
    alpha: bool,
    bits_per_sample: i32,
    channels: i32,
    data: Vec<u8>,
}

/// The abstract value of a [`NotificationImage`].
pub struct ImageView {
    pub width: i32,
    pub height: i32,
    pub rowstride: i32,
    pub alpha: bool,
    pub bits_per_sample: i32,
    pub channels: i32,
    pub data: Seq<u8>,
}

impl View for NotificationImage {
    type V = ImageView;

    closed spec fn view(&self) -> ImageView {
        ImageView {
            width: self.width,
            height: self.height,
            rowstride: self.rowstride,
            alpha: self.alpha,
            bits_per_sample: self.bits_per_sample,
            channels: self.channels,
            data: self.data@,
        }
    }
}

/// What building an RGB image gives: too big past the size limit, a size
/// error when the number of bytes is not `width * height * 3` (computed
/// without overflow), else the image with three 8-bit channels, no alpha and
/// rows of `width * 3` bytes.
pub open spec fn rgb_image(width: i32, height: i32, data: Seq<u8>) -> Result<ImageView, ImageError> {
    if width > IMAGE_MAX_SIZE || height > IMAGE_MAX_SIZE {
        Err(ImageError::TooBig)
    } else if data.len() != width * height * 3 {
        Err(ImageError::WrongDataSize)
    } else {
        Ok(
            ImageView {
                width,
                height,
                rowstride: (width * 3) as i32,
                alpha: false,
                bits_per_sample: 8,
                channels: 3,
                data,
            },
        )
    }
}

impl NotificationImage {
    /// Creates an image from a raw vector of RGB bytes.
    pub fn from_rgb(width: i32, height: i32, data: Vec<u8>) -> (r: Result<NotificationImage, ImageError>)
        ensures
            match r {
                Ok(img) => rgb_image(width, height, data@) == Ok::<ImageView, ImageError>(img@),
                Err(e) => rgb_image(width, height, data@) == Err::<ImageView, ImageError>(e),
            },
    {
        if width > IMAGE_MAX_SIZE || height > IMAGE_MAX_SIZE {
            return Err(ImageError::TooBig);
        }
        let channels: i32 = 3;
        let bits_per_sample: i32 = 8;
        let w: i128 = width as i128;
        let h: i128 = height as i128;
        assert(-0x4000_0000_0000_0000 <= w * h <= 0x4000_0000_0000_0000) by (nonlinear_arith)
            requires
                -0x8000_0000 <= w <= 0x7fff_ffff,
                -0x8000_0000 <= h <= 0x7fff_ffff,
        ;
        let size: i128 = w * h * 3;
        if size != data.len() as i128 {
            Err(ImageError::WrongDataSize)
        } else {
            let stride: i128 = w * 3;
            Ok(
                NotificationImage {
                    width,
                    height,
                    bits_per_sample,
                    channels,
                    data,
                    rowstride: #[verifier::truncate] (stride as i32),
                    alpha: false,
                },
            )
        }
    }

    /// Builds an image from a decoded picture: its width, height and RGB
    /// bytes when it is RGB with eight bits per channel, else `None`. The
    /// dimensions are reinterpreted as `i32`.
    pub fn from_decoded_rgb(decoded: Option<(u32, u32, Vec<u8>)>) -> (r: Result<NotificationImage, ImageError>)
        ensures
            match decoded {
                None => r == Err::<NotificationImage, ImageError>(ImageError::CantConvert),
                Some(d) => match r {
                    Ok(img) => rgb_image(d.0 as i32, d.1 as i32, d.2@) == Ok::<ImageView, ImageError>(img@),
                    Err(e) => rgb_image(d.0 as i32, d.1 as i32, d.2@) == Err::<ImageView, ImageError>(e),
                },
            },
    {
        match decoded {
            Some((width, height, data)) => NotificationImage::from_rgb(
                #[verifier::truncate]
                (width as i32),
                #[verifier::truncate]
                (height as i32),
                data,
            ),
            None => Err(ImageError::CantConvert),
        }
    }

    /// Builds an image from the outcome of opening and decoding an image
    /// file: a failure to open or decode it (with its message) is
    /// `CantOpen`, a picture that is not 8-bit RGB is `CantConvert`, and any
    /// other is built from its width, height and bytes.
    pub fn from_decode_result(decoded: Result<Option<(u32, u32, Vec<u8>)>, String>) -> (r: Result<
        NotificationImage,
        ImageError,
    >)
        ensures
            match decoded {
                Err(e) => r matches Err(ImageError::CantOpen(m)) && m@ == e@,
                Ok(None) => r == Err::<NotificationImage, ImageError>(ImageError::CantConvert),
                Ok(Some(d)) => match r {
                    Ok(img) => rgb_image(d.0 as i32, d.1 as i32, d.2@) == Ok::<ImageView, ImageError>(img@),
                    Err(e) => rgb_image(d.0 as i32, d.1 as i32, d.2@) == Err::<ImageView, ImageError>(e),
                },
            },
    {
        match decoded {
            Err(e) => Err(ImageError::CantOpen(e)),
            Ok(d) => NotificationImage::from_decoded_rgb(d),
        }
    }

    /// A copy of this image.
    pub fn duplicate(&self) -> (r: NotificationImage)
        ensures
            r@ == self@,
    {
        let mut data: Vec<u8> = Vec::new();
        let mut i: usize = 0;
        while i < self.data.len()
            invariant
                i <= self.data.len(),
                data@ == self.data@.take(i as int),
            decreases self.data.len() - i,
        {
            data.push(self.data[i]);
            i = i + 1;
            assert(data@ =~= self.data@.take(i as int));
        }
        assert(self.data@.take(self.data@.len() as int) =~= self.data@);
        NotificationImage {
            width: self.width,
            height: self.height,
            rowstride: self.rowstride,
            alpha: self.alpha,
            bits_per_sample: self.bits_per_sample,
            channels: self.channels,
            data,
        }
    }

    /// Whether two images are the same image.
    pub fn same_as(&self, other: &NotificationImage) -> (r: bool)
        ensures
            r == (self@ == other@),
    {
        if self.width != other.width || self.height != other.height || self.rowstride != other.rowstride
            || self.alpha != other.alpha || self.bits_per_sample != other.bits_per_sample || self.channels
            != other.channels || self.data.len() != other.data.len() {
            return false;
        }
        let mut i: usize = 0;
        while i < self.data.len()
            invariant
                i <= self.data.len(),
                self.data.len() == other.data.len(),
                forall|k: int| 0 <= k < i ==> self.data@[k] == other.data@[k],
            decreases self.data.len() - i,
        {
            if self.data[i] != other.data[i] {
                assert(self@.data[i as int] != other@.data[i as int]);
                return false;
            }
            i = i + 1;
        }
        assert(self@.data =~= other@.data);
        true
    }

    /// The width in pixels.
    pub fn width(&self) -> (r: i32)
        ensures
            r == self@.width,
    {
        self.width
    }

    /// The height in pixels.
    pub fn height(&self) -> (r: i32)
        ensures
            r == self@.height,
    {
        self.height
    }

    /// The raw bytes.
    pub fn data(&self) -> (r: &Vec<u8>)
        ensures
            r@ == self@.data,
    {
        &self.data
    }
}

/// An image on its way to the server.
pub struct NotificationImageMessage(NotificationImage);

impl NotificationImageMessage {
    /// Wraps an image.
    pub fn from_image(image: NotificationImage) -> (r: NotificationImageMessage)
        ensures
            r.image()@ == image@,
    {
        NotificationImageMessage(image)
    }

    /// The wrapped image.
    pub closed spec fn image(&self) -> NotificationImage {
        self.0
    }

    /// The wrapped image.
    pub fn get(&self) -> (r: &NotificationImage)
        ensures
            r@ == self.image()@,
    {
        &self.0
    }

    /// The fields in the order of the D-Bus structure `(iiibiiay)`: width,
    /// height, row stride, alpha, bits per sample, channels, bytes.
    pub fn into_fields(self) -> (r: (i32, i32, i32, bool, i32, i32, Vec<u8>))
        ensures
            r.0 == self.image()@.width,
            r.1 == self.image()@.height,
            r.2 == self.image()@.rowstride,
            r.3 == self.image()@.alpha,
            r.4 == self.image()@.bits_per_sample,
            r.5 == self.image()@.channels,
            r.6@ == self.image()@.data,
    {
        let img = self.0;
        (img.width, img.height, img.rowstride, img.alpha, img.bits_per_sample, img.channels, img.data)
    }
}

} // verus!
