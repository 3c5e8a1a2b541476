//! The flash image layout: a header, one image header per image, then the
//! images; every header carries a checksum that makes its bytes sum to zero.
use crate::wire::{
    append_bytes, be4, from_be4, from_le2, from_le4, le2, le4, lemma_be4, lemma_from_le4, lemma_le2, lemma_le4, push_u16,
    push_u32, read_u16, read_u32, u32_from_be, u32_to_be,
};
use vstd::prelude::*;

verus! {

pub const CALIPTRA_FMC_RT_IDENTIFIER: u32 = 0x00000000;

pub const SOC_MANIFEST_IDENTIFIER: u32 = 0x00000001;

pub const MCU_RT_IDENTIFIER: u32 = 0x00000002;

pub const SOC_IMAGES_BASE_IDENTIFIER: u32 = 0x00001000;

/// "FLSH" read as a big-endian number.
pub const FLASH_IMAGE_MAGIC_NUMBER: u32 = 0x464c_5348;

pub const HEADER_VERSION: u16 = 0x0001;

/// The size of the flash header on the wire.
pub const FLASH_HEADER_SIZE: usize = 16;

/// The size of an image header on the wire.
pub const IMAGE_HEADER_SIZE: usize = 20;

/// The sum of the bytes.
pub open spec fn byte_sum(s: Seq<u8>) -> nat
    decreases s.len(),
{
    if s.len() == 0 {
        0
    } else {
        byte_sum(s.drop_last()) + s.last() as nat
    }
}

/// The checksum of bytes: the 32-bit value that, added to their sum, gives
/// zero modulo 2^32.
pub open spec fn checksum(s: Seq<u8>) -> u32 {
    ((0x1_0000_0000 - byte_sum(s) % 0x1_0000_0000) % 0x1_0000_0000) as u32
}

/// The checksum of `data`: zero less the wrapping sum of its bytes.
pub fn calculate_checksum(data: &[u8]) -> (r: u32)
    ensures
        r == checksum(data@),
{
    let mut sum: u32 = 0;
    let mut i: usize = 0;
    while i < data.len()
        invariant
            i <= data@.len(),
            sum == byte_sum(data@.take(i as int)) % 0x1_0000_0000,
        decreases data@.len() - i,
    {
        assert(data@.take(i + 1).drop_last() =~= data@.take(i as int));
        sum = sum.wrapping_add(data[i] as u32);
        i = i + 1;
    }
    assert(data@.take(data@.len() as int) =~= data@);
    0u32.wrapping_sub(sum)
}

/// The header of a flash image. The magic number is stored big-endian, the
/// other fields little-endian.
#[derive(Debug, Clone, Copy, PartialEq, Eq, Structural)]
pub struct FlashHeader {
    pub magic: u32,
    pub version: u16,
    pub image_count: u16,
    pub image_headers_offset: u32,
    pub header_checksum: u32,
}

/// The bytes of a flash header before its checksum.
pub open spec fn flash_header_prefix(h: FlashHeader) -> Seq<u8> {
    be4(h.magic) + le2(h.version) + le2(h.image_count) + le4(h.image_headers_offset)
}

/// The bytes of a flash header.
pub open spec fn flash_header_bytes(h: FlashHeader) -> Seq<u8> {
    flash_header_prefix(h) + le4(h.header_checksum)
}

/// The flash header held by the first 16 bytes.
pub open spec fn flash_header_of(s: Seq<u8>) -> FlashHeader {
    FlashHeader {
        magic: from_be4(s.subrange(0, 4)),
        version: from_le2(s.subrange(4, 6)),
        image_count: from_le2(s.subrange(6, 8)),
        image_headers_offset: from_le4(s.subrange(8, 12)),
        header_checksum: from_le4(s.subrange(12, 16)),
    }
}

/// Reading a header back from its bytes gives the header.
pub proof fn lemma_flash_header_bytes(h: FlashHeader, rest: Seq<u8>)
    ensures
        flash_header_bytes(h).len() == FLASH_HEADER_SIZE,
        flash_header_prefix(h).len() == 12,
        flash_header_of(flash_header_bytes(h) + rest) == h,
        (flash_header_bytes(h) + rest).subrange(0, 12) == flash_header_prefix(h),
{
    let b = flash_header_bytes(h) + rest;
    lemma_be4(h.magic);
    lemma_le2(h.version);
    lemma_le2(h.image_count);
    lemma_le4(h.image_headers_offset);
    lemma_le4(h.header_checksum);
    assert(b.subrange(0, 4) =~= be4(h.magic));
    assert(b.subrange(4, 6) =~= le2(h.version));
    assert(b.subrange(6, 8) =~= le2(h.image_count));
    assert(b.subrange(8, 12) =~= le4(h.image_headers_offset));
    assert(b.subrange(12, 16) =~= le4(h.header_checksum));
    assert(b.subrange(0, 12) =~= flash_header_prefix(h));
}

impl FlashHeader {
    /// The bytes before the checksum.
    pub fn prefix_bytes(&self) -> (r: Vec<u8>)
        ensures
            r@ == flash_header_prefix(*self),
    {
        let m = u32_to_be(self.magic);
        let mut v: Vec<u8> = Vec::new();
        append_bytes(&mut v, &m);
        push_u16(&mut v, self.version);
        push_u16(&mut v, self.image_count);
        push_u32(&mut v, self.image_headers_offset);
        assert(v@ =~= flash_header_prefix(*self));
        v
    }

    /// The bytes of the header.
    pub fn to_bytes(&self) -> (r: Vec<u8>)
        ensures
            r@ == flash_header_bytes(*self),
    {
        let mut v = self.prefix_bytes();
        push_u32(&mut v, self.header_checksum);
        v
    }

    /// The header held by the first 16 bytes of `bytes`.
    pub fn from_bytes(bytes: &[u8]) -> (r: Self)
        requires
            bytes@.len() >= FLASH_HEADER_SIZE,
        ensures
            r == flash_header_of(bytes@),
    {
        let m: [u8; 4] = [bytes[0], bytes[1], bytes[2], bytes[3]];
        assert(m@ =~= bytes@.subrange(0, 4));
        FlashHeader {
            magic: u32_from_be(m),
            version: read_u16(bytes, 4),
            image_count: read_u16(bytes, 6),
            image_headers_offset: read_u32(bytes, 8),
            header_checksum: read_u32(bytes, 12),
        }
    }

    /// The header is that of a flash image: magic number, version, at least
    /// one image, image headers after the header, and a matching checksum.
    pub fn verify(&self) -> (r: bool)
        ensures
            r == (self.magic == FLASH_IMAGE_MAGIC_NUMBER && self.version == HEADER_VERSION
                && self.image_count != 0 && self.image_headers_offset >= FLASH_HEADER_SIZE
                && checksum(flash_header_prefix(*self)) == self.header_checksum),
    {
        if self.magic != FLASH_IMAGE_MAGIC_NUMBER {
            return false;
        }
        if self.version != HEADER_VERSION {
            return false;
        }
        if self.image_count == 0 {
            return false;
        }
        if self.image_headers_offset < FLASH_HEADER_SIZE as u32 {
            return false;
        }
        let p = self.prefix_bytes();
        calculate_checksum(p.as_slice()) == self.header_checksum
    }
}

/// The header of one image: its identifier, where it lies in the flash image,
/// its size, and the checksums of the image and of this header.
#[derive(Debug, Clone, Copy, PartialEq, Eq, Structural)]
pub struct ImageHeader {
    pub identifier: u32,
    pub offset: u32,
    pub size: u32,
    pub image_checksum: u32,
    pub image_header_checksum: u32,
}

/// The bytes of an image header before its checksum.
pub open spec fn image_header_prefix(h: ImageHeader) -> Seq<u8> {
    le4(h.identifier) + le4(h.offset) + le4(h.size) + le4(h.image_checksum)
}

/// The bytes of an image header.
pub open spec fn image_header_bytes(h: ImageHeader) -> Seq<u8> {
    image_header_prefix(h) + le4(h.image_header_checksum)
}

/// The image header held by the first 20 bytes.
pub open spec fn image_header_of(s: Seq<u8>) -> ImageHeader {
    ImageHeader {
        identifier: from_le4(s.subrange(0, 4)),
        offset: from_le4(s.subrange(4, 8)),
        size: from_le4(s.subrange(8, 12)),
        image_checksum: from_le4(s.subrange(12, 16)),
        image_header_checksum: from_le4(s.subrange(16, 20)),
    }
}

/// Reading an image header back from its bytes gives the header.
pub proof fn lemma_image_header_bytes(h: ImageHeader, rest: Seq<u8>)
    ensures
        image_header_bytes(h).len() == IMAGE_HEADER_SIZE,
        image_header_prefix(h).len() == 16,
        image_header_of(image_header_bytes(h) + rest) == h,
        (image_header_bytes(h) + rest).subrange(0, 16) == image_header_prefix(h),
{
    let b = image_header_bytes(h) + rest;
    lemma_le4(h.identifier);
    lemma_le4(h.offset);
    lemma_le4(h.size);
    lemma_le4(h.image_checksum);
    lemma_le4(h.image_header_checksum);
    assert(b.subrange(0, 4) =~= le4(h.identifier));
    assert(b.subrange(4, 8) =~= le4(h.offset));
    assert(b.subrange(8, 12) =~= le4(h.size));
    assert(b.subrange(12, 16) =~= le4(h.image_checksum));
    assert(b.subrange(16, 20) =~= le4(h.image_header_checksum));
    assert(b.subrange(0, 16) =~= image_header_prefix(h));
}

impl ImageHeader {
    /// The bytes before the checksum.
    pub fn prefix_bytes(&self) -> (r: Vec<u8>)
        ensures
            r@ == image_header_prefix(*self),
    {
        let mut v: Vec<u8> = Vec::new();
        push_u32(&mut v, self.identifier);
        push_u32(&mut v, self.offset);
        push_u32(&mut v, self.size);
        push_u32(&mut v, self.image_checksum);
        assert(v@ =~= image_header_prefix(*self));
        v
    }

    /// The bytes of the header.
    pub fn to_bytes(&self) -> (r: Vec<u8>)
        ensures
            r@ == image_header_bytes(*self),
    {
        let mut v = self.prefix_bytes();
        push_u32(&mut v, self.image_header_checksum);
        v
    }

    /// The image header held by the 20 bytes at `off`.
    pub fn from_bytes_at(bytes: &[u8], off: usize) -> (r: Self)
        requires
            off + IMAGE_HEADER_SIZE <= bytes@.len(),
        ensures
            r == image_header_of(bytes@.subrange(off as int, off + IMAGE_HEADER_SIZE)),
    {
        assert(IMAGE_HEADER_SIZE == 20);
        assert(off + 20 <= bytes@.len());
        assert(bytes@.len() == bytes.len());
        let o4: usize = off + 4;
        let o8: usize = off + 8;
        let o12: usize = off + 12;
        let o16: usize = off + 16;
        let identifier = read_u32(bytes, off);
        let offset = read_u32(bytes, o4);
        let size = read_u32(bytes, o8);
        let image_checksum = read_u32(bytes, o12);
        let image_header_checksum = read_u32(bytes, o16);
        proof {
            let s = bytes@.subrange(off as int, off + IMAGE_HEADER_SIZE);
            assert(s.subrange(0, 4) =~= bytes@.subrange(off as int, off + 4));
            assert(s.subrange(4, 8) =~= bytes@.subrange(off + 4, off + 8));
            assert(s.subrange(8, 12) =~= bytes@.subrange(off + 8, off + 12));
            assert(s.subrange(12, 16) =~= bytes@.subrange(off + 12, off + 16));
            assert(s.subrange(16, 20) =~= bytes@.subrange(off + 16, off + 20));
        }
        ImageHeader { identifier, offset, size, image_checksum, image_header_checksum }
    }

    /// The checksum of the header matches its bytes.
    pub fn verify(&self) -> (r: bool)
        ensures
            r == (checksum(image_header_prefix(*self)) == self.image_header_checksum),
    {
        let p = self.prefix_bytes();
        calculate_checksum(p.as_slice()) == self.image_header_checksum
    }
}

/// `std::io::Error`, which `FirmwareImage::new` may return; nothing is
/// read inside it.
#[verifier::external_type_specification]
#[verifier::external_body]
pub struct ExIoError(std::io::Error);

/// One image to put in a flash image: its identifier and its bytes.
#[derive(Debug, Clone, Copy)]
pub struct FirmwareImage<'a> {
    pub identifier: u32,
    pub data: &'a [u8],
}

impl<'a> FirmwareImage<'a> {
    pub fn new(identifier: u32, content: &'a [u8]) -> (r: std::io::Result<Self>)
        ensures
            r matches Ok(img) && img.identifier == identifier && img.data@ == content@,
    {
        Ok(Self { identifier, data: content })
    }
}

/// The total size of the images.
pub open spec fn data_total<'a>(images: Seq<FirmwareImage<'a>>) -> nat
    decreases images.len(),
{
    if images.len() == 0 {
        0
    } else {
        data_total(images.drop_last()) + images.last().data@.len()
    }
}

/// Where image `i` starts in the flash image: after the header, the image
/// headers, and the images before it.
pub open spec fn image_offset<'a>(images: Seq<FirmwareImage<'a>>, i: int) -> nat {
    (FLASH_HEADER_SIZE + IMAGE_HEADER_SIZE * images.len() + data_total(images.take(i))) as nat
}

/// The header of image `i` that `generate_image_info` makes.
pub open spec fn image_info_for<'a>(images: Seq<FirmwareImage<'a>>, i: int) -> ImageHeader {
    let h = ImageHeader {
        identifier: images[i].identifier,
        offset: image_offset(images, i) as u32,
        size: images[i].data@.len() as u32,
        image_checksum: checksum(images[i].data@),
        image_header_checksum: 0,
    };
    ImageHeader { image_header_checksum: checksum(image_header_prefix(h)), ..h }
}

/// The images fit in a flash image addressed with 32 bits.
pub open spec fn images_fit<'a>(images: Seq<FirmwareImage<'a>>) -> bool {
    FLASH_HEADER_SIZE + IMAGE_HEADER_SIZE * images.len() + data_total(images) <= u32::MAX
}

proof fn lemma_data_total_push<'a>(images: Seq<FirmwareImage<'a>>, i: int)
    requires
        0 <= i < images.len(),
    ensures
        data_total(images.take(i + 1)) == (data_total(images.take(i)) + images[i].data@.len()) as int,
{
    assert(images.take(i + 1).drop_last() =~= images.take(i));
}

proof fn lemma_data_total_prefix<'a>(images: Seq<FirmwareImage<'a>>, i: int)
    requires
        0 <= i <= images.len(),
    ensures
        data_total(images.take(i)) <= data_total(images),
    decreases images.len() - i,
{
    if i < images.len() {
        lemma_data_total_push(images, i);
        lemma_data_total_prefix(images, i + 1);
    } else {
        assert(images.take(i) =~= images);
    }
}

/// The image headers of the images, each with its offset in the flash image
/// and its checksums.
pub fn generate_image_info<'a>(images: Vec<FirmwareImage<'a>>) -> (r: Vec<ImageHeader>)
    requires
        images_fit(images@),
    ensures
        r@.len() == images@.len(),
        forall|i: int| 0 <= i < images@.len() ==> #[trigger] r@[i] == image_info_for(images@, i),
{
    let mut info: Vec<ImageHeader> = Vec::new();
    let mut offset: u32 = (FLASH_HEADER_SIZE + IMAGE_HEADER_SIZE * images.len()) as u32;
    let mut i: usize = 0;
    assert(images@.take(0) =~= Seq::<FirmwareImage<'a>>::empty());
    while i < images.len()
        invariant
            i <= images@.len(),
            images_fit(images@),
            info@.len() == i,
            offset == image_offset(images@, i as int),
            forall|k: int| 0 <= k < i ==> #[trigger] info@[k] == image_info_for(images@, k),
        decreases images@.len() - i,
    {
        let image = images[i];
        proof {
            lemma_data_total_push(images@, i as int);
            lemma_data_total_prefix(images@, i + 1);
        }
        let mut header = ImageHeader {
            identifier: image.identifier,
            offset,
            size: image.data.len() as u32,
            image_checksum: calculate_checksum(image.data),
            image_header_checksum: 0,
        };
        let p = header.prefix_bytes();
        header.image_header_checksum = calculate_checksum(p.as_slice());
        info.push(header);
        offset = offset + image.data.len() as u32;
        i = i + 1;
    }
    info
}

/// The images of a flash image and their headers.
#[derive(Debug, Clone, Copy)]
pub struct FlashImagePayload<'a> {
    image_info: &'a [ImageHeader],
    images: &'a [FirmwareImage<'a>],
}

impl<'a> View for FlashImagePayload<'a> {
    type V = (Seq<ImageHeader>, Seq<FirmwareImage<'a>>);

    closed spec fn view(&self) -> (Seq<ImageHeader>, Seq<FirmwareImage<'a>>) {
        (self.image_info@, self.images@)
    }
}

impl<'a> FlashImagePayload<'a> {
    pub fn new(image_info: &'a [ImageHeader], images: &'a [FirmwareImage<'a>]) -> (r: Self)
        ensures
            r@ == (image_info@, images@),
    {
        Self { image_info, images }
    }
}

/// The header of a flash image of `count` images: the magic number, the
/// version, the image headers right after it, and its checksum.
pub open spec fn new_flash_header(count: u16) -> FlashHeader {
    let h = FlashHeader {
        magic: FLASH_IMAGE_MAGIC_NUMBER,
        version: HEADER_VERSION,
        image_count: count,
        image_headers_offset: FLASH_HEADER_SIZE as u32,
        header_checksum: 0,
    };
    FlashHeader { header_checksum: checksum(flash_header_prefix(h)), ..h }
}

/// The concatenated bytes of image headers.
pub open spec fn infos_bytes(infos: Seq<ImageHeader>) -> Seq<u8>
    decreases infos.len(),
{
    if infos.len() == 0 {
        Seq::empty()
    } else {
        infos_bytes(infos.drop_last()) + image_header_bytes(infos.last())
    }
}

/// The concatenated bytes of images.
pub open spec fn images_bytes<'a>(images: Seq<FirmwareImage<'a>>) -> Seq<u8>
    decreases images.len(),
{
    if images.len() == 0 {
        Seq::empty()
    } else {
        images_bytes(images.drop_last()) + images.last().data@
    }
}

/// A flash image: its header and its payload.
#[derive(Debug, Clone, Copy)]
pub struct FlashImage<'a> {
    header: FlashHeader,
    payload: FlashImagePayload<'a>,
}

impl<'a> View for FlashImage<'a> {
    type V = (FlashHeader, Seq<ImageHeader>, Seq<FirmwareImage<'a>>);

    closed spec fn view(&self) -> (FlashHeader, Seq<ImageHeader>, Seq<FirmwareImage<'a>>) {
        (self.header, self.payload@.0, self.payload@.1)
    }
}

impl<'a> FlashImage<'a> {
    /// The flash image of the images with their headers; the header counts
    /// the image headers (the count is kept to 16 bits).
    pub fn new(images: &'a [FirmwareImage<'a>], image_info: &'a [ImageHeader]) -> (r: Self)
        ensures
            r@ == (new_flash_header(image_info@.len() as u16), image_info@, images@),
    {
        let mut header = FlashHeader {
            magic: FLASH_IMAGE_MAGIC_NUMBER,
            version: HEADER_VERSION,
            image_count: image_info.len() as u16,
            image_headers_offset: FLASH_HEADER_SIZE as u32,
            header_checksum: 0,
        };
        let p = header.prefix_bytes();
        header.header_checksum = calculate_checksum(p.as_slice());
        let payload = FlashImagePayload::new(image_info, images);
        Self { header, payload }
    }

    /// The bytes of the flash image: the header, the image headers, then the
    /// images.
    pub fn to_bytes(&self) -> (r: Vec<u8>)
        ensures
            r@ == flash_header_bytes(self@.0) + infos_bytes(self@.1) + images_bytes(self@.2),
    {
        let mut out = self.header.to_bytes();
        let ghost h = out@;
        let infos = self.payload.image_info;
        let mut i: usize = 0;
        assert(infos@.take(0) =~= Seq::<ImageHeader>::empty());
        while i < infos.len()
            invariant
                i <= infos@.len(),
                infos@ == self@.1,
                out@ == h + infos_bytes(infos@.take(i as int)),
            decreases infos@.len() - i,
        {
            let b = infos[i].to_bytes();
            append_bytes(&mut out, b.as_slice());
            assert(infos@.take(i + 1).drop_last() =~= infos@.take(i as int));
            i = i + 1;
        }
        assert(infos@.take(infos@.len() as int) =~= infos@);
        let ghost hi = out@;
        let images = self.payload.images;
        let mut k: usize = 0;
        assert(images@.take(0) =~= Seq::<FirmwareImage<'a>>::empty());
        while k < images.len()
            invariant
                k <= images@.len(),
                images@ == self@.2,
                out@ == hi + images_bytes(images@.take(k as int)),
            decreases images@.len() - k,
        {
            append_bytes(&mut out, images[k].data);
            assert(images@.take(k + 1).drop_last() =~= images@.take(k as int));
            k = k + 1;
        }
        assert(images@.take(images@.len() as int) =~= images@);
        out
    }
}

/// Why a flash image fails verification.
#[derive(Debug, Clone, Copy, PartialEq, Eq, Structural)]
pub enum FlashImageError {
    /// The image is shorter than its header.
    ImageTooSmall,
    /// The header does not start with the magic number.
    InvalidMagic,
    /// The header version is not supported.
    UnsupportedVersion,
    /// The header checksum does not match.
    HeaderChecksumMismatch,
    /// The checksum of the image with this identifier does not match.
    ImageChecksumMismatch(u32),
    /// The checksum of the header of the image with this identifier does not
    /// match.
    ImageHeaderChecksumMismatch(u32),
}

/// Where image header `i` lies in a flash image with header `h`.
pub open spec fn info_offset(h: FlashHeader, i: int) -> int {
    h.image_headers_offset + IMAGE_HEADER_SIZE * i
}

/// Image header `i` of a flash image.
pub open spec fn info_at(image: Seq<u8>, h: FlashHeader, i: int) -> ImageHeader {
    image_header_of(image.subrange(info_offset(h, i), info_offset(h, i) + IMAGE_HEADER_SIZE))
}

/// The bytes of the image that an image header describes.
pub open spec fn info_data(image: Seq<u8>, info: ImageHeader) -> Seq<u8> {
    image.subrange(info.offset as int, info.offset + info.size)
}

/// Image header `i` and the image it describes lie within the flash image.
pub open spec fn info_in_bounds(image: Seq<u8>, h: FlashHeader, i: int) -> bool {
    &&& info_offset(h, i) + IMAGE_HEADER_SIZE <= image.len()
    &&& info_at(image, h, i).offset + info_at(image, h, i).size <= image.len()
}

/// Image headers `i` and after: each checked in turn, the first mismatch
/// gives the error, otherwise the headers.
#[verifier::opaque]
pub open spec fn images_check(image: Seq<u8>, h: FlashHeader, i: nat) -> Result<Seq<ImageHeader>, FlashImageError>
    decreases h.image_count - i,
{
    if i >= h.image_count {
        Ok(Seq::empty())
    } else {
        let info = info_at(image, h, i as int);
        if checksum(info_data(image, info)) != info.image_checksum {
            Err(FlashImageError::ImageChecksumMismatch(info.identifier))
        } else if checksum(image.subrange(info_offset(h, i as int), info_offset(h, i as int) + 16))
            != info.image_header_checksum {
            Err(FlashImageError::ImageHeaderChecksumMismatch(info.identifier))
        } else {
            match images_check(image, h, i + 1) {
                Ok(rest) => Ok(seq![info] + rest),
                Err(e) => Err(e),
            }
        }
    }
}

/// Every image header that the check reaches, and its image, lie within the
/// flash image.
#[verifier::opaque]
pub open spec fn images_admit(image: Seq<u8>, h: FlashHeader, i: nat) -> bool
    decreases h.image_count - i,
{
    i >= h.image_count || (info_in_bounds(image, h, i as int) && ({
        let info = info_at(image, h, i as int);
        checksum(info_data(image, info)) == info.image_checksum && checksum(
            image.subrange(info_offset(h, i as int), info_offset(h, i as int) + 16),
        ) == info.image_header_checksum
    } ==> images_admit(image, h, i + 1)))
}

/// The result of verifying a flash image: the header (magic number, version,
/// checksum), then each image header and image.
pub open spec fn check_flash_image(image: Seq<u8>) -> Result<Seq<ImageHeader>, FlashImageError> {
    if image.len() < FLASH_HEADER_SIZE {
        Err(FlashImageError::ImageTooSmall)
    } else {
        let h = flash_header_of(image);
        if h.magic != FLASH_IMAGE_MAGIC_NUMBER {
            Err(FlashImageError::InvalidMagic)
        } else if h.version != HEADER_VERSION {
            Err(FlashImageError::UnsupportedVersion)
        } else if checksum(flash_header_prefix(h)) != h.header_checksum {
            Err(FlashImageError::HeaderChecksumMismatch)
        } else {
            images_check(image, h, 0)
        }
    }
}

/// Verification is defined: the image headers and images it reaches lie
/// within the flash image.
pub open spec fn flash_image_admits(image: Seq<u8>) -> bool {
    image.len() < FLASH_HEADER_SIZE || {
        let h = flash_header_of(image);
        h.magic != FLASH_IMAGE_MAGIC_NUMBER || h.version != HEADER_VERSION || checksum(
            flash_header_prefix(h),
        ) != h.header_checksum || images_admit(image, h, 0)
    }
}

impl<'a> FlashImage<'a> {
    /// Verifies the bytes of a flash image: the header, then each image
    /// header and image in turn; gives back the image headers.
    pub fn verify_flash_image(image: &[u8]) -> (r: Result<Vec<ImageHeader>, FlashImageError>)
        requires
            flash_image_admits(image@),
        ensures
            match check_flash_image(image@) {
                Ok(infos) => r matches Ok(v) && v@ == infos,
                Err(e) => r == Err::<Vec<ImageHeader>, FlashImageError>(e),
            },
    {
        if image.len() < FLASH_HEADER_SIZE {
            return Err(FlashImageError::ImageTooSmall);
        }
        let header = FlashHeader::from_bytes(image);
        if header.magic != FLASH_IMAGE_MAGIC_NUMBER {
            return Err(FlashImageError::InvalidMagic);
        }
        if header.version != HEADER_VERSION {
            return Err(FlashImageError::UnsupportedVersion);
        }
        let p = header.prefix_bytes();
        if calculate_checksum(p.as_slice()) != header.header_checksum {
            return Err(FlashImageError::HeaderChecksumMismatch);
        }
        let ghost whole = images_check(image@, header, 0);
        assert(check_flash_image(image@) == whole);
        let mut infos: Vec<ImageHeader> = Vec::new();
        let mut i: usize = 0;
        assert(image@.len() == image.len());
        while i < header.image_count as usize
            invariant
                i <= header.image_count,
                image@.len() == image.len(),
                images_admit(image@, header, i as nat),
                whole == check_flash_image(image@),
                whole == match images_check(image@, header, i as nat) {
                    Ok(rest) => Ok(infos@ + rest),
                    Err(e) => Err(e),
                },
            decreases header.image_count - i,
        {
            proof {
                lemma_images_step(image@, header, i as nat);
            }
            let offset = header.image_headers_offset as usize + IMAGE_HEADER_SIZE * i;
            assert(offset == info_offset(header, i as int));
            let info = ImageHeader::from_bytes_at(image, offset);
            assert(info == info_at(image@, header, i as int));
            let start = info.offset as usize;
            let end = start + info.size as usize;
            let data = vstd::slice::slice_subrange(image, start, end);
            assert(data@ == info_data(image@, info));
            if calculate_checksum(data) != info.image_checksum {
                return Err(FlashImageError::ImageChecksumMismatch(info.identifier));
            }
            let hp = info.prefix_bytes();
            proof {
                lemma_image_header_canonical(image@.subrange(offset as int, offset + IMAGE_HEADER_SIZE));
                assert(image@.subrange(offset as int, offset + IMAGE_HEADER_SIZE).subrange(0, 16) =~= image@.subrange(
                    offset as int,
                    offset + 16,
                ));
            }
            if calculate_checksum(hp.as_slice()) != info.image_header_checksum {
                return Err(FlashImageError::ImageHeaderChecksumMismatch(info.identifier));
            }
            proof {
                match images_check(image@, header, (i + 1) as nat) {
                    Ok(rest) => {
                        assert(infos@ + (seq![info] + rest) =~= infos@.push(info) + rest);
                    },
                    Err(e) => {},
                }
            }
            infos.push(info);
            i = i + 1;
        }
        proof {
            lemma_images_done(image@, header, i as nat);
        }
        assert(infos@ + Seq::<ImageHeader>::empty() =~= infos@);
        Ok(infos)
    }
}

/// Whether verifying these bytes stays within them: every image header that
/// the check reaches, and its image, lie within the bytes
/// (`verify_flash_image` asks for this).
pub fn flash_image_in_bounds(image: &[u8]) -> (r: bool)
    ensures
        r == flash_image_admits(image@),
{
    if image.len() < FLASH_HEADER_SIZE {
        return true;
    }
    let header = FlashHeader::from_bytes(image);
    if header.magic != FLASH_IMAGE_MAGIC_NUMBER || header.version != HEADER_VERSION {
        return true;
    }
    let p = header.prefix_bytes();
    if calculate_checksum(p.as_slice()) != header.header_checksum {
        return true;
    }
    assert(image@.len() == image.len());
    assert(flash_image_admits(image@) == images_admit(image@, header, 0));
    let len = image.len() as u64;
    let mut i: usize = 0;
    while i < header.image_count as usize
        invariant
            i <= header.image_count,
            image@.len() == image.len(),
            len == image@.len(),
            header == flash_header_of(image@),
            flash_image_admits(image@) == images_admit(image@, header, i as nat),
        decreases header.image_count - i,
    {
        proof {
            lemma_images_step(image@, header, i as nat);
        }
        let offset = header.image_headers_offset as u64 + 20 * (i as u64);
        assert(offset == info_offset(header, i as int));
        if offset + 20 > len {
            return false;
        }
        let off = offset as usize;
        let info = ImageHeader::from_bytes_at(image, off);
        assert(info == info_at(image@, header, i as int));
        if info.offset as u64 + info.size as u64 > len {
            return false;
        }
        let start = info.offset as usize;
        let end = start + info.size as usize;
        let data = vstd::slice::slice_subrange(image, start, end);
        assert(data@ == info_data(image@, info));
        if calculate_checksum(data) != info.image_checksum {
            return true;
        }
        let hp = info.prefix_bytes();
        proof {
            lemma_image_header_canonical(image@.subrange(off as int, off + IMAGE_HEADER_SIZE));
            assert(image@.subrange(off as int, off + IMAGE_HEADER_SIZE).subrange(0, 16) =~= image@.subrange(
                off as int,
                off + 16,
            ));
        }
        if calculate_checksum(hp.as_slice()) != info.image_header_checksum {
            return true;
        }
        i = i + 1;
    }
    proof {
        lemma_images_done(image@, header, i as nat);
    }
    true
}

/// One step of the check of the image headers.
proof fn lemma_images_step(image: Seq<u8>, h: FlashHeader, i: nat)
    requires
        i < h.image_count,
    ensures
        images_check(image, h, i) == ({
            let info = info_at(image, h, i as int);
            if checksum(info_data(image, info)) != info.image_checksum {
                Err(FlashImageError::ImageChecksumMismatch(info.identifier))
            } else if checksum(image.subrange(info_offset(h, i as int), info_offset(h, i as int) + 16))
                != info.image_header_checksum {
                Err(FlashImageError::ImageHeaderChecksumMismatch(info.identifier))
            } else {
                match images_check(image, h, i + 1) {
                    Ok(rest) => Ok(seq![info] + rest),
                    Err(e) => Err(e),
                }
            }
        }),
        images_admit(image, h, i) == (info_in_bounds(image, h, i as int) && ({
            let info = info_at(image, h, i as int);
            checksum(info_data(image, info)) == info.image_checksum && checksum(
                image.subrange(info_offset(h, i as int), info_offset(h, i as int) + 16),
            ) == info.image_header_checksum
        } ==> images_admit(image, h, i + 1))),
{
    reveal(images_check);
    reveal(images_admit);
}

/// The check of the image headers ends after the last one.
proof fn lemma_images_done(image: Seq<u8>, h: FlashHeader, i: nat)
    requires
        i >= h.image_count,
    ensures
        images_check(image, h, i) == Ok::<Seq<ImageHeader>, FlashImageError>(Seq::empty()),
        images_admit(image, h, i),
{
    reveal(images_check);
    reveal(images_admit);
}

/// The prefix of the header read from 20 bytes is their first 16 bytes.
pub proof fn lemma_image_header_canonical(s: Seq<u8>)
    requires
        s.len() == IMAGE_HEADER_SIZE,
    ensures
        image_header_prefix(image_header_of(s)) == s.subrange(0, 16),
{
    lemma_from_le4(s.subrange(0, 4));
    lemma_from_le4(s.subrange(4, 8));
    lemma_from_le4(s.subrange(8, 12));
    lemma_from_le4(s.subrange(12, 16));
    assert(image_header_prefix(image_header_of(s)) =~= s.subrange(0, 16));
}

/// The image headers lie one after another, 20 bytes each.
#[verifier::spinoff_prover]
proof fn lemma_infos_bytes(infos: Seq<ImageHeader>, i: int)
    ensures
        infos_bytes(infos).len() == IMAGE_HEADER_SIZE * infos.len(),
        0 <= i < infos.len() ==> infos_bytes(infos).subrange(
            IMAGE_HEADER_SIZE * i,
            IMAGE_HEADER_SIZE * i + IMAGE_HEADER_SIZE,
        ) == image_header_bytes(infos[i]),
    decreases infos.len(),
{
    if infos.len() > 0 {
        let init = infos.drop_last();
        lemma_infos_bytes(init, i);
        lemma_image_header_bytes(infos.last(), Seq::empty());
        assert(image_header_bytes(infos.last()) + Seq::<u8>::empty() =~= image_header_bytes(infos.last()));
        if 0 <= i < infos.len() {
            let all = infos_bytes(infos);
            if i < init.len() {
                assert(all.subrange(IMAGE_HEADER_SIZE * i, IMAGE_HEADER_SIZE * i + IMAGE_HEADER_SIZE)
                    =~= infos_bytes(init).subrange(IMAGE_HEADER_SIZE * i, IMAGE_HEADER_SIZE * i + IMAGE_HEADER_SIZE));
            } else {
                assert(all.subrange(IMAGE_HEADER_SIZE * i, IMAGE_HEADER_SIZE * i + IMAGE_HEADER_SIZE)
                    =~= image_header_bytes(infos.last()));
            }
        }
    }
}

/// The images lie one after another.
#[verifier::spinoff_prover]
proof fn lemma_images_bytes<'a>(images: Seq<FirmwareImage<'a>>, i: int)
    ensures
        images_bytes(images).len() == data_total(images),
        0 <= i < images.len() ==> images_bytes(images).subrange(
            data_total(images.take(i)) as int,
            (data_total(images.take(i)) + images[i].data@.len()) as int,
        ) == images[i].data@,
    decreases images.len(),
{
    if images.len() > 0 {
        let init = images.drop_last();
        lemma_images_bytes(init, i);
        if 0 <= i < images.len() {
            let all = images_bytes(images);
            if i < init.len() {
                assert(images.take(i) =~= init.take(i));
                lemma_data_total_prefix(init, i + 1);
                lemma_data_total_push(init, i);
                assert(all.subrange(data_total(images.take(i)) as int, (data_total(images.take(i)) + images[i].data@.len()) as int)
                    =~= images_bytes(init).subrange(data_total(init.take(i)) as int, (data_total(init.take(i)) + init[i].data@.len()) as int));
            } else {
                assert(images.take(i) =~= init);
                assert(all.subrange(data_total(images.take(i)) as int, (data_total(images.take(i)) + images[i].data@.len()) as int)
                    =~= images.last().data@);
            }
        }
    }
}

/// The headers that `generate_image_info` gives the images.
pub open spec fn generated_infos<'a>(images: Seq<FirmwareImage<'a>>) -> Seq<ImageHeader> {
    Seq::new(images.len(), |i: int| image_info_for(images, i))
}

/// The bytes of the flash image made from the images and their generated
/// headers.
pub open spec fn created_image_bytes<'a>(images: Seq<FirmwareImage<'a>>) -> Seq<u8> {
    flash_header_bytes(new_flash_header(images.len() as u16)) + infos_bytes(generated_infos(images))
        + images_bytes(images)
}

#[verifier::spinoff_prover]
proof fn lemma_check_from<'a>(images: Seq<FirmwareImage<'a>>, k: nat)
    requires
        images_fit(images),
        images.len() <= u16::MAX,
        k <= images.len(),
    ensures
        images_admit(created_image_bytes(images), new_flash_header(images.len() as u16), k),
        images_check(created_image_bytes(images), new_flash_header(images.len() as u16), k) == Ok::<
            Seq<ImageHeader>,
            FlashImageError,
        >(generated_infos(images).skip(k as int)),
    decreases images.len() - k,
{
    let n = images.len();
    let h = new_flash_header(n as u16);
    let infos = generated_infos(images);
    let bytes = created_image_bytes(images);
    if k == n {
        lemma_images_done(bytes, h, k);
        assert(infos.skip(k as int) =~= Seq::<ImageHeader>::empty());
    } else {
        lemma_check_from(images, k + 1);
        lemma_images_step(bytes, h, k);
        let hb = flash_header_bytes(h);
        let ib = infos_bytes(infos);
        let db = images_bytes(images);
        lemma_flash_header_bytes(h, Seq::empty());
        lemma_infos_bytes(infos, k as int);
        lemma_images_bytes(images, k as int);
        let off = info_offset(h, k as int);
        assert(off == FLASH_HEADER_SIZE + IMAGE_HEADER_SIZE * k);
        assert(bytes.subrange(off, off + IMAGE_HEADER_SIZE) =~= ib.subrange(
            IMAGE_HEADER_SIZE * k,
            IMAGE_HEADER_SIZE * k + IMAGE_HEADER_SIZE,
        ));
        let info = infos[k as int];
        lemma_image_header_bytes(info, Seq::empty());
        assert(image_header_bytes(info) + Seq::<u8>::empty() =~= image_header_bytes(info));
        assert(info_at(bytes, h, k as int) == info);
        lemma_data_total_prefix(images, k as int);
        lemma_data_total_push(images, k as int);
        lemma_data_total_prefix(images, (k + 1) as int);
        let start = image_offset(images, k as int);
        assert(info.offset == start);
        assert(info.size == images[k as int].data@.len());
        assert(info_data(bytes, info) =~= db.subrange(
            data_total(images.take(k as int)) as int,
            (data_total(images.take(k as int)) + images[k as int].data@.len()) as int,
        ));
        assert(bytes.subrange(off, off + 16) =~= image_header_bytes(info).subrange(0, 16));
        assert(image_header_bytes(info).subrange(0, 16) =~= image_header_prefix(info));
        assert(seq![info] + infos.skip((k + 1) as int) =~= infos.skip(k as int));
    }
}

/// A flash image made from images (at most 65535 of them, all addressable
/// with 32 bits) with the headers that `generate_image_info` gives them
/// passes verification, which gives back those headers.
pub proof fn lemma_created_image_verifies<'a>(images: Seq<FirmwareImage<'a>>)
    requires
        images_fit(images),
        images.len() <= u16::MAX,
    ensures
        flash_image_admits(created_image_bytes(images)),
        check_flash_image(created_image_bytes(images)) == Ok::<Seq<ImageHeader>, FlashImageError>(
            generated_infos(images),
        ),
{
    let n = images.len();
    let h = new_flash_header(n as u16);
    let bytes = created_image_bytes(images);
    let rest = infos_bytes(generated_infos(images)) + images_bytes(images);
    assert(bytes =~= flash_header_bytes(h) + rest);
    lemma_flash_header_bytes(h, rest);
    lemma_check_from(images, 0);
    assert(generated_infos(images).skip(0) =~= generated_infos(images));
}

proof fn lemma_data_total_mono<'a>(images: Seq<FirmwareImage<'a>>, a: int, b: int)
    requires
        0 <= a <= b <= images.len(),
    ensures
        data_total(images.take(a)) <= data_total(images.take(b)),
{
    lemma_data_total_prefix(images.take(b), a);
    assert(images.take(b).take(a) =~= images.take(a));
}

proof fn lemma_byte_sum_update(s: Seq<u8>, j: int, x: u8)
    requires
        0 <= j < s.len(),
    ensures
        byte_sum(s.update(j, x)) + s[j] == byte_sum(s) + x,
    decreases s.len(),
{
    if j == s.len() - 1 {
        assert(s.update(j, x).drop_last() =~= s.drop_last());
    } else {
        lemma_byte_sum_update(s.drop_last(), j, x);
        assert(s.update(j, x).drop_last() =~= s.drop_last().update(j, x));
    }
}

/// Changing one byte changes the checksum.
proof fn lemma_checksum_update(s: Seq<u8>, j: int, x: u8)
    requires
        0 <= j < s.len(),
        x != s[j],
    ensures
        checksum(s.update(j, x)) != checksum(s),
{
    lemma_byte_sum_update(s, j, x);
    let a = byte_sum(s) as int;
    let b = byte_sum(s.update(j, x)) as int;
    assert(a % 0x1_0000_0000 != b % 0x1_0000_0000) by (nonlinear_arith)
        requires
            a >= 0,
            b >= 0,
            a != b,
            a - b < 256,
            b - a < 256,
    ;
}

/// Image header `k` of a created flash image and its image, as they stand
/// in the bytes.
proof fn lemma_created_layout<'a>(images: Seq<FirmwareImage<'a>>, k: int)
    requires
        images_fit(images),
        images.len() <= u16::MAX,
        0 <= k < images.len(),
    ensures
        info_at(created_image_bytes(images), new_flash_header(images.len() as u16), k) == generated_infos(images)[k],
        generated_infos(images)[k].offset == image_offset(images, k),
        generated_infos(images)[k].size == images[k].data@.len(),
        image_offset(images, k) + images[k].data@.len() <= created_image_bytes(images).len(),
        created_image_bytes(images).len() == FLASH_HEADER_SIZE + IMAGE_HEADER_SIZE * images.len() + data_total(images),
        info_data(created_image_bytes(images), generated_infos(images)[k]) == images[k].data@,
        created_image_bytes(images).subrange(
            info_offset(new_flash_header(images.len() as u16), k),
            info_offset(new_flash_header(images.len() as u16), k) + 16,
        ) == image_header_prefix(generated_infos(images)[k]),
{
    let n = images.len();
    let h = new_flash_header(n as u16);
    let infos = generated_infos(images);
    let bytes = created_image_bytes(images);
    let ib = infos_bytes(infos);
    let db = images_bytes(images);
    lemma_flash_header_bytes(h, Seq::empty());
    lemma_infos_bytes(infos, k);
    lemma_images_bytes(images, k);
    let off = info_offset(h, k);
    assert(bytes.subrange(off, off + IMAGE_HEADER_SIZE) =~= ib.subrange(
        IMAGE_HEADER_SIZE * k,
        IMAGE_HEADER_SIZE * k + IMAGE_HEADER_SIZE,
    ));
    let info = infos[k];
    lemma_image_header_bytes(info, Seq::empty());
    assert(image_header_bytes(info) + Seq::<u8>::empty() =~= image_header_bytes(info));
    lemma_data_total_prefix(images, k);
    lemma_data_total_push(images, k);
    lemma_data_total_prefix(images, k + 1);
    assert(info_data(bytes, info) =~= db.subrange(
        data_total(images.take(k)) as int,
        (data_total(images.take(k)) + images[k].data@.len()) as int,
    ));
    assert(bytes.subrange(off, off + 16) =~= image_header_bytes(info).subrange(0, 16));
    assert(image_header_bytes(info).subrange(0, 16) =~= image_header_prefix(info));
}

/// One changed byte past an image header leaves the header as it reads, and
/// changes the checksum of the image data exactly when it lies in them.
proof fn lemma_changed_byte(bytes: Seq<u8>, h: FlashHeader, info: ImageHeader, k: int, p: int, x: u8, target: bool)
    requires
        0 <= p < bytes.len(),
        x != bytes[p],
        0 <= info_offset(h, k),
        info_offset(h, k) + IMAGE_HEADER_SIZE <= p,
        info_at(bytes, h, k) == info,
        info.offset + info.size <= bytes.len(),
        checksum(info_data(bytes, info)) == info.image_checksum,
        checksum(bytes.subrange(info_offset(h, k), info_offset(h, k) + 16)) == info.image_header_checksum,
        target ==> info.offset <= p < info.offset + info.size,
        !target ==> info.offset + info.size <= p,
    ensures
        ({
            let t = bytes.update(p, x);
            let off = info_offset(h, k);
            &&& info_in_bounds(t, h, k)
            &&& info_at(t, h, k) == info
            &&& checksum(t.subrange(off, off + 16)) == info.image_header_checksum
            &&& !target ==> checksum(info_data(t, info)) == info.image_checksum
            &&& target ==> checksum(info_data(t, info)) != info.image_checksum
        }),
{
    let t = bytes.update(p, x);
    let off = info_offset(h, k);
    assert(t.subrange(off, off + IMAGE_HEADER_SIZE) =~= bytes.subrange(off, off + IMAGE_HEADER_SIZE));
    assert(t.subrange(off, off + 16) =~= bytes.subrange(off, off + 16));
    let d = info_data(bytes, info);
    if target {
        assert(info_data(t, info) =~= d.update(p - info.offset, x));
        lemma_checksum_update(d, p - info.offset, x);
    } else {
        assert(info_data(t, info) =~= d);
    }
}

/// Image header `k` of a created image and its image, placed before the data
/// of image `i` (or at it, for `k == i`), with both checksums holding.
#[verifier::spinoff_prover]
proof fn lemma_created_facts<'a>(images: Seq<FirmwareImage<'a>>, i: int, k: int)
    requires
        images_fit(images),
        images.len() <= u16::MAX,
        0 <= k <= i < images.len(),
    ensures
        ({
            let h = new_flash_header(images.len() as u16);
            let bytes = created_image_bytes(images);
            let info = generated_infos(images)[k];
            let off = info_offset(h, k);
            &&& 0 <= off
            &&& off + IMAGE_HEADER_SIZE <= image_offset(images, i)
            &&& info_at(bytes, h, k) == info
            &&& info.offset + info.size <= bytes.len()
            &&& checksum(info_data(bytes, info)) == info.image_checksum
            &&& checksum(bytes.subrange(off, off + 16)) == info.image_header_checksum
            &&& k < i ==> info.offset + info.size <= image_offset(images, i)
            &&& k == i ==> info.offset == image_offset(images, i) && info.size == images[i].data@.len()
        }),
{
    lemma_created_layout(images, k);
    lemma_data_total_mono(images, k, i);
    lemma_data_total_prefix(images, k);
    if k < i {
        lemma_data_total_push(images, k);
        lemma_data_total_mono(images, k + 1, i);
    }
}

/// Image header `k` reads as `info` in the bytes, lies before `bound`, and
/// both its checksums hold.
pub open spec fn sound_header(bytes: Seq<u8>, h: FlashHeader, info: ImageHeader, k: int, bound: int) -> bool {
    let off = info_offset(h, k);
    &&& 0 <= off
    &&& off + IMAGE_HEADER_SIZE <= bound
    &&& info_at(bytes, h, k) == info
    &&& info.offset + info.size <= bytes.len()
    &&& checksum(info_data(bytes, info)) == info.image_checksum
    &&& checksum(bytes.subrange(off, off + 16)) == info.image_header_checksum
}

/// The check from header `k` fails when one byte of the data of image `i`
/// (at or after `k`) is changed, and every header up to `i` is sound with
/// its image before the changed byte (image `i` holding it).
proof fn lemma_tamper_from(bytes: Seq<u8>, h: FlashHeader, infos: Seq<ImageHeader>, i: int, p: int, x: u8, k: int, bound: int)
    requires
        0 <= k <= i < h.image_count,
        i < infos.len(),
        0 <= p < bytes.len(),
        x != bytes[p],
        bound <= p,
        forall|kk: int| k <= kk <= i ==> #[trigger] sound_header(bytes, h, infos[kk], kk, bound),
        forall|kk: int| k <= kk < i ==> #[trigger] infos[kk].offset + infos[kk].size <= bound,
        infos[i].offset <= p < infos[i].offset + infos[i].size,
    ensures
        images_check(bytes.update(p, x), h, k as nat) is Err,
    decreases i - k,
{
    let t = bytes.update(p, x);
    assert(sound_header(bytes, h, infos[k], k, bound));
    if k < i {
        assert(infos[k].offset + infos[k].size <= bound);
    }
    lemma_changed_byte(bytes, h, infos[k], k, p, x, k == i);
    lemma_images_step(t, h, k as nat);
    if k < i {
        lemma_tamper_from(bytes, h, infos, i, p, x, k + 1, bound);
    }
}

/// Tamper detection: changing any one byte of the data of an image in a
/// created flash image makes verification fail.
#[verifier::spinoff_prover]
pub proof fn lemma_tampered_image_fails<'a>(images: Seq<FirmwareImage<'a>>, i: int, p: int, x: u8)
    requires
        images_fit(images),
        images.len() <= u16::MAX,
        0 <= i < images.len(),
        image_offset(images, i) <= p < image_offset(images, i) + images[i].data@.len(),
        x != created_image_bytes(images)[p],
    ensures
        check_flash_image(created_image_bytes(images).update(p, x)) is Err,
{
    let h = new_flash_header(images.len() as u16);
    let bytes = created_image_bytes(images);
    let infos = generated_infos(images);
    let bound = image_offset(images, i) as int;
    lemma_tamper_prerequisites(images, i);
    lemma_header_kept(images, p, x);
    lemma_tamper_from(bytes, h, infos, i, p, x, 0, bound);
}

/// Every image header of a created image up to image `i` is sound, with its
/// image before image `i`.
#[verifier::spinoff_prover]
proof fn lemma_tamper_prerequisites<'a>(images: Seq<FirmwareImage<'a>>, i: int)
    requires
        images_fit(images),
        images.len() <= u16::MAX,
        0 <= i < images.len(),
    ensures
        forall|kk: int|
            0 <= kk <= i ==> #[trigger] sound_header(
                created_image_bytes(images),
                new_flash_header(images.len() as u16),
                generated_infos(images)[kk],
                kk,
                image_offset(images, i) as int,
            ),
        forall|kk: int|
            0 <= kk < i ==> #[trigger] generated_infos(images)[kk].offset + generated_infos(images)[kk].size
                <= image_offset(images, i),
        generated_infos(images)[i].offset == image_offset(images, i),
        generated_infos(images)[i].size == images[i].data@.len(),
        new_flash_header(images.len() as u16).image_count == images.len(),
        generated_infos(images).len() == images.len(),
        FLASH_HEADER_SIZE <= image_offset(images, i),
        image_offset(images, i) + images[i].data@.len() <= created_image_bytes(images).len(),
{
    let h = new_flash_header(images.len() as u16);
    let bytes = created_image_bytes(images);
    let infos = generated_infos(images);
    let bound = image_offset(images, i) as int;
    assert forall|kk: int| 0 <= kk <= i implies #[trigger] sound_header(bytes, h, infos[kk], kk, bound) by {
        lemma_created_facts(images, i, kk);
    }
    assert forall|kk: int| 0 <= kk < i implies #[trigger] infos[kk].offset + infos[kk].size <= bound by {
        lemma_created_facts(images, i, kk);
    }
    lemma_created_facts(images, i, i);
    lemma_created_layout(images, i);
}

/// Changing a byte past the flash header keeps the header, which passes its
/// checks: verification goes on to the image headers.
#[verifier::spinoff_prover]
proof fn lemma_header_kept<'a>(images: Seq<FirmwareImage<'a>>, p: int, x: u8)
    requires
        images_fit(images),
        images.len() <= u16::MAX,
        FLASH_HEADER_SIZE <= p < created_image_bytes(images).len(),
    ensures
        check_flash_image(created_image_bytes(images).update(p, x)) == images_check(
            created_image_bytes(images).update(p, x),
            new_flash_header(images.len() as u16),
            0,
        ),
{
    let h = new_flash_header(images.len() as u16);
    let bytes = created_image_bytes(images);
    let t = bytes.update(p, x);
    let rest = infos_bytes(generated_infos(images)) + images_bytes(images);
    assert(bytes =~= flash_header_bytes(h) + rest);
    lemma_flash_header_bytes(h, rest);
    assert(t.subrange(0, 4) =~= bytes.subrange(0, 4));
    assert(t.subrange(4, 6) =~= bytes.subrange(4, 6));
    assert(t.subrange(6, 8) =~= bytes.subrange(6, 8));
    assert(t.subrange(8, 12) =~= bytes.subrange(8, 12));
    assert(t.subrange(12, 16) =~= bytes.subrange(12, 16));
    assert(flash_header_of(t) == flash_header_of(bytes));
}

/// The images of a flash image in their order: the Caliptra firmware, the
/// SoC manifest, the MCU runtime (each when given), then the SoC images with
/// identifiers counting up from `SOC_IMAGES_BASE_IDENTIFIER`.
pub open spec fn image_list_views(
    caliptra_fw: Option<Seq<u8>>,
    soc_manifest: Option<Seq<u8>>,
    mcu_runtime: Option<Seq<u8>>,
    soc_images: Seq<Seq<u8>>,
) -> Seq<(u32, Seq<u8>)> {
    let opt = |id: u32, d: Option<Seq<u8>>|
        match d {
            Some(b) => seq![(id, b)],
            None => Seq::<(u32, Seq<u8>)>::empty(),
        };
    opt(CALIPTRA_FMC_RT_IDENTIFIER, caliptra_fw) + opt(SOC_MANIFEST_IDENTIFIER, soc_manifest) + opt(
        MCU_RT_IDENTIFIER,
        mcu_runtime,
    ) + Seq::new(soc_images.len(), |k: int| ((SOC_IMAGES_BASE_IDENTIFIER + k) as u32, soc_images[k]))
}

/// The identifier and bytes of each image.
pub open spec fn image_views<'a>(images: Seq<FirmwareImage<'a>>) -> Seq<(u32, Seq<u8>)> {
    Seq::new(images.len(), |i: int| (images[i].identifier, images[i].data@))
}

/// The contents of an optional file.
pub open spec fn opt_bytes(v: &Option<Vec<u8>>) -> Option<Seq<u8>> {
    match v {
        Some(b) => Some(b@),
        None => None,
    }
}

/// The contents of the SoC image files.
pub open spec fn soc_views(v: &Option<Vec<Vec<u8>>>) -> Seq<Seq<u8>> {
    match v {
        Some(files) => Seq::new(files@.len(), |k: int| files@[k]@),
        None => Seq::empty(),
    }
}

/// The images of a flash image built from the contents of its files (see
/// `image_list_views`); the SoC image identifiers must stay within 32 bits.
pub fn firmware_images<'a>(
    caliptra_fw: &'a Option<Vec<u8>>,
    soc_manifest: &'a Option<Vec<u8>>,
    mcu_runtime: &'a Option<Vec<u8>>,
    soc_images: &'a Option<Vec<Vec<u8>>>,
) -> (r: Vec<FirmwareImage<'a>>)
    requires
        soc_views(soc_images).len() <= u32::MAX - SOC_IMAGES_BASE_IDENTIFIER,
    ensures
        image_views(r@) == image_list_views(
            opt_bytes(caliptra_fw),
            opt_bytes(soc_manifest),
            opt_bytes(mcu_runtime),
            soc_views(soc_images),
        ),
{
    let ghost target = image_list_views(
        opt_bytes(caliptra_fw),
        opt_bytes(soc_manifest),
        opt_bytes(mcu_runtime),
        soc_views(soc_images),
    );
    let mut images: Vec<FirmwareImage<'a>> = Vec::new();
    match caliptra_fw {
        Some(content) => images.push(FirmwareImage { identifier: CALIPTRA_FMC_RT_IDENTIFIER, data: content.as_slice() }),
        None => {},
    }
    match soc_manifest {
        Some(content) => images.push(FirmwareImage { identifier: SOC_MANIFEST_IDENTIFIER, data: content.as_slice() }),
        None => {},
    }
    match mcu_runtime {
        Some(content) => images.push(FirmwareImage { identifier: MCU_RT_IDENTIFIER, data: content.as_slice() }),
        None => {},
    }
    let ghost fixed = image_views(images@);
    let ghost socs = soc_views(soc_images);
    assert(fixed =~= target.take(fixed.len() as int));
    match soc_images {
        Some(files) => {
            let mut identifier = SOC_IMAGES_BASE_IDENTIFIER;
            let mut k: usize = 0;
            while k < files.len()
                invariant
                    k <= files@.len(),
                    files@.len() <= u32::MAX - SOC_IMAGES_BASE_IDENTIFIER,
                    socs == Seq::new(files@.len(), |j: int| files@[j]@),
                    identifier == SOC_IMAGES_BASE_IDENTIFIER + k,
                    image_views(images@) == fixed + Seq::new(k as nat, |j: int| ((SOC_IMAGES_BASE_IDENTIFIER + j) as u32, socs[j])),
                decreases files@.len() - k,
            {
                let ghost before = images@;
                let d = files[k].as_slice();
                assert(d@ == socs[k as int]);
                images.push(FirmwareImage { identifier, data: d });
                assert(images@ =~= before.push(FirmwareImage { identifier, data: d }));
                assert(image_views(images@) =~= image_views(before).push((identifier, socs[k as int])));
                assert(image_views(images@) =~= fixed + Seq::new((k + 1) as nat, |j: int| ((SOC_IMAGES_BASE_IDENTIFIER + j) as u32, socs[j])));
                identifier = identifier + 1;
                k = k + 1;
            }
            assert(image_views(images@) =~= target);
        },
        None => {
            assert(image_views(images@) =~= target);
        },
    }
    images
}

/// The bytes of the flash image of the images: the header, the headers that
/// `generate_image_info` gives them, and the images.
pub fn flash_image_create<'a>(images: &[FirmwareImage<'a>]) -> (r: Vec<u8>)
    requires
        images_fit(images@),
    ensures
        r@ == created_image_bytes(images@),
{
    let mut list: Vec<FirmwareImage<'a>> = Vec::new();
    let mut i: usize = 0;
    while i < images.len()
        invariant
            i <= images@.len(),
            list@ == images@.take(i as int),
        decreases images@.len() - i,
    {
        list.push(images[i]);
        assert(list@ =~= images@.take(i + 1));
        i = i + 1;
    }
    assert(list@ =~= images@);
    let info = generate_image_info(list);
    assert(info@ =~= generated_infos(images@));
    let flash_image = FlashImage::new(images, info.as_slice());
    flash_image.to_bytes()
}

/// Pads the contents of an image file with zeros to a multiple of four
/// bytes.
pub fn pad_image_data(buffer: &mut Vec<u8>)
    ensures
        final(buffer)@.len() == old(buffer)@.len() + (4 - old(buffer)@.len() % 4) % 4,
        final(buffer)@.len() % 4 == 0,
        final(buffer)@.subrange(0, old(buffer)@.len() as int) == old(buffer)@,
        forall|i: int| old(buffer)@.len() <= i < final(buffer)@.len() ==> #[trigger] final(buffer)@[i] == 0,
{
    let ghost b0 = buffer@;
    let pad = (4 - buffer.len() % 4) % 4;
    let mut k: usize = 0;
    while k < pad
        invariant
            k <= pad,
            pad == (4 - b0.len() % 4) % 4,
            buffer@.len() == b0.len() + k,
            buffer@.subrange(0, b0.len() as int) == b0,
            forall|i: int| b0.len() <= i < buffer@.len() ==> #[trigger] buffer@[i] == 0,
        decreases pad - k,
    {
        buffer.push(0);
        assert(buffer@.subrange(0, b0.len() as int) =~= b0);
        k = k + 1;
    }
}

} // verus!
