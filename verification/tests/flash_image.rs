use mcu_common::flash_image::{
    calculate_checksum, firmware_images, flash_image_in_bounds, flash_image_create, generate_image_info, pad_image_data,
    FirmwareImage, FlashHeader, FlashImage, FlashImageError, ImageHeader,
    CALIPTRA_FMC_RT_IDENTIFIER, FLASH_HEADER_SIZE, FLASH_IMAGE_MAGIC_NUMBER, HEADER_VERSION,
    IMAGE_HEADER_SIZE, MCU_RT_IDENTIFIER, SOC_IMAGES_BASE_IDENTIFIER, SOC_MANIFEST_IDENTIFIER,
};

fn padded(content: &[u8]) -> Vec<u8> {
    let mut v = content.to_vec();
    pad_image_data(&mut v);
    v
}

#[test]
fn test_flash_image_build() {
    let caliptra_fw_content = b"Caliptra Firmware Data - ABCDEFGH";
    let soc_manifest_content = b"Soc Manifest Data - 123456789";
    let mcu_runtime_content = b"MCU Runtime Data - QWERTYUI";
    let soc_image1_content = b"Soc Image 1 Data - ZXCVBNMLKJ";
    let soc_image2_content = b"Soc Image 2 Data - POIUYTREWQ";

    let caliptra_fw = Some(padded(caliptra_fw_content));
    let soc_manifest = Some(padded(soc_manifest_content));
    let mcu_runtime = Some(padded(mcu_runtime_content));
    let soc_images = Some(vec![padded(soc_image1_content), padded(soc_image2_content)]);

    let images = firmware_images(&caliptra_fw, &soc_manifest, &mcu_runtime, &soc_images);
    let data = flash_image_create(&images);

    let header = FlashHeader::from_bytes(&data[..FLASH_HEADER_SIZE]);
    assert_eq!(header.magic, FLASH_IMAGE_MAGIC_NUMBER);
    assert_eq!(header.version, HEADER_VERSION);
    assert_eq!(header.image_count, 5);

    let calculated_header_checksum = calculate_checksum(&data[0..12]);
    assert_eq!(header.header_checksum, calculated_header_checksum);

    let expected_images: Vec<(u32, &[u8])> = vec![
        (CALIPTRA_FMC_RT_IDENTIFIER, caliptra_fw_content),
        (SOC_MANIFEST_IDENTIFIER, soc_manifest_content),
        (MCU_RT_IDENTIFIER, mcu_runtime_content),
        (SOC_IMAGES_BASE_IDENTIFIER, soc_image1_content),
        (SOC_IMAGES_BASE_IDENTIFIER + 1, soc_image2_content),
    ];
    let mut image_headers = Vec::new();
    for i in 0..header.image_count as usize {
        let offset = header.image_headers_offset as usize + IMAGE_HEADER_SIZE * i;
        let image_header = ImageHeader::from_bytes_at(&data, offset);
        assert_eq!(image_header.identifier, expected_images[i].0);
        assert_eq!(
            image_header.size as usize,
            expected_images[i].1.len().next_multiple_of(4)
        );
        image_headers.push(image_header);
    }

    for (i, header) in image_headers.iter().enumerate() {
        let actual_data =
            &data[header.offset as usize..header.offset as usize + header.size as usize];
        assert_eq!(
            &actual_data[..expected_images[i].1.len()],
            expected_images[i].1
        );
    }
}

#[test]
fn test_flash_image_verify_happy_path() {
    let expected_images = [
        FirmwareImage {
            identifier: CALIPTRA_FMC_RT_IDENTIFIER,
            data: b"Caliptra Firmware Data - ABCDEFGH",
        },
        FirmwareImage {
            identifier: SOC_MANIFEST_IDENTIFIER,
            data: b"Soc Manifest Data - 123456789",
        },
        FirmwareImage {
            identifier: MCU_RT_IDENTIFIER,
            data: b"MCU Runtime Data - QWERTYUI",
        },
        FirmwareImage {
            identifier: SOC_IMAGES_BASE_IDENTIFIER,
            data: b"Soc Image 1 Data - ZXCVBNMLKJ",
        },
        FirmwareImage {
            identifier: SOC_IMAGES_BASE_IDENTIFIER + 1,
            data: b"Soc Image 2 Data - POIUYTREWQ",
        },
    ];
    let image_info = generate_image_info(expected_images.to_vec());
    let flash_image = FlashImage::new(&expected_images, &image_info);
    let bytes = flash_image.to_bytes();

    let result = FlashImage::verify_flash_image(&bytes);
    let infos = result.expect("a created flash image verifies");
    assert_eq!(infos.len(), 5);
    assert_eq!(infos[3].identifier, SOC_IMAGES_BASE_IDENTIFIER);
}

#[test]
fn test_flash_image_verify_corrupted_case() {
    let images = [
        FirmwareImage {
            identifier: CALIPTRA_FMC_RT_IDENTIFIER,
            data: b"Valid Caliptra Firmware Data",
        },
        FirmwareImage {
            identifier: SOC_MANIFEST_IDENTIFIER,
            data: b"Valid SOC Manifest Data",
        },
    ];
    let image_info = generate_image_info(images.to_vec());
    let flash_image = FlashImage::new(&images, &image_info);
    let mut bytes = flash_image.to_bytes();

    let corrupt = b"Corrupted Data";
    bytes[..corrupt.len()].copy_from_slice(corrupt);

    let result = FlashImage::verify_flash_image(&bytes);
    assert!(
        result.is_err(),
        "Expected verification to fail for corrupted firmware image"
    );
}

#[test]
fn checksum_is_the_negated_byte_sum() {
    assert_eq!(calculate_checksum(&[]), 0);
    assert_eq!(calculate_checksum(&[1, 2, 3]), 0u32.wrapping_sub(6));
    assert_eq!(calculate_checksum(&[0xff; 4]), 0xffff_fc04);
}

#[test]
fn image_info_places_images_after_the_headers() {
    let images = [
        FirmwareImage::new(7, b"abcd").unwrap(),
        FirmwareImage::new(9, b"efghij").unwrap(),
    ];
    let info = generate_image_info(images.to_vec());
    assert_eq!(info.len(), 2);
    assert_eq!(info[0].offset, 16 + 2 * 20);
    assert_eq!(info[1].offset, 16 + 2 * 20 + 4);
    assert_eq!(info[1].size, 6);
    assert_eq!(info[0].image_checksum, calculate_checksum(b"abcd"));
    assert!(info[0].verify());
    assert!(info[1].verify());
    let created = flash_image_create(&images);
    assert_eq!(created.len(), 16 + 40 + 10);
    assert!(FlashImage::verify_flash_image(&created).is_ok());
}

#[test]
fn verify_reports_each_error() {
    let images = [FirmwareImage::new(1, b"data").unwrap()];
    let good = flash_image_create(&images);

    assert_eq!(
        FlashImage::verify_flash_image(&good[..10]),
        Err(FlashImageError::ImageTooSmall)
    );

    let mut bad_magic = good.clone();
    bad_magic[0] ^= 1;
    assert_eq!(
        FlashImage::verify_flash_image(&bad_magic),
        Err(FlashImageError::InvalidMagic)
    );

    let mut bad_version = good.clone();
    bad_version[4] = 2;
    assert_eq!(
        FlashImage::verify_flash_image(&bad_version),
        Err(FlashImageError::UnsupportedVersion)
    );

    let mut bad_header = good.clone();
    bad_header[12] ^= 1;
    assert_eq!(
        FlashImage::verify_flash_image(&bad_header),
        Err(FlashImageError::HeaderChecksumMismatch)
    );

    let mut bad_data = good.clone();
    let last = bad_data.len() - 1;
    bad_data[last] ^= 1;
    assert_eq!(
        FlashImage::verify_flash_image(&bad_data),
        Err(FlashImageError::ImageChecksumMismatch(1))
    );

    let mut bad_info = good.clone();
    bad_info[16 + 16] ^= 1;
    assert_eq!(
        FlashImage::verify_flash_image(&bad_info),
        Err(FlashImageError::ImageHeaderChecksumMismatch(1))
    );
}

#[test]
fn padding_fills_to_a_multiple_of_four() {
    let mut v = vec![1u8, 2, 3, 4, 5];
    pad_image_data(&mut v);
    assert_eq!(v, vec![1, 2, 3, 4, 5, 0, 0, 0]);
    let mut w = vec![1u8, 2, 3, 4];
    pad_image_data(&mut w);
    assert_eq!(w, vec![1, 2, 3, 4]);
}

#[test]
fn flash_header_round_trips_through_bytes() {
    let images = [FirmwareImage::new(3, b"xyzw").unwrap()];
    let bytes = flash_image_create(&images);
    let header = FlashHeader::from_bytes(&bytes);
    assert!(header.verify());
    assert_eq!(header.to_bytes(), bytes[..16].to_vec());
    let info = ImageHeader::from_bytes_at(&bytes, 16);
    assert_eq!(info.to_bytes(), bytes[16..36].to_vec());
}

#[test]
fn bounds_check_finds_images_outside_the_bytes() {
    let images = [FirmwareImage::new(1, b"data").unwrap()];
    let good = flash_image_create(&images);
    assert!(flash_image_in_bounds(&good));
    assert!(!flash_image_in_bounds(&good[..30]));
    assert!(!flash_image_in_bounds(&good[..38]));
    let mut bad_magic = good.clone();
    bad_magic[0] ^= 1;
    assert!(flash_image_in_bounds(&bad_magic[..20]));
    assert!(flash_image_in_bounds(&good[..8]));
}

#[test]
fn changing_any_data_byte_is_detected() {
    let images = [
        FirmwareImage::new(1, b"abcd").unwrap(),
        FirmwareImage::new(2, b"efghijkl").unwrap(),
    ];
    let good = flash_image_create(&images);
    for p in (16 + 40)..good.len() {
        let mut bad = good.clone();
        bad[p] ^= 0x80;
        let expected_id = if p < 16 + 40 + 4 { 1 } else { 2 };
        assert_eq!(
            FlashImage::verify_flash_image(&bad),
            Err(FlashImageError::ImageChecksumMismatch(expected_id))
        );
    }
}
