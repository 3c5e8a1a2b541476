use mcu_common::builder::{ImageCfg, ImageCfgError};

#[test]
fn image_cfg_parses_five_fields() {
    let cfg = ImageCfg::parse("img.bin,0x1000,0x2000,5,1").unwrap();
    assert_eq!(cfg.path, "img.bin");
    assert_eq!(cfg.load_addr, 0x1000);
    assert_eq!(cfg.staging_addr, 0x2000);
    assert_eq!(cfg.image_id, 5);
    assert_eq!(cfg.exec_bit, 1);
}

#[test]
fn image_cfg_accepts_bare_hex_repeated_prefixes_and_plus_signs() {
    let cfg = ImageCfg::parse(",0x0xaB,Ff,+3,0").unwrap();
    assert_eq!(cfg.path, "");
    assert_eq!(cfg.load_addr, 0xab);
    assert_eq!(cfg.staging_addr, 0xff);
    assert_eq!(cfg.image_id, 3);
    assert_eq!(cfg.exec_bit, 0);
    let max = ImageCfg::parse("p,ffffffffffffffff,0,4294967295,0").unwrap();
    assert_eq!(max.load_addr, u64::MAX);
    assert_eq!(max.image_id, u32::MAX);
}

#[test]
fn image_cfg_reports_the_first_bad_field() {
    assert_eq!(ImageCfg::parse("a,b").unwrap_err(), ImageCfgError::FieldCount);
    assert_eq!(ImageCfg::parse("a,1,2,3,4,5").unwrap_err(), ImageCfgError::FieldCount);
    assert_eq!(ImageCfg::parse("").unwrap_err(), ImageCfgError::FieldCount);
    assert_eq!(ImageCfg::parse("a,zz,0,1,1").unwrap_err(), ImageCfgError::LoadAddr);
    assert_eq!(
        ImageCfg::parse("a,10000000000000000,0,0,0").unwrap_err(),
        ImageCfgError::LoadAddr
    );
    assert_eq!(ImageCfg::parse("a,1,0x,1,1").unwrap_err(), ImageCfgError::StagingAddr);
    assert_eq!(ImageCfg::parse("a,1,1,-1,1").unwrap_err(), ImageCfgError::ImageId);
    assert_eq!(ImageCfg::parse("a,1,1,1, 1").unwrap_err(), ImageCfgError::ExecBit);
    assert_eq!(
        ImageCfg::parse("a,1,1,1,4294967296").unwrap_err(),
        ImageCfgError::ExecBit
    );
    assert_eq!(ImageCfg::parse("a,+,1,1,1").unwrap_err(), ImageCfgError::LoadAddr);
}

#[test]
fn image_cfg_default_is_empty() {
    let cfg = ImageCfg::default();
    assert!(cfg.path.is_empty());
    assert_eq!(cfg.load_addr, 0);
    assert_eq!(cfg.exec_bit, 0);
}

#[test]
fn image_cfg_from_str_parses() {
    let cfg: ImageCfg = "soc.bin,0x40,0x80,2,1".parse().unwrap();
    assert_eq!(cfg.load_addr, 0x40);
    assert!("soc.bin".parse::<ImageCfg>().is_err());
}
