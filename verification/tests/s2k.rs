use thatsit::s2k::{
    akai2ascii, ascii2akai, characters, DataTypes, Device, DeviceDisk, DeviceModel, DiskSections,
};

#[test]
fn a_blank_disk_has_its_sections_at_their_offsets() {
    for device in [Device::s2000(), Device::s3000()] {
        let disk = device.create_blank_disk();
        assert_eq!(disk.model, device.model);
        assert_eq!(disk.data.len(), 1638400);
        assert_eq!(&disk.data[4736..4748], &[0x18, 0x19, 0x1E, 0x0A, 0x18, 0x0B, 0x17, 0x0F, 0x0E, 0x0A, 0x0A, 0x0A]);
        assert!(disk.data[5120..].iter().all(|b| *b == 0));
        assert_eq!(&disk.data[4748..4762], &device.model.dp4()[..14]);
    }
}

#[test]
fn the_header_names_the_model_in_each_record() {
    let header = DeviceModel::S2000.dp1();
    assert_eq!(header.len(), 1570);
    assert_eq!(header[16], 0xFF);
    assert_eq!(header[23], 17);
    assert_eq!(header[24 + 16], 0x00);
    assert_eq!(header[24 * 64 - 1], 17);
    assert_eq!(&header[24 * 64..24 * 64 + 4], &[0x00, 0x40, 0x00, 0x40]);
    let header = DeviceModel::S3000.dp1();
    assert_eq!(header[23], 16);
    assert_eq!(DeviceModel::S900.dp1()[23], 0);
}

#[test]
fn the_settings_differ_between_models() {
    let s2000 = DeviceModel::S2000.dp4();
    let s3000 = DeviceModel::S3000.dp4();
    assert_eq!(s2000.len(), 372);
    assert_eq!(&s2000[..14], &[0x00, 0x00, 0x00, 0x11, 0x00, 0x01, 0x01, 0x23, 0x00, 0x00, 0x32, 0x09, 0x0C, 0xFF]);
    assert_eq!(&s3000[..14], &[0x00, 0x00, 0x32, 0x10, 0x00, 0x01, 0x01, 0x00, 0x00, 0x00, 0x32, 0x09, 0x0C, 0xFF]);
    assert!(s3000[14..].iter().all(|b| *b == 0));
    assert_eq!(DeviceModel::S900.dp2().len(), 3166);
    assert_eq!(DeviceModel::S900.dp5().len(), 12288);
    assert_eq!(DeviceModel::S900.dp6().len(), 1620992);
}

#[test]
fn names_go_to_the_akai_character_set_and_back() {
    let name = ascii2akai(b"NOT NAMED   ".to_vec());
    assert_eq!(name, DeviceModel::S900.dp3());
    assert_eq!(akai2ascii(name), b"NOT NAMED   ".to_vec());
    assert_eq!(ascii2akai(b"09#+-.a".to_vec()), vec![0, 9, 37, 38, 39, 40, 10]);
    assert_eq!(akai2ascii(vec![0, 10, 11, 36, 41, 200]), b"0 AZ  ".to_vec());
    let chars = characters();
    for code in 0..41u8 {
        assert_eq!(akai2ascii(vec![code]), vec![chars[code as usize] as u8]);
    }
}

#[test]
fn file_kinds_have_their_numbers() {
    assert_eq!(DataTypes::Program.code(), 240);
    assert_eq!(DataTypes::Multi.code(), 2378);
    assert_eq!(DataTypes::Deleted.code(), 0);
}
