use idunsh::ultimate::{
    load_address, load_prg, load_step, mount_endpoint, request_failure, C64Ultimate, Device,
    DriveEntry, LoadStep, Rejection, Runner, UltiDrives, DRIVES,
};
use std::collections::HashMap;

fn device() -> C64Ultimate {
    C64Ultimate::new(Some(String::from("192.168.1.64")), None)
}

#[test]
fn configured_address_wins() {
    let both = C64Ultimate::new(Some(String::from("10.0.0.5")), Some(String::from("10.0.0.9")));
    assert_eq!(both.ip(), &Some(String::from("10.0.0.5")));
    let found = C64Ultimate::new(None, Some(String::from("10.0.0.9")));
    assert_eq!(found.ip(), &Some(String::from("10.0.0.9")));
    let none = C64Ultimate::new(None, None);
    assert_eq!(none.ip(), &None);
}

#[test]
fn urls() {
    assert_eq!(
        device().url(Runner::Prg.path()),
        Some(String::from("http://192.168.1.64/v1/runners:run_prg"))
    );
    assert_eq!(device().url(DRIVES), Some(String::from("http://192.168.1.64/v1/drives")));
    assert_eq!(C64Ultimate::new(None, None).url(DRIVES), None);
}

#[test]
fn runner_paths() {
    assert_eq!(Runner::Prg.path(), "/v1/runners:run_prg");
    assert_eq!(Runner::Crt.path(), "/v1/runners:run_crt");
    assert_eq!(Runner::Sid.path(), "/v1/runners:sidplay");
    assert_eq!(Runner::Mod.path(), "/v1/runners:modplay");
}

#[test]
fn load_address_is_little_endian() {
    assert_eq!(load_address(0x00, 0x20), 8192);
    assert_eq!(load_address(0x01, 0x08), 0x0801);
    assert_eq!(load_address(0xF0, 0xFF), 65520);
    assert_eq!(load_address(0xFF, 0xFF), 65535);
    assert_eq!(load_address(0, 0), 0);
}

#[test]
fn file_without_extension_is_a_program() {
    assert_eq!(device().load(&String::from("game")), LoadStep::ReadHeader);
    assert_eq!(load_prg(100, load_address(0x00, 0x20)), Ok(Runner::Prg));
}

#[test]
fn prg_extension_has_its_header_read() {
    assert_eq!(device().load(&String::from("game.prg")), LoadStep::ReadHeader);
    assert_eq!(device().load(&String::from("dir.d/GAME.PRG")), LoadStep::ReadHeader);
}

#[test]
fn media_files_skip_the_size_check() {
    assert_eq!(device().load(&String::from("big.crt")), LoadStep::Post(Runner::Crt));
    assert_eq!(device().load(&String::from("tune.SID")), LoadStep::Post(Runner::Sid));
    assert_eq!(device().load(&String::from("/music/tune.Mod")), LoadStep::Post(Runner::Mod));
}

#[test]
fn unknown_extension_is_rejected() {
    assert_eq!(
        device().load(&String::from("notes.txt")),
        LoadStep::Reject(Rejection::UnknownExtension)
    );
    assert_eq!(device().load(&String::from("image.d64")), LoadStep::Reject(Rejection::UnknownExtension));
    assert_eq!(device().load(&String::from("game.")), LoadStep::Reject(Rejection::UnknownExtension));
    assert_eq!(device().load(&String::from(".prg")), LoadStep::ReadHeader);
}

#[test]
fn steps_by_extension() {
    assert_eq!(load_step(None), LoadStep::ReadHeader);
    assert_eq!(load_step(Some("prg")), LoadStep::ReadHeader);
    assert_eq!(load_step(Some("crt")), LoadStep::Post(Runner::Crt));
    assert_eq!(load_step(Some("sid")), LoadStep::Post(Runner::Sid));
    assert_eq!(load_step(Some("mod")), LoadStep::Post(Runner::Mod));
    assert_eq!(load_step(Some("")), LoadStep::Reject(Rejection::UnknownExtension));
    assert_eq!(load_step(Some("PRG")), LoadStep::Reject(Rejection::UnknownExtension));
    assert_eq!(load_step(Some("prgx")), LoadStep::Reject(Rejection::UnknownExtension));
}

#[test]
fn oversized_program_is_rejected() {
    assert_eq!(load_prg(16, 0xFFF0), Err(Rejection::TooLarge));
    assert_eq!(load_prg(17, 0xFFF0), Err(Rejection::TooLarge));
    assert_eq!(load_prg(15, 0xFFF0), Ok(Runner::Prg));
    assert_eq!(load_prg(65535, 0), Ok(Runner::Prg));
    assert_eq!(load_prg(65536, 0), Err(Rejection::TooLarge));
    assert_eq!(load_prg(0, 65535), Ok(Runner::Prg));
    assert_eq!(load_prg(1, 65535), Err(Rejection::TooLarge));
    assert_eq!(load_prg(u64::MAX, 1), Err(Rejection::TooLarge));
    assert_eq!(load_prg(u64::MAX, 65535), Err(Rejection::TooLarge));
}

#[test]
fn mount_takes_disk_images_in_any_case() {
    assert_eq!(
        device().mount(&String::from("a:"), &String::from("image.D64")),
        Ok(String::from("/v1/drives/a:mount?type=d64"))
    );
    assert_eq!(
        device().mount(&String::from("b"), &String::from("/disks/Side.G71")),
        Ok(String::from("/v1/drives/bmount?type=g71"))
    );
    for ext in ["d64", "g64", "d71", "g71", "d81"] {
        assert_eq!(
            mount_endpoint("a:", Some(ext)),
            Ok(format!("/v1/drives/a:mount?type={}", ext))
        );
    }
}

#[test]
fn mount_rejects_everything_else() {
    assert_eq!(
        device().mount(&String::from("a:"), &String::from("image.iso")),
        Err(Rejection::UnknownImage)
    );
    assert_eq!(device().mount(&String::from("a:"), &String::from("image")), Err(Rejection::UnknownImage));
    assert_eq!(device().mount(&String::from("a:"), &String::from("game.prg")), Err(Rejection::UnknownImage));
    assert_eq!(mount_endpoint("a:", None), Err(Rejection::UnknownImage));
    assert_eq!(mount_endpoint("a:", Some("D64")), Err(Rejection::UnknownImage));
    assert_eq!(mount_endpoint("a:", Some("d82")), Err(Rejection::UnknownImage));
}

#[test]
fn texts_of_failures() {
    assert_eq!(Rejection::TooLarge.message(), "PRG file is too large");
    assert_eq!(Rejection::UnknownExtension.message(), "File extension not recognized");
    assert_eq!(Rejection::UnknownImage.message(), "Unrecognized disk image file type/");
    assert_eq!(
        request_failure("/v1/runners:run_prg"),
        "C64 Ultimate web request fail: /v1/runners:run_prg"
    );
}

#[test]
fn drives_report_holds_devices_by_slot() {
    let mut devices = HashMap::new();
    devices.insert(
        String::from("a"),
        Device {
            enabled: true,
            bus_id: 8,
            device_type: Some(String::from("1541")),
            rom: None,
            image_file: Some(String::from("disk.d64")),
            image_path: None,
        },
    );
    let report = UltiDrives { drives: vec![DriveEntry { devices }] };
    assert_eq!(report.drives.len(), 1);
    let a = &report.drives[0].devices["a"];
    assert!(a.enabled);
    assert_eq!(a.bus_id, 8);
    assert_eq!(a.device_type.as_deref(), Some("1541"));
    assert_eq!(a.image_file.as_deref(), Some("disk.d64"));
    assert!(a.rom.is_none() && a.image_path.is_none());
}
