use fil_consensus::fetch_params::{ram_to_int, FetchCommands, FetchError, SectorSize, SectorSizeOpt};

#[test]
fn ram_str_conversions() {
    assert_eq!(ram_to_int("2048").unwrap(), SectorSize::_2KiB);
    assert_eq!(ram_to_int("2048B").unwrap(), SectorSize::_2KiB);
    assert_eq!(ram_to_int("2kib").unwrap(), SectorSize::_2KiB);
    assert_eq!(ram_to_int("8Mib").unwrap(), SectorSize::_8MiB);
    assert_eq!(ram_to_int("512MiB").unwrap(), SectorSize::_512MiB);
    assert_eq!(ram_to_int("32Gi").unwrap(), SectorSize::_32GiB);
    assert_eq!(ram_to_int("32GiB").unwrap(), SectorSize::_32GiB);
    assert_eq!(ram_to_int("64Gib").unwrap(), SectorSize::_64GiB);
}

#[test]
fn ram_to_int_reads_byte_counts() {
    assert_eq!(ram_to_int("8388608").unwrap(), SectorSize::_8MiB);
    assert_eq!(ram_to_int("536870912").unwrap(), SectorSize::_512MiB);
    assert_eq!(ram_to_int("34359738368").unwrap(), SectorSize::_32GiB);
    assert_eq!(ram_to_int("68719476736").unwrap(), SectorSize::_64GiB);
}

#[test]
fn ram_to_int_refuses_other_text() {
    let err = ram_to_int("3Ki").unwrap_err();
    assert_eq!(err.input, "3Ki");
    assert!(ram_to_int("").is_err());
    assert!(ram_to_int("B").is_err());
    assert!(ram_to_int("2KI").is_err());
    // A lower-case run is only dropped before an upper-case one.
    assert!(ram_to_int("2KiBb").is_err());
    assert_eq!(ram_to_int("2KibbBB").unwrap(), SectorSize::_2KiB);
}

#[test]
fn fetch_all_wins_over_size() {
    let cmd = FetchCommands::new(true, false, Some("nonsense".to_string()));
    assert_eq!(cmd.sizes().unwrap(), SectorSizeOpt::All);
}

#[test]
fn fetch_size_before_keys() {
    let cmd = FetchCommands::new(false, true, Some("32GiB".to_string()));
    assert_eq!(cmd.sizes().unwrap(), SectorSizeOpt::Size(SectorSize::_32GiB));
    let cmd = FetchCommands::new(false, true, None);
    assert_eq!(cmd.sizes().unwrap(), SectorSizeOpt::Keys);
}

#[test]
fn fetch_errors() {
    let cmd = FetchCommands::new(false, false, None);
    assert!(matches!(cmd.sizes(), Err(FetchError::NothingChosen)));
    let cmd = FetchCommands::new(false, true, Some("7".to_string()));
    match cmd.sizes() {
        Err(FetchError::BadSize(e)) => assert_eq!(e.input, "7"),
        _ => panic!("a size that names no sector size must be refused"),
    }
}
