use annepro2_tools::cli::parse_target;
use annepro2_tools::target::AP2Target;

#[test]
fn parses_targets() {
    assert_eq!(parse_target("ble").unwrap(), AP2Target::McuBle);
    assert_eq!(parse_target("KEY").unwrap(), AP2Target::McuMain);
    assert_eq!(parse_target("led").unwrap(), AP2Target::McuLed);
    assert!(parse_target("unknown").is_err());
}
