use macfetch::error::CustomError;
use macfetch::ioreg::parse_ioreg_info;
use macfetch::ipconfig::parse_ipconfig;
use macfetch::snapshot::collect_snapshot;
use macfetch::text::{parse_unsigned_text, remove_text, trim_newlines};
use macfetch::whoami::parse_who_am_i;

#[test]
fn gpu_none() {
    let info = parse_ioreg_info("+-o Root  <class IORegistryEntry>\n  \"model\" = <>\n");
    assert!(info.gpu_names().is_empty());
}

#[test]
fn gpu_one() {
    let info = parse_ioreg_info("model\" = <\"AMD Radeon Pro 5500M\"");
    assert_eq!(info.gpu_names(), &vec!["AMD Radeon Pro 5500M".to_string()]);
}

#[test]
fn gpu_many_in_order() {
    let raw = "| \"model\" = <\"Intel UHD Graphics 630\">\n| \"x\" = 1\n| \"model\" = <\"AMD Radeon Pro 5500M\">\n| \"model\" = <\"\">\n";
    let info = parse_ioreg_info(raw);
    assert_eq!(
        info.gpu_names(),
        &vec!["Intel UHD Graphics 630".to_string(), "AMD Radeon Pro 5500M".to_string()]
    );
}

#[test]
fn user_name_trimmed() {
    assert_eq!(parse_who_am_i("al\n").0, "al");
    assert_eq!(parse_who_am_i("al\n\n").0, "al");
    assert_eq!(parse_who_am_i("a l \n").0, "a l ");
}

#[test]
fn address_may_be_empty() {
    assert_eq!(parse_ipconfig("").0, "");
    assert_eq!(parse_ipconfig("\n").0, "");
    assert_eq!(parse_ipconfig("192.168.1.5\n").0, "192.168.1.5");
}

#[test]
fn trim_keeps_inner_newlines() {
    assert_eq!(trim_newlines("a\nb\n"), "a\nb");
}

#[test]
fn unsigned_numbers() {
    assert_eq!(parse_unsigned_text("255", 255), Some(255));
    assert_eq!(parse_unsigned_text("007", 255), Some(7));
    assert_eq!(parse_unsigned_text("+7", 255), Some(7));
    assert_eq!(parse_unsigned_text("256", 255), None);
    assert_eq!(parse_unsigned_text("", 255), None);
    assert_eq!(parse_unsigned_text("+", 255), None);
    assert_eq!(parse_unsigned_text(" 7", 255), None);
    assert_eq!(parse_unsigned_text("18446744073709551615", u64::MAX), Some(u64::MAX));
}

#[test]
fn text_removal() {
    assert_eq!(remove_text("aXXXb", "XX"), "aXb");
    assert_eq!(remove_text("abc", ""), "abc");
    assert_eq!(remove_text("été(R)", "(R)"), "été");
}

#[test]
fn error_keeps_its_message() {
    assert_eq!(CustomError::new("Failed to read hostname").message(), "Failed to read hostname");
}

#[test]
fn snapshot_fails_with_first_error() {
    let lines = vec!["host".to_string()];
    match collect_snapshot("al\n", "", &lines, "", 10) {
        Ok(_) => panic!("expected an error"),
        Err(e) => assert_eq!(e.message(), "Failed to read hardware model"),
    }
}
