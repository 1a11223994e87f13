use ios::arguments::ArgConfig;
use ios::policy::Organizer;
use ios::retriever::{check_request, no_backups_message, no_filter};

fn config(list: bool, all: bool, serials: &[&str]) -> ArgConfig {
    ArgConfig {
        list,
        all,
        debug: false,
        serial_numbers: serials.iter().map(|serial| serial.to_string()).collect(),
        backup_dir: "/b".to_string(),
        output_dir: "/o".to_string(),
        workers: 2,
        organize: Organizer::Auto,
    }
}

#[test]
fn a_run_must_be_told_what_to_take() {
    let refused =
        Err("Please provide the serial number (--serial) or use list (--list) option.".to_string());
    assert_eq!(check_request(&config(false, false, &[])), refused);
    assert_eq!(check_request(&config(false, true, &[])), refused);
    assert_eq!(check_request(&config(true, false, &[])), Ok(()));
    assert_eq!(check_request(&config(true, true, &[])), Ok(()));
    assert_eq!(check_request(&config(false, false, &["A1"])), Ok(()));
    assert_eq!(check_request(&config(false, true, &["A1"])), Ok(()));
}

#[test]
fn only_a_list_takes_every_backup() {
    assert!(no_filter(&config(true, false, &["A1"])));
    assert!(no_filter(&config(true, true, &[])));
    assert!(!no_filter(&config(false, true, &[])));
    assert!(!no_filter(&config(false, true, &["A1"])));
    assert!(!no_filter(&config(false, false, &["A1"])));
}

#[test]
fn the_message_names_what_was_looked_for() {
    assert_eq!(no_backups_message(&config(true, false, &[])), "No backups found in '/b'");
    assert_eq!(
        no_backups_message(&config(false, false, &["A1"])),
        "No backups found for serial 'A1' in '/b'"
    );
    assert_eq!(
        no_backups_message(&config(false, false, &["A1", "B2"])),
        "No backups found for serial 'A1,B2' in '/b'"
    );
}
