use ios::backup::Backup;
use ios::listing::list_backups;

fn backup(serial: &str, device: &str, product: &str, date: &str, size: &str, encrypted: &str) -> Backup {
    Backup {
        path: "/b".to_string(),
        serial_number: serial.to_string(),
        device_name: device.to_string(),
        product_name: product.to_string(),
        backup_date: date.to_string(),
        backup_size: size.to_string(),
        encrypted: encrypted.to_string(),
    }
}

fn by_format(backups: &Vec<Backup>) -> Vec<String> {
    let mut serial = 16;
    let mut device = 9;
    let mut product = 15;
    let mut date = 14;
    let mut encrypted = 12;
    let mut size = 7;
    for backup in backups {
        serial = serial.max(backup.serial_number.len());
        device = device.max(backup.device_name.len());
        product = product.max(backup.product_name.len());
        date = date.max(backup.backup_date.len());
        encrypted = encrypted.max(backup.encrypted.len());
        size = size.max(backup.backup_size.len());
    }
    let width = serial + device + date + encrypted + 9;
    let mut lines = vec![String::new(), String::new()];
    lines.push(format!("{0:^1$}", "Available iOS Device Backups", width));
    let rule = format!(
        "{:-<a$}  {:-<b$}  {:-<c$}  {:-<d$}  {:-<e$}  {:-<f$}",
        "", "", "", "", "", "",
        a = serial, b = device, c = product, d = date, e = encrypted, f = size
    );
    lines.push(rule.clone());
    lines.push(format!(
        "{:<a$}  {:<b$}  {:<c$}  {:<d$}  {:<e$}  {:<f$}",
        "Serial Number", "Device", "Product", "Backup Date", "Encrypted", "Size",
        a = serial, b = device, c = product, d = date, e = encrypted, f = size
    ));
    lines.push(rule);
    for backup in backups {
        lines.push(format!(
            "{:<a$}  {:<b$}  {:<c$}  {:<d$}  {:<e$}  {:<f$}",
            backup.serial_number, backup.device_name, backup.product_name, backup.backup_date,
            backup.encrypted, backup.backup_size,
            a = serial, b = device, c = product, d = date, e = encrypted, f = size
        ));
    }
    lines
}

#[test]
fn an_empty_table_has_its_head() {
    let lines = list_backups(&Vec::new());
    assert_eq!(
        lines,
        vec![
            "",
            "",
            "                Available iOS Device Backups                ",
            "----------------  ---------  ---------------  --------------  ------------  -------",
            "Serial Number     Device     Product          Backup Date     Encrypted     Size   ",
            "----------------  ---------  ---------------  --------------  ------------  -------",
        ]
    );
}

#[test]
fn columns_widen_to_their_widest_text() {
    let backups = vec![
        backup("F2LXQ0ZZKXKN", "Phone", "iPhone 11", "Jan 01, 2024 10:00 AM (2 days ago)", "1.50 GB", "Yes"),
        backup("A", "A very long device name indeed", "iPad", "x", "10.00 MB", "No"),
    ];
    let lines = list_backups(&backups);
    assert_eq!(lines.len(), 8);
    assert_eq!(lines, by_format(&backups));
    assert_eq!(
        lines[6],
        "F2LXQ0ZZKXKN      Phone                           iPhone 11        Jan 01, 2024 10:00 AM (2 days ago)  Yes           1.50 GB "
    );
}

#[test]
fn widths_count_bytes_and_padding_counts_characters() {
    let backups = vec![backup(
        "S\u{e9}rie-num\u{e9}ro-tr\u{e8}s-long",
        "T\u{e9}l\u{e9}phone de Z\u{f6}e \u{1f4f1}",
        "p",
        "d",
        "s",
        "e",
    )];
    assert_eq!(list_backups(&backups), by_format(&backups));
}

#[test]
fn the_title_is_centred_with_the_odd_blank_behind() {
    let backups = vec![backup("12345678901234567", "d", "p", "d", "s", "e")];
    let lines = list_backups(&backups);
    assert_eq!(lines[2].len(), 17 + 9 + 14 + 12 + 9);
    assert!(lines[2].starts_with("                Available"));
    assert!(lines[2].ends_with("Backups                 "));
    assert_eq!(lines, by_format(&backups));
}
