//! The table in which the backups are listed.

use vstd::prelude::*;
use vstd::utf8::encode_utf8;
use crate::backup::{Backup, BackupView};
use crate::text::{owned, views_of};

verus! {

/// The number of bytes that `text` takes.
pub open spec fn byte_length(text: Seq<char>) -> nat {
    encode_utf8(text).len()
}

/// `count` times the character `c`.
pub open spec fn filled(c: char, count: nat) -> Seq<char> {
    Seq::new(count, |i: int| c)
}

/// `text` with blanks behind it up to `width` characters.
pub open spec fn padded(text: Seq<char>, width: nat) -> Seq<char> {
    if text.len() < width {
        text + filled(' ', (width - text.len()) as nat)
    } else {
        text
    }
}

/// `text` in the middle of `width` characters; an odd blank goes behind it.
pub open spec fn centered(text: Seq<char>, width: nat) -> Seq<char> {
    if text.len() < width {
        let blanks = (width - text.len()) as nat;
        filled(' ', blanks / 2) + text + filled(' ', (blanks - blanks / 2) as nat)
    } else {
        text
    }
}

/// The widths of the six columns.
pub struct Widths {
    pub serial: nat,
    pub device: nat,
    pub product: nat,
    pub date: nat,
    pub encrypted: nat,
    pub size: nat,
}

/// The widths of the columns of an empty table: each heading and three more.
pub open spec fn heading_widths() -> Widths {
    Widths { serial: 16, device: 9, product: 15, date: 14, encrypted: 12, size: 7 }
}

/// The larger of two numbers.
pub open spec fn larger(a: nat, b: nat) -> nat {
    if a >= b {
        a
    } else {
        b
    }
}

/// `widths`, widened to hold the texts of `backup`, each counted in bytes.
pub open spec fn widened(widths: Widths, backup: BackupView) -> Widths {
    Widths {
        serial: larger(widths.serial, byte_length(backup.serial_number)),
        device: larger(widths.device, byte_length(backup.device_name)),
        product: larger(widths.product, byte_length(backup.product_name)),
        date: larger(widths.date, byte_length(backup.backup_date)),
        encrypted: larger(widths.encrypted, byte_length(backup.encrypted)),
        size: larger(widths.size, byte_length(backup.backup_size)),
    }
}

/// The widths of the columns of the table of `backups`.
pub open spec fn widths_of(backups: Seq<BackupView>) -> Widths
    decreases backups.len(),
{
    if backups.len() == 0 {
        heading_widths()
    } else {
        widened(widths_of(backups.drop_last()), backups.last())
    }
}

/// Six cells in one line, each padded to its column, two blanks between.
pub open spec fn row(
    widths: Widths,
    serial: Seq<char>,
    device: Seq<char>,
    product: Seq<char>,
    date: Seq<char>,
    encrypted: Seq<char>,
    size: Seq<char>,
) -> Seq<char> {
    padded(serial, widths.serial) + "  "@ + padded(device, widths.device) + "  "@ + padded(
        product,
        widths.product,
    ) + "  "@ + padded(date, widths.date) + "  "@ + padded(encrypted, widths.encrypted) + "  "@
        + padded(size, widths.size)
}

/// The line of dashes above and below the headings.
pub open spec fn rule(widths: Widths) -> Seq<char> {
    filled('-', widths.serial) + "  "@ + filled('-', widths.device) + "  "@ + filled(
        '-',
        widths.product,
    ) + "  "@ + filled('-', widths.date) + "  "@ + filled('-', widths.encrypted) + "  "@ + filled(
        '-',
        widths.size,
    )
}

/// The line of headings.
pub open spec fn headings(widths: Widths) -> Seq<char> {
    row(widths, "Serial Number"@, "Device"@, "Product"@, "Backup Date"@, "Encrypted"@, "Size"@)
}

/// The line of the table that shows `backup`.
pub open spec fn backup_row(widths: Widths, backup: BackupView) -> Seq<char> {
    row(
        widths,
        backup.serial_number,
        backup.device_name,
        backup.product_name,
        backup.backup_date,
        backup.encrypted,
        backup.backup_size,
    )
}

/// The width in which the title is centred.
pub open spec fn title_width(widths: Widths) -> nat {
    widths.serial + widths.device + widths.date + widths.encrypted + 9
}

/// The lines above the first backup: two empty lines, the title, and the
/// headings between two rules.
pub open spec fn table_head(widths: Widths) -> Seq<Seq<char>> {
    seq![
        Seq::empty(),
        Seq::empty(),
        centered("Available iOS Device Backups"@, title_width(widths)),
        rule(widths),
        headings(widths),
        rule(widths),
    ]
}

/// The views of `backups`, in order.
pub open spec fn backup_views(backups: Seq<Backup>) -> Seq<BackupView> {
    backups.map_values(|backup: Backup| backup@)
}

/// The table of `backups`, line by line: the head, then one line for each
/// backup, in order.
pub open spec fn table_of(backups: Seq<BackupView>) -> Seq<Seq<char>> {
    table_head(widths_of(backups)) + backups.map_values(
        |backup: BackupView| backup_row(widths_of(backups), backup),
    )
}

/// The widths of the six columns, as the machine holds them.
struct Columns {
    serial: usize,
    device: usize,
    product: usize,
    date: usize,
    encrypted: usize,
    size: usize,
}

impl View for Columns {
    type V = Widths;

    closed spec fn view(&self) -> Widths {
        Widths {
            serial: self.serial as nat,
            device: self.device as nat,
            product: self.product as nat,
            date: self.date as nat,
            encrypted: self.encrypted as nat,
            size: self.size as nat,
        }
    }
}

fn wider(width: usize, text: &str) -> (r: usize)
    ensures
        r == larger(width as nat, byte_length(text@)),
{
    let length = text.as_bytes().len();
    if width >= length {
        width
    } else {
        length
    }
}

fn fill(out: &mut String, piece: &str, count: u128)
    requires
        piece@.len() == 1,
    ensures
        final(out)@ == old(out)@ + filled(piece@[0], count as nat),
{
    let mut done: u128 = 0;
    while done < count
        invariant
            done <= count,
            piece@.len() == 1,
            out@ == old(out)@ + filled(piece@[0], done as nat),
        decreases count - done,
    {
        out.append(piece);
        done += 1;
    }
}

fn blank() -> (r: &'static str)
    ensures
        r@ == seq![' '],
{
    proof {
        reveal_strlit(" ");
    }
    let r: &'static str = " ";
    r
}

fn dash() -> (r: &'static str)
    ensures
        r@ == seq!['-'],
{
    proof {
        reveal_strlit("-");
    }
    let r: &'static str = "-";
    r
}

fn push_padded(out: &mut String, text: &str, width: usize)
    ensures
        final(out)@ == old(out)@ + padded(text@, width as nat),
{
    let length = text.unicode_len();
    out.append(text);
    if length < width {
        fill(out, blank(), (width - length) as u128);
    }
}

fn row_of(
    columns: &Columns,
    serial: &str,
    device: &str,
    product: &str,
    date: &str,
    encrypted: &str,
    size: &str,
) -> (r: String)
    ensures
        r@ == row(columns@, serial@, device@, product@, date@, encrypted@, size@),
{
    let mut r = String::new();
    push_padded(&mut r, serial, columns.serial);
    r.append("  ");
    push_padded(&mut r, device, columns.device);
    r.append("  ");
    push_padded(&mut r, product, columns.product);
    r.append("  ");
    push_padded(&mut r, date, columns.date);
    r.append("  ");
    push_padded(&mut r, encrypted, columns.encrypted);
    r.append("  ");
    push_padded(&mut r, size, columns.size);
    r
}

fn rule_of(columns: &Columns) -> (r: String)
    ensures
        r@ == rule(columns@),
{
    let mut r = String::new();
    fill(&mut r, dash(), columns.serial as u128);
    r.append("  ");
    fill(&mut r, dash(), columns.device as u128);
    r.append("  ");
    fill(&mut r, dash(), columns.product as u128);
    r.append("  ");
    fill(&mut r, dash(), columns.date as u128);
    r.append("  ");
    fill(&mut r, dash(), columns.encrypted as u128);
    r.append("  ");
    fill(&mut r, dash(), columns.size as u128);
    r
}

fn title_of(columns: &Columns) -> (r: String)
    ensures
        r@ == centered("Available iOS Device Backups"@, title_width(columns@)),
{
    let title = "Available iOS Device Backups";
    let length = title.unicode_len() as u128;
    let width: u128 = columns.serial as u128 + columns.device as u128 + columns.date as u128
        + columns.encrypted as u128 + 9;
    let mut r = String::new();
    if length < width {
        let blanks = width - length;
        fill(&mut r, blank(), blanks / 2);
        r.append(title);
        fill(&mut r, blank(), blanks - blanks / 2);
    } else {
        r.append(title);
    }
    r
}

/// The table of `backups`, line by line.
///
/// A column is as wide as its widest text, counted in bytes, and at least
/// as wide as its heading and three more. The title stands in the middle of
/// the width of the first two columns, the date and the encryption, with
/// their blanks.
pub fn list_backups(backups: &Vec<Backup>) -> (r: Vec<String>)
    ensures
        views_of(r@) == table_of(backup_views(backups@)),
{
    let ghost shown = backup_views(backups@);
    let mut columns = Columns { serial: 16, device: 9, product: 15, date: 14, encrypted: 12, size: 7 };
    let mut i: usize = 0;
    while i < backups.len()
        invariant
            i <= backups.len(),
            shown == backup_views(backups@),
            columns@ == widths_of(shown.take(i as int)),
        decreases backups.len() - i,
    {
        assert(shown.take(i + 1).drop_last() =~= shown.take(i as int));
        let backup = &backups[i];
        columns = Columns {
            serial: wider(columns.serial, backup.serial_number.as_str()),
            device: wider(columns.device, backup.device_name.as_str()),
            product: wider(columns.product, backup.product_name.as_str()),
            date: wider(columns.date, backup.backup_date.as_str()),
            encrypted: wider(columns.encrypted, backup.encrypted.as_str()),
            size: wider(columns.size, backup.backup_size.as_str()),
        };
        i += 1;
    }
    assert(shown.take(i as int) =~= shown);
    let mut lines: Vec<String> = Vec::new();
    lines.push(String::new());
    lines.push(String::new());
    lines.push(title_of(&columns));
    lines.push(rule_of(&columns));
    lines.push(
        row_of(&columns, "Serial Number", "Device", "Product", "Backup Date", "Encrypted", "Size"),
    );
    lines.push(rule_of(&columns));
    let mut j: usize = 0;
    while j < backups.len()
        invariant
            j <= backups.len(),
            shown == backup_views(backups@),
            columns@ == widths_of(shown),
            lines@.len() == 6 + j,
            views_of(lines@).take(6) == table_head(columns@),
            forall|k: int|
                0 <= k < j ==> (#[trigger] lines@[6 + k])@ == backup_row(columns@, shown[k]),
        decreases backups.len() - j,
    {
        let backup = &backups[j];
        let line = row_of(
            &columns,
            backup.serial_number.as_str(),
            backup.device_name.as_str(),
            backup.product_name.as_str(),
            backup.backup_date.as_str(),
            backup.encrypted.as_str(),
            backup.backup_size.as_str(),
        );
        lines.push(line);
        j += 1;
    }
    proof {
        let table = table_of(shown);
        assert forall|k: int| 0 <= k < table.len() implies views_of(lines@)[k] == table[k] by {
            if k >= 6 {
                assert(lines@[6 + (k - 6)]@ == backup_row(columns@, shown[k - 6]));
            }
        }
    }
    lines
}

} // verus!
