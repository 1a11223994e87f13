//! A backup and what its property list says of it.

use vstd::prelude::*;
use crate::duration::{convert_seconds, duration_text};
use crate::paths::{file_name, file_name_of, join, joined};
use crate::run::{elapsed, elapsed_between};
use crate::size::{size_converter, size_text};
use crate::text::{owned, same_text, views_of};

verus! {

/// A backup of one device, described for readers.
#[derive(Debug, PartialEq, Eq)]
pub struct Backup {
    /// The backup's directory.
    pub path: String,
    pub serial_number: String,
    pub device_name: String,
    pub product_name: String,
    /// When the backup was made, and how long ago.
    pub backup_date: String,
    /// The size of the backup's directory.
    pub backup_size: String,
    /// `Yes` or `No`.
    pub encrypted: String,
}

/// A `Backup` by view.
pub struct BackupView {
    pub path: Seq<char>,
    pub serial_number: Seq<char>,
    pub device_name: Seq<char>,
    pub product_name: Seq<char>,
    pub backup_date: Seq<char>,
    pub backup_size: Seq<char>,
    pub encrypted: Seq<char>,
}

impl View for Backup {
    type V = BackupView;

    open spec fn view(&self) -> BackupView {
        BackupView {
            path: self.path@,
            serial_number: self.serial_number@,
            device_name: self.device_name@,
            product_name: self.product_name@,
            backup_date: self.backup_date@,
            backup_size: self.backup_size@,
            encrypted: self.encrypted@,
        }
    }
}

/// A value of a property list, as far as a backup's description reads it.
#[derive(Debug, PartialEq, Eq)]
pub enum InfoValue {
    Text(String),
    Flag(bool),
    /// A date, in seconds since the epoch; a date before the epoch is 0.
    Date(u64),
    /// Any other value.
    Other,
}

/// An `InfoValue` by view.
pub enum InfoValueView {
    Text(Seq<char>),
    Flag(bool),
    Date(u64),
    Other,
}

impl View for InfoValue {
    type V = InfoValueView;

    open spec fn view(&self) -> InfoValueView {
        match *self {
            InfoValue::Text(text) => InfoValueView::Text(text@),
            InfoValue::Flag(flag) => InfoValueView::Flag(flag),
            InfoValue::Date(seconds) => InfoValueView::Date(seconds),
            InfoValue::Other => InfoValueView::Other,
        }
    }
}

/// One key of a property list with its value.
#[derive(Debug, PartialEq, Eq)]
pub struct InfoEntry {
    pub key: String,
    pub value: InfoValue,
}

/// The top-level dictionary of a backup's property list.
#[derive(Debug, PartialEq, Eq)]
pub struct Info {
    pub entries: Vec<InfoEntry>,
}

impl View for Info {
    type V = Seq<(Seq<char>, InfoValueView)>;

    open spec fn view(&self) -> Seq<(Seq<char>, InfoValueView)> {
        self.entries@.map_values(|entry: InfoEntry| (entry.key@, entry.value@))
    }
}

/// The view of a property list that may be missing.
pub open spec fn info_view(info: Option<Info>) -> Option<Seq<(Seq<char>, InfoValueView)>> {
    match info {
        Some(info) => Some(info@),
        None => None,
    }
}

/// The value of the first entry of `entries` under `key`.
pub open spec fn found(entries: Seq<(Seq<char>, InfoValueView)>, key: Seq<char>) -> Option<
    InfoValueView,
>
    decreases entries.len(),
{
    if entries.len() == 0 {
        None
    } else if entries[0].0 == key {
        Some(entries[0].1)
    } else {
        found(entries.drop_first(), key)
    }
}

/// The value under `key` in a property list that may be missing.
pub open spec fn value_of(info: Option<Seq<(Seq<char>, InfoValueView)>>, key: Seq<char>) -> Option<
    InfoValueView,
> {
    match info {
        Some(entries) => found(entries, key),
        None => None,
    }
}

/// The text under `key`, or `default` where the list is missing, holds no
/// such key, or holds something else than a text under it.
pub open spec fn text_of(
    info: Option<Seq<(Seq<char>, InfoValueView)>>,
    key: Seq<char>,
    default: Seq<char>,
) -> Seq<char> {
    match value_of(info, key) {
        Some(InfoValueView::Text(text)) => text,
        _ => default,
    }
}

/// The date under `key` in seconds since the epoch, or 0 where there is
/// none.
pub open spec fn seconds_of(info: Option<Seq<(Seq<char>, InfoValueView)>>, key: Seq<char>) -> u64 {
    match value_of(info, key) {
        Some(InfoValueView::Date(seconds)) => seconds,
        _ => 0,
    }
}

/// `Yes` where the flag under `key` is set, `No` otherwise.
pub open spec fn yes_or_no(info: Option<Seq<(Seq<char>, InfoValueView)>>, key: Seq<char>) -> Seq<
    char,
> {
    match value_of(info, key) {
        Some(InfoValueView::Flag(true)) => "Yes"@,
        _ => "No"@,
    }
}

fn find<'a>(info: &'a Option<Info>, key: &str) -> (r: Option<&'a InfoValue>)
    ensures
        match r {
            Some(value) => value_of(info_view(*info), key@) == Some(value@),
            None => value_of(info_view(*info), key@) is None,
        },
{
    match info {
        None => None,
        Some(list) => {
            let ghost entries = list@;
            let mut i: usize = 0;
            assert(entries.skip(0) =~= entries);
            while i < list.entries.len()
                invariant
                    i <= list.entries.len(),
                    entries == list@,
                    info_view(*info) == Some(entries),
                    found(entries, key@) == found(entries.skip(i as int), key@),
                decreases list.entries.len() - i,
            {
                proof {
                    assert(entries.skip(i as int).drop_first() =~= entries.skip(i + 1));
                    assert(entries.skip(i as int)[0] == (
                        list.entries@[i as int].key@,
                        list.entries@[i as int].value@,
                    ));
                }
                if same_text(list.entries[i].key.as_str(), key) {
                    return Some(&list.entries[i].value);
                }
                i += 1;
            }
            None
        },
    }
}

/// The text that the property list `info` holds under `key`, or `default`
/// where it holds none.
pub fn get_plist_key(info: &Option<Info>, key: &str, default: &str) -> (r: String)
    ensures
        r@ == text_of(info_view(*info), key@, default@),
{
    match find(info, key) {
        Some(InfoValue::Text(text)) => text.clone(),
        _ => owned(default),
    }
}

/// How long before `now` the moment `then` was, in seconds: nothing where
/// `then` is no earlier, and no more than fits a signed number.
pub open spec fn age(then: u64, now: u64) -> i64 {
    if elapsed_between(then, now) <= i64::MAX {
        elapsed_between(then, now) as i64
    } else {
        i64::MAX
    }
}

/// When a backup was made, for readers: `last_backup`, and in brackets how
/// long ago that was.
pub open spec fn dated(last_backup: Seq<char>, then: u64, now: u64) -> Seq<char> {
    last_backup + " ("@ + duration_text(age(then, now) as int, 1) + " ago)"@
}

/// The description of the backup in the directory `path`.
///
/// `info` is the backup's property list; `last_backup` is the date of the
/// backup in words, empty where the list holds none; `now` is the present
/// in seconds since the epoch; `size` is the size of the directory in bytes.
pub fn describe_backup(
    path: String,
    info: &Option<Info>,
    last_backup: &str,
    now: u64,
    size: u64,
) -> (r: Backup)
    ensures
        r@ == (BackupView {
            path: path@,
            serial_number: text_of(info_view(*info), "Serial Number"@, "NO_SERIAL"@),
            device_name: text_of(info_view(*info), "Device Name"@, "Unknown Device"@),
            product_name: text_of(info_view(*info), "Product Name"@, "Unknown Product"@),
            backup_date: dated(
                last_backup@,
                seconds_of(info_view(*info), "Last Backup Date"@),
                now,
            ),
            backup_size: size_text(size),
            encrypted: yes_or_no(info_view(*info), "IsEncrypted"@),
        }),
{
    let serial_number = get_plist_key(info, "Serial Number", "NO_SERIAL");
    let device_name = get_plist_key(info, "Device Name", "Unknown Device");
    let product_name = get_plist_key(info, "Product Name", "Unknown Product");
    let then: u64 = match find(info, "Last Backup Date") {
        Some(InfoValue::Date(seconds)) => *seconds,
        _ => 0,
    };
    let passed = elapsed(then, now);
    let ago: i64 = if passed <= 0x7fff_ffff_ffff_ffff {
        passed as i64
    } else {
        0x7fff_ffff_ffff_ffff
    };
    let mut backup_date = owned(last_backup);
    backup_date.append(" (");
    backup_date.append(convert_seconds(ago, 1).as_str());
    backup_date.append(" ago)");
    let encrypted = match find(info, "IsEncrypted") {
        Some(InfoValue::Flag(true)) => owned("Yes"),
        _ => owned("No"),
    };
    let backup_size = size_converter(size);
    Backup { path, serial_number, device_name, product_name, backup_date, backup_size, encrypted }
}

/// Whether a backup with the serial number `serial_number` is one of those
/// asked for: every backup where `no_filter` is set, and otherwise those
/// whose serial number is among `serial_filters`.
pub fn wanted(serial_number: &str, serial_filters: &Vec<String>, no_filter: bool) -> (r: bool)
    ensures
        r == (no_filter || views_of(serial_filters@).contains(serial_number@)),
{
    if no_filter {
        return true;
    }
    let mut i: usize = 0;
    while i < serial_filters.len()
        invariant
            i <= serial_filters.len(),
            forall|j: int| 0 <= j < i ==> views_of(serial_filters@)[j] != serial_number@,
        decreases serial_filters.len() - i,
    {
        if same_text(serial_filters[i].as_str(), serial_number) {
            assert(views_of(serial_filters@)[i as int] == serial_number@);
            return true;
        }
        i += 1;
    }
    false
}

/// The path of the manifest of the backup in the directory `backup_path`.
pub fn manifest_path(backup_path: &str) -> (r: String)
    ensures
        r@ == joined(backup_path@, "Manifest.db"@),
{
    join(backup_path, "Manifest.db")
}

/// The name by which a backup's manifest is known: the name of the
/// backup's directory.
pub fn manifest_id(backup_path: &str) -> (r: String)
    ensures
        r@ == file_name_of(backup_path@),
{
    file_name(backup_path)
}

} // verus!
