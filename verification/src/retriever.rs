//! What a run is asked to do, and what it says where it cannot.

use vstd::prelude::*;
use crate::arguments::{ArgConfig, ArgConfigView};
use crate::text::{join_by, joined_by, owned, views_of};

verus! {

/// Whether a run takes every backup that it finds: when it lists them.
pub open spec fn takes_every_backup(config: ArgConfigView) -> bool {
    config.list
}

/// Whether a run has been told which backups to take: those of some serial
/// numbers, or every one of them for a list.
pub open spec fn names_its_backups(config: ArgConfigView) -> bool {
    config.list || config.serial_numbers.len() > 0
}

/// What a run says where it has not been told which backups to take.
pub open spec fn nothing_asked_message() -> Seq<char> {
    "Please provide the serial number (--serial) or use list (--list) option."@
}

/// What a run says where it finds none of the backups asked for.
pub open spec fn no_backups_message_of(config: ArgConfigView) -> Seq<char> {
    if config.serial_numbers.len() == 0 {
        "No backups found in '"@ + config.backup_dir + "'"@
    } else {
        "No backups found for serial '"@ + joined_by(config.serial_numbers, ","@) + "' in '"@
            + config.backup_dir + "'"@
    }
}

/// Whether the run takes every backup that it finds, whatever its serial
/// number: it does where it lists the backups, and nowhere else.
pub fn no_filter(config: &ArgConfig) -> (r: bool)
    ensures
        r == takes_every_backup(config@),
{
    config.list
}

/// Checks that the run has been told which backups to take: by serial
/// number, or to list them. Nothing else names them.
pub fn check_request(config: &ArgConfig) -> (r: Result<(), String>)
    ensures
        match r {
            Ok(_) => config.list || config.serial_numbers@.len() > 0,
            Err(message) => {
                &&& !config.list
                &&& config.serial_numbers@.len() == 0
                &&& message@ == nothing_asked_message()
            },
        },
{
    if config.list || config.serial_numbers.len() > 0 {
        Ok(())
    } else {
        Err(owned("Please provide the serial number (--serial) or use list (--list) option."))
    }
}

/// What to say where none of the backups asked for was found.
pub fn no_backups_message(config: &ArgConfig) -> (r: String)
    ensures
        r@ == no_backups_message_of(config@),
{
    if config.serial_numbers.len() == 0 {
        let mut r = owned("No backups found in '");
        r.append(config.backup_dir.as_str());
        r.append("'");
        r
    } else {
        proof {
            let serials = views_of(config.serial_numbers@);
            assert(serials.take(serials.len() as int) =~= serials);
        }
        let serials = join_by(&config.serial_numbers, config.serial_numbers.len(), ",");
        let mut r = owned("No backups found for serial '");
        r.append(serials.as_str());
        r.append("' in '");
        r.append(config.backup_dir.as_str());
        r.append("'");
        r
    }
}

} // verus!
