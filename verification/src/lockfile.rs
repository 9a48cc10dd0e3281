//! The single-instance guard: decisions taken while acquiring the lock file.
//!
//! The relay creates the lock file exclusively. When one already exists it is
//! reclaimed only when the process it records is confirmed dead; an unreadable
//! or unparseable lock file makes the relay refuse to start.

use vstd::prelude::*;
use crate::text::{
    decimal_chars, is_white_space, lemma_decimal_chars_digits, lemma_decimal_round_trip, parse_u32,
    string_chars, trim, trim_chars, trim_end_chars, trim_start_chars, unsigned_decimal,
};

verus! {

/// What happened in the last step of acquiring the lock file.
#[derive(Debug, Clone, PartialEq, Eq)]
pub enum LockEvent {
    /// The lock file was created.
    Created,
    /// Creating failed because a lock file already exists.
    AlreadyExists,
    /// Creating failed for another reason.
    CreateFailed,
    /// The existing lock file was read: its text, or `None` when unreadable.
    Recorded(Option<String>),
    /// Whether the process recorded in the lock file is alive.
    Liveness { pid: u32, alive: bool },
    /// Whether removing the stale lock file succeeded.
    StaleRemoved(bool),
}

/// What the relay does next while acquiring the lock file.
#[derive(Debug, Clone, Copy, PartialEq, Eq, Structural)]
pub enum LockAction {
    /// Write our process id into the new lock file and hold it.
    WritePidAndHold,
    /// Read the process id recorded in the existing lock file.
    ReadRecordedPid,
    /// Check whether the process with this id is alive.
    CheckAlive(u32),
    /// Remove the lock file left by a dead process.
    RemoveStale,
    /// Create the lock file exclusively (the first step, and again after a
    /// stale lock file was removed).
    CreateLock,
    /// Refuse to start: the lock file is unreadable or holds no process id.
    RefuseUnreadable,
    /// Refuse to start: another instance, with this process id, is active.
    RefuseActive(u32),
    /// Refuse to start: the stale lock file could not be removed.
    RefuseStuck,
    /// Give up with the error from creating the lock file.
    Propagate,
}

/// The process id recorded in a lock file's text: the text, trimmed of white
/// space, must be an unsigned decimal number that fits in a `u32`.
pub open spec fn pid_of_text(text: Seq<char>) -> Option<u32> {
    let d = unsigned_decimal(trim_chars(text));
    if d is Some && d->0 <= u32::MAX {
        Some(d->0 as u32)
    } else {
        None
    }
}

/// The process id recorded in a lock file, if it could be read and parsed.
pub open spec fn recorded_pid_of(content: Option<Seq<char>>) -> Option<u32> {
    match content {
        Some(text) => pid_of_text(text),
        None => None,
    }
}

/// The next action after `event`.
pub open spec fn lock_step(event: LockEvent) -> LockAction {
    match event {
        LockEvent::Created => LockAction::WritePidAndHold,
        LockEvent::AlreadyExists => LockAction::ReadRecordedPid,
        LockEvent::CreateFailed => LockAction::Propagate,
        LockEvent::Recorded(content) => match recorded_pid_of(string_chars(content)) {
            Some(pid) => LockAction::CheckAlive(pid),
            None => LockAction::RefuseUnreadable,
        },
        LockEvent::Liveness { pid, alive } => if alive {
            LockAction::RefuseActive(pid)
        } else {
            LockAction::RemoveStale
        },
        LockEvent::StaleRemoved(removed) => if removed {
            LockAction::CreateLock
        } else {
            LockAction::RefuseStuck
        },
    }
}

/// The process id recorded in a lock file's text, if the file could be read
/// (`content` is `Some`) and its trimmed text is a `u32` in decimal.
pub fn recorded_pid(content: Option<&str>) -> (pid: Option<u32>)
    ensures
        pid == recorded_pid_of(match content {
            Some(t) => Some(t@),
            None => None,
        }),
        pid matches Some(v) ==> (content matches Some(t) && unsigned_decimal(trim_chars(t@)) == Some(
            v as nat,
        )),
        content matches Some(t) ==> (unsigned_decimal(trim_chars(t@)) matches Some(n) ==> (n
            <= u32::MAX ==> pid == Some(n as u32))),
{
    match content {
        Some(text) => match parse_u32(trim(text)) {
            Ok(pid) => Some(pid),
            Err(_) => None,
        },
        None => None,
    }
}

/// The next action while acquiring the lock file, after `event`.
pub fn next_lock_action(event: &LockEvent) -> (action: LockAction)
    ensures
        action == lock_step(*event),
{
    match event {
        LockEvent::Created => LockAction::WritePidAndHold,
        LockEvent::AlreadyExists => LockAction::ReadRecordedPid,
        LockEvent::CreateFailed => LockAction::Propagate,
        LockEvent::Recorded(content) => {
            let text: Option<&str> = match content {
                Some(s) => Some(s.as_str()),
                None => None,
            };
            match recorded_pid(text) {
                Some(pid) => LockAction::CheckAlive(pid),
                None => LockAction::RefuseUnreadable,
            }
        },
        LockEvent::Liveness { pid, alive } => if *alive {
            LockAction::RefuseActive(*pid)
        } else {
            LockAction::RemoveStale
        },
        LockEvent::StaleRemoved(removed) => if *removed {
            LockAction::CreateLock
        } else {
            LockAction::RefuseStuck
        },
    }
}

/// The process id read from a lock file is the decimal number its text holds:
/// the decimal rendering of any `u32`, alone or followed by a newline as the
/// relay writes it, reads back as that same id.
pub proof fn lemma_pid_text_round_trip(n: nat)
    requires
        n <= u32::MAX,
    ensures
        pid_of_text(decimal_chars(n)) == Some(n as u32),
        pid_of_text(decimal_chars(n) + "\n"@) == Some(n as u32),
{
    lemma_decimal_chars_digits(n);
    lemma_decimal_round_trip(n);
    let d = decimal_chars(n);
    assert(!is_white_space(d[0]));
    assert(!is_white_space(d.last()));
    assert(trim_start_chars(d) == d);
    assert(trim_end_chars(d) == d);
    reveal_strlit("\n");
    let t = d + "\n"@;
    assert("\n"@ =~= seq!['\n']);
    assert(t[0] == d[0]);
    assert(trim_start_chars(t) == t);
    assert(t.last() == '\n');
    assert(is_white_space('\n'));
    assert(t.drop_last() =~= d);
    assert(trim_end_chars(t) == trim_end_chars(d));
}

/// The liveness check goes to exactly the process id the lock file holds:
/// reading a lock file leads to checking process `v` only when its trimmed
/// text is the decimal number `v`, and a text holding a decimal number that
/// fits in a `u32` always leads to checking that number.
pub proof fn lemma_liveness_checks_recorded_pid(text: Seq<char>, v: u32)
    ensures
        pid_of_text(text) == Some(v) ==> unsigned_decimal(trim_chars(text)) == Some(v as nat),
        unsigned_decimal(trim_chars(text)) == Some(v as nat) ==> pid_of_text(text) == Some(v),
        recorded_pid_of(Some(text)) == Some(v) <==> unsigned_decimal(trim_chars(text)) == Some(
            v as nat,
        ),
{
}

/// Fail closed: an existing lock file is only removed after its recorded
/// process was confirmed dead; an unreadable or unparseable lock file, or a
/// live recorded process, makes the relay refuse to start; the relay holds the
/// lock only after creating the file itself, and tries to create it again only
/// after removing a stale one.
pub proof fn lemma_lock_fails_closed(event: LockEvent)
    ensures
        lock_step(event) == LockAction::RemoveStale <==> (event matches LockEvent::Liveness { alive, .. } && !alive),
        event matches LockEvent::Recorded(content) ==> (lock_step(event) == LockAction::RefuseUnreadable
            <==> recorded_pid_of(string_chars(content)) is None),
        event matches LockEvent::Liveness { pid, alive } ==> (alive ==> lock_step(event) == LockAction::RefuseActive(pid)),
        lock_step(event) == LockAction::CreateLock <==> event == LockEvent::StaleRemoved(true),
        lock_step(event) == LockAction::WritePidAndHold <==> event == LockEvent::Created,
{
}

} // verus!
