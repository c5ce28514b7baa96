//! The PID file: who owns it, who may take it, and what is written to it.
use crate::text::{chars, decimal, laws};
use vstd::prelude::*;

verus! {

/// The claim on a PID file.
#[derive(Debug)]
pub struct PidFileGuard {
    path: String,
}

/// Why a PID file could not be had.
#[derive(Debug, Clone, PartialEq, Eq)]
pub enum PidError {
    /// The file names a process that is still running.
    AlreadyRunning { pid: u32, path: String },
    /// The directory of the file could not be created.
    CreateDirectory { path: String },
    /// The file could not be written.
    Write { path: String },
}

/// The process that a PID file with these contents names; zero where it names none.
pub open spec fn named_pid(contents: Seq<char>) -> nat {
    match decimal::read_u32(chars::trimmed(contents)) {
        Some(n) => n,
        None => 0,
    }
}

/// The process that may still own a PID file: the one that its contents name. A file that is
/// missing, cannot be read or names no process has no owner.
pub open spec fn possible_owner(contents: Option<Seq<char>>) -> Option<nat> {
    match contents {
        Some(text) if named_pid(text) != 0 => Some(named_pid(text)),
        _ => None,
    }
}

/// Whether a PID file with these contents may be claimed: it has no owner, or one that is not
/// running.
pub open spec fn may_claim(contents: Option<Seq<char>>, owner_alive: bool) -> bool {
    possible_owner(contents) is None || !owner_alive
}

/// What a PID file holds once process `pid` has tried to claim it.
pub open spec fn after_claim(
    contents: Option<Seq<char>>,
    owner_alive: bool,
    pid: nat,
) -> Option<Seq<char>> {
    if may_claim(contents, owner_alive) {
        Some(written(pid))
    } else {
        contents
    }
}

/// What process `pid` writes to its PID file.
pub open spec fn written(pid: nat) -> Seq<char> {
    decimal::decimal(pid) + "\n"@
}

/// The process that a PID file with these contents names; zero where it names none.
pub fn existing_pid(contents: &str) -> (r: u32)
    ensures
        r == named_pid(contents@),
{
    match decimal::parse_u32(chars::trim(contents)) {
        Some(pid) => pid,
        None => 0,
    }
}

/// The process whose life decides whether the PID file is taken, if any does.
pub fn owner_to_probe(contents: Option<&str>) -> (r: Option<u32>)
    ensures
        (match r {
            Some(pid) => possible_owner(chars::str_option(contents)) == Some(pid as nat),
            None => possible_owner(chars::str_option(contents)) is None,
        }),
{
    match contents {
        Some(text) => {
            let pid = existing_pid(text);
            if pid != 0 {
                Some(pid)
            } else {
                None
            }
        },
        None => None,
    }
}

/// What process `pid` writes to its PID file.
pub fn pid_file_contents(pid: u32) -> (r: String)
    ensures
        r@ == written(pid as nat),
{
    decimal::numeral(pid as u64).concat("\n")
}

impl PidFileGuard {
    /// Where the claimed file is.
    pub closed spec fn claimed_path(self) -> Seq<char> {
        self.path@
    }

    /// Claims the PID file at `path`, which now holds `contents`. `owner_alive` says whether the
    /// process named by `owner_to_probe` is running. Only a running owner keeps the file; a stale
    /// one is overwritten.
    pub fn acquire(path: String, contents: Option<&str>, owner_alive: bool) -> (r: Result<
        PidFileGuard,
        PidError,
    >)
        ensures
            r is Ok <==> may_claim(chars::str_option(contents), owner_alive),
            r matches Ok(guard) ==> guard.claimed_path() == path@,
            r matches Err(e) ==> (e matches PidError::AlreadyRunning { pid, path: at } && pid
                == possible_owner(chars::str_option(contents))->0 && at@ == path@),
    {
        match owner_to_probe(contents) {
            Some(pid) => if owner_alive {
                return Err(PidError::AlreadyRunning { pid, path });
            },
            None => {},
        }
        Ok(PidFileGuard { path })
    }

    /// The path of the claimed file.
    pub fn path(&self) -> (r: &str)
        ensures
            r@ == self.claimed_path(),
    {
        self.path.as_str()
    }
}

impl PidError {
    /// What the user is told.
    pub open spec fn text(self) -> Seq<char> {
        match self {
            PidError::AlreadyRunning { pid, path } => "Another ZeroClaw daemon is already running (pid "@
                + decimal::decimal(pid as nat) + "). Remove "@ + path@ + " to override."@,
            PidError::CreateDirectory { path } => "Failed to create PID file directory: "@ + path@,
            PidError::Write { path } => "Failed to write PID file: "@ + path@,
        }
    }

    /// What the user is told.
    pub fn message(&self) -> (r: String)
        ensures
            r@ == self.text(),
    {
        match self {
            PidError::AlreadyRunning { pid, path } => {
                let mut text = "Another ZeroClaw daemon is already running (pid ".to_string();
                text.append(decimal::numeral(*pid as u64).as_str());
                text.append("). Remove ");
                text.append(path.as_str());
                text.append(" to override.");
                text
            },
            PidError::CreateDirectory { path } => {
                "Failed to create PID file directory: ".to_string().concat(path.as_str())
            },
            PidError::Write { path } => {
                "Failed to write PID file: ".to_string().concat(path.as_str())
            },
        }
    }
}

/// What a process writes to its PID file names that process.
pub proof fn law_written_pid_is_read_back(pid: u32)
    ensures
        named_pid(written(pid as nat)) == pid,
{
    let n = pid as nat;
    let digits = decimal::decimal(n);
    let text = written(n);
    reveal_strlit("\n");
    decimal::lemma_decimal_digits(n);
    decimal::law_decimal_round_trip(n);
    assert(decimal::is_digit(digits[0]));
    assert(decimal::is_digit(digits.last()));
    assert(text[0] == digits[0]);
    assert(chars::trim_start(text) == text);
    assert(text.last() == '\n');
    assert(text.drop_last() =~= digits);
    assert(chars::trim_end(digits) == digits);
    assert(chars::trim_end(text) == digits);
}

/// A PID file names the number that stands in it, whatever white space is around it, as long as it
/// fits in 32 bits; a file that holds anything else names no process.
pub proof fn law_file_names_its_number(contents: Seq<char>, core: Seq<char>, at: int)
    requires
        laws::is_core(contents, core, at),
    ensures
        named_pid(contents) == (match decimal::read_decimal(core) {
            Some(n) => if n < 0x1_0000_0000 {
                n
            } else {
                0
            },
            None => 0,
        }),
{
    laws::law_trim_leaves_the_core(contents);
}

/// A PID file can be claimed exactly where it is missing, names no process, or names one that is not
/// running.
pub proof fn law_only_a_running_owner_keeps_the_file(
    contents: Option<Seq<char>>,
    owner_alive: bool,
)
    ensures
        may_claim(contents, owner_alive) <==> !owner_alive || contents is None || named_pid(
            contents->0,
        ) == 0,
        contents matches Some(text) && named_pid(text) != 0 ==> possible_owner(contents) == Some(
            named_pid(contents->0),
        ),
        contents is None || named_pid(contents->0) == 0 ==> possible_owner(contents) is None,
{
}

/// What a process writes is its number on a line of its own, and what a user is told names the
/// process and the whole path.
pub proof fn law_texts_name_process_and_path(pid: u32, path: String)
    ensures
        written(pid as nat) == decimal::decimal(pid as nat) + seq!['\n'],
        (PidError::AlreadyRunning { pid, path }).text()
            == "Another ZeroClaw daemon is already running (pid "@ + decimal::decimal(pid as nat)
            + "). Remove "@ + path@ + " to override."@,
        (PidError::CreateDirectory { path }).text() == "Failed to create PID file directory: "@
            + path@,
        (PidError::Write { path }).text() == "Failed to write PID file: "@ + path@,
{
    reveal_strlit("\n");
    assert(written(pid as nat) =~= decimal::decimal(pid as nat) + seq!['\n']);
}

/// The process that wrote a PID file is the one whose life decides whether the file can be claimed.
pub proof fn law_writer_decides_about_its_file(pid: u32)
    requires
        pid != 0,
    ensures
        possible_owner(Some(written(pid as nat))) == Some(pid as nat),
{
    law_written_pid_is_read_back(pid);
}

/// At most one claim on a PID file is alive at a time: once process `pid` has claimed the file, and
/// as long as it runs, every further claim fails and leaves the file as it is; once the process has
/// removed the file, or has ended without removing it, the next claim succeeds.
pub proof fn law_one_claim_at_a_time(
    contents: Option<Seq<char>>,
    owner_alive: bool,
    pid: u32,
    next: u32,
    next_alive: bool,
)
    requires
        pid != 0,
        may_claim(contents, owner_alive),
    ensures
        ({
            let claimed = after_claim(contents, owner_alive, pid as nat);
            &&& claimed == Some(written(pid as nat))
            &&& !may_claim(claimed, true)
            &&& after_claim(claimed, true, next as nat) == claimed
            &&& may_claim(claimed, false)
            &&& may_claim(None, next_alive)
            &&& after_claim(None, next_alive, next as nat) == Some(written(next as nat))
        }),
{
    law_writer_decides_about_its_file(pid);
}

} // verus!
