//! The capture session's sequential decisions: which log source a selector
//! names, and the shell command that tails the device-resident log. The
//! concurrent driving of the two session loops lives outside the library.

use vstd::prelude::*;

verus! {

use vstd::string::StrSliceExecFns;
use vstd::string::StringExecFns;

/// Where the source log is read from: a file local to the host, or the
/// device-resident log streamed through the device shell.
#[derive(Debug)]
pub enum LogSource {
    LocalFile(String),
    DeviceFile(String),
}

/// The device-resident log file read when no override path is given.
pub fn default_device_log_path() -> (r: String)
    ensures
        r@ == "/data/misc/bluetooth/logs/btsnoop_hci.log"@,
{
    "/data/misc/bluetooth/logs/btsnoop_hci.log".to_owned()
}

/// The distinguished prefix that makes a selector name a host-local file.
pub open spec fn local_prefix() -> Seq<char> {
    seq!['l', 'o', 'c', 'a', 'l', ':']
}

/// True when the selector carries the local-file prefix.
pub open spec fn selects_local(path: Seq<char>) -> bool {
    path.len() >= 6 && path.subrange(0, 6) == local_prefix()
}

/// Reads a log-source selector: a path carrying the local-file prefix
/// names the host-local file after the prefix, any other path names a
/// device-resident file.
pub fn resolve_log_source(path: &str) -> (r: LogSource)
    ensures
        selects_local(path@) ==> (r matches LogSource::LocalFile(p) && p@ == path@.skip(6)),
        !selects_local(path@) ==> (r matches LogSource::DeviceFile(p) && p@ == path@),
{
    let n = path.unicode_len();
    let is_local = n >= 6 && path.get_char(0) == 'l' && path.get_char(1) == 'o' && path.get_char(2)
        == 'c' && path.get_char(3) == 'a' && path.get_char(4) == 'l' && path.get_char(5) == ':';
    proof {
        if is_local {
            assert(path@.subrange(0, 6) =~= local_prefix());
        } else if selects_local(path@) {
            assert(path@.subrange(0, 6)[0] == path@[0]);
            assert(path@.subrange(0, 6)[1] == path@[1]);
            assert(path@.subrange(0, 6)[2] == path@[2]);
            assert(path@.subrange(0, 6)[3] == path@[3]);
            assert(path@.subrange(0, 6)[4] == path@[4]);
            assert(path@.subrange(0, 6)[5] == path@[5]);
            assert(false);
        }
    }
    if is_local {
        let rest = path.substring_char(6, n);
        LogSource::LocalFile(rest.to_owned())
    } else {
        LogSource::DeviceFile(path.to_owned())
    }
}

/// The shell command that waits for the device log file to exist and then
/// streams it from its first byte, following growth.
pub open spec fn tail_command_text(path: Seq<char>) -> Seq<char> {
    "until [ -f '"@ + path + "' ]; do sleep 1; done; tail -f -c +0 '"@ + path + "'"@
}

/// Builds the long-running tail command for the device log file.
pub fn tail_command(path: &str) -> (r: String)
    ensures
        r@ == tail_command_text(path@),
{
    let mut s: String = "until [ -f '".to_owned();
    s.append(path);
    s.append("' ]; do sleep 1; done; tail -f -c +0 '");
    s.append(path);
    s.append("'");
    proof {
        assert(s@ =~= tail_command_text(path@));
    }
    s
}

/// The status line emitted when either session loop completes.
pub fn capture_closed_message() -> (r: String)
    ensures
        r@ == "BT capture connection closed"@,
{
    "BT capture connection closed".to_owned()
}

/// The user-facing message shown when the device declines root access.
pub fn root_declined_message() -> (r: String)
    ensures
        r@
            == "Unable to get root access. Make sure your device is rooted or on a userdebug/eng build"@,
{
    "Unable to get root access. Make sure your device is rooted or on a userdebug/eng build".to_owned()
}

} // verus!
