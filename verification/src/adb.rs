//! Device-shell utilities: trimming shell replies, building shell command
//! argument vectors, and the root-access negotiation decisions.

use vstd::prelude::*;

verus! {

/// True for the bytes that `u8::is_ascii_whitespace` accepts: space,
/// horizontal tab, line feed, form feed, carriage return.
pub open spec fn is_ascii_ws(b: u8) -> bool {
    b == 0x20 || b == 0x09 || b == 0x0a || b == 0x0c || b == 0x0d
}

/// The sequence with all trailing ASCII whitespace bytes removed, and
/// nothing else: interior whitespace is kept.
pub open spec fn trimmed_end(s: Seq<u8>) -> Seq<u8>
    decreases s.len(),
{
    if s.len() == 0 {
        s
    } else if is_ascii_ws(s.last()) {
        trimmed_end(s.drop_last())
    } else {
        s
    }
}

/// Strips trailing ASCII whitespace bytes (and only trailing ones) from a
/// shell reply. Remote shells under elevation may append carriage returns;
/// interior bytes must never be touched.
pub fn trim_end(input: &[u8]) -> (r: &[u8])
    ensures
        r@ == trimmed_end(input@),
{
    let mut i: usize = input.len();
    proof {
        assert(input@.take(input.len() as int) =~= input@);
    }
    while i > 0
        invariant
            i <= input.len(),
            trimmed_end(input@) == trimmed_end(input@.take(i as int)),
        ensures
            i <= input.len(),
            trimmed_end(input@) == trimmed_end(input@.take(i as int)),
            i > 0 ==> !is_ascii_ws(input@[i as int - 1]),
        decreases i,
    {
        let b = input[i - 1];
        if !(b == 0x20 || b == 0x09 || b == 0x0a || b == 0x0c || b == 0x0d) {
            break;
        }
        proof {
            assert(input@.take(i as int).drop_last() =~= input@.take(i - 1));
        }
        i = i - 1;
    }
    proof {
        if i > 0 {
            assert(trimmed_end(input@.take(i as int)) =~= input@.take(i as int));
        } else {
            assert(input@.take(0) =~= Seq::<u8>::empty());
        }
    }
    vstd::slice::slice_subrange(input, 0, i)
}


use vstd::string::StringExecFns;

/// The escalation mode a session settles on, fixed once negotiated.
#[derive(Clone, Copy, Debug, PartialEq, Eq, Structural)]
pub enum EscalationMode {
    Direct,
    ViaElevationWrapper,
}

/// Why root access negotiation failed.
#[derive(Clone, Copy, Debug, PartialEq, Eq, Structural)]
pub enum AdbRootError {
    /// The device declined elevated execution; not retryable.
    RootDeclined,
    /// Spawning or reading an identity query failed.
    IoError,
}

/// An identity reply names the root user: it is exactly "0" once trailing
/// whitespace (which remote shells may append) is stripped.
pub open spec fn is_root_reply(reply: Seq<u8>) -> bool {
    trimmed_end(reply) == seq![0x30u8]
}

/// True when a trimmed identity reply names the root user.
pub fn reply_indicates_root(reply: &[u8]) -> (r: bool)
    ensures
        r == is_root_reply(reply@),
{
    let t = trim_end(reply);
    let r = t.len() == 1 && t[0] == 0x30;
    proof {
        if r {
            assert(t@ =~= seq![0x30u8]);
        } else {
            if t@ == seq![0x30u8] {
                assert(t@.len() == 1 && t@[0] == 0x30);
                assert(false);
            }
        }
    }
    r
}

/// Where the once-per-session root negotiation stands. The two query
/// states expect an effective-user-id reply, first from a plain query,
/// then from one run through the elevation wrapper; the two terminal
/// states are absorbing.
#[derive(Clone, Copy, Debug, PartialEq, Eq, Structural)]
pub enum NegotiationState {
    AwaitingDirectIdentity,
    AwaitingWrappedIdentity,
    Settled(EscalationMode),
    Declined,
}

/// One negotiation step: a root reply to the direct query settles on
/// direct escalation; a non-root direct reply retries through the
/// elevation wrapper; a root wrapped reply settles on the wrapper; a
/// non-root wrapped reply declines. Terminal states never move.
pub open spec fn negotiation_next(state: NegotiationState, reply: Seq<u8>) -> NegotiationState {
    match state {
        NegotiationState::AwaitingDirectIdentity => if is_root_reply(reply) {
            NegotiationState::Settled(EscalationMode::Direct)
        } else {
            NegotiationState::AwaitingWrappedIdentity
        },
        NegotiationState::AwaitingWrappedIdentity => if is_root_reply(reply) {
            NegotiationState::Settled(EscalationMode::ViaElevationWrapper)
        } else {
            NegotiationState::Declined
        },
        terminal => terminal,
    }
}

/// The state a fresh negotiation starts in.
pub fn negotiation_start() -> (r: NegotiationState)
    ensures
        r == NegotiationState::AwaitingDirectIdentity,
{
    NegotiationState::AwaitingDirectIdentity
}

/// Advances the negotiation with the bytes an identity query wrote.
pub fn negotiation_on_identity_reply(state: NegotiationState, reply: &[u8]) -> (r:
    NegotiationState)
    ensures
        r == negotiation_next(state, reply@),
{
    match state {
        NegotiationState::AwaitingDirectIdentity => {
            if reply_indicates_root(reply) {
                NegotiationState::Settled(EscalationMode::Direct)
            } else {
                NegotiationState::AwaitingWrappedIdentity
            }
        },
        NegotiationState::AwaitingWrappedIdentity => {
            if reply_indicates_root(reply) {
                NegotiationState::Settled(EscalationMode::ViaElevationWrapper)
            } else {
                NegotiationState::Declined
            }
        },
        terminal => terminal,
    }
}

/// The negotiation has exactly three terminal outcomes: a root reply to
/// the direct identity query settles on direct escalation; a non-root
/// direct reply followed by a root wrapped reply settles on the elevation
/// wrapper; two non-root replies decline root access.
pub proof fn lemma_negotiation_outcomes(direct: Seq<u8>, wrapped: Seq<u8>)
    ensures
        is_root_reply(direct) ==> negotiation_next(
            NegotiationState::AwaitingDirectIdentity,
            direct,
        ) == NegotiationState::Settled(EscalationMode::Direct),
        !is_root_reply(direct) && is_root_reply(wrapped) ==> negotiation_next(
            negotiation_next(NegotiationState::AwaitingDirectIdentity, direct),
            wrapped,
        ) == NegotiationState::Settled(EscalationMode::ViaElevationWrapper),
        !is_root_reply(direct) && !is_root_reply(wrapped) ==> negotiation_next(
            negotiation_next(NegotiationState::AwaitingDirectIdentity, direct),
            wrapped,
        ) == NegotiationState::Declined,
{
}

/// What a shell word looks like after shell quoting, as performed by the
/// quoting routine the executor relies on.
pub uninterp spec fn shell_quoted(s: Seq<char>) -> Seq<char>;

/// Relies on shlex::try_quote: it quotes a word so that a POSIX shell
/// recovers the original bytes losslessly, the result depends on the input
/// characters alone, and it fails exactly when the input contains a nul
/// character.
#[verifier::external_body]
fn shlex_quote(command: &str) -> (r: Option<String>)
    ensures
        match r {
            Some(q) => q@ == shell_quoted(command@) && !command@.contains('\0'),
            None => command@.contains('\0'),
        },
{
    match shlex::try_quote(command) {
        Ok(q) => Some(q.into_owned()),
        Err(_) => None,
    }
}

/// A device shell whose escalation mode has been negotiated; the mode,
/// once set, governs every command the session runs.
#[derive(Debug)]
pub struct RootShell {
    /// Path to the device-bridge executable.
    pub adb_path: String,
    /// The serial number of the device.
    pub serial: String,
    /// How elevated execution is obtained.
    pub mode: EscalationMode,
}

/// The command word actually handed to the device shell: unchanged under
/// direct escalation; under the elevation wrapper it is re-run elevated
/// with the original command quoted as one argument, piped through a
/// passthrough filter to suppress the line-ending normalization the
/// wrapper would otherwise reintroduce into binary output.
pub open spec fn wrapped_command(mode: EscalationMode, cmd: Seq<char>) -> Seq<char> {
    match mode {
        EscalationMode::Direct => cmd,
        EscalationMode::ViaElevationWrapper => "su -c "@ + shell_quoted(cmd) + " | cat"@,
    }
}

impl RootShell {
    /// The argument vector, executable first, that runs `command` on the
    /// device with this session's escalation mode applied.
    pub fn exec_out(&self, command: &str) -> (r: Vec<String>)
        requires
            !command@.contains('\0'),
        ensures
            r@.len() == 5,
            r@[0]@ == self.adb_path@,
            r@[1]@ == "-s"@,
            r@[2]@ == self.serial@,
            r@[3]@ == "exec-out"@,
            r@[4]@ == wrapped_command(self.mode, command@),
    {
        let last: String = match self.mode {
            EscalationMode::Direct => command.to_owned(),
            EscalationMode::ViaElevationWrapper => {
                match shlex_quote(command) {
                    Some(q) => {
                        let mut s: String = "su -c ".to_owned();
                        s.append(q.as_str());
                        s.append(" | cat");
                        s
                    },
                    None => {
                        proof {
                            assert(false);
                        }
                        String::new()
                    },
                }
            },
        };
        let mut args: Vec<String> = Vec::new();
        args.push(self.adb_path.clone());
        args.push("-s".to_owned());
        args.push(self.serial.clone());
        args.push("exec-out".to_owned());
        args.push(last);
        args
    }
}

/// The argument vector, executable first, that runs `command` on the given
/// device without escalation.
pub fn exec_out(adb_path: &str, serial: &str, command: &str) -> (r: Vec<String>)
    ensures
        r@.len() == 5,
        r@[0]@ == adb_path@,
        r@[1]@ == "-s"@,
        r@[2]@ == serial@,
        r@[3]@ == "exec-out"@,
        r@[4]@ == command@,
{
    let mut args: Vec<String> = Vec::new();
    args.push(adb_path.to_owned());
    args.push("-s".to_owned());
    args.push(serial.to_owned());
    args.push("exec-out".to_owned());
    args.push(command.to_owned());
    args
}


/// The device's controller-log mode, as its logging property reports it.
#[derive(Clone, Copy, Debug, PartialEq, Eq, Structural)]
pub enum BtsnoopLogMode {
    Disabled,
    Filtered,
    Full,
}

/// The property word naming a log mode.
pub open spec fn mode_word(mode: BtsnoopLogMode) -> Seq<char> {
    match mode {
        BtsnoopLogMode::Disabled => "disabled"@,
        BtsnoopLogMode::Filtered => "filtered"@,
        BtsnoopLogMode::Full => "full"@,
    }
}

/// The "full" mode word as property-reply bytes.
pub open spec fn full_reply_word() -> Seq<u8> {
    seq![0x66u8, 0x75u8, 0x6cu8, 0x6cu8]
}

/// The "filtered" mode word as property-reply bytes.
pub open spec fn filtered_reply_word() -> Seq<u8> {
    seq![0x66u8, 0x69u8, 0x6cu8, 0x74u8, 0x65u8, 0x72u8, 0x65u8, 0x64u8]
}

/// The mode a property reply names, once trailing whitespace is stripped:
/// anything other than the two enabled words reads as disabled.
pub open spec fn log_mode_of_reply(reply: Seq<u8>) -> BtsnoopLogMode {
    if trimmed_end(reply) == full_reply_word() {
        BtsnoopLogMode::Full
    } else if trimmed_end(reply) == filtered_reply_word() {
        BtsnoopLogMode::Filtered
    } else {
        BtsnoopLogMode::Disabled
    }
}

/// The full command that switches the device's log mode and restarts its
/// radio stack so the change takes effect.
pub open spec fn set_mode_command_text(mode: BtsnoopLogMode) -> Seq<char> {
    "setprop persist.bluetooth.btsnooplogmode "@ + mode_word(mode)
        + " && svc bluetooth disable && sleep 2 && svc bluetooth enable"@
}

/// Reading and switching the controller-log setting the device stores in
/// its logging property.
pub struct BtsnoopLogSettings {}

impl BtsnoopLogSettings {
    /// The shell command that switches the log mode to `mode`.
    pub fn set_mode_command(mode: BtsnoopLogMode) -> (r: String)
        ensures
            r@ == set_mode_command_text(mode),
    {
        let word: &str = match mode {
            BtsnoopLogMode::Disabled => "disabled",
            BtsnoopLogMode::Filtered => "filtered",
            BtsnoopLogMode::Full => "full",
        };
        let mut s: String = "setprop persist.bluetooth.btsnooplogmode ".to_owned();
        s.append(word);
        s.append(" && svc bluetooth disable && sleep 2 && svc bluetooth enable");
        s
    }

    /// The shell command that queries the current log mode.
    pub fn mode_query_command() -> (r: String)
        ensures
            r@ == "getprop persist.bluetooth.btsnooplogmode"@,
    {
        "getprop persist.bluetooth.btsnooplogmode".to_owned()
    }

    /// Decodes the bytes the mode query wrote into the mode they name.
    pub fn mode_of_reply(reply: &[u8]) -> (r: BtsnoopLogMode)
        ensures
            r == log_mode_of_reply(reply@),
    {
        let t = trim_end(reply);
        let is_full = t.len() == 4 && t[0] == 0x66 && t[1] == 0x75 && t[2] == 0x6c && t[3] == 0x6c;
        proof {
            if is_full {
                assert(t@ =~= full_reply_word());
            } else if t@ == full_reply_word() {
                assert(t@[0] == 0x66 && t@[1] == 0x75 && t@[2] == 0x6c && t@[3] == 0x6c);
                assert(false);
            }
        }
        if is_full {
            return BtsnoopLogMode::Full;
        }
        let is_filtered = t.len() == 8 && t[0] == 0x66 && t[1] == 0x69 && t[2] == 0x6c && t[3]
            == 0x74 && t[4] == 0x65 && t[5] == 0x72 && t[6] == 0x65 && t[7] == 0x64;
        proof {
            if is_filtered {
                assert(t@ =~= filtered_reply_word());
            } else if t@ == filtered_reply_word() {
                assert(t@[0] == 0x66 && t@[1] == 0x69 && t@[2] == 0x6c && t@[3] == 0x74);
                assert(t@[4] == 0x65 && t@[5] == 0x72 && t@[6] == 0x65 && t@[7] == 0x64);
                assert(false);
            }
        }
        if is_filtered {
            return BtsnoopLogMode::Filtered;
        }
        BtsnoopLogMode::Disabled
    }
}

/// A device reachable over the debug bridge.
#[derive(Debug)]
pub struct AdbDevice {
    /// The serial number most commands address the device by.
    pub serial: String,
    /// A user-friendly display name.
    pub display_name: String,
}

/// The fixed device list the mock bridge path reports, used for testing
/// without a connected device.
pub fn mock_adb_devices() -> (r: Vec<AdbDevice>)
    ensures
        r@.len() == 2,
        r@[0].serial@ == "TEST_SERIAL_1"@,
        r@[0].display_name@ == "Test device 1"@,
        r@[1].serial@ == "TEST_SERIAL_2"@,
        r@[1].display_name@ == "Test device 2"@,
{
    let mut v: Vec<AdbDevice> = Vec::new();
    v.push(
        AdbDevice {
            serial: "TEST_SERIAL_1".to_owned(),
            display_name: "Test device 1".to_owned(),
        },
    );
    v.push(
        AdbDevice {
            serial: "TEST_SERIAL_2".to_owned(),
            display_name: "Test device 2".to_owned(),
        },
    );
    v
}

} // verus!
