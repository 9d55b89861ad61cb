//! The isle controller: one isolated domain run by an emulator process, a
//! lightweight hypervisor, or a partition of a multi-isle host.
use vstd::prelude::*;

use crate::decimal::{append_decimal, decimal_text, digits_value, is_u8_text, parse_u8, unsigned_digits};
use crate::error::Error;
use crate::readiness::{log_is_ready, scan_log};

verus! {

/// Guest memory of a hypervisor isle, in bytes (512 MiB).
pub const HYPERVISOR_MEM_SIZE: u64 = 0x20000000;

/// Where the pseudo-files of all isles live.
pub const HERMIT_DIR: &'static str = "/sys/hermit";

/// Where the emulator writes its log file.
pub const EMULATOR_LOG_DIR: &'static str = "/tmp";

/// The control value that withdraws all virtual CPUs of an isle.
pub const CPUS_OFF: &'static str = "-1";

/// The isle of a controller and the backend that runs it.
#[derive(Debug)]
pub enum IsleKind {
    /// An emulator process booting the guest image; always isle 0.
    QEMU { image: String },
    /// A virtual machine of the lightweight hypervisor with `mem_size` bytes
    /// of guest memory, loaded with the guest image; always isle 0.
    UHYVE { image: String, mem_size: u64 },
    /// The partition `num` of a multi-isle host, running the guest image.
    MULTI { num: u8, image: String },
}

/// The partition index that a backend selector names: its value where it
/// is the text of a `u8`, else 0.
pub open spec fn partition_index(kind: Seq<char>) -> u8 {
    if is_u8_text(kind) {
        digits_value(unsigned_digits(kind)) as u8
    } else {
        0
    }
}

/// The path of the pseudo-file `leaf` of isle `num`.
pub open spec fn isle_file_path(num: u8, leaf: Seq<char>) -> Seq<char> {
    "/sys/hermit/isle"@ + decimal_text(num as nat) + "/"@ + leaf
}

/// What the watcher learns at a wake: the log's content, or why it could
/// not be read, and what the emulator has printed so far (empty for the
/// other backends).
pub struct Wake {
    pub log: Result<Vec<u8>, String>,
    pub stdout: String,
    pub stderr: String,
}

/// What the watcher does after a wake.
#[derive(Debug, PartialEq, Eq)]
pub enum WaitStep {
    /// The isle is ready: stop waiting and report success.
    Ready,
    /// Not ready yet: wait for the next change.
    Pending,
    /// A fatal condition: stop waiting and report this error.
    Fail(Error),
}

/// How the write of the CPU control file went.
#[derive(Debug, Clone, Copy, PartialEq, Eq)]
pub enum CpuWrite {
    /// The file was opened and the control value written.
    Written,
    /// The file could not be opened or created.
    OpenFailed,
    /// The file was opened but the write did not complete.
    WriteFailed,
}

impl IsleKind {
    /// The isle index of the controller.
    pub open spec fn spec_num(&self) -> u8 {
        match self {
            IsleKind::MULTI { num, .. } => *num,
            _ => 0,
        }
    }

    /// Chooses the backend for the selector `kind`: `"qemu"` an emulator,
    /// `"uhyve"` a hypervisor with [`HYPERVISOR_MEM_SIZE`] bytes of guest
    /// memory, anything else the partition whose index it gives (0 where it
    /// is no `u8`). The backend itself is brought up by the caller.
    pub fn new(kind: &str, path: &str) -> (r: IsleKind)
        ensures
            kind@ == "qemu"@ ==> (r matches IsleKind::QEMU { image } && image@ == path@),
            kind@ == "uhyve"@ ==> (r matches IsleKind::UHYVE { image, mem_size } && image@
                == path@ && mem_size == HYPERVISOR_MEM_SIZE),
            kind@ != "qemu"@ && kind@ != "uhyve"@ ==> (r matches IsleKind::MULTI { num, image }
                && num == partition_index(kind@) && image@ == path@),
    {
        proof {
            reveal_strlit("qemu");
            reveal_strlit("uhyve");
        }
        let selector = String::from_str(kind);
        let image = String::from_str(path);
        if selector == String::from_str("qemu") {
            IsleKind::QEMU { image }
        } else if selector == String::from_str("uhyve") {
            IsleKind::UHYVE { image, mem_size: HYPERVISOR_MEM_SIZE }
        } else {
            let num = match parse_u8(kind) {
                Some(n) => n,
                None => 0,
            };
            IsleKind::MULTI { num, image }
        }
    }

    /// The isle index: 0 for the emulator and the hypervisor, the
    /// partition's own index otherwise.
    pub fn get_num(&self) -> (r: u8)
        ensures
            r == self.spec_num(),
    {
        match self {
            IsleKind::MULTI { num, .. } => *num,
            _ => 0,
        }
    }

    /// The path of this isle's pseudo-file `leaf`.
    fn isle_file(&self, leaf: &str) -> (r: String)
        ensures
            r@ == isle_file_path(self.spec_num(), leaf@),
    {
        let mut p = String::from_str("/sys/hermit/isle");
        append_decimal(&mut p, self.get_num());
        p.append("/");
        p.append(leaf);
        p
    }

    /// The readiness log to read: `None` for the emulator, whose log is
    /// the temporary file that the emulator process names, else
    /// `/sys/hermit/isle<N>/log`.
    pub fn log_path(&self) -> (r: Option<String>)
        ensures
            self is QEMU <==> r is None,
            r matches Some(p) ==> p@ == isle_file_path(self.spec_num(), "log"@),
    {
        match self {
            IsleKind::QEMU { .. } => None,
            _ => Some(self.isle_file("log")),
        }
    }

    /// The CPU control file of this isle, `/sys/hermit/isle<N>/cpus`.
    pub fn cpus_path(&self) -> (r: String)
        ensures
            r@ == isle_file_path(self.spec_num(), "cpus"@),
    {
        self.isle_file("cpus")
    }

    /// The directory to watch for changes while waiting: the emulator's
    /// log directory, or the isles' pseudo-file directory for a partition.
    /// A hypervisor isle is ready once built, so nothing is watched.
    pub fn watch_dir(&self) -> (r: Option<String>)
        ensures
            self is UHYVE <==> r is None,
            self is QEMU ==> (r matches Some(d) && d@ == EMULATOR_LOG_DIR@),
            self is MULTI ==> (r matches Some(d) && d@ == HERMIT_DIR@),
    {
        match self {
            IsleKind::QEMU { .. } => Some(String::from_str(EMULATOR_LOG_DIR)),
            IsleKind::UHYVE { .. } => None,
            IsleKind::MULTI { .. } => Some(String::from_str(HERMIT_DIR)),
        }
    }

    /// Whether the isle is ready, given what reading its log gave: the
    /// content, or why the log could not be opened. A log that cannot be
    /// opened is an error, not a "no".
    pub fn is_available(&self, log: Result<Vec<u8>, String>) -> (r: Result<bool, Error>)
        ensures
            log matches Err(d) ==> r == Err::<bool, Error>(Error::InvalidFile(d)),
            log matches Ok(b) ==> r == Ok::<bool, Error>(log_is_ready(b@)),
    {
        match log {
            Ok(b) => Ok(scan_log(b.as_slice())),
            Err(d) => Err(Error::InvalidFile(d)),
        }
    }

    /// Decides, after a change wakes the watcher, whether to stop waiting.
    /// Output on the emulator's error stream is fatal, whatever the log
    /// holds; otherwise the log is checked afresh.
    pub fn wait_available(&self, wake: Wake) -> (r: WaitStep)
        ensures
            self is UHYVE ==> r == WaitStep::Ready,
            self is QEMU && wake.stderr@.len() > 0 ==> r == WaitStep::Fail(
                Error::QEmu(wake.stdout, wake.stderr),
            ),
            !(self is UHYVE) && !(self is QEMU && wake.stderr@.len() > 0) ==> match wake.log {
                Err(d) => r == WaitStep::Fail(Error::InvalidFile(d)),
                Ok(b) => r == if log_is_ready(b@) {
                    WaitStep::Ready
                } else {
                    WaitStep::Pending
                },
            },
    {
        if let IsleKind::UHYVE { .. } = self {
            return WaitStep::Ready;
        }
        if let IsleKind::QEMU { .. } = self {
            if wake.stderr.unicode_len() > 0 {
                return WaitStep::Fail(Error::QEmu(wake.stdout, wake.stderr));
            }
        }
        match self.is_available(wake.log) {
            Ok(true) => WaitStep::Ready,
            Ok(false) => WaitStep::Pending,
            Err(e) => WaitStep::Fail(e),
        }
    }

    /// The outcome of a request to withdraw all virtual CPUs, given how
    /// writing [`CPUS_OFF`] to [`IsleKind::cpus_path`] went. A file that
    /// cannot be opened and a write that does not complete are both
    /// reported, naming the file.
    pub fn stop(&self, attempt: CpuWrite) -> (r: Result<(), Error>)
        ensures
            attempt == CpuWrite::Written ==> r is Ok,
            attempt != CpuWrite::Written ==> (r matches Err(Error::InvalidFile(p)) && p@
                == isle_file_path(self.spec_num(), "cpus"@)),
    {
        match attempt {
            CpuWrite::Written => Ok(()),
            _ => Err(Error::InvalidFile(self.cpus_path())),
        }
    }
}

} // verus!
