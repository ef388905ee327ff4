//! Run-time compilation of BANG C kernels, and kernel launches.
use vstd::prelude::*;
use vstd::utf8::*;
use vstd::string::StringSliceAdditionalSpecFns;
use crate::queue::Queue;
use crate::text::{
    is_white_space, lemma_trimmed_inner_run, lemma_trimmed_keeps_bare_text, signed_decimal,
    signed_decimal_string, string_from_utf8, trim, trimmed,
};

verus! {

/// What compiling returned: success (code zero), or the non-zero code of the failure
/// (`cnrtcStatus`).
#[derive(Clone, Copy, PartialEq, Eq, Structural, Hash, Debug)]
pub enum CnrtcStatus {
    Success,
    Failure(u32),
}

/// A compiled fat binary.
#[derive(Debug)]
pub struct CnrtcBinary(pub Vec<u8>);

/// The compiler options for an instruction set version: full optimisation and the matching
/// architecture.
pub open spec fn compile_options_text(isa: i32) -> Seq<Seq<char>> {
    seq![
        seq!['-', 'O', '3'],
        seq!['-', '-', 'b', 'a', 'n', 'g', '-', 'm', 'l', 'u', '-', 'a', 'r', 'c', 'h', '=', 'm', 't', 'p', '_']
            + signed_decimal(isa as int),
    ]
}

/// The compilation log held in the buffer the compiler filled (its last byte is the terminating
/// zero): empty for a buffer of at most one byte, otherwise the text before the last byte
/// without surrounding white space.
pub open spec fn compile_log_text(raw: Seq<u8>) -> Seq<char> {
    if raw.len() > 1 {
        trimmed(decode_utf8(raw.drop_last()))
    } else {
        Seq::empty()
    }
}

/// A log buffer that can be read: one of at most one byte, or one whose text is UTF-8.
pub open spec fn compile_log_readable(raw: Seq<u8>) -> bool {
    raw.len() > 1 ==> valid_utf8(raw.drop_last())
}

/// The log keeps every line the compiler wrote, in order: it is the run of the text before the
/// terminating byte from its first to its last character that is not white space, line breaks
/// inside included, and only white space lies outside that run. Text that neither begins nor
/// ends with white space is the log whole.
pub proof fn lemma_compile_log_keeps_all_lines(raw: Seq<u8>) -> (r: (int, int))
    requires
        raw.len() > 1,
    ensures
        0 <= r.0 <= r.1 <= decode_utf8(raw.drop_last()).len(),
        compile_log_text(raw) == decode_utf8(raw.drop_last()).subrange(r.0, r.1),
        forall|j: int|
            0 <= j < r.0 ==> is_white_space(#[trigger] decode_utf8(raw.drop_last())[j]),
        forall|j: int|
            r.1 <= j < decode_utf8(raw.drop_last()).len() ==> is_white_space(
                #[trigger] decode_utf8(raw.drop_last())[j],
            ),
        ({
            let t = decode_utf8(raw.drop_last());
            t.len() > 0 && !is_white_space(t[0]) && !is_white_space(t.last())
                ==> compile_log_text(raw) == t
        }),
{
    let t = decode_utf8(raw.drop_last());
    if t.len() > 0 && !is_white_space(t[0]) && !is_white_space(t.last()) {
        lemma_trimmed_keeps_bare_text(t);
    }
    lemma_trimmed_inner_run(t)
}

impl CnrtcBinary {
    /// The bytes of the binary.
    pub fn as_bytes(&self) -> (b: &[u8])
        ensures
            b@ == self.0@,
    {
        self.0.as_slice()
    }

    /// The options to compile with for an instruction set version.
    pub fn compile_options(isa: i32) -> (options: Vec<String>)
        ensures
            options@.len() == 2,
            options@[0]@ == compile_options_text(isa)[0],
            options@[1]@ == compile_options_text(isa)[1],
    {
        let optimise = String::from_str("-O3");
        let mut arch = String::from_str("--bang-mlu-arch=mtp_");
        let isa_text = signed_decimal_string(isa as i64);
        arch.append(isa_text.as_str());
        proof {
            reveal_strlit("-O3");
            reveal_strlit("--bang-mlu-arch=mtp_");
        }
        let mut options: Vec<String> = Vec::new();
        options.push(optimise);
        options.push(arch);
        options
    }

    /// The compilation log in the buffer the compiler filled.
    pub fn compilation_log(raw: &[u8]) -> (log: String)
        requires
            compile_log_readable(raw@),
        ensures
            log@ == compile_log_text(raw@),
            raw@.len() > 1 ==> log@ == trimmed(decode_utf8(raw@.drop_last())),
            raw@.len() <= 1 ==> log@ == Seq::<char>::empty(),
    {
        if raw.len() > 1 {
            let mut bytes: Vec<u8> = Vec::new();
            let mut i: usize = 0;
            while i + 1 < raw.len()
                invariant
                    i + 1 <= raw@.len(),
                    bytes@ == raw@.subrange(0, i as int),
                decreases raw.len() - i,
            {
                bytes.push(raw[i]);
                i = i + 1;
            }
            assert(bytes@ =~= raw@.drop_last());
            match string_from_utf8(bytes) {
                Some(text) => trim(text.as_str()).to_owned(),
                None => String::new(),
            }
        } else {
            String::new()
        }
    }
}

/// A step the driver takes for a compilation.
#[derive(Debug)]
pub enum CompileAction {
    /// Create the program object from the source, given as its UTF-8 bytes.
    CreateCode(Vec<u8>),
    /// Compile it with these options.
    CompileCode(Vec<String>),
    /// Ask for the size of the compilation log.
    GetLogSize,
    /// Read the compilation log, which takes this many bytes.
    GetLog(usize),
    /// Ask for the size of the fat binary.
    GetBinarySize,
    /// Read the fat binary, which takes this many bytes.
    GetBinary(usize),
    /// Destroy the program object.
    DestroyCode,
    /// Nothing is left to do: take the outcome.
    Finish,
}

/// What the driver answered to the last step.
#[derive(Debug)]
pub enum CompileEvent {
    Created,
    Compiled(CnrtcStatus),
    LogSize(usize),
    Log(Vec<u8>),
    BinarySize(usize),
    Binary(Vec<u8>),
    Destroyed,
}

/// Where a compilation is: which answer it waits for.
#[derive(Clone, Copy, PartialEq, Eq, Structural, Hash, Debug)]
pub enum CompilePhase {
    Creating,
    Compiling,
    SizingLog,
    ReadingLog,
    SizingBinary,
    ReadingBinary,
    Destroying,
    Done,
}

/// A compilation in progress: the steps of `CnrtcBinary::compile`, driven by the driver's
/// answers.
pub struct Compilation {
    isa: i32,
    phase: CompilePhase,
    status: CnrtcStatus,
    log_len: usize,
    log: String,
    binary_len: usize,
    binary: Vec<u8>,
}

/// Whether a compilation in a phase takes an answer.
pub open spec fn accepts(phase: CompilePhase, event: CompileEvent) -> bool {
    match (phase, event) {
        (CompilePhase::Creating, CompileEvent::Created) => true,
        (CompilePhase::Compiling, CompileEvent::Compiled(_)) => true,
        (CompilePhase::SizingLog, CompileEvent::LogSize(_)) => true,
        (CompilePhase::ReadingLog, CompileEvent::Log(_)) => true,
        (CompilePhase::SizingBinary, CompileEvent::BinarySize(_)) => true,
        (CompilePhase::ReadingBinary, CompileEvent::Binary(_)) => true,
        (CompilePhase::Destroying, CompileEvent::Destroyed) => true,
        _ => false,
    }
}

impl Compilation {
    #[verifier::type_invariant]
    spec fn inv(self) -> bool {
        match self.phase {
            CompilePhase::SizingBinary | CompilePhase::ReadingBinary | CompilePhase::Destroying => {
                self.status == CnrtcStatus::Success
            },
            _ => true,
        }
    }

    /// The instruction set version compiled for.
    pub closed spec fn isa(self) -> i32 {
        self.isa
    }

    /// Which answer the compilation waits for.
    pub closed spec fn phase(self) -> CompilePhase {
        self.phase
    }

    /// What compiling returned (meaningful once compiled).
    pub closed spec fn status(self) -> CnrtcStatus {
        self.status
    }

    /// The size of the log the compiler reported (meaningful once reported).
    pub closed spec fn log_len(self) -> usize {
        self.log_len
    }

    /// The log text so far.
    pub closed spec fn log(self) -> Seq<char> {
        self.log@
    }

    /// The size of the binary the compiler reported (meaningful once reported).
    pub closed spec fn binary_len(self) -> usize {
        self.binary_len
    }

    /// The binary read so far.
    pub closed spec fn binary(self) -> Seq<u8> {
        self.binary@
    }

    /// The step after the log is known: read the binary of a successful compilation, otherwise
    /// stop.
    fn after_log(&mut self) -> (a: CompileAction)
        requires
            old(self).phase == CompilePhase::SizingLog || old(self).phase
                == CompilePhase::ReadingLog,
        ensures
            final(self).isa == old(self).isa,
            final(self).status == old(self).status,
            final(self).log == old(self).log,
            final(self).binary == old(self).binary,
            final(self).log_len == old(self).log_len,
            final(self).binary_len == old(self).binary_len,
            old(self).status == CnrtcStatus::Success ==> final(self).phase
                == CompilePhase::SizingBinary && a is GetBinarySize,
            old(self).status != CnrtcStatus::Success ==> final(self).phase == CompilePhase::Done
                && a is Finish,
    {
        if self.status == CnrtcStatus::Success {
            self.phase = CompilePhase::SizingBinary;
            CompileAction::GetBinarySize
        } else {
            self.phase = CompilePhase::Done;
            CompileAction::Finish
        }
    }

    /// Takes the driver's answer to the last step and gives the next step.
    pub fn step(&mut self, event: CompileEvent) -> (a: CompileAction)
        requires
            accepts(old(self).phase(), event),
            event matches CompileEvent::Log(raw) ==> raw@.len() == old(self).log_len()
                && compile_log_readable(raw@),
            event matches CompileEvent::Binary(bin) ==> bin@.len() == old(self).binary_len(),
            event matches CompileEvent::Compiled(CnrtcStatus::Failure(code)) ==> code != 0,
        ensures
            final(self).isa() == old(self).isa(),
            match event {
                CompileEvent::Created => {
                    &&& final(self).phase() == CompilePhase::Compiling
                    &&& final(self).status() == old(self).status()
                    &&& final(self).log() == old(self).log()
                    &&& final(self).binary() == old(self).binary()
                    &&& a matches CompileAction::CompileCode(options) && options@.len() == 2
                        && options@[0]@ == compile_options_text(old(self).isa())[0]
                        && options@[1]@ == compile_options_text(old(self).isa())[1]
                },
                CompileEvent::Compiled(status) => {
                    &&& final(self).phase() == CompilePhase::SizingLog
                    &&& final(self).status() == status
                    &&& final(self).log() == old(self).log()
                    &&& final(self).binary() == old(self).binary()
                    &&& a is GetLogSize
                },
                CompileEvent::LogSize(n) => {
                    &&& final(self).status() == old(self).status()
                    &&& final(self).binary() == old(self).binary()
                    &&& n > 1 ==> final(self).log() == old(self).log()
                    &&& n > 1 ==> {
                        &&& final(self).phase() == CompilePhase::ReadingLog
                        &&& final(self).log_len() == n
                        &&& a == CompileAction::GetLog(n)
                    }
                    &&& n <= 1 ==> {
                        &&& final(self).log() == Seq::<char>::empty()
                        &&& old(self).status() == CnrtcStatus::Success ==> final(self).phase()
                            == CompilePhase::SizingBinary && a is GetBinarySize
                        &&& old(self).status() != CnrtcStatus::Success ==> final(self).phase()
                            == CompilePhase::Done && a is Finish
                    }
                },
                CompileEvent::Log(raw) => {
                    &&& final(self).status() == old(self).status()
                    &&& final(self).binary() == old(self).binary()
                    &&& final(self).log() == compile_log_text(raw@)
                    &&& old(self).status() == CnrtcStatus::Success ==> final(self).phase()
                        == CompilePhase::SizingBinary && a is GetBinarySize
                    &&& old(self).status() != CnrtcStatus::Success ==> final(self).phase()
                        == CompilePhase::Done && a is Finish
                },
                CompileEvent::BinarySize(n) => {
                    &&& final(self).phase() == CompilePhase::ReadingBinary
                    &&& final(self).status() == old(self).status()
                    &&& final(self).log() == old(self).log()
                    &&& final(self).binary() == old(self).binary()
                    &&& final(self).binary_len() == n
                    &&& a == CompileAction::GetBinary(n)
                },
                CompileEvent::Binary(bin) => {
                    &&& final(self).phase() == CompilePhase::Destroying
                    &&& final(self).status() == old(self).status()
                    &&& final(self).log() == old(self).log()
                    &&& final(self).binary() == bin@
                    &&& a is DestroyCode
                },
                CompileEvent::Destroyed => {
                    &&& final(self).phase() == CompilePhase::Done
                    &&& final(self).status() == old(self).status()
                    &&& final(self).log() == old(self).log()
                    &&& final(self).binary() == old(self).binary()
                    &&& a is Finish
                },
            },
    {
        proof {
            use_type_invariant(&*self);
        }
        match event {
            CompileEvent::Created => {
                self.phase = CompilePhase::Compiling;
                CompileAction::CompileCode(CnrtcBinary::compile_options(self.isa))
            },
            CompileEvent::Compiled(status) => {
                self.phase = CompilePhase::SizingLog;
                self.status = status;
                CompileAction::GetLogSize
            },
            CompileEvent::LogSize(n) => {
                if n > 1 {
                    self.phase = CompilePhase::ReadingLog;
                    self.log_len = n;
                    CompileAction::GetLog(n)
                } else {
                    self.log = String::new();
                    self.after_log()
                }
            },
            CompileEvent::Log(raw) => {
                self.log = CnrtcBinary::compilation_log(raw.as_slice());
                self.after_log()
            },
            CompileEvent::BinarySize(n) => {
                self.phase = CompilePhase::ReadingBinary;
                self.binary_len = n;
                CompileAction::GetBinary(n)
            },
            CompileEvent::Binary(bin) => {
                self.phase = CompilePhase::Destroying;
                self.binary = bin;
                CompileAction::DestroyCode
            },
            CompileEvent::Destroyed => {
                self.phase = CompilePhase::Done;
                CompileAction::Finish
            },
        }
    }

    /// The outcome of a finished compilation: the binary if compiling succeeded, otherwise what
    /// compiling returned; and the log.
    pub fn finish(self) -> (r: (Result<CnrtcBinary, CnrtcStatus>, String))
        requires
            self.phase() == CompilePhase::Done,
        ensures
            r.1@ == self.log(),
            self.status() == CnrtcStatus::Success ==> (r.0 matches Ok(bin) && bin.0@
                == self.binary()),
            self.status() != CnrtcStatus::Success ==> r.0 == Err::<CnrtcBinary, CnrtcStatus>(
                self.status(),
            ),
    {
        let Compilation { isa: _, phase: _, status, log_len: _, log, binary_len: _, binary } = self;
        if status == CnrtcStatus::Success {
            (Ok(CnrtcBinary(binary)), log)
        } else {
            (Err(status), log)
        }
    }
}

impl CnrtcBinary {
    /// Starts compiling BANG C source for an instruction set version; the source must not hold
    /// a zero character. The first step creates the program object from the source's bytes.
    pub fn compile(src: &str, isa: i32) -> (r: (Compilation, CompileAction))
        requires
            !src@.contains('\0'),
        ensures
            r.0.phase() == CompilePhase::Creating,
            r.0.isa() == isa,
            r.0.log() == Seq::<char>::empty(),
            r.0.binary() == Seq::<u8>::empty(),
            r.1 matches CompileAction::CreateCode(source) && source@ == src.spec_bytes(),
    {
        let bytes = src.as_bytes();
        let mut source: Vec<u8> = Vec::new();
        let mut i: usize = 0;
        while i < bytes.len()
            invariant
                i <= bytes@.len(),
                source@ == bytes@.subrange(0, i as int),
            decreases bytes.len() - i,
        {
            source.push(bytes[i]);
            i = i + 1;
        }
        assert(source@ =~= bytes@);
        let c = Compilation {
            isa,
            phase: CompilePhase::Creating,
            status: CnrtcStatus::Success,
            log_len: 0,
            log: String::new(),
            binary_len: 0,
            binary: Vec::new(),
        };
        (c, CompileAction::CreateCode(source))
    }
}

/// A kernel function of a loaded module (`CNkernel`, held as its address).
#[derive(Clone, Copy, PartialEq, Eq, Structural, Hash, Debug)]
pub struct KernelFn(pub usize);

/// How a kernel's work is grouped on the device (`KernelClass`).
#[derive(Clone, Copy, PartialEq, Eq, Structural, Hash, Debug)]
pub enum KernelClass {
    /// One task per core.
    Block,
}

/// A launch of a kernel: the kernel, its dimensions in the driver's `x, y, z` order, its task
/// class, the reserved argument (zero), and the queue it goes on.
#[derive(Clone, Copy, PartialEq, Eq, Structural, Hash, Debug)]
pub struct KernelLaunch {
    pub kernel: usize,
    pub dim_x: u32,
    pub dim_y: u32,
    pub dim_z: u32,
    pub class: KernelClass,
    pub reserve: u32,
    pub queue: usize,
}

impl KernelFn {
    /// The launch of this kernel as a block task with dimensions given outermost first
    /// (`z, y, x`) on a queue.
    pub fn launch(&self, dimz: u32, dimy: u32, dimx: u32, queue: &Queue) -> (l: KernelLaunch)
        ensures
            l == (KernelLaunch {
                kernel: self.0,
                dim_x: dimx,
                dim_y: dimy,
                dim_z: dimz,
                class: KernelClass::Block,
                reserve: 0,
                queue: queue.raw,
            }),
    {
        KernelLaunch {
            kernel: self.0,
            dim_x: dimx,
            dim_y: dimy,
            dim_z: dimz,
            class: KernelClass::Block,
            reserve: 0,
            queue: queue.raw,
        }
    }
}

} // verus!
