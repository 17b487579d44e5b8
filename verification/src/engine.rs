//! The engine wrapper, as a conversation with the engine.
//!
//! This library never reaches the engine itself. Each operation is split at
//! the calls it owes the engine: a function of [`Keystone`] starts the
//! operation and returns the first call as a value; the caller makes that call
//! and passes what the engine answered to `returned`, which gives the
//! operation's result or the next call to make. Every decision of the wrapper
//! is taken here; the caller only carries calls and answers. A call is a
//! value that cannot be copied and that `returned` consumes: it is answered
//! once.
//!
//! | operation | calls, in order |
//! |-----------|-----------------|
//! | construct | [`VersionCall`], then [`OpenCall`] |
//! | set an option | [`OptionCall`] |
//! | assemble | [`AsmCall`], then [`TakeCall`] on success, [`ErrnoCall`] on failure |
//! | destroy | [`CloseCall`] |

use crate::error::{KeystoneError, MiscError};
use crate::ffi::{Arch, Error, KsHandle, Mode, OptionType, OptionValue, API_MAJOR, API_MINOR};
use crate::output::{KeystoneOutput, OutputView};
use crate::text::{nul_free, terminated, to_terminated};
use libc::{c_int, c_uint, size_t};
use vstd::prelude::*;

verus! {

/// An open engine: the one owner of its handle, from the open call that gave
/// the handle to the close call that gives it up.
///
/// A value of this type exists only while the engine is open. It comes from
/// [`OpenCall::returned`] alone, it cannot be copied, and [`Keystone::close`]
/// consumes it, so no call follows the close call and no second close call
/// can be made.
#[derive(Eq, PartialEq, Structural, Ord, PartialOrd, Hash, Debug)]
pub struct Keystone {
    ks: KsHandle,
}

impl View for Keystone {
    type V = KsHandle;

    /// The handle that the engine wrapper owns.
    closed spec fn view(&self) -> KsHandle {
        self.ks
    }
}

/// The call that asks the engine for its interface version. A construction
/// starts with it, and it keeps what the construction was asked for.
#[derive(Eq, PartialEq, Structural, Debug)]
pub struct VersionCall {
    /// The architecture the engine is to be opened for.
    pub arch: Arch,
    /// The mode the engine is to be opened in.
    pub mode: Mode,
}

/// The call that opens an engine.
#[derive(Eq, PartialEq, Structural, Debug)]
pub struct OpenCall {
    /// The architecture to open the engine for.
    pub arch: Arch,
    /// The mode to open the engine in.
    pub mode: Mode,
}

/// The call that sets an option of an engine.
#[derive(Eq, PartialEq, Structural, Debug)]
pub struct OptionCall {
    /// The engine whose option is set.
    pub ks: KsHandle,
    /// The option.
    pub opt_type: OptionType,
    /// The value to set it to.
    pub value: OptionValue,
}

/// The call that assembles a text.
#[derive(Eq, PartialEq, Debug)]
pub struct AsmCall {
    /// The engine that assembles.
    pub ks: KsHandle,
    /// The text, as a string of the engine: its bytes, then a zero byte.
    pub string: Vec<u8>,
    /// The address of the first instruction; zero for none.
    pub address: u64,
}

/// An [`AsmCall`] as a mathematical value.
pub struct AsmCallView {
    /// The engine that assembles.
    pub ks: KsHandle,
    /// The text, as a string of the engine: its bytes, then a zero byte.
    pub string: Seq<u8>,
    /// The address of the first instruction; zero for none.
    pub address: u64,
}

impl View for AsmCall {
    type V = AsmCallView;

    open spec fn view(&self) -> AsmCallView {
        AsmCallView { ks: self.ks, string: self.string@, address: self.address }
    }
}

/// What follows a successful assemble call: to copy the engine's buffer into
/// memory of the host, `size` bytes of it and no more, and then to release the
/// buffer to the engine, once, before anything else is done. The two belong
/// together: after this step no memory of the engine is left to the host.
#[derive(Eq, PartialEq, Structural, Debug)]
pub struct TakeCall {
    /// The size of the buffer, as the engine reported it.
    pub size: size_t,
    /// The number of statements processed, as the engine reported it.
    pub stat_count: size_t,
}

/// What follows a failed assemble call: to ask the engine which error it
/// recorded. The engine may forget the code when any other call reaches it,
/// so this query comes first.
#[derive(Eq, PartialEq, Structural, Debug)]
pub struct ErrnoCall {
    /// The engine that failed.
    pub ks: KsHandle,
}

/// The step that follows an assemble call.
#[derive(Eq, PartialEq, Structural, Debug)]
pub enum AsmStep {
    /// The call succeeded: take the buffer.
    Take(TakeCall),
    /// The call failed: ask for the recorded error.
    Errno(ErrnoCall),
}

/// The call that closes an engine and releases all that the engine holds for
/// it. It is the last call on its handle.
#[derive(Eq, PartialEq, Structural, Debug)]
pub struct CloseCall {
    /// The engine to close.
    pub ks: KsHandle,
}

/// The result of a construction as a mathematical value: the engine wrapper
/// is seen as the handle that it owns.
pub open spec fn opened_view(opened: Result<Keystone, KeystoneError>) -> Result<
    KsHandle,
    KeystoneError,
> {
    match opened {
        Ok(engine) => Ok(engine@),
        Err(e) => Err(e),
    }
}

/// The result of an assembly as a mathematical value.
pub open spec fn assembled_view(assembled: Result<KeystoneOutput, KeystoneError>) -> Result<
    OutputView,
    KeystoneError,
> {
    match assembled {
        Ok(output) => Ok(output@),
        Err(e) => Err(e),
    }
}

impl Keystone {
    /// The first call of a construction for `arch` and `mode`.
    pub open spec fn spec_new(arch: Arch, mode: Mode) -> VersionCall {
        VersionCall { arch, mode }
    }

    /// Starts the construction of an engine for `arch` and `mode`. Nothing is
    /// opened yet: the first call only asks the engine for its version.
    #[verifier::when_used_as_spec(spec_new)]
    pub fn new(arch: Arch, mode: Mode) -> (call: VersionCall)
        ensures
            call == Self::spec_new(arch, mode),
    {
        VersionCall { arch, mode }
    }

    /// The call that sets option `opt_type` of this engine to `value`.
    pub open spec fn spec_option(&self, opt_type: OptionType, value: OptionValue) -> OptionCall {
        OptionCall { ks: self@, opt_type, value }
    }

    /// Starts setting option `opt_type` of this engine to `value`.
    #[verifier::when_used_as_spec(spec_option)]
    pub fn option(&self, opt_type: OptionType, value: OptionValue) -> (call: OptionCall)
        ensures
            call == self.spec_option(opt_type, value),
    {
        OptionCall { ks: self.ks, opt_type, value }
    }

    /// The call that assembles `insns` at `address` on this engine.
    pub open spec fn spec_assemble(&self, insns: Seq<char>, address: u64) -> AsmCallView {
        AsmCallView { ks: self@, string: terminated(insns), address }
    }

    /// Starts assembling `insns`, a text of statements, with `address` as the
    /// address of the first instruction (zero for none). The text is handed
    /// over as a string of the engine, which a zero byte ends. A text that
    /// holds a NUL character would be cut short at it, and is not accepted;
    /// [`is_nul_free`](crate::text::is_nul_free) tells such a text apart.
    pub fn assemble(&self, insns: String, address: u64) -> (call: AsmCall)
        requires
            nul_free(insns@),
        ensures
            call@ == self.spec_assemble(insns@, address),
    {
        AsmCall { ks: self.ks, string: to_terminated(insns.as_str()), address }
    }

    /// The call that closes this engine.
    pub open spec fn spec_close(self) -> CloseCall {
        CloseCall { ks: self@ }
    }

    /// Ends the life of this engine: gives up the handle, to be closed. The
    /// engine wrapper is gone after this, whatever happened to it before.
    #[verifier::when_used_as_spec(spec_close)]
    pub fn close(self) -> (call: CloseCall)
        ensures
            call == self.spec_close(),
    {
        CloseCall { ks: self.ks }
    }
}

impl VersionCall {
    /// What follows when the engine reports version `major`.`minor`.
    pub open spec fn spec_returned(self, major: c_uint, minor: c_uint) -> Result<
        OpenCall,
        KeystoneError,
    > {
        if major == API_MAJOR && minor == API_MINOR {
            Ok(OpenCall { arch: self.arch, mode: self.mode })
        } else {
            Err(KeystoneError::Engine(Error::VERSION))
        }
    }

    /// Takes the version that the engine reported. If it is the version this
    /// library is written for, in both numbers, the construction goes on with
    /// the open call. If not, the construction ends here with `VERSION`, and
    /// no open call is made.
    #[verifier::when_used_as_spec(spec_returned)]
    pub fn returned(self, major: c_uint, minor: c_uint) -> (next: Result<OpenCall, KeystoneError>)
        ensures
            next == self.spec_returned(major, minor),
    {
        if major == API_MAJOR && minor == API_MINOR {
            Ok(OpenCall { arch: self.arch, mode: self.mode })
        } else {
            Err(KeystoneError::Engine(Error::VERSION))
        }
    }

    /// What the construction ends in, from all that the engine answers in its
    /// course: `major` and `minor` to the version query, then `code` and `ks`
    /// to the open call, if it comes to that call.
    pub open spec fn spec_result(
        self,
        major: c_uint,
        minor: c_uint,
        code: Error,
        ks: Option<KsHandle>,
    ) -> Result<KsHandle, KeystoneError> {
        match self.spec_returned(major, minor) {
            Ok(open) => open.spec_returned(code, ks),
            Err(e) => Err(e),
        }
    }
}

impl OpenCall {
    /// The handle that the construction ends with, or its error, when the
    /// engine answers the open call with `code` and `ks`.
    pub open spec fn spec_returned(self, code: Error, ks: Option<KsHandle>) -> Result<
        KsHandle,
        KeystoneError,
    >
        recommends
            code == Error::OK ==> ks is Some,
    {
        if code == Error::OK {
            Ok(ks->0)
        } else {
            Err(KeystoneError::Engine(code))
        }
    }

    /// Takes the answer to the open call: the code that the engine returned,
    /// and the handle that it stored, if it stored one. With `OK` the engine
    /// wrapper comes into being, as the owner of that handle. With any other
    /// code the construction fails with that code, and there is no engine
    /// wrapper.
    ///
    /// An engine that answers `OK` and stores no handle has broken its own
    /// interface; such an answer is not accepted.
    pub fn returned(self, code: Error, ks: Option<KsHandle>) -> (opened: Result<
        Keystone,
        KeystoneError,
    >)
        requires
            code == Error::OK ==> ks is Some,
        ensures
            opened_view(opened) == self.spec_returned(code, ks),
    {
        if code == Error::OK {
            Ok(Keystone { ks: ks.unwrap() })
        } else {
            Err(KeystoneError::Engine(code))
        }
    }
}

impl OptionCall {
    /// The result of setting the option, when the engine answers `code`.
    pub open spec fn spec_returned(self, code: Error) -> Result<(), KeystoneError> {
        if code == Error::OK {
            Ok(())
        } else {
            Err(KeystoneError::Engine(code))
        }
    }

    /// Takes the code that the engine returned: `OK` is success, any other
    /// code is the error.
    #[verifier::when_used_as_spec(spec_returned)]
    pub fn returned(self, code: Error) -> (set: Result<(), KeystoneError>)
        ensures
            set == self.spec_returned(code),
    {
        if code == Error::OK {
            Ok(())
        } else {
            Err(KeystoneError::Engine(code))
        }
    }
}

impl AsmCall {
    /// The step that follows when the engine answers the assemble call with
    /// `status`, a buffer of `encoding_size` bytes, and `stat_count`.
    pub open spec fn spec_returned(
        self,
        status: c_int,
        encoding_size: size_t,
        stat_count: size_t,
    ) -> AsmStep {
        if status == 0 {
            AsmStep::Take(TakeCall { size: encoding_size, stat_count })
        } else {
            AsmStep::Errno(ErrnoCall { ks: self.ks })
        }
    }

    /// Takes the answer to the assemble call: the status that the engine
    /// returned, and the buffer size and statement count that it stored. A
    /// status of zero is success, and the buffer is taken next. Any other
    /// status is failure: no buffer is touched, and the recorded error is
    /// asked for next.
    pub fn returned(self, status: c_int, encoding_size: size_t, stat_count: size_t) -> (step:
        AsmStep)
        ensures
            step == self.spec_returned(status, encoding_size, stat_count),
    {
        if status == 0 {
            AsmStep::Take(TakeCall { size: encoding_size, stat_count })
        } else {
            AsmStep::Errno(ErrnoCall { ks: self.ks })
        }
    }

    /// What the assembly ends in, from all that the engine answers in its
    /// course: `status`, `encoding_size` and `stat_count` to the assemble
    /// call, then `encoding` as the content of the buffer, or `recorded` to
    /// the error query.
    pub open spec fn spec_result(
        self,
        status: c_int,
        encoding_size: size_t,
        stat_count: size_t,
        encoding: Seq<u8>,
        recorded: Error,
    ) -> Result<OutputView, KeystoneError> {
        match self.spec_returned(status, encoding_size, stat_count) {
            AsmStep::Take(take) => take.spec_returned(encoding),
            AsmStep::Errno(errno) => errno.spec_returned(recorded),
        }
    }
}

impl TakeCall {
    /// The sizes that the engine reported fit the 32-bit fields of the
    /// output.
    pub open spec fn fits(self) -> bool {
        self.size <= u32::MAX && self.stat_count <= u32::MAX
    }

    /// The result of the assembly, when the buffer held `encoding`.
    pub open spec fn spec_returned(self, encoding: Seq<u8>) -> Result<OutputView, KeystoneError>
        recommends
            self.fits(),
    {
        Ok(
            OutputView {
                size: self.size as u32,
                stat_count: self.stat_count as u32,
                bytes: encoding,
            },
        )
    }

    /// Takes the copy of the engine's buffer, made and released as
    /// [`TakeCall`] says, and gives the output of the assembly: the bytes, the
    /// reported size, which is their number, and the reported statement
    /// count.
    ///
    /// The copy has the reported size. A size or count that does not fit 32
    /// bits is outside what the engine's interface allows and is not
    /// accepted.
    pub fn returned(self, encoding: Vec<u8>) -> (assembled: Result<KeystoneOutput, KeystoneError>)
        requires
            encoding@.len() == self.size,
            self.fits(),
        ensures
            assembled_view(assembled) == self.spec_returned(encoding@),
            assembled matches Ok(output) && output.wf(),
    {
        Ok(
            KeystoneOutput {
                size: self.size as u32,
                stat_count: self.stat_count as u32,
                bytes: encoding,
            },
        )
    }
}

impl ErrnoCall {
    /// The result of the assembly, when the engine reports `recorded` as the
    /// error it recorded.
    pub open spec fn spec_returned(self, recorded: Error) -> Result<OutputView, KeystoneError> {
        match Error::new(recorded) {
            Some(e) => Err(KeystoneError::Engine(e)),
            None => Err(KeystoneError::Misc(MiscError::KsAsm)),
        }
    }

    /// Takes what the engine reported as its recorded error, and gives the
    /// error of the assembly: the recorded code, if there is one; if the
    /// engine recorded none and reports `OK`, the failure of this library's
    /// own, [`MiscError::KsAsm`].
    pub fn returned(self, recorded: Error) -> (assembled: Result<KeystoneOutput, KeystoneError>)
        ensures
            assembled_view(assembled) == self.spec_returned(recorded),
    {
        match Error::new(recorded) {
            Some(e) => Err(KeystoneError::Engine(e)),
            None => Err(KeystoneError::Misc(MiscError::KsAsm)),
        }
    }
}

/// The version gate. A construction comes to the open call exactly when the
/// engine reports the version this library is written for, and then the open
/// call is for what the construction was asked for. With any other version
/// the construction ends at the version query, in `VERSION`, whatever an open
/// call would have been answered: none is made, so no handle is opened and
/// nothing is left to release.
pub proof fn lemma_version_gate(
    call: VersionCall,
    major: c_uint,
    minor: c_uint,
    code: Error,
    ks: Option<KsHandle>,
)
    ensures
        major == API_MAJOR && minor == API_MINOR ==> call.returned(major, minor) == Ok::<
            OpenCall,
            KeystoneError,
        >(OpenCall { arch: call.arch, mode: call.mode }),
        !(major == API_MAJOR && minor == API_MINOR) ==> {
            &&& call.returned(major, minor) == Err::<OpenCall, KeystoneError>(
                KeystoneError::Engine(Error::VERSION),
            )
            &&& call.spec_result(major, minor, code, ks) == Err::<KsHandle, KeystoneError>(
                KeystoneError::Engine(Error::VERSION),
            )
        },
{
}

/// A construction that the engine accepts succeeds. Where the engine reports
/// the expected version and answers the open call with `OK` and the handle
/// `ks`, the construction ends in an engine wrapper that owns `ks`. And
/// `engine`, being that wrapper, is fit to assemble: its assemble call, for
/// any text, goes to `ks`.
pub proof fn lemma_accepted_construction(
    call: VersionCall,
    ks: KsHandle,
    engine: Keystone,
    insns: Seq<char>,
    address: u64,
)
    requires
        engine@ == ks,
    ensures
        call.spec_result(API_MAJOR, API_MINOR, Error::OK, Some(ks)) == Ok::<
            KsHandle,
            KeystoneError,
        >(ks),
        engine.spec_assemble(insns, address).ks == ks,
{
}

/// A construction that the engine refuses fails with the engine's code. Where
/// the engine answers the open call with a code other than `OK` (`ARCH` for
/// an architecture it does not support, `MODE` for a mode that is not valid
/// for the architecture), the construction ends in that code, unchanged, and
/// in no engine wrapper, whatever the engine stored as a handle.
pub proof fn lemma_refused_construction(call: VersionCall, code: Error, ks: Option<KsHandle>)
    requires
        code != Error::OK,
    ensures
        call.spec_result(API_MAJOR, API_MINOR, code, ks) == Err::<KsHandle, KeystoneError>(
            KeystoneError::Engine(code),
        ),
{
}

/// The result of an assembly is a function of what the engine answered, and
/// of nothing else: two assemblies, whatever their engines, texts and
/// addresses, that get the same answers end in the same result. An engine
/// that assembles a text the same way twice is therefore seen to do so. On
/// success the result is what the engine gave: its bytes, the size and the
/// statement count that it reported.
pub proof fn lemma_assembly_follows_answers(
    a: AsmCall,
    b: AsmCall,
    status: c_int,
    encoding_size: size_t,
    stat_count: size_t,
    encoding: Seq<u8>,
    recorded: Error,
)
    ensures
        a.spec_result(status, encoding_size, stat_count, encoding, recorded) == b.spec_result(
            status,
            encoding_size,
            stat_count,
            encoding,
            recorded,
        ),
        status == 0 && encoding_size <= u32::MAX && stat_count <= u32::MAX ==> {
            &&& a.spec_result(status, encoding_size, stat_count, encoding, recorded) matches Ok(
                output,
            )
            &&& output.bytes == encoding
            &&& output.size == encoding_size
            &&& output.stat_count == stat_count
        },
{
}

/// A failed assembly keeps the engine's code. Where the assemble call fails
/// and the engine has recorded a code, the assembly ends in that code, not in
/// the fallback [`MiscError::KsAsm`]; the fallback comes exactly where the
/// engine recorded none. No assembly ends in an engine error that carries
/// `OK`.
pub proof fn lemma_failed_assembly_keeps_code(
    call: AsmCall,
    status: c_int,
    encoding_size: size_t,
    stat_count: size_t,
    encoding: Seq<u8>,
    recorded: Error,
)
    ensures
        ({
            let result = call.spec_result(status, encoding_size, stat_count, encoding, recorded);
            &&& status != 0 && recorded != Error::OK ==> result == Err::<OutputView, KeystoneError>(
                KeystoneError::Engine(recorded),
            )
            &&& status != 0 && recorded == Error::OK ==> result == Err::<OutputView, KeystoneError>(
                KeystoneError::Misc(MiscError::KsAsm),
            )
            &&& result != Err::<OutputView, KeystoneError>(KeystoneError::Engine(Error::OK))
        }),
{
}

/// The reported size of an output is the number of its bytes. Where an
/// assembly succeeds, and the buffer was copied in the size that the engine
/// reported, the size in the output is the length of the byte sequence in the
/// output.
pub proof fn lemma_size_is_length(
    call: AsmCall,
    status: c_int,
    encoding_size: size_t,
    stat_count: size_t,
    encoding: Seq<u8>,
    recorded: Error,
)
    requires
        status == 0 ==> encoding.len() == encoding_size && encoding_size <= u32::MAX,
    ensures
        call.spec_result(status, encoding_size, stat_count, encoding, recorded) matches Ok(output)
            ==> output.size == output.bytes.len(),
{
}

} // verus!
